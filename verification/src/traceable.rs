//! The traceable address and its receiver codec: how its fields are written
//! as receiver items and how they are read back from any list of items.

use vstd::prelude::*;
use vstd::bytes::{
    lemma_auto_spec_u32_to_from_le_bytes, lemma_auto_spec_u64_to_from_le_bytes,
    spec_u32_from_le_bytes, spec_u32_to_le_bytes, spec_u64_from_le_bytes, spec_u64_to_le_bytes,
    u32_from_le_bytes, u32_to_le_bytes, u64_from_le_bytes, u64_to_le_bytes,
};
use vstd::slice::slice_to_vec;
use crate::address::{
    encodable_items, raw_len, AddressData, AddressDataView, AddressKind, AddressKindView,
};
use crate::error::{AddressError, TraceableAddressError, UnsupportedKind};
use crate::laws::lemma_round_trip;
use crate::network::AddressNetwork;
use crate::receiver::{
    lemma_views_wf, views, Receiver, ReceiverView, EXPIRY_HEIGHT_LEN, EXPIRY_HEIGHT_TYPECODE,
    EXPIRY_TIME_LEN, EXPIRY_TIME_TYPECODE, KEY_HASH_LEN, KEY_HASH_TYPECODE,
};
use crate::scan::{find_first, first_carrying, lemma_first_carrying_spec, Field};
use crate::zcash::{address_encoding, parsed_address};

verus! {

/// A transparent payment-key hash on some network, with an optional expiry
/// height and an optional expiry time. The two expiry fields are independent.
#[derive(Clone, Copy, Debug, PartialEq, Eq)]
pub struct TraceableAddress {
    pub net: AddressNetwork,
    pub validating_key_hash: [u8; 20],
    pub expiry_height: Option<u32>,
    pub expiry_time: Option<u64>,
}

/// The mathematical value of a [`TraceableAddress`].
pub struct TraceableAddressView {
    pub net: AddressNetwork,
    pub key_hash: Seq<u8>,
    pub expiry_height: Option<u32>,
    pub expiry_time: Option<u64>,
}

impl View for TraceableAddress {
    type V = TraceableAddressView;

    open spec fn view(&self) -> TraceableAddressView {
        TraceableAddressView {
            net: self.net,
            key_hash: self.validating_key_hash@,
            expiry_height: self.expiry_height,
            expiry_time: self.expiry_time,
        }
    }
}

impl TraceableAddressView {
    /// The key hash has the length of a transparent payment-key hash.
    pub open spec fn wf(self) -> bool {
        self.key_hash.len() == KEY_HASH_LEN
    }

    /// The same address with the expiry height set to `height`.
    pub open spec fn with_expiry_height(self, height: u32) -> TraceableAddressView {
        TraceableAddressView { expiry_height: Some(height), ..self }
    }

    /// The same address with the expiry time set to `epoch_time`.
    pub open spec fn with_expiry_time(self, epoch_time: u64) -> TraceableAddressView {
        TraceableAddressView { expiry_time: Some(epoch_time), ..self }
    }

    /// The same address without expiry fields.
    pub open spec fn without_expiry(self) -> TraceableAddressView {
        TraceableAddressView { expiry_height: None, expiry_time: None, ..self }
    }

    /// The unified address that stands for this address.
    pub open spec fn to_address(self) -> AddressDataView {
        AddressDataView { net: self.net, kind: AddressKindView::Unified(self.receivers()) }
    }

    /// The plain transparent address of the same key hash on the same
    /// network. The expiry fields play no part in it.
    pub open spec fn into_p2pkh(self) -> AddressDataView {
        AddressDataView { net: self.net, kind: AddressKindView::P2pkh(self.key_hash) }
    }

    /// The receiver items that stand for this address: the key hash, then the
    /// expiry height if there is one, then the expiry time if there is one,
    /// each number in little-endian bytes.
    pub open spec fn receivers(self) -> Seq<ReceiverView> {
        seq![ReceiverView::Unknown { typecode: KEY_HASH_TYPECODE, data: self.key_hash }]
            + match self.expiry_height {
            Some(height) => seq![
                ReceiverView::Unknown {
                    typecode: EXPIRY_HEIGHT_TYPECODE,
                    data: spec_u32_to_le_bytes(height),
                },
            ],
            None => seq![],
        } + match self.expiry_time {
            Some(time) => seq![
                ReceiverView::Unknown {
                    typecode: EXPIRY_TIME_TYPECODE,
                    data: spec_u64_to_le_bytes(time),
                },
            ],
            None => seq![],
        }
    }
}

/// The key hash that `items` give: the payload of the first item that
/// carries one. An item with the key-hash typecode must hold 20 bytes.
pub open spec fn key_hash_in(items: Seq<ReceiverView>) -> Result<Seq<u8>, TraceableAddressError> {
    match first_carrying(items, Field::KeyHash) {
        None => Err(TraceableAddressError::P2pkhReceiverNotFound),
        Some(i) => if items[i] is Unknown && items[i].payload().len() != KEY_HASH_LEN {
            Err(TraceableAddressError::ReceiverLengthInvalid)
        } else {
            Ok(items[i].payload())
        },
    }
}

/// The expiry height that `items` give: none without an expiry-height item,
/// else the little-endian number in the first such item, which must hold
/// 4 bytes.
pub open spec fn expiry_height_in(items: Seq<ReceiverView>) -> Result<
    Option<u32>,
    TraceableAddressError,
> {
    match first_carrying(items, Field::ExpiryHeight) {
        None => Ok(None),
        Some(i) => if items[i].payload().len() == EXPIRY_HEIGHT_LEN {
            Ok(Some(spec_u32_from_le_bytes(items[i].payload())))
        } else {
            Err(TraceableAddressError::ExpiryHeightInvalid)
        },
    }
}

/// The expiry time that `items` give: none without an expiry-time item, else
/// the little-endian number in the first such item, which must hold 8 bytes.
pub open spec fn expiry_time_in(items: Seq<ReceiverView>) -> Result<
    Option<u64>,
    TraceableAddressError,
> {
    match first_carrying(items, Field::ExpiryTime) {
        None => Ok(None),
        Some(i) => if items[i].payload().len() == EXPIRY_TIME_LEN {
            Ok(Some(spec_u64_from_le_bytes(items[i].payload())))
        } else {
            Err(TraceableAddressError::ExpiryTimeInvalid)
        },
    }
}

/// The traceable address that the items of a unified address on `net`
/// describe. The key hash is looked at first, then the expiry height, then
/// the expiry time; the first of them that is wrong decides the error.
pub open spec fn traceable_from_receivers(net: AddressNetwork, items: Seq<ReceiverView>) -> Result<
    TraceableAddressView,
    TraceableAddressError,
> {
    match key_hash_in(items) {
        Err(e) => Err(e),
        Ok(key_hash) => match expiry_height_in(items) {
            Err(e) => Err(e),
            Ok(expiry_height) => match expiry_time_in(items) {
                Err(e) => Err(e),
                Ok(expiry_time) => Ok(
                    TraceableAddressView { net, key_hash, expiry_height, expiry_time },
                ),
            },
        },
    }
}

/// The traceable address that an address of any kind stands for. A unified
/// address is read item by item; a plain transparent P2PKH address is a
/// traceable address without expiry; no other kind can be traceable.
pub open spec fn traceable_from_address(address: AddressDataView) -> Result<
    TraceableAddressView,
    AddressError,
> {
    match address.kind {
        AddressKindView::Unified(items) => match traceable_from_receivers(address.net, items) {
            Ok(traceable) => Ok(traceable),
            Err(e) => Err(AddressError::Traceable(e)),
        },
        AddressKindView::P2pkh(hash) => Ok(
            TraceableAddressView {
                net: address.net,
                key_hash: hash,
                expiry_height: None,
                expiry_time: None,
            },
        ),
        AddressKindView::Sprout(_) => Err(AddressError::Unsupported(UnsupportedKind::Sprout)),
        AddressKindView::Sapling(_) => Err(AddressError::Unsupported(UnsupportedKind::Sapling)),
        AddressKindView::P2sh(_) => Err(AddressError::Unsupported(UnsupportedKind::P2sh)),
        AddressKindView::Tex(_) => Err(AddressError::Unsupported(UnsupportedKind::Tex)),
    }
}

/// The traceable address that a string stands for: `None` where the string
/// is no address at all, else what the address it holds stands for.
pub open spec fn traceable_in(s: Seq<char>) -> Option<Result<TraceableAddressView, AddressError>> {
    match parsed_address(s) {
        Some(address) => Some(traceable_from_address(address)),
        None => None,
    }
}

/// The items of a traceable address can always be written as a unified
/// address: they are uninterpreted, ascend by typecode, and take 38, 44, 48
/// or 54 bytes with the padding.
pub proof fn lemma_receivers_encodable(address: TraceableAddressView)
    requires
        address.wf(),
    ensures
        encodable_items(address.receivers()),
{
    lemma_auto_spec_u32_to_from_le_bytes();
    lemma_auto_spec_u64_to_from_le_bytes();
    // The key-hash item takes 22 bytes, the expiry height 6 and the expiry
    // time 10: a byte of typecode, a byte of length and the payload.
    let items = address.receivers();
    let key = seq![items[0]];
    assert(raw_len(key) == 22) by {
        reveal_with_fuel(raw_len, 2);
    }
    match (address.expiry_height, address.expiry_time) {
        (None, None) => {},
        (Some(_), Some(_)) => {
            assert(items.drop_last().drop_last() =~= key);
            assert(raw_len(items.drop_last()) == 28);
        },
        _ => {
            assert(items.drop_last() =~= key);
        },
    }
}

/// The value of a conversion's outcome.
pub open spec fn outcome_view<E>(r: Result<TraceableAddress, E>) -> Result<
    TraceableAddressView,
    E,
> {
    match r {
        Ok(address) => Ok(address@),
        Err(e) => Err(e),
    }
}

/// Copies the 20 bytes of `data` into a key hash.
fn key_hash_from(data: &Vec<u8>) -> (hash: [u8; 20])
    requires
        data.len() == KEY_HASH_LEN,
    ensures
        hash@ == data@,
{
    let mut hash = [0u8; 20];
    let mut i: usize = 0;
    while i < KEY_HASH_LEN
        invariant
            i <= KEY_HASH_LEN,
            data.len() == KEY_HASH_LEN,
            hash@.len() == KEY_HASH_LEN,
            forall|j: int| 0 <= j < i ==> hash@[j] == data@[j],
        decreases KEY_HASH_LEN - i,
    {
        hash[i] = data[i];
        i += 1;
    }
    hash
}

/// Reads the key hash out of `items`.
fn find_key_hash(items: &Vec<Receiver>) -> (r: Result<[u8; 20], TraceableAddressError>)
    ensures
        match r {
            Ok(hash) => key_hash_in(views(items@)) == Ok::<Seq<u8>, TraceableAddressError>(hash@),
            Err(e) => key_hash_in(views(items@)) == Err::<Seq<u8>, TraceableAddressError>(e),
        },
{
    proof {
        lemma_views_wf(items@);
        lemma_first_carrying_spec(views(items@), Field::KeyHash);
    }
    match find_first(items, Field::KeyHash) {
        None => Err(TraceableAddressError::P2pkhReceiverNotFound),
        Some(i) => match &items[i] {
            Receiver::P2pkh(hash) => Ok(*hash),
            Receiver::Unknown { data, .. } => {
                if data.len() == KEY_HASH_LEN {
                    Ok(key_hash_from(data))
                } else {
                    Err(TraceableAddressError::ReceiverLengthInvalid)
                }
            },
            _ => unreached(),
        },
    }
}

/// Reads the expiry height out of `items`.
fn find_expiry_height(items: &Vec<Receiver>) -> (r: Result<Option<u32>, TraceableAddressError>)
    ensures
        r == expiry_height_in(views(items@)),
{
    proof {
        lemma_views_wf(items@);
        lemma_first_carrying_spec(views(items@), Field::ExpiryHeight);
    }
    match find_first(items, Field::ExpiryHeight) {
        None => Ok(None),
        Some(i) => match &items[i] {
            Receiver::Unknown { data, .. } => {
                if data.len() == EXPIRY_HEIGHT_LEN {
                    Ok(Some(u32_from_le_bytes(data.as_slice())))
                } else {
                    Err(TraceableAddressError::ExpiryHeightInvalid)
                }
            },
            _ => unreached(),
        },
    }
}

/// Reads the expiry time out of `items`.
fn find_expiry_time(items: &Vec<Receiver>) -> (r: Result<Option<u64>, TraceableAddressError>)
    ensures
        r == expiry_time_in(views(items@)),
{
    proof {
        lemma_views_wf(items@);
        lemma_first_carrying_spec(views(items@), Field::ExpiryTime);
    }
    match find_first(items, Field::ExpiryTime) {
        None => Ok(None),
        Some(i) => match &items[i] {
            Receiver::Unknown { data, .. } => {
                if data.len() == EXPIRY_TIME_LEN {
                    Ok(Some(u64_from_le_bytes(data.as_slice())))
                } else {
                    Err(TraceableAddressError::ExpiryTimeInvalid)
                }
            },
            _ => unreached(),
        },
    }
}

impl TraceableAddress {
    /// Sets the expiry height and leaves everything else as it is.
    pub fn with_expiry_height(self, height: u32) -> (r: Self)
        ensures
            r == (TraceableAddress { expiry_height: Some(height), ..self }),
            r@ == self@.with_expiry_height(height),
    {
        Self {
            net: self.net,
            validating_key_hash: self.validating_key_hash,
            expiry_height: Some(height),
            expiry_time: self.expiry_time,
        }
    }

    /// Sets the expiry time and leaves everything else as it is.
    pub fn with_expiry_time(self, epoch_time: u64) -> (r: Self)
        ensures
            r == (TraceableAddress { expiry_time: Some(epoch_time), ..self }),
            r@ == self@.with_expiry_time(epoch_time),
    {
        Self {
            net: self.net,
            validating_key_hash: self.validating_key_hash,
            expiry_height: self.expiry_height,
            expiry_time: Some(epoch_time),
        }
    }

    /// Writes the address as receiver items.
    pub fn receivers(&self) -> (items: Vec<Receiver>)
        ensures
            views(items@) == self@.receivers(),
    {
        let mut items: Vec<Receiver> = Vec::new();
        items.push(
            Receiver::Unknown {
                typecode: KEY_HASH_TYPECODE,
                data: slice_to_vec(self.validating_key_hash.as_slice()),
            },
        );
        if let Some(height) = self.expiry_height {
            items.push(
                Receiver::Unknown { typecode: EXPIRY_HEIGHT_TYPECODE, data: u32_to_le_bytes(height) },
            );
        }
        if let Some(time) = self.expiry_time {
            items.push(
                Receiver::Unknown { typecode: EXPIRY_TIME_TYPECODE, data: u64_to_le_bytes(time) },
            );
        }
        items
    }

    /// The unified address that stands for this address.
    pub fn to_address(&self) -> (address: AddressData)
        ensures
            address@ == self@.to_address(),
            address@.encodable(),
    {
        proof {
            lemma_receivers_encodable(self@);
        }
        AddressData { net: self.net, kind: AddressKind::Unified(self.receivers()) }
    }

    /// Gives up the expiry fields: the plain transparent address of the same
    /// key hash.
    pub fn into_p2pkh(self) -> (address: AddressData)
        ensures
            address@ == self@.into_p2pkh(),
            address@.encodable(),
    {
        AddressData { net: self.net, kind: AddressKind::P2pkh(self.validating_key_hash) }
    }

    /// Writes the address as a unified address string. Reading that string
    /// gives the address back, field by field.
    pub fn encode(&self) -> (s: String)
        ensures
            s@ == address_encoding(self@.to_address()),
            traceable_in(s@) == Some(Ok::<TraceableAddressView, AddressError>(self@)),
    {
        proof {
            lemma_round_trip(self@);
        }
        self.to_address().encode()
    }

    /// Takes an address of any kind as a traceable address, where it is one.
    pub fn try_from_address(address: &AddressData) -> (r: Result<Self, AddressError>)
        ensures
            outcome_view(r) == traceable_from_address(address@),
    {
        match &address.kind {
            AddressKind::Unified(items) => match Self::try_from_unified(address.net, items) {
                Ok(traceable) => Ok(traceable),
                Err(e) => Err(AddressError::Traceable(e)),
            },
            AddressKind::P2pkh(hash) => match Self::try_from_transparent_p2pkh(
                address.net,
                *hash,
            ) {
                Ok(traceable) => Ok(traceable),
                Err(e) => Err(AddressError::Traceable(e)),
            },
            AddressKind::Sprout(_) => Err(AddressError::Unsupported(UnsupportedKind::Sprout)),
            AddressKind::Sapling(_) => Err(AddressError::Unsupported(UnsupportedKind::Sapling)),
            AddressKind::P2sh(_) => Err(AddressError::Unsupported(UnsupportedKind::P2sh)),
            AddressKind::Tex(_) => Err(AddressError::Unsupported(UnsupportedKind::Tex)),
        }
    }

    /// Reads a string as a traceable address.
    pub fn try_from_encoded(s: &str) -> (r: Result<Self, AddressError>)
        ensures
            match traceable_in(s@) {
                Some(outcome) => outcome_view(r) == outcome,
                None => r matches Err(AddressError::Parse(_)),
            },
    {
        match AddressData::parse(s) {
            Ok(address) => Self::try_from_address(&address),
            Err(e) => Err(AddressError::Parse(e)),
        }
    }

    /// Reads a traceable address out of the items of a unified address that
    /// was parsed under `net`. Items that carry none of the three fields are
    /// passed over, and so is every item after the first that carries one.
    pub fn try_from_unified(net: AddressNetwork, items: &Vec<Receiver>) -> (r: Result<
        Self,
        TraceableAddressError,
    >)
        ensures
            outcome_view(r) == traceable_from_receivers(net, views(items@)),
    {
        let validating_key_hash = match find_key_hash(items) {
            Ok(hash) => hash,
            Err(e) => { return Err(e); },
        };
        let expiry_height = match find_expiry_height(items) {
            Ok(height) => height,
            Err(e) => { return Err(e); },
        };
        let expiry_time = match find_expiry_time(items) {
            Ok(time) => time,
            Err(e) => { return Err(e); },
        };
        Ok(Self { net, validating_key_hash, expiry_height, expiry_time })
    }

    /// Every plain transparent address is a traceable address without expiry.
    pub fn try_from_transparent_p2pkh(net: AddressNetwork, data: [u8; 20]) -> (r: Result<
        Self,
        TraceableAddressError,
    >)
        ensures
            r matches Ok(address) && address == (TraceableAddress {
                net,
                validating_key_hash: data,
                expiry_height: None,
                expiry_time: None,
            }),
    {
        Ok(TraceableAddress { net, validating_key_hash: data, expiry_height: None, expiry_time: None })
    }
}

} // verus!
