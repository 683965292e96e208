//! Addresses as the library sees them: a network and what the address holds.

use vstd::prelude::*;
use zcash_address::ParseError;
use crate::network::AddressNetwork;
use crate::receiver::{lemma_views_wf, views, Receiver, ReceiverView};
use crate::zcash::{
    address_encoding, encode_p2pkh, encode_unified, parse_address, parsed_address,
    unified_container,
};

verus! {

/// Largest typecode and largest length that the compact integer encoding of
/// a unified address admits.
pub const MAX_COMPACT_SIZE: u32 = 0x0200_0000;

/// Bytes of padding that follow the items of a unified address.
pub const PADDING_LEN: usize = 16;

/// Fewest bytes, padding included, that a unified address can be made of.
pub const MIN_PADDED_LEN: usize = 38;

/// Most bytes, padding included, that a unified address can be made of.
pub const MAX_PADDED_LEN: usize = 4194368;

/// What an address holds, by kind.
#[derive(Clone, Debug, PartialEq, Eq)]
pub enum AddressKind {
    Sprout([u8; 64]),
    Sapling([u8; 43]),
    Unified(Vec<Receiver>),
    P2pkh([u8; 20]),
    P2sh([u8; 20]),
    Tex([u8; 20]),
}

/// An address: the network it is for and what it holds.
#[derive(Clone, Debug, PartialEq, Eq)]
pub struct AddressData {
    pub net: AddressNetwork,
    pub kind: AddressKind,
}

/// The mathematical value of an [`AddressKind`].
pub enum AddressKindView {
    Sprout(Seq<u8>),
    Sapling(Seq<u8>),
    Unified(Seq<ReceiverView>),
    P2pkh(Seq<u8>),
    P2sh(Seq<u8>),
    Tex(Seq<u8>),
}

/// The mathematical value of an [`AddressData`].
pub struct AddressDataView {
    pub net: AddressNetwork,
    pub kind: AddressKindView,
}

impl View for AddressKind {
    type V = AddressKindView;

    open spec fn view(&self) -> AddressKindView {
        match *self {
            AddressKind::Sprout(data) => AddressKindView::Sprout(data@),
            AddressKind::Sapling(data) => AddressKindView::Sapling(data@),
            AddressKind::Unified(items) => AddressKindView::Unified(views(items@)),
            AddressKind::P2pkh(data) => AddressKindView::P2pkh(data@),
            AddressKind::P2sh(data) => AddressKindView::P2sh(data@),
            AddressKind::Tex(data) => AddressKindView::Tex(data@),
        }
    }
}

impl View for AddressData {
    type V = AddressDataView;

    open spec fn view(&self) -> AddressDataView {
        AddressDataView { net: self.net, kind: self.kind@ }
    }
}

/// Bytes that the compact integer encoding takes for `n`.
pub open spec fn compact_size_len(n: nat) -> nat {
    if n < 253 {
        1
    } else if n <= 0xFFFF {
        3
    } else if n <= 0xFFFF_FFFF {
        5
    } else {
        9
    }
}

/// Bytes that one item takes in a unified address: its typecode, the length
/// of its payload, and the payload.
pub open spec fn raw_item_len(item: ReceiverView) -> nat {
    compact_size_len(item.typecode() as nat) + compact_size_len(item.payload().len())
        + item.payload().len()
}

/// Bytes that the items take together.
pub open spec fn raw_len(items: Seq<ReceiverView>) -> nat
    decreases items.len(),
{
    if items.len() == 0 {
        0
    } else {
        raw_len(items.drop_last()) + raw_item_len(items.last())
    }
}

/// The lists of items that this library writes as a unified address: only
/// uninterpreted items, with typecodes that the format leaves free, in
/// strictly ascending order of typecode, and of a total size that the format
/// admits.
pub open spec fn encodable_items(items: Seq<ReceiverView>) -> bool {
    &&& forall|i: int|
        0 <= i < items.len() ==> {
            &&& (#[trigger] items[i]) is Unknown
            &&& 0x04 <= items[i].typecode() <= MAX_COMPACT_SIZE
        }
    &&& forall|i: int, j: int|
        0 <= i < j < items.len() ==> (#[trigger] items[i]).typecode() < (
        #[trigger] items[j]).typecode()
    &&& MIN_PADDED_LEN <= raw_len(items) + PADDING_LEN <= MAX_PADDED_LEN
}

impl AddressDataView {
    /// The addresses that this library writes as strings: unified addresses
    /// of encodable items, and plain transparent P2PKH addresses.
    pub open spec fn encodable(self) -> bool {
        match self.kind {
            AddressKindView::Unified(items) => encodable_items(items),
            AddressKindView::P2pkh(hash) => hash.len() == 20,
            _ => false,
        }
    }
}

/// The first `n + 1` items take what the first `n` take and what the item
/// after them takes.
pub proof fn lemma_raw_len_step(items: Seq<ReceiverView>, n: int)
    requires
        0 <= n < items.len(),
    ensures
        raw_len(items.take(n + 1)) == raw_len(items.take(n)) + raw_item_len(items[n]),
{
    assert(items.take(n + 1).drop_last() =~= items.take(n));
}

/// No part of a list takes more bytes than the whole list.
pub proof fn lemma_raw_len_monotonic(items: Seq<ReceiverView>, n: int)
    requires
        0 <= n <= items.len(),
    ensures
        raw_len(items.take(n)) <= raw_len(items),
    decreases items.len() - n,
{
    if n == items.len() {
        assert(items.take(n) =~= items);
    } else {
        lemma_raw_len_step(items, n);
        lemma_raw_len_monotonic(items, n + 1);
    }
}

/// Bytes that the compact integer encoding takes for `n`.
fn compact_size_bytes(n: usize) -> (len: usize)
    ensures
        len == compact_size_len(n as nat),
{
    if n < 253 {
        1
    } else if n <= 0xFFFF {
        3
    } else if n <= 0xFFFF_FFFF {
        5
    } else {
        9
    }
}

/// Decides whether this library writes `items` as a unified address.
pub fn items_encodable(items: &Vec<Receiver>) -> (b: bool)
    ensures
        b == encodable_items(views(items@)),
{
    let ghost all = views(items@);
    proof {
        lemma_views_wf(items@);
    }
    let mut total: usize = 0;
    let mut previous: u32 = 0;
    let mut i: usize = 0;
    while i < items.len()
        invariant
            i <= items.len(),
            all == views(items@),
            all.len() == items.len(),
            total == raw_len(all.take(i as int)),
            total + PADDING_LEN <= MAX_PADDED_LEN,
            i > 0 ==> previous == all[i - 1].typecode(),
            forall|j: int|
                0 <= j < i ==> {
                    &&& (#[trigger] all[j]) is Unknown
                    &&& 0x04 <= all[j].typecode() <= MAX_COMPACT_SIZE
                },
            forall|j: int, k: int|
                0 <= j < k < i ==> (#[trigger] all[j]).typecode() < (#[trigger] all[k]).typecode(),
        decreases items.len() - i,
    {
        proof {
            lemma_raw_len_step(all, i as int);
            lemma_raw_len_monotonic(all, i + 1);
        }
        match &items[i] {
            Receiver::Unknown { typecode, data } => {
                if *typecode < 0x04 || *typecode > MAX_COMPACT_SIZE {
                    return false;
                }
                if i > 0 && previous >= *typecode {
                    return false;
                }
                let payload = data.len();
                if payload > MAX_PADDED_LEN {
                    return false;
                }
                let item = compact_size_bytes(*typecode as usize) + compact_size_bytes(payload)
                    + payload;
                if item > MAX_PADDED_LEN - PADDING_LEN - total {
                    return false;
                }
                total = total + item;
                previous = *typecode;
            },
            _ => {
                return false;
            },
        }
        i += 1;
    }
    proof {
        assert(all.take(i as int) =~= all);
    }
    total + PADDING_LEN >= MIN_PADDED_LEN
}

impl AddressData {
    /// Decides whether this library writes the address as a string.
    pub fn is_encodable(&self) -> (b: bool)
        ensures
            b == self@.encodable(),
    {
        match &self.kind {
            AddressKind::Unified(items) => items_encodable(items),
            AddressKind::P2pkh(hash) => {
                proof {
                    vstd::array::array_len_matches_n(hash);
                }
                true
            },
            _ => false,
        }
    }

    /// Reads an address out of its string. What is read is a function of the
    /// string alone, and a string that is no address gives the parser's error.
    pub fn parse(s: &str) -> (r: Result<AddressData, ParseError>)
        ensures
            match r {
                Ok(address) => parsed_address(s@) == Some(address@),
                Err(_) => parsed_address(s@) is None,
            },
    {
        parse_address(s)
    }

    /// Writes the address as a string. A unified address that was written
    /// this way is read back as it was.
    pub fn encode(&self) -> (s: String)
        requires
            self@.encodable(),
        ensures
            s@ == address_encoding(self@),
            self.kind is Unified ==> parsed_address(s@) == Some(self@),
    {
        match &self.kind {
            AddressKind::Unified(items) => encode_unified(self.net, unified_container(items)),
            AddressKind::P2pkh(hash) => encode_p2pkh(self.net, *hash),
            _ => unreached(),
        }
    }
}

} // verus!
