//! What holds of the receiver codec and of the conversions between
//! addresses, for every address and every list of items.

use vstd::prelude::*;
use vstd::bytes::{lemma_auto_spec_u32_to_from_le_bytes, lemma_auto_spec_u64_to_from_le_bytes};
use crate::address::{AddressDataView, AddressKindView};
use crate::error::{AddressError, TraceableAddressError};
use crate::network::AddressNetwork;
use crate::receiver::{ReceiverView, EXPIRY_HEIGHT_LEN, EXPIRY_TIME_LEN, KEY_HASH_LEN};
use crate::scan::{
    carries, first_carrying, lemma_first_carrying_is, lemma_first_carrying_none, Field,
};
use crate::traceable::{
    expiry_height_in, key_hash_in, traceable_from_address, traceable_from_receivers,
    TraceableAddressView,
};
use crate::zcash::address_encoding;

verus! {

/// Writing a traceable address as receiver items and reading the items back
/// gives the same network, key hash, expiry height and expiry time, whichever
/// of the two expiry fields are set.
pub proof fn lemma_round_trip(address: TraceableAddressView)
    requires
        address.wf(),
    ensures
        traceable_from_receivers(address.net, address.receivers()) == Ok::<
            TraceableAddressView,
            TraceableAddressError,
        >(address),
        traceable_from_address(address.to_address()) == Ok::<TraceableAddressView, AddressError>(
            address,
        ),
{
    lemma_auto_spec_u32_to_from_le_bytes();
    lemma_auto_spec_u64_to_from_le_bytes();
    // The key hash is the first item, the expiry height the second where
    // there is one, and the expiry time the last where there is one.
    let items = address.receivers();
    lemma_first_carrying_is(items, Field::KeyHash, 0);
    match address.expiry_height {
        Some(_) => {
            lemma_first_carrying_is(items, Field::ExpiryHeight, 1);
        },
        None => {
            lemma_first_carrying_none(items, Field::ExpiryHeight);
        },
    }
    match address.expiry_time {
        Some(_) => {
            lemma_first_carrying_is(items, Field::ExpiryTime, items.len() - 1);
        },
        None => {
            lemma_first_carrying_none(items, Field::ExpiryTime);
        },
    }
}

/// The downgrade of a traceable address is the plain transparent address of
/// its key hash on its network, whatever its expiry fields are, and so is
/// written as that plain address is written. Read as a traceable address
/// again it is the address without expiry, so that a second downgrade
/// changes nothing.
pub proof fn lemma_downgrade(address: TraceableAddressView)
    ensures
        address.into_p2pkh() == (AddressDataView {
            net: address.net,
            kind: AddressKindView::P2pkh(address.key_hash),
        }),
        address_encoding(address.into_p2pkh()) == address_encoding(
            AddressDataView { net: address.net, kind: AddressKindView::P2pkh(address.key_hash) },
        ),
        address.without_expiry().into_p2pkh() == address.into_p2pkh(),
        traceable_from_address(address.into_p2pkh()) == Ok::<TraceableAddressView, AddressError>(
            address.without_expiry(),
        ),
{
}

/// A plain transparent address is a traceable address with neither expiry
/// field, and its downgrade is the plain address itself.
pub proof fn lemma_plain_address_compatible(net: AddressNetwork, hash: Seq<u8>)
    ensures
        traceable_from_address(AddressDataView { net, kind: AddressKindView::P2pkh(hash) })
            matches Ok(traceable) && {
            &&& traceable.net == net
            &&& traceable.key_hash == hash
            &&& traceable.expiry_height is None
            &&& traceable.expiry_time is None
            &&& traceable.into_p2pkh() == (AddressDataView {
                net,
                kind: AddressKindView::P2pkh(hash),
            })
        },
{
}

/// The two expiry fields do not touch each other. Of an address without
/// expiry, the one with only a height reads back with that height and no
/// time, the one with only a time with that time and no height, the one with
/// both with both, and the address itself with neither.
pub proof fn lemma_field_independence(base: TraceableAddressView, height: u32, time: u64)
    requires
        base.wf(),
        base.expiry_height is None,
        base.expiry_time is None,
    ensures
        traceable_from_address(base.with_expiry_height(height).to_address()) matches Ok(read) && {
            &&& read.expiry_height == Some(height)
            &&& read.expiry_time is None
            &&& read.key_hash == base.key_hash
        },
        traceable_from_address(base.with_expiry_time(time).to_address()) matches Ok(read) && {
            &&& read.expiry_height is None
            &&& read.expiry_time == Some(time)
            &&& read.key_hash == base.key_hash
        },
        traceable_from_address(
            base.with_expiry_height(height).with_expiry_time(time).to_address(),
        ) matches Ok(read) && {
            &&& read.expiry_height == Some(height)
            &&& read.expiry_time == Some(time)
            &&& read.key_hash == base.key_hash
        },
        traceable_from_address(base.to_address()) == traceable_from_address(base.into_p2pkh()),
{
    lemma_round_trip(base);
    lemma_round_trip(base.with_expiry_height(height));
    lemma_round_trip(base.with_expiry_time(time));
    lemma_round_trip(base.with_expiry_height(height).with_expiry_time(time));
}

/// Items among which a key hash is found, and whose first expiry-height item
/// does not hold 4 bytes, are refused for their expiry height.
pub proof fn lemma_expiry_height_length_rejected(
    net: AddressNetwork,
    items: Seq<ReceiverView>,
    i: int,
)
    requires
        key_hash_in(items) is Ok,
        first_carrying(items, Field::ExpiryHeight) == Some(i),
        items[i].payload().len() != EXPIRY_HEIGHT_LEN,
    ensures
        traceable_from_receivers(net, items) == Err::<TraceableAddressView, TraceableAddressError>(
            TraceableAddressError::ExpiryHeightInvalid,
        ),
{
}

/// Items among which a key hash and a sound expiry height, or none, are
/// found, and whose first expiry-time item does not hold 8 bytes, are refused
/// for their expiry time.
pub proof fn lemma_expiry_time_length_rejected(
    net: AddressNetwork,
    items: Seq<ReceiverView>,
    i: int,
)
    requires
        key_hash_in(items) is Ok,
        expiry_height_in(items) is Ok,
        first_carrying(items, Field::ExpiryTime) == Some(i),
        items[i].payload().len() != EXPIRY_TIME_LEN,
    ensures
        traceable_from_receivers(net, items) == Err::<TraceableAddressView, TraceableAddressError>(
            TraceableAddressError::ExpiryTimeInvalid,
        ),
{
}

/// Items of which none carries a key hash are refused for the missing key
/// hash, whatever else they hold.
pub proof fn lemma_missing_key_hash(net: AddressNetwork, items: Seq<ReceiverView>)
    requires
        forall|j: int| 0 <= j < items.len() ==> !carries(#[trigger] items[j], Field::KeyHash),
    ensures
        traceable_from_receivers(net, items) == Err::<TraceableAddressView, TraceableAddressError>(
            TraceableAddressError::P2pkhReceiverNotFound,
        ),
{
    lemma_first_carrying_none(items, Field::KeyHash);
}

/// A wrong key-hash item is reported before anything about the expiry
/// fields: where the first item that carries a key hash has the key-hash
/// typecode and not 20 bytes, that is the error.
pub proof fn lemma_key_hash_checked_first(
    net: AddressNetwork,
    items: Seq<ReceiverView>,
    i: int,
)
    requires
        first_carrying(items, Field::KeyHash) == Some(i),
        items[i] is Unknown,
        items[i].payload().len() != KEY_HASH_LEN,
    ensures
        traceable_from_receivers(net, items) == Err::<TraceableAddressView, TraceableAddressError>(
            TraceableAddressError::ReceiverLengthInvalid,
        ),
{
}

} // verus!
