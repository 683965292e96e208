//! Finding, in a list of receiver items, the first one that carries a given
//! field of a traceable address.

use vstd::prelude::*;
use crate::receiver::{
    Receiver, ReceiverView, views, EXPIRY_HEIGHT_TYPECODE, EXPIRY_TIME_TYPECODE,
    KEY_HASH_TYPECODE,
};

verus! {

/// The fields of a traceable address that receiver items can carry.
#[derive(Clone, Copy, Debug, PartialEq, Eq)]
pub enum Field {
    KeyHash,
    ExpiryHeight,
    ExpiryTime,
}

/// Whether `item` is one that speaks for `field`, whatever its payload.
///
/// The key hash is carried by an item with the key-hash typecode or by a
/// native P2PKH receiver; the expiry fields only by items with their typecode.
pub open spec fn carries(item: ReceiverView, field: Field) -> bool {
    match field {
        Field::KeyHash => item is P2pkh || item.has_typecode(KEY_HASH_TYPECODE),
        Field::ExpiryHeight => item.has_typecode(EXPIRY_HEIGHT_TYPECODE),
        Field::ExpiryTime => item.has_typecode(EXPIRY_TIME_TYPECODE),
    }
}

/// `i` is the position of the first item of `items` that carries `field`.
pub open spec fn is_first_carrying(items: Seq<ReceiverView>, field: Field, i: int) -> bool {
    &&& 0 <= i < items.len()
    &&& carries(items[i], field)
    &&& forall|j: int| 0 <= j < i ==> !carries(#[trigger] items[j], field)
}

/// The position of the first item that carries `field`, if there is one.
pub open spec fn first_carrying(items: Seq<ReceiverView>, field: Field) -> Option<int> {
    if exists|i: int| is_first_carrying(items, field, i) {
        Some(choose|i: int| is_first_carrying(items, field, i))
    } else {
        None
    }
}

/// There is at most one first position.
pub proof fn lemma_first_carrying_is(items: Seq<ReceiverView>, field: Field, i: int)
    requires
        is_first_carrying(items, field, i),
    ensures
        first_carrying(items, field) == Some(i),
{
    // Of two first positions neither can lie before the other.
    let found = choose|k: int| is_first_carrying(items, field, k);
    assert(!(found < i) && !(i < found));
}

/// Where no item carries the field, no position is found.
pub proof fn lemma_first_carrying_none(items: Seq<ReceiverView>, field: Field)
    requires
        forall|j: int| 0 <= j < items.len() ==> !carries(#[trigger] items[j], field),
    ensures
        first_carrying(items, field) is None,
{
}

/// What is found is a position of a carrying item with none before it, and
/// nothing is found only where no item carries the field.
pub proof fn lemma_first_carrying_spec(items: Seq<ReceiverView>, field: Field)
    ensures
        match first_carrying(items, field) {
            Some(i) => is_first_carrying(items, field, i),
            None => forall|j: int| 0 <= j < items.len() ==> !carries(#[trigger] items[j], field),
        },
{
    if exists|i: int| is_first_carrying(items, field, i) {
    } else {
        assert forall|j: int| 0 <= j < items.len() implies !carries(
            #[trigger] items[j],
            field,
        ) by {
            if carries(items[j], field) {
                lemma_some_is_first(items, field, j);
            }
        }
    }
}

/// Below any carrying item there is a first one.
proof fn lemma_some_is_first(items: Seq<ReceiverView>, field: Field, j: int)
    requires
        0 <= j < items.len(),
        carries(items[j], field),
    ensures
        exists|i: int| is_first_carrying(items, field, i),
    decreases j,
{
    if forall|k: int| 0 <= k < j ==> !carries(#[trigger] items[k], field) {
        assert(is_first_carrying(items, field, j));
    } else {
        let k = choose|k: int| 0 <= k < j && carries(#[trigger] items[k], field);
        lemma_some_is_first(items, field, k);
    }
}

/// Decides whether one receiver carries `field`.
pub fn item_carries(item: &Receiver, field: Field) -> (b: bool)
    ensures
        b == carries(item@, field),
{
    match item {
        Receiver::P2pkh(_) => matches!(field, Field::KeyHash),
        Receiver::Unknown { typecode, .. } => match field {
            Field::KeyHash => *typecode == KEY_HASH_TYPECODE,
            Field::ExpiryHeight => *typecode == EXPIRY_HEIGHT_TYPECODE,
            Field::ExpiryTime => *typecode == EXPIRY_TIME_TYPECODE,
        },
        _ => false,
    }
}

/// Scans `items` from the front for the first one that carries `field`.
pub fn find_first(items: &Vec<Receiver>, field: Field) -> (found: Option<usize>)
    ensures
        match found {
            Some(i) => first_carrying(views(items@), field) == Some(i as int),
            None => first_carrying(views(items@), field) is None,
        },
{
    let ghost all = views(items@);
    let mut i: usize = 0;
    while i < items.len()
        invariant
            i <= items.len(),
            all == views(items@),
            forall|j: int| 0 <= j < i ==> !carries(#[trigger] all[j], field),
        decreases items.len() - i,
    {
        if item_carries(&items[i], field) {
            proof {
                lemma_first_carrying_is(all, field, i as int);
            }
            return Some(i);
        }
        i += 1;
    }
    proof {
        lemma_first_carrying_none(all, field);
    }
    None
}

} // verus!
