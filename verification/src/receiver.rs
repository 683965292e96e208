//! Receiver items of a unified address, as this library reads and writes them.

use vstd::prelude::*;

verus! {

/// Typecode of the item that carries the transparent payment-key hash.
pub const KEY_HASH_TYPECODE: u32 = 0x04;

/// Typecode of the item that carries the expiry height.
pub const EXPIRY_HEIGHT_TYPECODE: u32 = 0xE0;

/// Typecode of the item that carries the expiry time.
pub const EXPIRY_TIME_TYPECODE: u32 = 0xE1;

/// Number of bytes in a transparent payment-key hash.
pub const KEY_HASH_LEN: usize = 20;

/// Number of bytes in an encoded expiry height.
pub const EXPIRY_HEIGHT_LEN: usize = 4;

/// Number of bytes in an encoded expiry time.
pub const EXPIRY_TIME_LEN: usize = 8;

/// One item of a unified address: either a receiver kind that the address
/// format knows natively, or a typecode with an uninterpreted payload.
#[derive(Clone, Debug, PartialEq, Eq)]
pub enum Receiver {
    Orchard([u8; 43]),
    Sapling([u8; 43]),
    P2pkh([u8; 20]),
    P2sh([u8; 20]),
    Unknown { typecode: u32, data: Vec<u8> },
}

/// The mathematical value of a [`Receiver`]: payloads are byte sequences.
pub enum ReceiverView {
    Orchard(Seq<u8>),
    Sapling(Seq<u8>),
    P2pkh(Seq<u8>),
    P2sh(Seq<u8>),
    Unknown { typecode: u32, data: Seq<u8> },
}

impl ReceiverView {
    /// The payload bytes of the item.
    pub open spec fn payload(self) -> Seq<u8> {
        match self {
            ReceiverView::Orchard(data) => data,
            ReceiverView::Sapling(data) => data,
            ReceiverView::P2pkh(data) => data,
            ReceiverView::P2sh(data) => data,
            ReceiverView::Unknown { data, .. } => data,
        }
    }

    /// The typecode under which the item is written in a unified address.
    pub open spec fn typecode(self) -> u32 {
        match self {
            ReceiverView::P2pkh(_) => 0x00,
            ReceiverView::P2sh(_) => 0x01,
            ReceiverView::Sapling(_) => 0x02,
            ReceiverView::Orchard(_) => 0x03,
            ReceiverView::Unknown { typecode, .. } => typecode,
        }
    }

    /// The item is a non-native one with exactly this typecode.
    pub open spec fn has_typecode(self, code: u32) -> bool {
        self matches ReceiverView::Unknown { typecode, .. } && typecode == code
    }

    /// Native receivers have the payload length that their kind fixes.
    pub open spec fn wf(self) -> bool {
        match self {
            ReceiverView::Orchard(data) => data.len() == 43,
            ReceiverView::Sapling(data) => data.len() == 43,
            ReceiverView::P2pkh(data) => data.len() == 20,
            ReceiverView::P2sh(data) => data.len() == 20,
            ReceiverView::Unknown { .. } => true,
        }
    }
}

impl View for Receiver {
    type V = ReceiverView;

    open spec fn view(&self) -> ReceiverView {
        match *self {
            Receiver::Orchard(data) => ReceiverView::Orchard(data@),
            Receiver::Sapling(data) => ReceiverView::Sapling(data@),
            Receiver::P2pkh(data) => ReceiverView::P2pkh(data@),
            Receiver::P2sh(data) => ReceiverView::P2sh(data@),
            Receiver::Unknown { typecode, data } => ReceiverView::Unknown { typecode, data: data@ },
        }
    }
}

/// The values of a list of receivers, item by item.
pub open spec fn views(items: Seq<Receiver>) -> Seq<ReceiverView> {
    Seq::new(items.len(), |i: int| items[i]@)
}

/// Every value that comes from an executable receiver is well formed.
pub proof fn lemma_views_wf(items: Seq<Receiver>)
    ensures
        views(items).len() == items.len(),
        forall|i: int| 0 <= i < items.len() ==> (#[trigger] views(items)[i]).wf(),
        forall|i: int| 0 <= i < items.len() ==> #[trigger] views(items)[i] == items[i]@,
{
    broadcast use vstd::array::group_array_axioms;
}

} // verus!
