//! Why an address cannot be read as a traceable address.

use vstd::prelude::*;
use zcash_address::ParseError;

verus! {

/// The ways in which the items of a unified address fail to describe a
/// traceable address.
#[derive(Clone, Copy, Debug, PartialEq, Eq, Structural)]
pub enum TraceableAddressError {
    /// No item carries a key hash.
    P2pkhReceiverNotFound,
    /// The item with the key-hash typecode does not hold 20 bytes.
    ReceiverLengthInvalid,
    /// The expiry-height item does not hold 4 bytes.
    ExpiryHeightInvalid,
    /// The expiry-time item does not hold 8 bytes.
    ExpiryTimeInvalid,
}

impl TraceableAddressError {
    /// The fixed explanation that belongs to each error.
    pub open spec fn spec_message(self) -> Seq<char> {
        match self {
            TraceableAddressError::P2pkhReceiverNotFound => "No P2PKH Receiver found"@,
            TraceableAddressError::ReceiverLengthInvalid =>
                "Receiver length invalid for typecode 0x04: must be 20 bytes."@,
            TraceableAddressError::ExpiryHeightInvalid =>
                "Expiry height invalid: the value of typecode 0xE0 must be a 4-byte integer in little-endian order."@,
            TraceableAddressError::ExpiryTimeInvalid =>
                "Expiry height invalid: the value of typecode 0xE1 must be an 8-byte integer in little-endian order."@,
        }
    }

    /// The explanation shown to a user for this error.
    pub fn message(&self) -> (text: String)
        ensures
            text@ == self.spec_message(),
    {
        match self {
            TraceableAddressError::P2pkhReceiverNotFound => "No P2PKH Receiver found".to_owned(),
            TraceableAddressError::ReceiverLengthInvalid =>
                "Receiver length invalid for typecode 0x04: must be 20 bytes.".to_owned(),
            TraceableAddressError::ExpiryHeightInvalid =>
                "Expiry height invalid: the value of typecode 0xE0 must be a 4-byte integer in little-endian order.".to_owned(),
            TraceableAddressError::ExpiryTimeInvalid =>
                "Expiry height invalid: the value of typecode 0xE1 must be an 8-byte integer in little-endian order.".to_owned(),
        }
    }
}

/// The kinds of address that hold no transparent payment-key hash for a
/// traceable address to be built on.
#[derive(Clone, Copy, Debug, PartialEq, Eq, Structural)]
pub enum UnsupportedKind {
    Sprout,
    Sapling,
    P2sh,
    Tex,
}

impl UnsupportedKind {
    /// The fixed explanation that belongs to each kind.
    pub open spec fn spec_message(self) -> Seq<char> {
        match self {
            UnsupportedKind::Sprout => "Zcash Sprout addresses are not supported"@,
            UnsupportedKind::Sapling => "Zcash Sapling addresses are not supported"@,
            UnsupportedKind::P2sh => "Zcash transparent P2SH addresses are not supported"@,
            UnsupportedKind::Tex =>
                "Zcash transparent-source restricted P2PKH addresses are not supported"@,
        }
    }

    /// The explanation shown to a user for an address of this kind.
    pub fn message(&self) -> (text: String)
        ensures
            text@ == self.spec_message(),
    {
        match self {
            UnsupportedKind::Sprout => "Zcash Sprout addresses are not supported".to_owned(),
            UnsupportedKind::Sapling => "Zcash Sapling addresses are not supported".to_owned(),
            UnsupportedKind::P2sh => "Zcash transparent P2SH addresses are not supported".to_owned(),
            UnsupportedKind::Tex =>
                "Zcash transparent-source restricted P2PKH addresses are not supported".to_owned(),
        }
    }
}

/// Why a string could not be taken as a traceable address.
#[derive(Debug, PartialEq, Eq)]
pub enum AddressError {
    /// The string is not an address: the parser's own error.
    Parse(ParseError),
    /// The string is an address of a kind that cannot be traceable.
    Unsupported(UnsupportedKind),
    /// The string is a unified address whose items do not describe a
    /// traceable address.
    Traceable(TraceableAddressError),
}

} // verus!
