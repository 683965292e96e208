//! Traceable addresses: unified addresses that carry a transparent
//! payment-key hash together with optional expiry metadata.
//!
//! A [`TraceableAddress`] is written as the items of a unified address and
//! read back from any list of such items. Strings are parsed and written by
//! the `zcash_address` crate, behind the contracts of [`zcash`].

pub mod address;
pub mod error;
pub mod laws;
pub mod network;
pub mod ops;
pub mod receiver;
pub mod scan;
pub mod traceable;
pub mod zcash;

pub use address::{AddressData, AddressKind};
pub use error::{AddressError, TraceableAddressError, UnsupportedKind};
pub use network::AddressNetwork;
pub use ops::{addr_expiry_height, addr_expiry_time, to_traceable_address, traceable_to_p2pkh};
pub use receiver::Receiver;
pub use traceable::TraceableAddress;
