//! The networks an address can belong to.

use vstd::prelude::*;

verus! {

/// The network whose encoding rules an address follows.
#[derive(Clone, Copy, Debug, PartialEq, Eq, Hash, Structural)]
pub enum AddressNetwork {
    Main,
    Test,
    Regtest,
}

} // verus!
