//! The four operations on address strings.

use vstd::prelude::*;
use crate::error::AddressError;
use crate::traceable::{traceable_in, TraceableAddress, TraceableAddressView};
use crate::zcash::address_encoding;

verus! {

/// Makes a traceable address with the given expiry time out of any address
/// that can be traceable. An expiry height that the address already carries
/// is kept; an expiry time that it carries is replaced.
///
/// The result is the unified address string of the new traceable address,
/// and reading that string gives the new traceable address back.
pub fn to_traceable_address(address: &str, expiry_time: u64) -> (r: Result<String, AddressError>)
    ensures
        match traceable_in(address@) {
            None => r matches Err(AddressError::Parse(_)),
            Some(Err(e)) => r matches Err(err) && err == e,
            Some(Ok(traceable)) => {
                &&& r matches Ok(s)
                &&& s@ == address_encoding(traceable.with_expiry_time(expiry_time).to_address())
                &&& traceable_in(s@) == Some(
                    Ok::<TraceableAddressView, AddressError>(
                        traceable.with_expiry_time(expiry_time),
                    ),
                )
            },
        },
{
    match TraceableAddress::try_from_encoded(address) {
        Ok(traceable) => Ok(traceable.with_expiry_time(expiry_time).encode()),
        Err(e) => Err(e),
    }
}

/// The expiry height that an address carries, if it carries one.
pub fn addr_expiry_height(address: &str) -> (r: Result<Option<u32>, AddressError>)
    ensures
        match traceable_in(address@) {
            None => r matches Err(AddressError::Parse(_)),
            Some(Err(e)) => r matches Err(err) && err == e,
            Some(Ok(traceable)) => r matches Ok(height) && height == traceable.expiry_height,
        },
{
    match TraceableAddress::try_from_encoded(address) {
        Ok(traceable) => Ok(traceable.expiry_height),
        Err(e) => Err(e),
    }
}

/// The expiry time that an address carries, if it carries one.
pub fn addr_expiry_time(address: &str) -> (r: Result<Option<u64>, AddressError>)
    ensures
        match traceable_in(address@) {
            None => r matches Err(AddressError::Parse(_)),
            Some(Err(e)) => r matches Err(err) && err == e,
            Some(Ok(traceable)) => r matches Ok(time) && time == traceable.expiry_time,
        },
{
    match TraceableAddress::try_from_encoded(address) {
        Ok(traceable) => Ok(traceable.expiry_time),
        Err(e) => Err(e),
    }
}

/// The plain transparent address string of the key hash that an address
/// carries, on the same network. Expiry fields are dropped.
pub fn traceable_to_p2pkh(address: &str) -> (r: Result<String, AddressError>)
    ensures
        match traceable_in(address@) {
            None => r matches Err(AddressError::Parse(_)),
            Some(Err(e)) => r matches Err(err) && err == e,
            Some(Ok(traceable)) => r matches Ok(s) && s@ == address_encoding(
                traceable.into_p2pkh(),
            ),
        },
{
    match TraceableAddress::try_from_encoded(address) {
        Ok(traceable) => Ok(traceable.into_p2pkh().encode()),
        Err(e) => Err(e),
    }
}

} // verus!
