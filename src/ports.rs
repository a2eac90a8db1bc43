use vstd::prelude::*;

use crate::error::ServiceError;

verus! {

/// port_check::free_local_port binds a listener on 127.0.0.1:0, reads back
/// the port that the operating system assigned and drops the listener. What
/// comes back depends on the host at that instant, so nothing is promised.
pub assume_specification[ port_check::free_local_port ]() -> (r: Option<u16>);

/// The port that an answer of the operating system gives: none, or port 0,
/// is an `Allocation` failure.
pub fn port_from(found: Option<u16>) -> (r: Result<u16, ServiceError>)
    ensures
        r == (match found {
            Some(p) => if p == 0 {
                Err(ServiceError::Allocation)
            } else {
                Ok(p)
            },
            None => Err(ServiceError::Allocation),
        }),
{
    match found {
        Some(p) => {
            if p == 0 {
                Err(ServiceError::Allocation)
            } else {
                Ok(p)
            }
        },
        None => Err(ServiceError::Allocation),
    }
}

/// Asks the operating system for a TCP port that is free at this instant.
/// The port is not reserved: a caller must treat a later bind failure on it
/// as recoverable.
pub fn get_free_port() -> (r: Result<u16, ServiceError>)
    ensures
        r matches Ok(p) ==> 1 <= p,
        r matches Err(e) ==> e == ServiceError::Allocation,
{
    port_from(port_check::free_local_port())
}

} // verus!
