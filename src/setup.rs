use vstd::prelude::*;

use crate::error::ServiceError;
use crate::ports::get_free_port;
use crate::router::{RouterState, RouterView, ScalePolicy, DEFAULT_THRESHOLD};
use crate::text::{decimal, decimal_string};

verus! {

/// The port to listen on for a request of `requested`: 0 asks for a free one,
/// a number past 65535 cannot be bound.
pub fn resolve_port(requested: u32) -> (r: Result<u16, ServiceError>)
    ensures
        requested == 0 ==> match r {
            Ok(p) => 1 <= p,
            Err(e) => e == ServiceError::Allocation,
        },
        1 <= requested <= 65535 ==> r == Ok::<u16, ServiceError>(requested as u16),
        requested > 65535 ==> r == Err::<u16, ServiceError>(ServiceError::Bind),
{
    if requested == 0 {
        get_free_port()
    } else if requested <= 65535 {
        Ok(requested as u16)
    } else {
        Err(ServiceError::Bind)
    }
}

/// The socket address that the router listens on: every interface.
pub open spec fn listen_address_of(port: nat) -> Seq<char> {
    "0.0.0.0:"@ + decimal(port)
}

/// Writes `0.0.0.0:<port>`.
pub fn listen_address(port: u16) -> (r: String)
    ensures
        r@ == listen_address_of(port as nat),
{
    let digits = decimal_string(port as u32);
    let mut s = String::from_str("0.0.0.0:");
    s.append(digits.as_str());
    s
}

/// Everything the router needs before it binds its listener.
pub struct SetupPlan {
    /// The port it listens on, reported back to the caller.
    pub port: u16,
    /// The socket address to bind.
    pub address: String,
    /// The fresh router state that its handlers share.
    pub state: RouterState,
}

/// Prepares a router for `server_uri` that scales by copying
/// `local_server_path`, on the port that `resolve_port` gives for `requested`.
pub fn plan_setup(requested: u32, server_uri: String, local_server_path: String) -> (r: Result<
    SetupPlan,
    ServiceError,
>)
    ensures
        requested == 0 ==> match r {
            Ok(plan) => 1 <= plan.port,
            Err(e) => e == ServiceError::Allocation,
        },
        1 <= requested <= 65535 ==> (r matches Ok(plan) && plan.port == requested),
        requested > 65535 ==> (r matches Err(e) && e == ServiceError::Bind),
        r matches Ok(plan) ==> {
            &&& plan.address@ == listen_address_of(plan.port as nat)
            &&& plan.state@ == (RouterView {
                target: server_uri@,
                source: local_server_path@,
                users: 0,
                threshold: DEFAULT_THRESHOLD as nat,
                policy: ScalePolicy::EachRequest,
            })
        },
{
    match resolve_port(requested) {
        Err(e) => Err(e),
        Ok(port) => {
            let address = listen_address(port);
            let state = RouterState::new(server_uri, local_server_path);
            Ok(SetupPlan { port, address, state })
        },
    }
}

/// What a caller does after its first attempt to set up the router.
#[derive(Clone, Copy, Debug, PartialEq, Eq, Structural)]
pub enum SetupAttempt {
    /// The router ran; nothing more to do.
    Finished,
    /// Try once more, on this freshly allocated port.
    RetryOn(u16),
    /// No port was free for a second attempt.
    GaveUp(ServiceError),
}

/// The caller's retry policy: a failed first attempt is retried once on a
/// freshly allocated free port.
pub fn after_first_attempt(outcome: &Result<(), ServiceError>) -> (r: SetupAttempt)
    ensures
        outcome is Ok ==> r == SetupAttempt::Finished,
        outcome is Err ==> match r {
            SetupAttempt::RetryOn(p) => 1 <= p,
            SetupAttempt::GaveUp(e) => e == ServiceError::Allocation,
            SetupAttempt::Finished => false,
        },
{
    match outcome {
        Ok(()) => SetupAttempt::Finished,
        Err(_) => match get_free_port() {
            Ok(p) => SetupAttempt::RetryOn(p),
            Err(e) => SetupAttempt::GaveUp(e),
        },
    }
}

} // verus!
