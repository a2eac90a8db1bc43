use vstd::prelude::*;

verus! {

/// The failures that the service reports to its immediate caller.
#[derive(Clone, Copy, Debug, PartialEq, Eq, Structural)]
pub enum ServiceError {
    /// No free port could be obtained from the operating system.
    Allocation,
    /// The executable could not be read or its copy could not be created.
    Copy,
    /// The copied executable could not be started.
    Spawn,
    /// The listening socket could not be bound.
    Bind,
}

} // verus!
