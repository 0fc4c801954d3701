//! The steps of a project or cloud switch, in the order a session records
//! them.
use vstd::prelude::*;

verus! {

/// One step of a context transition.
#[derive(Debug, Clone, Copy, PartialEq, Eq, Structural)]
pub enum TransitionStep {
    Begin,
    Rescope,
    Refresh,
    Commit,
    Rollback,
}

} // verus!
