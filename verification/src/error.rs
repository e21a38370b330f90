use vstd::prelude::*;

verus! {

/// Errors reported by the order workflow.
///
/// `OrderWrongState` marks a transition requested from a state that does
/// not permit it; the order is left unchanged and the caller re-prompts.
#[derive(Clone, Copy, Debug, PartialEq, Eq, Structural)]
pub enum Error {
    OrderWrongState,
}

} // verus!
