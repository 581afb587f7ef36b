use vstd::prelude::*;

verus! {

/// Errors that registration can report.
#[derive(Debug, PartialEq, Eq)]
pub enum BarelogError {
    /// A subscriber was registered when the single slot was already taken.
    SubscriberAlreadySet,
    /// A subscriber was added when the list had reached its capacity.
    SubscriberListFull,
    /// A condition reported by a collaborator, opaque to the library.
    Other(&'static str),
}

} // verus!
