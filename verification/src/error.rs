use vstd::prelude::*;

verus! {

/// The failures that the native thread provider can report.
///
/// None of them is recoverable at this level: the embedding program is expected to
/// end the process when it is handed one.
#[derive(Clone, Copy, Debug, PartialEq, Eq, Structural)]
pub enum ThreadError {
    /// The provider could not start a new thread.
    CreationFailed,
    /// The provider's join primitive failed, or came back without a result box.
    JoinFailed,
    /// The provider's yield primitive failed.
    YieldFailed,
}

} // verus!
