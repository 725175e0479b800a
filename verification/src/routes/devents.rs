use vstd::prelude::*;

verus! {

/// Why a batch of desktop events is not taken in.
#[derive(Clone, Copy, Debug, PartialEq, Eq)]
pub enum BatchError {
    /// The batch holds no event.
    Empty,
}

impl BatchError {
    /// The sentence reported for this failure.
    pub fn message(&self) -> (text: String)
        ensures
            text@ == "Empty request body"@,
    {
        String::from_str("Empty request body")
    }
}

/// Decides whether a batch of `events` desktop events is taken in: every
/// batch but the empty one is.
pub fn check_batch(events: usize) -> (outcome: Result<(), BatchError>)
    ensures
        outcome == if events == 0 {
            Err::<(), BatchError>(BatchError::Empty)
        } else {
            Ok::<(), BatchError>(())
        },
{
    if events == 0 {
        Err(BatchError::Empty)
    } else {
        Ok(())
    }
}

} // verus!
