//! How a flow ended.

use vstd::prelude::*;

verus! {

#[derive(Debug, Clone, Copy, PartialEq, Eq, Structural)]
pub enum FlowOutcome {
    /// Update succeeded
    Success,
    /// Update failed to complete, even after retry logic
    Failed,
    /// Update was cancelled by a user
    Cancelled,
    /// Update was aborted by system by force
    Aborted,
}

} // verus!
