//! The status a translated block hands back to the code that ran it.
use vstd::prelude::*;

verus! {

/// Outcome of executing a translated block, as returned in `rax`.
#[derive(Clone, Copy, Debug, PartialEq, Eq, Structural)]
pub enum ExecutionResult {
    Success,
    NeedTLBInvalidate,
    InterruptPending,
}

impl ExecutionResult {
    /// The status code of the outcome.
    pub open spec fn code(self) -> u64 {
        match self {
            ExecutionResult::Success => 0,
            ExecutionResult::NeedTLBInvalidate => 1,
            ExecutionResult::InterruptPending => 2,
        }
    }

    /// The status code of the outcome.
    pub fn as_u64(&self) -> (r: u64)
        ensures
            r == self.code(),
    {
        match self {
            ExecutionResult::Success => 0,
            ExecutionResult::NeedTLBInvalidate => 1,
            ExecutionResult::InterruptPending => 2,
        }
    }

    /// The outcome with status code `value`; there are three.
    pub fn from_u64(value: u64) -> (r: ExecutionResult)
        requires
            value < 3,
        ensures
            r.code() == value,
    {
        if value == 0 {
            ExecutionResult::Success
        } else if value == 1 {
            ExecutionResult::NeedTLBInvalidate
        } else {
            ExecutionResult::InterruptPending
        }
    }
}

/// Decoding a status code gives back the outcome it was encoded from, and
/// distinct outcomes have distinct codes.
pub proof fn lemma_execution_result_roundtrip(r: ExecutionResult, s: ExecutionResult)
    ensures
        r.code() < 3,
        r.code() == s.code() ==> r == s,
{
}

} // verus!
