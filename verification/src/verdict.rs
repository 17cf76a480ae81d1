//! The verdict a guest returns from its message-received entry point, and the
//! status codes a host function reports back into the guest. Both travel
//! across the sandbox boundary as signed 32-bit integers with a stable
//! numeric mapping.

use vstd::prelude::*;

verus! {

/// The guest's decision on how a processed message should be handled
/// downstream. `Use` means "use the original message unmodified": the host
/// produces no output for it. `Replace` means a replacement payload has been
/// (or may have been) produced.
#[derive(Clone, Copy, Debug, PartialEq, Eq, Structural)]
pub enum Verdict {
    Use,
    Replace,
}

/// Outcome a host function reports back through its return value.
#[derive(Clone, Copy, Debug, PartialEq, Eq, Structural)]
pub enum Status {
    Success,
    InternalFailure,
}

/// Numeric decoding of a verdict. Any code outside the recognized mapping
/// decodes to `Use`, the fail-safe default.
pub open spec fn spec_verdict_of_code(code: i32) -> Verdict {
    if code == 1 {
        Verdict::Replace
    } else {
        Verdict::Use
    }
}

/// Numeric encoding of a status, written into the guest as a signed 32-bit
/// integer. The gap between `Success` and `InternalFailure` leaves room for other
/// condition codes in the numbering the guests are compiled against.
pub open spec fn spec_status_code(status: Status) -> i32 {
    match status {
        Status::Success => 0,
        Status::InternalFailure => 10,
    }
}

impl Verdict {
    /// Decodes the integer a guest returned into a verdict, defaulting to
    /// `Use` on any unrecognized code.
    pub fn from_code(code: i32) -> (v: Verdict)
        ensures
            v == spec_verdict_of_code(code),
    {
        if code == 1 {
            Verdict::Replace
        } else {
            Verdict::Use
        }
    }
}

impl Status {
    /// The signed 32-bit encoding of this status.
    pub fn code(self) -> (c: i32)
        ensures
            c == spec_status_code(self),
    {
        match self {
            Status::Success => 0,
            Status::InternalFailure => 10,
        }
    }
}

/// Law: every verdict code outside the recognized mapping decodes to the
/// fail-safe default `Use`, exactly as the recognized code for `Use` does;
/// in particular this holds of every unrecognized non-negative code.
pub proof fn lemma_unrecognized_code_defaults_to_use(code: i32)
    requires
        code != 1,
    ensures
        spec_verdict_of_code(code) == Verdict::Use,
        spec_verdict_of_code(code) == spec_verdict_of_code(0),
{
}

} // verus!
