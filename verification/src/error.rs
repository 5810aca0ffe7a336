//! Everything that can go wrong during an integration, and the integer status
//! codes that stand for each kind on the native side of the boundary.

use vstd::prelude::*;
use vstd::std_specs::convert::FromSpecImpl;

verus! {

/// The closed set of failures an integration can end in.
///
/// Each member owns exactly one status code, see [`CubatureError::code`].
#[derive(Debug, Clone, Copy, PartialEq, Eq, Structural)]
pub enum CubatureError {
    /// The lower and upper bounds differ in length.
    BoundsInconsistent,
    /// The evaluation budget ran out before the tolerances were met.
    FailedToConverge,
    /// The integrand reported a failure at some evaluation point.
    IntegrandEvalFailed,
    /// The value and error buffers differ in length.
    OutputBuffersInconsistent,
    /// The output buffers do not match the integrand's output dimension.
    IncorrectOutputBufferSize,
    /// Any status that none of the other members stands for.
    Unknown,
}

/// Status code of a native call that ended without error. No member of
/// [`CubatureError`] owns it.
pub const STATUS_OK: i32 = 0;

/// The member that a status code stands for; every code that is not reserved
/// for one of the named members, the success status among them, stands for
/// `Unknown`.
pub open spec fn spec_from_code(code: int) -> CubatureError {
    if code == 1 {
        CubatureError::FailedToConverge
    } else if code == 2 {
        CubatureError::IntegrandEvalFailed
    } else if code == 3 {
        CubatureError::OutputBuffersInconsistent
    } else if code == 4 {
        CubatureError::IncorrectOutputBufferSize
    } else if code == 6 {
        CubatureError::BoundsInconsistent
    } else {
        CubatureError::Unknown
    }
}

/// Whether `code` is reserved for one of the five named members. The reserved
/// codes are non-zero, and the code of `Unknown` is not among them.
pub open spec fn is_reserved_code(code: int) -> bool {
    1 <= code <= 4 || code == 6
}

impl CubatureError {
    /// The status code reserved for this member.
    pub open spec fn spec_code(self) -> int {
        match self {
            CubatureError::BoundsInconsistent => 6,
            CubatureError::FailedToConverge => 1,
            CubatureError::IntegrandEvalFailed => 2,
            CubatureError::OutputBuffersInconsistent => 3,
            CubatureError::IncorrectOutputBufferSize => 4,
            CubatureError::Unknown => 5,
        }
    }

    /// The text shown to a user for this member.
    pub open spec fn spec_message(self) -> Seq<char> {
        match self {
            CubatureError::BoundsInconsistent => "bounds inconsistent"@,
            CubatureError::FailedToConverge => "failed to converge"@,
            CubatureError::IntegrandEvalFailed => "integrand evaluation failed"@,
            CubatureError::OutputBuffersInconsistent => "output buffers inconsistent"@,
            CubatureError::IncorrectOutputBufferSize => "incorrect output buffer size"@,
            CubatureError::Unknown => "unknown error"@,
        }
    }

    /// Returns the status code reserved for this member.
    pub fn code(self) -> (code: i32)
        ensures
            code == self.spec_code(),
    {
        match self {
            CubatureError::BoundsInconsistent => 6,
            CubatureError::FailedToConverge => 1,
            CubatureError::IntegrandEvalFailed => 2,
            CubatureError::OutputBuffersInconsistent => 3,
            CubatureError::IncorrectOutputBufferSize => 4,
            CubatureError::Unknown => 5,
        }
    }

    /// Translates a status code into the member it stands for. The
    /// translation is total: a code outside the reserved ones gives `Unknown`.
    pub fn from_code(code: i32) -> (error: CubatureError)
        ensures
            error == spec_from_code(code as int),
    {
        if code == 1 {
            CubatureError::FailedToConverge
        } else if code == 2 {
            CubatureError::IntegrandEvalFailed
        } else if code == 3 {
            CubatureError::OutputBuffersInconsistent
        } else if code == 4 {
            CubatureError::IncorrectOutputBufferSize
        } else if code == 6 {
            CubatureError::BoundsInconsistent
        } else {
            CubatureError::Unknown
        }
    }

    /// Returns the text shown to a user for this member.
    pub fn message(&self) -> (text: String)
        ensures
            text@ == self.spec_message(),
    {
        match self {
            CubatureError::BoundsInconsistent => "bounds inconsistent".to_owned(),
            CubatureError::FailedToConverge => "failed to converge".to_owned(),
            CubatureError::IntegrandEvalFailed => "integrand evaluation failed".to_owned(),
            CubatureError::OutputBuffersInconsistent => "output buffers inconsistent".to_owned(),
            CubatureError::IncorrectOutputBufferSize => "incorrect output buffer size".to_owned(),
            CubatureError::Unknown => "unknown error".to_owned(),
        }
    }
}

impl From<i32> for CubatureError {
    fn from(value: i32) -> (error: CubatureError) {
        CubatureError::from_code(value)
    }
}

impl FromSpecImpl<i32> for CubatureError {
    open spec fn obeys_from_spec() -> bool {
        true
    }

    open spec fn from_spec(value: i32) -> CubatureError {
        spec_from_code(value as int)
    }
}

/// What a finished native call that returned `status` amounts to: zero is
/// success, every other code is the error it stands for.
pub open spec fn status_to_result_spec(status: int) -> Result<(), CubatureError> {
    if status == STATUS_OK {
        Ok(())
    } else {
        Err(spec_from_code(status))
    }
}

/// Turns the status code of a finished native call into a result: zero is
/// success, every other code is the error it stands for.
pub fn status_to_result(status: i32) -> (result: Result<(), CubatureError>)
    ensures
        result == status_to_result_spec(status as int),
{
    if status == STATUS_OK {
        Ok(())
    } else {
        Err(CubatureError::from(status))
    }
}

/// A status code stands for a named member exactly when it is one of the five
/// reserved codes; every other integer, the success status among them, stands
/// for `Unknown`.
pub proof fn lemma_named_iff_reserved(code: int)
    ensures
        spec_from_code(code) != CubatureError::Unknown <==> is_reserved_code(code),
        !is_reserved_code(code) ==> spec_from_code(code) == CubatureError::Unknown,
        is_reserved_code(code) ==> code != STATUS_OK,
        spec_from_code(STATUS_OK as int) == CubatureError::Unknown,
{
}

/// Translating a member to its code and back gives the member again, and the
/// code of a member is reserved exactly when the member is a named one.
pub proof fn lemma_code_round_trip(error: CubatureError)
    ensures
        spec_from_code(error.spec_code()) == error,
        error != CubatureError::Unknown <==> is_reserved_code(error.spec_code()),
{
}

/// No two members share a code.
pub proof fn lemma_codes_distinct(first: CubatureError, second: CubatureError)
    ensures
        first.spec_code() == second.spec_code() <==> first == second,
{
}

/// Translating a code to its member and back gives the code again exactly for
/// the codes that some member owns.
pub proof fn lemma_member_code_round_trip(code: int)
    ensures
        spec_from_code(code).spec_code() == code <==> 1 <= code <= 6,
{
}

/// No member owns the success status: a code that a member stands behind is
/// always read as a failure.
pub proof fn lemma_member_codes_are_failures(error: CubatureError)
    ensures
        error.spec_code() != STATUS_OK,
        status_to_result_spec(error.spec_code()) == Err::<(), CubatureError>(error),
{
}

} // verus!
