//! The return codes of the Emscripten runtime.

use vstd::prelude::*;
use vstd::std_specs::convert::{FromSpec, FromSpecImpl, TryFromSpec, TryFromSpecImpl};

verus! {

/// What a call into the runtime came to.
#[derive(Debug, Clone, Copy, PartialEq, Eq, Structural)]
pub enum EmscriptenResult {
    /// Operation succeeded (return code 0)
    Success,
    /// Operation deferred for later completion (return code 1)
    Deferred,
    /// Error cases (every other return code)
    Error(EmError),
}

/// Why a call into the runtime failed.
#[derive(Debug, Clone, Copy, PartialEq, Eq, Structural)]
pub enum EmError {
    /// Operation not supported (return code -1)
    NotSupported,
    /// Operation failed without deferred result (return code -2)
    FailedNotDeferred,
    /// Invalid target (return code -3)
    InvalidTarget,
    /// Unknown target (return code -4)
    UnknownTarget,
    /// Invalid parameter (return code -5)
    InvalidParam,
    /// Generic failure (return code -6)
    Failed,
    /// No data available (return code -7)
    NoData,
    /// Operation timed out (return code -8)
    TimedOut,
    /// Any other return code
    UnknownCode(i32),
}

impl EmError {
    /// The return code that reports this error.
    pub open spec fn code(self) -> int {
        match self {
            EmError::NotSupported => -1,
            EmError::FailedNotDeferred => -2,
            EmError::InvalidTarget => -3,
            EmError::UnknownTarget => -4,
            EmError::InvalidParam => -5,
            EmError::Failed => -6,
            EmError::NoData => -7,
            EmError::TimedOut => -8,
            EmError::UnknownCode(code) => code as int,
        }
    }
}

/// The codes that name an error: -1 down to -8.
pub open spec fn is_named_error_code(code: i32) -> bool {
    -8 <= code <= -1
}

/// The error that a code from -1 down to -8 names.
pub open spec fn named_error(code: i32) -> EmError {
    if code == -1 {
        EmError::NotSupported
    } else if code == -2 {
        EmError::FailedNotDeferred
    } else if code == -3 {
        EmError::InvalidTarget
    } else if code == -4 {
        EmError::UnknownTarget
    } else if code == -5 {
        EmError::InvalidParam
    } else if code == -6 {
        EmError::Failed
    } else if code == -7 {
        EmError::NoData
    } else {
        EmError::TimedOut
    }
}

impl EmscriptenResult {
    /// The return code that this result stands for.
    pub open spec fn code(self) -> int {
        match self {
            EmscriptenResult::Success => 0,
            EmscriptenResult::Deferred => 1,
            EmscriptenResult::Error(error) => error.code(),
        }
    }

    /// Returns true if result is considered successful
    pub fn is_ok(&self) -> (r: bool)
        ensures
            r == (self is Success || self is Deferred),
    {
        matches!(self, Self::Success | Self::Deferred)
    }

    /// Returns true if result is an error
    pub fn is_err(&self) -> (r: bool)
        ensures
            r == (self is Error),
    {
        matches!(self, Self::Error(_))
    }
}

impl TryFrom<i32> for EmError {
    type Error = ();

    fn try_from(value: i32) -> (r: Result<Self, Self::Error>) {
        match value {
            -1 => Ok(Self::NotSupported),
            -2 => Ok(Self::FailedNotDeferred),
            -3 => Ok(Self::InvalidTarget),
            -4 => Ok(Self::UnknownTarget),
            -5 => Ok(Self::InvalidParam),
            -6 => Ok(Self::Failed),
            -7 => Ok(Self::NoData),
            -8 => Ok(Self::TimedOut),
            _ => Err(()),
        }
    }
}

impl TryFromSpecImpl<i32> for EmError {
    open spec fn obeys_try_from_spec() -> bool {
        true
    }

    open spec fn try_from_spec(value: i32) -> Result<Self, Self::Error> {
        if is_named_error_code(value) {
            Ok(named_error(value))
        } else {
            Err(())
        }
    }
}

impl From<i32> for EmscriptenResult {
    fn from(code: i32) -> (r: Self) {
        match code {
            0 => Self::Success,
            1 => Self::Deferred,
            n if n < 0 => match EmError::try_from(n) {
                Ok(error) => Self::Error(error),
                Err(_) => Self::Error(EmError::UnknownCode(n)),
            },
            unknown => Self::Error(EmError::UnknownCode(unknown)),
        }
    }
}

impl FromSpecImpl<i32> for EmscriptenResult {
    open spec fn obeys_from_spec() -> bool {
        true
    }

    open spec fn from_spec(code: i32) -> Self {
        if code == 0 {
            EmscriptenResult::Success
        } else if code == 1 {
            EmscriptenResult::Deferred
        } else if is_named_error_code(code) {
            EmscriptenResult::Error(named_error(code))
        } else {
            EmscriptenResult::Error(EmError::UnknownCode(code))
        }
    }
}

impl From<EmscriptenResult> for Result<(), EmError> {
    fn from(result: EmscriptenResult) -> (r: Self) {
        match result {
            EmscriptenResult::Success | EmscriptenResult::Deferred => Ok(()),
            EmscriptenResult::Error(e) => Err(e),
        }
    }
}

impl FromSpecImpl<EmscriptenResult> for Result<(), EmError> {
    open spec fn obeys_from_spec() -> bool {
        true
    }

    open spec fn from_spec(result: EmscriptenResult) -> Self {
        match result {
            EmscriptenResult::Error(e) => Err(e),
            _ => Ok(()),
        }
    }
}

/// No return code is lost: each is read as a result that stands for exactly that code, so two
/// different codes are never read alike.
pub proof fn lemma_code_is_kept(code: i32, other: i32)
    ensures
        <EmscriptenResult as FromSpec<i32>>::from_spec(code).code() == code,
        <EmscriptenResult as FromSpec<i32>>::from_spec(code) == <EmscriptenResult as FromSpec<
            i32,
        >>::from_spec(other) ==> code == other,
{
}

/// A code is read as a success exactly where it is 0 or 1.
pub proof fn lemma_success_codes(code: i32)
    ensures
        !(<EmscriptenResult as FromSpec<i32>>::from_spec(code) is Error) <==> code == 0 || code == 1,
{
}

/// Reading the code of a result gives the result back. An `UnknownCode` that holds a code with a
/// name of its own is the one exception.
pub proof fn lemma_result_is_kept(result: EmscriptenResult)
    requires
        result matches EmscriptenResult::Error(EmError::UnknownCode(code)) ==> !(-8 <= code <= 1),
    ensures
        <EmscriptenResult as FromSpec<i32>>::from_spec(result.code() as i32) == result,
{
}

/// The two readings of an error code agree: a code that `EmError` names is that error as a result,
/// and every other failure is an `UnknownCode`.
pub proof fn lemma_readings_agree(code: i32)
    ensures
        match <EmError as TryFromSpec<i32>>::try_from_spec(code) {
            Ok(error) => {
                &&& <EmscriptenResult as FromSpec<i32>>::from_spec(code) == EmscriptenResult::Error(
                    error,
                )
                &&& error.code() == code
            },
            Err(_) => <EmscriptenResult as FromSpec<i32>>::from_spec(code) is Error
                ==> <EmscriptenResult as FromSpec<i32>>::from_spec(code) == EmscriptenResult::Error(
                EmError::UnknownCode(code),
            ),
        },
{
}

} // verus!
