//! The reading of return codes.

use crate::result::{EmError, EmscriptenResult};
use crate::websocket::error::Error;
use vstd::prelude::*;

verus! {

/// `EmError::try_from` knows the eight codes from -1 down to -8, each under its own name, and no
/// other.
pub proof fn lemma_error_codes(code: i32, r: Result<EmError, ()>)
    requires
        call_ensures(<EmError as TryFrom<i32>>::try_from, (code,), r),
    ensures
        r is Ok <==> -8 <= code <= -1,
        r == Ok::<EmError, ()>(EmError::NotSupported) <==> code == -1,
        r == Ok::<EmError, ()>(EmError::FailedNotDeferred) <==> code == -2,
        r == Ok::<EmError, ()>(EmError::InvalidTarget) <==> code == -3,
        r == Ok::<EmError, ()>(EmError::UnknownTarget) <==> code == -4,
        r == Ok::<EmError, ()>(EmError::InvalidParam) <==> code == -5,
        r == Ok::<EmError, ()>(EmError::Failed) <==> code == -6,
        r == Ok::<EmError, ()>(EmError::NoData) <==> code == -7,
        r == Ok::<EmError, ()>(EmError::TimedOut) <==> code == -8,
{
}

/// A code is read as success where it is 0, as deferred where it is 1, as the error that `EmError`
/// names where there is one, and as itself everywhere else.
pub proof fn lemma_result_codes(code: i32, named: Result<EmError, ()>, r: EmscriptenResult)
    requires
        call_ensures(<EmError as TryFrom<i32>>::try_from, (code,), named),
        call_ensures(<EmscriptenResult as From<i32>>::from, (code,), r),
    ensures
        r is Success <==> code == 0,
        r is Deferred <==> code == 1,
        named matches Ok(error) ==> r == EmscriptenResult::Error(error),
        named is Err && code != 0 && code != 1 ==> r == EmscriptenResult::Error(
            EmError::UnknownCode(code),
        ),
{
}

/// Different codes are read differently.
pub proof fn lemma_codes_stay_apart(
    code: i32,
    other: i32,
    r: EmscriptenResult,
    r_other: EmscriptenResult,
)
    requires
        call_ensures(<EmscriptenResult as From<i32>>::from, (code,), r),
        call_ensures(<EmscriptenResult as From<i32>>::from, (other,), r_other),
        code != other,
    ensures
        r != r_other,
{
}

/// A result is a success or an error, and never both; success is all that is no error.
pub proof fn lemma_success_or_error(result: EmscriptenResult, ok: bool, err: bool)
    requires
        call_ensures(EmscriptenResult::is_ok, (&result,), ok),
        call_ensures(EmscriptenResult::is_err, (&result,), err),
    ensures
        ok != err,
        err <==> exists|error: EmError| result == EmscriptenResult::Error(error),
{
    if err {
        assert(result == EmscriptenResult::Error(result->0));
    }
}

/// As a `Result`, an error keeps its cause and nothing else is an error; an error of a stream wraps
/// the same cause.
pub proof fn lemma_errors_keep_their_cause(
    result: EmscriptenResult,
    r: Result<(), EmError>,
    of_stream: Result<(), Error>,
)
    requires
        call_ensures(<Result<(), EmError> as From<EmscriptenResult>>::from, (result,), r),
        call_ensures(<Result<(), Error> as From<EmscriptenResult>>::from, (result,), of_stream),
    ensures
        r is Err <==> result is Error,
        of_stream is Err <==> result is Error,
        result matches EmscriptenResult::Error(error) ==> r == Err::<(), EmError>(error)
            && of_stream == Err::<(), Error>(Error::Emscripten(error)),
{
}

} // verus!
