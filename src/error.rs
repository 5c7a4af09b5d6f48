use vstd::prelude::*;

verus! {

/// A failure of one stage: a fixed, stage-specific message and, where the
/// version-control engine reported one, its original error.
#[derive(Debug, PartialEq)]
pub struct StageError {
    pub msg: &'static str,
    pub err: Option<git2::Error>,
}

impl StageError {
    /// A failure that has no engine error behind it.
    pub fn new(msg: &'static str) -> (r: StageError)
        ensures
            r.msg == msg,
            r.err is None,
    {
        StageError { msg: msg, err: None }
    }

    /// A failure caused by the engine error `err`.
    pub fn with_err(msg: &'static str, err: git2::Error) -> (r: StageError)
        ensures
            r.msg == msg,
            r.err == Some(err),
    {
        StageError { msg: msg, err: Some(err) }
    }
}

/// Wraps the error of an engine call with the message of the stage that made
/// it; a success passes through unchanged.
pub fn with_msg<T>(result: Result<T, git2::Error>, msg: &'static str) -> (r: Result<T, StageError>)
    ensures
        result is Ok ==> r == Ok::<T, StageError>(result->Ok_0),
        result is Err ==> r == Err::<T, StageError>(StageError { msg: msg, err: Some(result->Err_0) }),
{
    match result {
        Ok(v) => Ok(v),
        Err(e) => Err(StageError { msg: msg, err: Some(e) }),
    }
}

} // verus!
