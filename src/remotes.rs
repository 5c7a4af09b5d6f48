use crate::error::StageError;
use vstd::prelude::*;

verus! {

/// A remote whose name and URL are both text and whose lookup succeeded:
/// the only kind of remote that is ever fetched from.
#[derive(Debug, PartialEq, Eq)]
pub struct ValidatedRemote {
    pub name: String,
    pub url: String,
}

/// What validation concluded about one configured remote.
#[derive(Debug, PartialEq)]
pub enum RemoteOutcome {
    Valid(ValidatedRemote),
    /// Left out of fetching; `name` is absent when it was not text.
    Invalid { name: Option<String>, error: StageError },
}

/// Checks the configured remote list: listing it must have succeeded and it
/// must not be empty. The names come back in their configured order.
pub fn get_remotes(listed: Result<Vec<Option<String>>, git2::Error>) -> (r: Result<
    Vec<Option<String>>,
    StageError,
>)
    ensures
        listed is Err ==> r == Err::<Vec<Option<String>>, StageError>(
            StageError { msg: "cannot list remotes", err: Some(listed->Err_0) },
        ),
        listed is Ok && listed->Ok_0@.len() == 0 ==> r == Err::<Vec<Option<String>>, StageError>(
            StageError { msg: "does not have remote repository", err: None },
        ),
        listed is Ok && listed->Ok_0@.len() > 0 ==> r == Ok::<Vec<Option<String>>, StageError>(listed->Ok_0),
{
    match listed {
        Err(e) => Err(StageError::with_err("cannot list remotes", e)),
        Ok(names) => {
            if names.len() == 0 {
                Err(StageError::new("does not have remote repository"))
            } else {
                Ok(names)
            }
        },
    }
}

/// Decides whether the remote called `name` is usable, from the outcome of
/// looking it up: the lookup must succeed and yield a URL that is text.
pub fn get_remote_validation(name: String, lookup: Result<Option<String>, git2::Error>) -> (r:
    Result<ValidatedRemote, StageError>)
    ensures
        lookup is Err ==> r == Err::<ValidatedRemote, StageError>(
            StageError { msg: "remote lookup failed", err: Some(lookup->Err_0) },
        ),
        lookup == Ok::<Option<String>, git2::Error>(None) ==> r == Err::<
            ValidatedRemote,
            StageError,
        >(StageError { msg: "non-representable remote URL", err: None }),
        lookup is Ok && lookup->Ok_0 is Some ==> r == Ok::<ValidatedRemote, StageError>(
            ValidatedRemote { name: name, url: lookup->Ok_0->Some_0 },
        ),
{
    match lookup {
        Err(e) => Err(StageError::with_err("remote lookup failed", e)),
        Ok(None) => Err(StageError::new("non-representable remote URL")),
        Ok(Some(url)) => Ok(ValidatedRemote { name: name, url: url }),
    }
}

} // verus!
