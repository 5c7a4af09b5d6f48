use vstd::prelude::*;

verus! {

/// Declares libgit2's error value so that it can travel through the library
/// as the cause of a failure.
#[verifier::external_type_specification]
#[verifier::external_body]
pub struct ExGitError(git2::Error);

} // verus!
