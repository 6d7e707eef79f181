//! What the library asks of the version-control backend itself: the text
//! of its failures, and whether a revision is written as an object id.

use crate::error::{ErrorKind, SyncError, SyncErrorView};
use vstd::prelude::*;

verus! {

/// An error as the version-control backend reports it.
#[verifier::external_type_specification]
#[verifier::external_body]
pub struct ExBackendError(git2::Error);

/// The id of an object in a repository.
#[verifier::external_type_specification]
#[verifier::external_body]
pub struct ExObjectId(git2::Oid);

/// A hexadecimal digit, in either case.
pub open spec fn is_hex_digit(c: char) -> bool {
    ||| '0' <= c <= '9'
    ||| 'a' <= c <= 'f'
    ||| 'A' <= c <= 'F'
}

/// A text that is written as an object id, whole or abbreviated: between
/// one and forty hexadecimal digits.
pub open spec fn is_object_id(text: Seq<char>) -> bool {
    &&& 1 <= text.len() <= 40
    &&& forall|i: int| 0 <= i < text.len() ==> is_hex_digit(#[trigger] text[i])
}

/// The object id that a text of hexadecimal digits is read as by
/// `git2::Oid::from_str`: each digit is half a byte, from the left, and what
/// the text leaves open is zero. Meaningful only where `is_object_id(text)`.
pub uninterp spec fn named_object_id(text: Seq<char>) -> git2::Oid;

/// Calls `git2::Error::message`, which hands out the text that the backend
/// gave with a failure. Nothing is claimed of the text.
#[verifier::external_body]
pub(crate) fn backend_error_text(error: &git2::Error) -> (text: String) {
    error.message().to_owned()
}

/// Calls `git2::Oid::from_str`, which reads a text of hexadecimal digits as
/// an object id. It fails where the text is empty, longer than forty
/// characters, or holds anything but hexadecimal digits, and succeeds on
/// every other text. The id that it gives depends on the text alone; the
/// contract gives it the name `named_object_id`.
#[verifier::external_body]
fn parse_object_id(text: &str) -> (parsed: Result<git2::Oid, git2::Error>)
    ensures
        parsed is Ok <==> is_object_id(text@),
        parsed matches Ok(id) ==> id == named_object_id(text@),
{
    git2::Oid::from_str(text)
}

/// A failure of the backend, with the text that it gave.
pub fn backend_failure(text: String) -> (error: SyncError)
    ensures
        error@ == (SyncErrorView { kind: ErrorKind::BackendError, detail: text@ }),
{
    SyncError { kind: ErrorKind::BackendError, detail: text }
}

/// The object id that a revision names. A revision that is not written as
/// an object id is a `BackendError`.
pub fn object_id(revision: &str) -> (id: Result<git2::Oid, SyncError>)
    ensures
        id is Ok <==> is_object_id(revision@),
        id matches Ok(found) ==> found == named_object_id(revision@),
        id matches Err(error) ==> error.kind == ErrorKind::BackendError,
{
    match parse_object_id(revision) {
        Ok(id) => Ok(id),
        Err(failure) => Err(backend_failure(backend_error_text(&failure))),
    }
}

} // verus!
