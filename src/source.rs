//! The document text: parsing it into `a2lfile`'s document model.

use vstd::prelude::*;
use crate::error::EditorError;

verus! {

#[verifier::external_type_specification]
#[verifier::external_body]
pub struct ExA2lFile(a2lfile::A2lFile);

#[verifier::external_type_specification]
#[verifier::external_body]
pub struct ExA2lError(a2lfile::A2lError);

/// Relies on `a2lfile::load_from_string`: the parsed document and the
/// warnings raised while parsing it, or the error that stopped it; parsed
/// without an extra A2ML specification and without strict checks.
#[verifier::external_body]
fn load_text(text: &str) -> (r: Result<(a2lfile::A2lFile, Vec<a2lfile::A2lError>), a2lfile::A2lError>) {
    a2lfile::load_from_string(text, None, false)
}

/// Relies on the `Display` form of `a2lfile::A2lError`: its message.
#[verifier::external_body]
fn error_message(error: &a2lfile::A2lError) -> (r: String) {
    error.to_string()
}

/// What parsing gives, in the library's terms: the document and the
/// number of warnings, or the parser's message as a parse failure.
pub fn parsed_outcome(
    result: Result<(a2lfile::A2lFile, Vec<a2lfile::A2lError>), a2lfile::A2lError>,
) -> (r: Result<(a2lfile::A2lFile, usize), EditorError>)
    ensures
        match result {
            Ok((file, warnings)) => r matches Ok((f, n)) && f == file && n == warnings@.len(),
            Err(_) => r matches Err(EditorError::Parse(_)),
        },
{
    match result {
        Ok((file, warnings)) => Ok((file, warnings.len())),
        Err(error) => Err(EditorError::Parse(error_message(&error))),
    }
}

/// Parses document text: the document and the number of warnings, or the
/// parser's message as a parse failure.
pub fn parse_a2l(text: &str) -> (r: Result<(a2lfile::A2lFile, usize), EditorError>)
    ensures
        r is Err ==> r matches Err(EditorError::Parse(_)),
{
    parsed_outcome(load_text(text))
}

} // verus!
