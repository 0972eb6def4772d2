//! The bytecode loader: from the text of the compiled circuit artifact, a JSON
//! document, to the circuit bytecode that it holds.

use vstd::prelude::*;

verus! {

/// A parsed JSON document. The library carries it from the parser to the
/// lookup and reads it through `string_members` alone.
#[verifier::external_type_specification]
#[verifier::external_body]
pub struct ExJsonValue(serde_json::Value);

/// The reason why a text is no JSON document.
#[verifier::external_type_specification]
#[verifier::external_body]
pub struct ExJsonError(serde_json::Error);

/// The string members of a JSON document: where the document is an object,
/// each key whose member is a string, with that string; nothing otherwise.
pub uninterp spec fn string_members(document: serde_json::Value) -> Map<Seq<char>, Seq<char>>;

/// The string members of the document that a text parses to, where the text
/// is a JSON document.
pub uninterp spec fn parsed_string_members(text: Seq<char>) -> Option<Map<Seq<char>, Seq<char>>>;

/// Parses a JSON text with `serde_json::from_str`, as a `serde_json::Value`.
///
/// Trusted: nothing is claimed of what the parser accepts, only that it
/// depends on the text alone, so that the outcome has a name:
/// `parsed_string_members`.
#[verifier::external_body]
fn parse_document(text: &str) -> (r: Result<serde_json::Value, serde_json::Error>)
    ensures
        match r {
            Ok(document) => parsed_string_members(text@) == Some(string_members(document)),
            Err(_) => parsed_string_members(text@) is None,
        },
{
    serde_json::from_str::<serde_json::Value>(text)
}

/// Looks a member up with `serde_json::Value::get` and reads it with
/// `serde_json::Value::as_str`.
///
/// Trusted: `get` hands out the member under `key` where the document is an
/// object that has one, and `as_str` its text where it is a string; that is
/// the entry of `string_members` under `key`, and there is none otherwise.
#[verifier::external_body]
fn string_member<'a>(document: &'a serde_json::Value, key: &str) -> (r: Option<&'a str>)
    ensures
        match r {
            Some(text) => string_members(*document).contains_key(key@) && string_members(
                *document,
            )[key@] == text@,
            None => !string_members(*document).contains_key(key@),
        },
{
    match document.get(key) {
        Some(member) => member.as_str(),
        None => None,
    }
}

/// Why the circuit artifact gave no bytecode.
#[derive(Clone, Copy, Debug, PartialEq, Eq, Structural)]
pub enum ArtifactError {
    /// The artifact is not a JSON document.
    Malformed,
    /// The document has no `bytecode` member that is a string.
    MissingBytecode,
}

/// The key under which the artifact holds the circuit bytecode.
pub open spec fn bytecode_key() -> Seq<char> {
    "bytecode"@
}

/// The bytecode that a looked-up member gives.
pub open spec fn member_bytecode(member: Option<Seq<char>>) -> Result<Seq<char>, ArtifactError> {
    match member {
        Some(text) => Ok(text),
        None => Err(ArtifactError::MissingBytecode),
    }
}

/// The bytecode that an artifact text holds: the string member `bytecode` of
/// the JSON document that the text parses to.
pub open spec fn artifact_bytecode(text: Seq<char>) -> Result<Seq<char>, ArtifactError> {
    match parsed_string_members(text) {
        None => Err(ArtifactError::Malformed),
        Some(members) => member_bytecode(
            if members.contains_key(bytecode_key()) {
                Some(members[bytecode_key()])
            } else {
                None
            },
        ),
    }
}

/// The bytecode, given what the lookup of the `bytecode` member found: its
/// text where there is such a string member, and the error where there is not.
pub fn bytecode_from_member(member: Option<&str>) -> (r: Result<String, ArtifactError>)
    ensures
        match r {
            Ok(bytecode) => member matches Some(text) && bytecode@ == text@,
            Err(e) => member is None && e == ArtifactError::MissingBytecode,
        },
{
    match member {
        Some(text) => Ok(text.to_owned()),
        None => Err(ArtifactError::MissingBytecode),
    }
}

/// Loads the circuit bytecode from the text of the artifact.
///
/// The same text always gives the same outcome: the bytecode where the text
/// is a JSON document with a string member `bytecode`, `Malformed` where it
/// is no JSON document, and `MissingBytecode` where the member is missing or
/// no string.
pub fn load_bytecode(artifact: &str) -> (r: Result<String, ArtifactError>)
    ensures
        match r {
            Ok(bytecode) => artifact_bytecode(artifact@) == Ok::<Seq<char>, ArtifactError>(
                bytecode@,
            ),
            Err(e) => artifact_bytecode(artifact@) == Err::<Seq<char>, ArtifactError>(e),
        },
{
    match parse_document(artifact) {
        Err(_) => Err(ArtifactError::Malformed),
        Ok(document) => bytecode_from_member(string_member(&document, "bytecode")),
    }
}

} // verus!
