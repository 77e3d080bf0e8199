//! Trusted declarations for the JSON handling behind the default-branch
//! lookup, and the verified extraction around them.
//!
//! The lookup asks the forge client for `{"defaultBranchRef":{"name":...}}`;
//! serde_json parses the document, and the verified code walks it and maps
//! every shortfall to [`GitError::MalformedDefaultBranch`].

use vstd::prelude::*;
use vstd::string::StrSliceExecFns;
use vstd::string::StringExecFns;

use crate::git::GitError;
use crate::text::trim;

verus! {

/// Relies on serde_json::Value, the parsed form of a JSON document; the
/// verified code only carries values of it between the calls declared here.
#[verifier::external_type_specification]
#[verifier::external_body]
pub struct ExJsonValue(serde_json::Value);

/// Relies on serde_json::Error, the parser's error; the verified code maps
/// it to the library's own error and never looks inside.
#[verifier::external_type_specification]
#[verifier::external_body]
pub struct ExJsonError(serde_json::Error);

/// Relies on serde_json's `FromStr` impl for `Value`: parses a JSON
/// document, or reports a syntax error.
pub assume_specification[ <serde_json::Value as core::str::FromStr>::from_str ](s: &str) -> Result<
    serde_json::Value,
    serde_json::Error,
>;

/// Relies on serde_json::Value::get: indexes into a JSON object or array,
/// `None` when the key is absent or the value is not indexable.
pub assume_specification<I: serde_json::value::Index>[ serde_json::Value::get ](
    v: &serde_json::Value,
    index: I,
) -> Option<&serde_json::Value>;

/// Relies on serde_json::Value::as_str: the payload of a JSON string value,
/// `None` for any other kind of value.
pub assume_specification[ serde_json::Value::as_str ](v: &serde_json::Value) -> Option<&str>;

/// The default branch name carried in the forge client's JSON answer: the
/// trimmed string at `defaultBranchRef.name`. Every missing piece is a
/// malformed-output error.
pub fn default_branch_from_json(output: &str) -> (r: Result<String, GitError>)
    ensures
        r matches Err(e) ==> e matches GitError::MalformedDefaultBranch { .. },
{
    let parsed = <serde_json::Value as core::str::FromStr>::from_str(output);
    match parsed {
        Ok(doc) => match doc.get("defaultBranchRef") {
            Some(default_branch_ref) => match default_branch_ref.get("name") {
                Some(name_value) => match name_value.as_str() {
                    Some(name) => Ok(trim(name).to_owned()),
                    None => Err(
                        GitError::MalformedDefaultBranch {
                            detail: "defaultBranchRef.name is not a string".to_owned(),
                        },
                    ),
                },
                None => Err(
                    GitError::MalformedDefaultBranch {
                        detail: "defaultBranchRef has no name field".to_owned(),
                    },
                ),
            },
            None => Err(
                GitError::MalformedDefaultBranch {
                    detail: "output has no defaultBranchRef field".to_owned(),
                },
            ),
        },
        Err(_) => Err(
            GitError::MalformedDefaultBranch { detail: "output is not valid JSON".to_owned() },
        ),
    }
}

} // verus!
