//! Reading the version service's answer.

use vstd::prelude::*;
use crate::error::{InstallError, ErrorView};

verus! {

/// What serde_json finds, as text, under `key` at the top level of the JSON
/// document `body`: `Ok(None)` where `body` is not an object, lacks the key,
/// or holds something other than a string there; `Err` with serde_json's
/// error text where `body` is no JSON.
pub uninterp spec fn json_string_field(body: Seq<char>, key: Seq<char>) -> Result<
    Option<Seq<char>>,
    Seq<char>,
>;

/// A lookup result seen as text.
pub open spec fn lookup_view(r: Result<Option<String>, String>) -> Result<Option<Seq<char>>, Seq<char>> {
    match r {
        Ok(Some(s)) => Ok(Some(s@)),
        Ok(None) => Ok(None),
        Err(e) => Err(e@),
    }
}

/// Relies on `serde_json::from_str` and `Value::get` / `Value::as_str`:
/// parses `body` and reads the string under `key`. Empty input is no JSON.
#[verifier::external_body]
fn string_field(body: &str, key: &str) -> (r: Result<Option<String>, String>)
    ensures
        lookup_view(r) == json_string_field(body@, key@),
        body@.len() == 0 ==> r is Err,
{
    match serde_json::from_str::<serde_json::Value>(body) {
        Ok(v) => Ok(v.get(key).and_then(|f| f.as_str()).map(|s| s.to_string())),
        Err(e) => Err(e.to_string()),
    }
}

pub open spec fn is_success(status: u16) -> bool {
    200 <= status < 300
}

/// The version named by an answer with HTTP status `status` (written
/// `status_text`) whose version field reads `field`.
pub open spec fn version_outcome(
    status: u16,
    status_text: Seq<char>,
    field: Result<Option<Seq<char>>, Seq<char>>,
) -> Result<Seq<char>, ErrorView> {
    if !is_success(status) {
        Err(ErrorView::Network { status, status_text })
    } else {
        match field {
            Ok(Some(v)) => Ok(v),
            Ok(None) => Err(ErrorView::Parse { detail: None }),
            Err(d) => Err(ErrorView::Parse { detail: Some(d) }),
        }
    }
}

/// Whether `r` is the result `outcome` describes.
pub open spec fn is_outcome(r: Result<String, InstallError>, outcome: Result<Seq<char>, ErrorView>) -> bool {
    match (r, outcome) {
        (Ok(v), Ok(w)) => v@ == w,
        (Err(e), Err(f)) => e@ == f,
        _ => false,
    }
}

/// Decides on the answer, given what its version field holds.
pub fn version_from_field(
    status: u16,
    status_text: String,
    field: Result<Option<String>, String>,
) -> (r: Result<String, InstallError>)
    ensures
        is_outcome(r, version_outcome(status, status_text@, lookup_view(field))),
{
    if status < 200 || status >= 300 {
        return Err(InstallError::Network { status, status_text });
    }
    match field {
        Ok(Some(v)) => Ok(v),
        Ok(None) => Err(InstallError::Parse { detail: None }),
        Err(d) => Err(InstallError::Parse { detail: Some(d) }),
    }
}

/// The version named by the version service's answer: its status must be a
/// success and its JSON body must carry the version as a string under
/// `clientVersionUpload`.
pub fn parse_version_response(status: u16, status_text: String, body: &str) -> (r: Result<
    String,
    InstallError,
>)
    ensures
        is_outcome(
            r,
            version_outcome(status, status_text@, json_string_field(body@, "clientVersionUpload"@)),
        ),
{
    let field = string_field(body, "clientVersionUpload");
    version_from_field(status, status_text, field)
}

} // verus!
