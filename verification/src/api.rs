//! What the answers of the control plane mean.

use crate::account::ErrorResponse;
use crate::json::{json_document, parse_json, string_member};
use crate::text::opt_text;
use vstd::prelude::*;

verus! {

/// The error of a refused request: what the answer gives under `error`
/// where it is a JSON object with such a string, the whole answer
/// otherwise.
pub open spec fn error_of(body: Seq<char>) -> Seq<char> {
    match json_document(body) {
        Some(answer) => match answer.string_at("error"@) {
            Some(message) => message,
            None => body,
        },
        None => body,
    }
}

/// Reads the answer to a refused request: an error where the answer is a
/// JSON object with a string under `error`.
pub fn parse_error(body: &str) -> (r: Option<ErrorResponse>)
    ensures
        match json_document(body@) {
            Some(answer) => match answer.string_at("error"@) {
                Some(message) => r matches Some(e) && e.error@ == message,
                None => r is None,
            },
            None => r is None,
        },
{
    match parse_json(body) {
        Some(value) => match string_member(&value, "error") {
            Some(error) => Some(ErrorResponse { error }),
            None => None,
        },
        None => None,
    }
}

pub fn error_message(body: &str) -> (message: String)
    ensures
        message@ == error_of(body@),
{
    match parse_error(body) {
        Some(answer) => answer.error,
        None => body.to_owned(),
    }
}

/// The address of a request: base and path, and the name filter where one
/// is given.
pub open spec fn projects_url_of(base: Seq<char>, name: Option<Seq<char>>) -> Seq<char> {
    match name {
        Some(n) => base + "/projects"@ + "?name="@ + n,
        None => base + "/projects"@,
    }
}

pub fn projects_url(base: &str, name: &Option<String>) -> (url: String)
    ensures
        url@ == projects_url_of(base@, opt_text(*name)),
{
    let mut url = base.to_owned();
    url.append("/projects");
    match name {
        Some(n) => {
            url.append("?name=");
            url.append(n.as_str());
        },
        None => {},
    }
    url
}

/// The address under which the credential of a node for an environment of
/// a project is fetched.
pub open spec fn ci_key_url_of(base: Seq<char>, project: Seq<char>, environment: Seq<char>) -> Seq<
    char,
> {
    base + "/nodes/"@ + project + "/"@ + environment + "/ci-private-key"@
}

pub fn ci_key_url(base: &str, project: &str, environment: &str) -> (url: String)
    ensures
        url@ == ci_key_url_of(base@, project@, environment@),
{
    let mut url = base.to_owned();
    url.append("/nodes/");
    url.append(project);
    url.append("/");
    url.append(environment);
    url.append("/ci-private-key");
    url
}

} // verus!
