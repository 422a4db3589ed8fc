//! The backend gateway: where a request goes and what its answer means.
//! Sending the request is left to the caller; this module builds the
//! address beforehand and judges the outcome afterwards.

use vstd::prelude::*;
use vstd::string::StringExecFns;
use crate::config::Config;
use crate::lookup::{lookup_view, text_lookup, Texts};

verus! {

/// How an exchange with the backend ended, as the transport reports it.
#[derive(Debug, PartialEq, Eq)]
pub enum Transfer {
    /// No answer arrived.
    Failed,
    /// An answer arrived, with this HTTP status and this body.
    Completed { status: u16, body: String },
}

/// What this library reads of the document that the backend answers with.
#[derive(Debug, PartialEq, Eq)]
pub struct Reply {
    /// The text under `token`, if the document has one.
    pub token: Option<String>,
}

/// Why a backend call gave no document.
#[derive(Debug, PartialEq, Eq)]
pub enum GatewayError {
    /// The connection failed.
    Connection,
    /// The backend answered with a status outside 200..=299.
    Status(u16),
    /// The body is not a JSON document; the parser's message is attached.
    Malformed(String),
}

/// The ways a backend call can fail, without the parser's message.
pub enum GatewayFailure {
    Connection,
    Status(u16),
    Malformed,
}

/// The view of the outcome of a backend call.
pub open spec fn outcome_view(outcome: Result<Reply, GatewayError>) -> Result<
    Option<Seq<char>>,
    GatewayFailure,
> {
    match outcome {
        Ok(Reply { token: Some(token) }) => Ok(Some(token@)),
        Ok(Reply { token: None }) => Ok(None),
        Err(GatewayError::Connection) => Err(GatewayFailure::Connection),
        Err(GatewayError::Status(status)) => Err(GatewayFailure::Status(status)),
        Err(GatewayError::Malformed(_)) => Err(GatewayFailure::Malformed),
    }
}

/// The address of `path` at the backend: the root, the access token and the
/// path, joined by slashes.
pub open spec fn address_of(config: Config, path: Seq<char>) -> Seq<char> {
    config.root_url@ + seq!['/'] + config.api_token@ + seq!['/'] + path
}

/// Whether an HTTP status reports success.
pub open spec fn is_success(status: u16) -> bool {
    200 <= status < 300
}

/// What a parsed body gives: the token when the body is a document, a
/// failure when it is not.
pub open spec fn decoded(found: Option<Option<Seq<char>>>) -> Result<
    Option<Seq<char>>,
    GatewayFailure,
> {
    match found {
        Some(token) => Ok(token),
        None => Err(GatewayFailure::Malformed),
    }
}

/// What an exchange gives: a failed connection and a status outside
/// 200..=299 are failures, and so is a body that the JSON parser rejects;
/// otherwise the answer is the token that the document holds, if any.
pub open spec fn interpreted(transfer: Transfer) -> Result<Option<Seq<char>>, GatewayFailure> {
    match transfer {
        Transfer::Failed => Err(GatewayFailure::Connection),
        Transfer::Completed { status, body } => if is_success(status) {
            decoded(text_lookup(json_texts(body@), "token"@))
        } else {
            Err(GatewayFailure::Status(status))
        },
    }
}

/// The members of the top-level object of the JSON document `text` whose
/// values are strings, by name, as `serde_json::from_str` parses it; `None`
/// when the parser rejects the text. A document that is no object has no
/// members.
pub uninterp spec fn json_texts(text: Seq<char>) -> Texts;

/// Parses `text` with `serde_json::from_str::<serde_json::Value>` and looks
/// `name` up with `serde_json::Value::get` and `serde_json::Value::as_str`.
/// The contract claims that the outcome is the lookup of `name` in
/// [`json_texts`]: an error exactly when the parser rejects the text, and
/// otherwise the string under `name`, if the document has one there.
/// Nothing is claimed about the wording of the error.
#[verifier::external_body]
fn json_text_member(text: &str, name: &str) -> (found: Result<Option<String>, String>)
    ensures
        lookup_view(found) == text_lookup(json_texts(text@), name@),
{
    match serde_json::from_str::<serde_json::Value>(text) {
        Ok(value) => Ok(value.get(name).and_then(serde_json::Value::as_str).map(str::to_owned)),
        Err(error) => Err(error.to_string()),
    }
}

/// Builds the address that a call for `path` goes to.
pub fn address(config: &Config, path: &str) -> (url: String)
    ensures
        url@ == address_of(*config, path@),
{
    let mut url = config.root_url.clone();
    url.push('/');
    url.append(config.api_token.as_str());
    url.push('/');
    url.append(path);
    url
}

/// Whether `status` reports success.
pub fn succeeded(status: u16) -> (r: bool)
    ensures
        r == is_success(status),
{
    200 <= status && status < 300
}

/// Turns the outcome of looking up the token in a body into the outcome of
/// the call.
pub fn decode(found: Result<Option<String>, String>) -> (r: Result<Reply, GatewayError>)
    ensures
        outcome_view(r) == decoded(lookup_view(found)),
        found matches Ok(token) ==> r == Ok::<Reply, GatewayError>(Reply { token }),
        found matches Err(message) ==> r == Err::<Reply, GatewayError>(
            GatewayError::Malformed(message),
        ),
{
    match found {
        Ok(token) => Ok(Reply { token }),
        Err(message) => Err(GatewayError::Malformed(message)),
    }
}

/// Judges an exchange: a failed connection and a status outside 200..=299
/// are errors, and so is a body that is no JSON document; otherwise the
/// answer is what the document holds.
pub fn interpret(transfer: &Transfer) -> (r: Result<Reply, GatewayError>)
    ensures
        outcome_view(r) == interpreted(*transfer),
{
    match transfer {
        Transfer::Failed => Err(GatewayError::Connection),
        Transfer::Completed { status, body } => {
            if succeeded(*status) {
                decode(json_text_member(body.as_str(), "token"))
            } else {
                Err(GatewayError::Status(*status))
            }
        },
    }
}

/// Under one configuration, different paths have different addresses.
pub proof fn law_address_tells_paths_apart(config: Config, first: Seq<char>, second: Seq<char>)
    requires
        address_of(config, first) == address_of(config, second),
    ensures
        first == second,
{
    let prefix = config.root_url@ + seq!['/'] + config.api_token@ + seq!['/'];
    let a = address_of(config, first);
    let b = address_of(config, second);
    assert(a.len() == prefix.len() + first.len());
    assert(b.len() == prefix.len() + second.len());
    assert forall|i: int| 0 <= i < first.len() implies first[i] == second[i] by {
        assert(a[prefix.len() + i] == first[i]);
        assert(b[prefix.len() + i] == second[i]);
    }
    assert(first =~= second);
}

} // verus!
