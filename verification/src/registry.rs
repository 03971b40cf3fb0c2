//! The registry: where to ask for the published versions of a package, and
//! what its answer means.

use vstd::prelude::*;
use vstd::string::*;
use crate::json::{parse, parsed_json, Json, JsonView};
use crate::outcome::FetchFailure;

verus! {

/// The address that lists the versions of `package_id`.
pub open spec fn registry_url_of(package_id: Seq<char>) -> Seq<char> {
    "https://crates.io/api/v1/crates/"@ + package_id + "/versions"@
}

/// The text by which a client of version `version` names itself to the registry.
pub open spec fn user_agent_of(version: Seq<char>) -> Seq<char> {
    "rspawn/"@ + version + " (https://github.com/jgabaut/rspawn"@
}

/// Builds the address to query for the versions of `package_id`.
pub fn registry_url(package_id: &str) -> (url: String)
    ensures
        url@ == registry_url_of(package_id@),
{
    let mut url = String::from_str("https://crates.io/api/v1/crates/");
    url.append(package_id);
    url.append("/versions");
    url
}

/// Builds the user-agent header for a client of version `version`.
pub fn user_agent(version: &str) -> (agent: String)
    ensures
        agent@ == user_agent_of(version@),
{
    let mut agent = String::from_str("rspawn/");
    agent.append(version);
    agent.append(" (https://github.com/jgabaut/rspawn");
    agent
}

/// Whether `status` is in the success range of HTTP, 200 to 299.
pub open spec fn is_success_status(status: u16) -> bool {
    200 <= status < 300
}

/// Whether a response with `status` carries what was asked for.
pub fn is_success(status: u16) -> (ok: bool)
    ensures
        ok == is_success_status(status),
{
    200 <= status && status < 300
}

/// The latest version that the listing `document` names: the text of the
/// member `num` of the first record in its array `versions`.
pub open spec fn latest_version_in(document: JsonView) -> Option<Seq<char>> {
    match document.member("versions"@) {
        Some(JsonView::Array(records)) => if records.len() > 0 {
            match records[0].member("num"@) {
                Some(JsonView::Text(number)) => Some(number),
                _ => None,
            }
        } else {
            None
        },
        _ => None,
    }
}

/// Reads the latest version out of a version listing. The registry lists the
/// newest version first.
pub fn latest_version(document: &Json) -> (latest: Option<String>)
    ensures
        match latest {
            Some(version) => latest_version_in(document@) == Some(version@),
            None => latest_version_in(document@) is None,
        },
{
    let records = match document.member("versions") {
        Some(versions) => match versions.as_array() {
            Some(records) => records,
            None => { return None; },
        },
        None => { return None; },
    };
    if records.len() == 0 {
        return None;
    }
    match records[0].member("num") {
        Some(number) => match number.as_str() {
            Some(text) => Some(text.to_owned()),
            None => None,
        },
        None => None,
    }
}

/// What came back from the registry.
#[derive(Debug, PartialEq, Eq)]
pub enum RegistryReply {
    /// The request could not be carried out.
    Unreachable,
    /// A response came with `status`. `body` is its text, or nothing where the
    /// text was not read.
    Answered { status: u16, body: Option<String> },
}

/// The mathematical content of a [`RegistryReply`].
pub enum RegistryReplyView {
    Unreachable,
    Answered { status: u16, body: Option<Seq<char>> },
}

impl View for RegistryReply {
    type V = RegistryReplyView;

    open spec fn view(&self) -> RegistryReplyView {
        match *self {
            RegistryReply::Unreachable => RegistryReplyView::Unreachable,
            RegistryReply::Answered { status, body } => RegistryReplyView::Answered {
                status,
                body: match body {
                    Some(text) => Some(text@),
                    None => None,
                },
            },
        }
    }
}

/// What a body that parses to `parsed` yields.
pub open spec fn latest_in_parsed(parsed: Option<JsonView>) -> Result<Seq<char>, FetchFailure> {
    match parsed {
        None => Err(FetchFailure::Parse),
        Some(document) => match latest_version_in(document) {
            Some(version) => Ok(version),
            None => Err(FetchFailure::Parse),
        },
    }
}

/// What `reply` yields: the latest version, or the reason why there is none.
/// A status outside the success range is reported before the body is looked at.
pub open spec fn resolved(reply: RegistryReplyView) -> Result<Seq<char>, FetchFailure> {
    match reply {
        RegistryReplyView::Unreachable => Err(FetchFailure::Network),
        RegistryReplyView::Answered { status, body } => if !is_success_status(status) {
            Err(FetchFailure::HttpStatus(status))
        } else {
            match body {
                None => Err(FetchFailure::Network),
                Some(text) => latest_in_parsed(parsed_json(text)),
            }
        },
    }
}

/// The content of a result that holds a text.
pub open spec fn result_view(result: Result<String, FetchFailure>) -> Result<Seq<char>, FetchFailure> {
    match result {
        Ok(text) => Ok(text@),
        Err(failure) => Err(failure),
    }
}

/// Reads the latest version out of the text of a response.
pub fn latest_in_body(body: &str) -> (latest: Result<String, FetchFailure>)
    ensures
        result_view(latest) == latest_in_parsed(parsed_json(body@)),
{
    match parse(body) {
        Err(_) => Err(FetchFailure::Parse),
        Ok(document) => match latest_version(&document) {
            Some(version) => Ok(version),
            None => Err(FetchFailure::Parse),
        },
    }
}

/// Turns what came back from the registry into the latest version, or into
/// the reason why it is not known.
pub fn resolve_latest(reply: &RegistryReply) -> (latest: Result<String, FetchFailure>)
    ensures
        result_view(latest) == resolved(reply@),
{
    match reply {
        RegistryReply::Unreachable => Err(FetchFailure::Network),
        RegistryReply::Answered { status, body } => {
            if !is_success(*status) {
                Err(FetchFailure::HttpStatus(*status))
            } else {
                match body {
                    None => Err(FetchFailure::Network),
                    Some(text) => latest_in_body(text.as_str()),
                }
            }
        },
    }
}

} // verus!
