//! The default confirmation policy: what it asks, and which replies it takes
//! for a yes.
//!
//! Writing the question and reading the reply are left to the caller.

use vstd::prelude::*;
use vstd::string::*;

verus! {

/// `text` without the white space at its two ends, as `str::trim` gives it.
pub uninterp spec fn trimmed(text: Seq<char>) -> Seq<char>;

/// `text` in lower case, as `str::to_lowercase` gives it.
pub uninterp spec fn lowercased(text: Seq<char>) -> Seq<char>;

/// Removes the white space at the two ends of `text`.
///
/// Trusted: calls `str::trim`, whose result depends on the text alone and is
/// named by [`trimmed`]. What counts as white space is Unicode's affair.
#[verifier::external_body]
fn trim(text: &str) -> (inner: &str)
    ensures
        inner@ == trimmed(text@),
{
    text.trim()
}

/// Turns `text` into lower case.
///
/// Trusted: calls `str::to_lowercase`, whose result depends on the text alone
/// and is named by [`lowercased`]. Which letters have a lower case is
/// Unicode's affair.
#[verifier::external_body]
fn to_lowercase(text: &str) -> (lower: String)
    ensures
        lower@ == lowercased(text@),
{
    text.to_lowercase()
}

/// The question that the default policy puts about `version`.
pub open spec fn prompt_of(version: Seq<char>) -> Seq<char> {
    "A new version "@ + version + " is available. Would you like to install it? (y/n): "@
}

/// Builds the question to put about `version`.
pub fn confirmation_prompt(version: &str) -> (prompt: String)
    ensures
        prompt@ == prompt_of(version@),
{
    let mut prompt = String::from_str("A new version ");
    prompt.append(version);
    prompt.append(" is available. Would you like to install it? (y/n): ");
    prompt
}

/// The reply that the default policy takes for a yes.
pub fn default_affirmative() -> (token: &'static str)
    ensures
        token@ == "y"@,
{
    "y"
}

/// Whether a reply that has been trimmed and put in lower case is the
/// affirmative `token`.
pub fn is_affirmative(normalized: &str, token: &str) -> (yes: bool)
    ensures
        yes == (normalized@ == token@),
{
    normalized.to_owned() == token.to_owned()
}

/// Whether `response` accepts: trimmed and put in lower case, it is the
/// affirmative `token`. Everything else declines.
pub fn accepts(response: &str, token: &str) -> (yes: bool)
    ensures
        yes == (lowercased(trimmed(response@)) == token@),
{
    let normalized = to_lowercase(trim(response));
    is_affirmative(normalized.as_str(), token)
}

/// Whether `response` accepts under the default policy.
pub fn default_user_confirm(response: &str) -> (yes: bool)
    ensures
        yes == (lowercased(trimmed(response@)) == "y"@),
{
    accepts(response, default_affirmative())
}

} // verus!
