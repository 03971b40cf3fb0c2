//! The lock marker: a uniquely named file whose presence says that a relaunch
//! is in progress.

use vstd::prelude::*;
use vstd::string::*;

verus! {

/// Whether `c` is one of `0`..`9` or `a`..`f`.
pub open spec fn is_lower_hex(c: char) -> bool {
    ('0' <= c && c <= '9') || ('a' <= c && c <= 'f')
}

/// The shape of a lock token: 36 characters, lower-case hexadecimal digits in
/// groups of 8, 4, 4, 4 and 12, the groups separated by hyphens.
pub open spec fn is_lock_token(token: Seq<char>) -> bool {
    &&& token.len() == 36
    &&& forall|i: int|
        0 <= i < 36 ==> if i == 8 || i == 13 || i == 18 || i == 23 {
            #[trigger] token[i] == '-'
        } else {
            is_lower_hex(token[i])
        }
}

/// The path of the marker that belongs to `token`.
pub open spec fn lock_path_of(token: Seq<char>) -> Seq<char> {
    "/tmp/"@ + token + ".lock"@
}

/// Whether `path` is the marker path of some well-formed token.
pub open spec fn is_lock_path(path: Seq<char>) -> bool {
    exists|token: Seq<char>| is_lock_token(token) && path == #[trigger] lock_path_of(token)
}

/// A fresh random token.
///
/// Trusted: calls `uuid::Uuid::new_v4` and renders the identifier with its
/// `Display` impl, which writes the hyphenated lower-case form. Only the shape
/// of the text is claimed, since the digits are random. The call aborts when
/// the operating system cannot supply random bytes.
#[verifier::external_body]
fn fresh_token() -> (token: String)
    ensures
        is_lock_token(token@),
{
    uuid::Uuid::new_v4().to_string()
}

/// Builds the marker path for `token`: the lock directory, a separator, the
/// token and the fixed suffix.
pub fn lock_file_path(token: &str) -> (path: String)
    ensures
        path@ == lock_path_of(token@),
{
    let mut path = String::from_str("/tmp/");
    path.append(token);
    path.append(".lock");
    path
}

/// Picks a marker path that no other attempt will pick, up to the negligible
/// chance of two equal random tokens.
pub fn generate_lock_file_path() -> (path: String)
    ensures
        is_lock_path(path@),
{
    let token = fresh_token();
    lock_file_path(token.as_str())
}

/// Different tokens give different marker paths: two attempts share a marker
/// only if they drew the same token.
pub proof fn lemma_lock_path_tells_tokens_apart(first: Seq<char>, second: Seq<char>)
    requires
        lock_path_of(first) == lock_path_of(second),
    ensures
        first == second,
{
    let prefix = "/tmp/"@;
    let suffix = ".lock"@;
    let a = lock_path_of(first);
    assert(a.len() == prefix.len() + first.len() + suffix.len());
    assert forall|i: int| 0 <= i < first.len() implies first[i] == second[i] by {
        assert(a[prefix.len() + i] == first[i]);
    }
}

} // verus!
