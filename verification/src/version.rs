//! The update decision: does the remote version differ from the running one?
//!
//! The version manifest is a plain-text endpoint whose trimmed body is
//! the authoritative remote version string. A version is an opaque token,
//! compared only for inequality — a lexically "older"-looking remote
//! string still counts as an update when it differs. The surrounding
//! application fetches the body; the decision is made here.

use vstd::prelude::*;

verus! {

/// What `str::trim` returns for a string: its characters with leading
/// and trailing whitespace removed. The result depends on the
/// characters alone.
pub uninterp spec fn trimmed_of(s: Seq<char>) -> Seq<char>;

/// Relies on `str::trim` of std: returns the string with leading and
/// trailing whitespace removed — a subslice, so never longer than the
/// input.
#[verifier::external_body]
fn trim_whitespace(s: &str) -> (r: String)
    ensures
        r@ == trimmed_of(s@),
        r@.len() <= s@.len(),
{
    s.trim().to_owned()
}

/// Whether two version strings differ: plain character-for-character
/// inequality, case-sensitive, never a semantic version order.
pub fn version_differs(remote: &String, current: &String) -> (r: bool)
    ensures
        r == (remote@ != current@),
{
    !(*remote == *current)
}

/// Decides from the version-manifest response body and the running
/// version whether an update is needed: true iff the body, trimmed of
/// surrounding whitespace, differs from the current version string.
pub fn need_update(version_body: &str, current_version: &String) -> (r: bool)
    ensures
        r == (trimmed_of(version_body@) != current_version@),
{
    let remote = trim_whitespace(version_body);
    version_differs(&remote, current_version)
}

} // verus!
