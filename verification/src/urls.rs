//! URL resolution for manifest and package locations.

use vstd::prelude::*;

verus! {

/// The string of the URL obtained by resolving the reference `rel` against
/// the absolute URL `base`. The outside implementation computes it; the
/// contracts here only name it.
pub uninterp spec fn url_join_of(base: Seq<char>, rel: Seq<char>) -> Seq<char>;

/// Whether resolving the reference `rel` against `base` succeeds. Like the
/// resolved string itself, this is a function of the two strings alone.
pub uninterp spec fn url_joins(base: Seq<char>, rel: Seq<char>) -> bool;

/// Relies on url's `Url::parse` and `Url::join`: resolving a reference
/// against an absolute base URL is a function of the two strings alone,
/// succeeding or failing deterministically in them. `None` when either
/// string cannot be parsed.
#[verifier::external_body]
pub fn join_url(base: &str, rel: &str) -> (r: Option<String>)
    ensures
        r is Some <==> url_joins(base@, rel@),
        r matches Some(u) ==> u@ == url_join_of(base@, rel@),
{
    match url::Url::parse(base) {
        Err(_) => None,
        Ok(b) => match b.join(rel) {
            Err(_) => None,
            Ok(j) => Some(j.as_str().to_owned()),
        },
    }
}

} // verus!
