//! Upper-casing of a project's name.
use vstd::prelude::*;

verus! {

/// The upper-case form of a text as Unicode defines it, character by character, where one
/// character may become several.
pub uninterp spec fn uppercase(s: Seq<char>) -> Seq<char>;

/// The upper-case form of `s`.
///
/// Trusted: the body is `str::to_uppercase`, whose result depends on the text alone. The
/// contract only gives that result its name.
#[verifier::external_body]
pub(crate) fn to_uppercase(s: &str) -> (upper: String)
    ensures
        upper@ == uppercase(s@),
{
    s.to_uppercase()
}

} // verus!
