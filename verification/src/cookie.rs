//! The text of a `Set-Cookie` header, written by the `cookie` crate that
//! `axum-extra` hands on.

use vstd::prelude::*;

verus! {

/// How a cookie of `name` and `value`, with no attribute set, reads in a
/// `Set-Cookie` header.
pub open spec fn cookie_pair(name: Seq<char>, value: Seq<char>) -> Seq<char> {
    name + seq!['='] + value
}

/// Builds a cookie with `Cookie::new` and formats it with its `Display`.
///
/// Trusted: a cookie made by `Cookie::new` carries no attribute, so its
/// display is the name, an equals sign and the value, neither of them
/// encoded or trimmed.
#[verifier::external_body]
pub(crate) fn set_cookie_text(name: &str, value: &str) -> (text: String)
    ensures
        text@ == cookie_pair(name@, value@),
{
    axum_extra::extract::cookie::Cookie::new(name.to_owned(), value.to_owned()).to_string()
}

} // verus!
