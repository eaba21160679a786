//! Handing requests on to the development asset server.

use crate::response::{plain_text, Reply, ReplyView, STATUS_BAD_GATEWAY};
use crate::text::text_of;
use vstd::prelude::*;
use vstd::string::StringExecFns;

verus! {

/// Base address of the development asset server.
pub const VITE_SERVER: &'static str = "http://localhost:5173";

/// Where a request goes on the asset server: the server's base address
/// followed by the request's path and query, if it has any.
pub open spec fn upstream_address(path_and_query: Option<Seq<char>>) -> Seq<char> {
    match path_and_query {
        Some(rest) => VITE_SERVER@ + rest,
        None => VITE_SERVER@,
    }
}

/// The address on the asset server of a request with this path and query.
pub fn upstream_url(path_and_query: Option<&str>) -> (url: String)
    ensures
        url@ == upstream_address(text_of(path_and_query)),
{
    let mut url = VITE_SERVER.to_owned();
    match path_and_query {
        Some(rest) => {
            url.append(rest);
        },
        None => {},
    }
    url
}

/// The answer to a request that the asset server did not take: a bad
/// gateway, with the reason in words.
pub open spec fn failure_reply(detail: Seq<char>) -> ReplyView {
    plain_text(
        STATUS_BAD_GATEWAY,
        "Failed to proxy request to Vite server at "@ + VITE_SERVER@ + ". Error: "@ + detail,
    )
}

/// The answer to a request that the asset server did not take; `detail` is
/// what the HTTP client says of the failure.
pub fn proxy_failure(detail: &str) -> (reply: Reply)
    ensures
        reply@ == failure_reply(detail@),
{
    let mut body = "Failed to proxy request to Vite server at ".to_owned();
    body.append(VITE_SERVER);
    body.append(". Error: ");
    body.append(detail);
    Reply::text(STATUS_BAD_GATEWAY, body)
}

} // verus!
