//! The session credential, and the session gate that asks for it.
//!
//! The credential is a cookie that carries the access token. The session
//! gate looks for the cookie's name in the request and nothing more: the
//! value is not verified. `decide` takes the verdict on the credential as an
//! argument, so that a stricter judge than `has_session` can stand in front
//! of it.

use crate::cookie::{cookie_pair, set_cookie_text};
use crate::response::{redirect_to, Reply, ReplyView};
use crate::text::{contains, occurs_at, occurs_in, same_text, text_of};
use vstd::prelude::*;

verus! {

/// Name of the cookie that carries the access token.
pub const SESSION_COOKIE: &'static str = "auth_token";

/// Path of the endpoint that begins the handshake.
pub const AUTH_PATH: &'static str = "/auth";

/// Path of the endpoint that the platform calls back.
pub const CALLBACK_PATH: &'static str = "/auth/callback";

/// The `Set-Cookie` value that hands `token` to the browser.
pub open spec fn session_cookie(token: Seq<char>) -> Seq<char> {
    cookie_pair(SESSION_COOKIE@, token)
}

/// The `Set-Cookie` value that hands `token` to the browser.
pub fn issue_session(token: &str) -> (cookie: String)
    ensures
        cookie@ == session_cookie(token@),
{
    set_cookie_text(SESSION_COOKIE, token)
}

/// A request whose `cookie` header is `cookie` carries the credential: the
/// header is there and the cookie's name stands somewhere in it.
pub open spec fn carries_session(cookie: Option<Seq<char>>) -> bool {
    cookie matches Some(header) && occurs_in(SESSION_COOKIE@, header)
}

/// `path` is one of the two handshake endpoints.
pub open spec fn is_handshake_path(path: Seq<char>) -> bool {
    path == AUTH_PATH@ || path == CALLBACK_PATH@
}

/// What the session gate does with a request.
#[derive(Debug, PartialEq, Eq)]
pub enum GateDecision {
    /// Hand the request to its handler as it is.
    Forward,
    /// Answer with this redirect instead.
    Redirect(Reply),
}

/// A `GateDecision` as the contracts see it.
pub enum GateDecisionView {
    Forward,
    Redirect(ReplyView),
}

impl View for GateDecision {
    type V = GateDecisionView;

    open spec fn view(&self) -> GateDecisionView {
        match self {
            GateDecision::Forward => GateDecisionView::Forward,
            GateDecision::Redirect(reply) => GateDecisionView::Redirect(reply@),
        }
    }
}

/// The rule of the session gate: the handshake endpoints always pass; any other path
/// passes with a credential and is sent to the start of the handshake
/// without one.
pub open spec fn gate(path: Seq<char>, credential: bool) -> GateDecisionView {
    if is_handshake_path(path) || credential {
        GateDecisionView::Forward
    } else {
        GateDecisionView::Redirect(redirect_to(AUTH_PATH@))
    }
}

/// Whether the request's `cookie` header, if it has one, names the session
/// cookie. The cookie's value is not looked at.
pub fn has_session(cookie: Option<&str>) -> (present: bool)
    ensures
        present == carries_session(text_of(cookie)),
{
    match cookie {
        Some(header) => contains(header, SESSION_COOKIE),
        None => false,
    }
}

/// Decides on a request to `path`, given the verdict on its credential.
pub fn decide(path: &str, credential: bool) -> (decision: GateDecision)
    ensures
        decision@ == gate(path@, credential),
{
    if same_text(path, AUTH_PATH) || same_text(path, CALLBACK_PATH) || credential {
        GateDecision::Forward
    } else {
        GateDecision::Redirect(Reply::redirect(AUTH_PATH.to_owned()))
    }
}

/// Decides on a request to `path` whose `cookie` header is `cookie`.
pub fn session_gate(path: &str, cookie: Option<&str>) -> (decision: GateDecision)
    ensures
        decision@ == gate(path@, carries_session(text_of(cookie))),
{
    decide(path, has_session(cookie))
}

/// The session gate never turns away a request to a handshake endpoint, whatever
/// cookie it carries or lacks, so the handshake cannot loop.
pub proof fn lemma_handshake_always_passes(path: Seq<char>, cookie: Option<Seq<char>>)
    requires
        is_handshake_path(path),
    ensures
        gate(path, carries_session(cookie)) == GateDecisionView::Forward,
        gate(AUTH_PATH@, carries_session(cookie)) == GateDecisionView::Forward,
        gate(CALLBACK_PATH@, carries_session(cookie)) == GateDecisionView::Forward,
{
}

/// A request to any other path that has no `cookie` header is sent to the
/// start of the handshake.
pub proof fn lemma_no_cookie_is_redirected(path: Seq<char>)
    requires
        !is_handshake_path(path),
    ensures
        gate(path, carries_session(None)) == GateDecisionView::Redirect(redirect_to(AUTH_PATH@)),
{
}

/// The cookie that `issue_session` writes opens the session gate: a request that
/// sends it back, alone or among other cookies, is forwarded on every path.
pub proof fn lemma_issued_session_passes(
    path: Seq<char>,
    token: Seq<char>,
    before: Seq<char>,
    after: Seq<char>,
)
    ensures
        gate(path, carries_session(Some(before + session_cookie(token) + after)))
            == GateDecisionView::Forward,
{
    let header = before + session_cookie(token) + after;
    let name = SESSION_COOKIE@;
    let at = before.len() as int;
    assert(header.subrange(at, at + name.len()) =~= name);
    assert(occurs_at(name, header, at));
}

} // verus!
