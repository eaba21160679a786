//! What a handler answers, as plain values that any HTTP server can send.

use vstd::prelude::*;

verus! {

/// Status of an answer that carries a page or a message.
pub const STATUS_OK: u16 = 200;

/// Status of a redirect.
pub const STATUS_FOUND: u16 = 302;

/// Status of an answer to a request that cannot be served as it stands.
pub const STATUS_BAD_REQUEST: u16 = 400;

/// Status of an answer that reports a failure of the server behind this one.
pub const STATUS_BAD_GATEWAY: u16 = 502;

/// An HTTP answer: the status, the two headers the handshake sets, and a
/// plain-text body.
#[derive(Debug, PartialEq, Eq)]
pub struct Reply {
    pub status: u16,
    pub location: Option<String>,
    pub set_cookie: Option<String>,
    pub body: String,
}

/// A `Reply` as the contracts see it.
pub struct ReplyView {
    pub status: u16,
    pub location: Option<Seq<char>>,
    pub set_cookie: Option<Seq<char>>,
    pub body: Seq<char>,
}

impl View for Reply {
    type V = ReplyView;

    open spec fn view(&self) -> ReplyView {
        ReplyView {
            status: self.status,
            location: self.location.deep_view(),
            set_cookie: self.set_cookie.deep_view(),
            body: self.body@,
        }
    }
}

/// A redirect to `location`, with no cookie and an empty body.
pub open spec fn redirect_to(location: Seq<char>) -> ReplyView {
    ReplyView { status: STATUS_FOUND, location: Some(location), set_cookie: None, body: Seq::empty() }
}

/// A plain-text answer, with neither of the two headers.
pub open spec fn plain_text(status: u16, body: Seq<char>) -> ReplyView {
    ReplyView { status, location: None, set_cookie: None, body }
}

impl ReplyView {
    /// The same answer, with `cookie` as its `Set-Cookie` header.
    pub open spec fn with_cookie(self, cookie: Seq<char>) -> ReplyView {
        ReplyView { set_cookie: Some(cookie), ..self }
    }
}

impl Reply {
    /// A redirect to `location`.
    pub fn redirect(location: String) -> (reply: Reply)
        ensures
            reply@ == redirect_to(location@),
    {
        Reply { status: STATUS_FOUND, location: Some(location), set_cookie: None, body: String::new() }
    }

    /// A plain-text answer.
    pub fn text(status: u16, body: String) -> (reply: Reply)
        ensures
            reply@ == plain_text(status, body@),
    {
        Reply { status, location: None, set_cookie: None, body }
    }

    /// The same answer, with `cookie` as its `Set-Cookie` header.
    pub fn with_cookie(self, cookie: String) -> (reply: Reply)
        ensures
            reply@ == self@.with_cookie(cookie@),
    {
        Reply { status: self.status, location: self.location, set_cookie: Some(cookie), body: self.body }
    }
}

} // verus!
