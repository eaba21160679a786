//! The two handshake endpoints: the one that sends the merchant to the
//! platform, and the one that the platform calls back.
//!
//! The callback is a small state machine. It waits twice: in `Start` for the
//! request, in `Exchanging` for the outcome of the token exchange. The
//! request is validated on the way out of `Start`, and the session is issued
//! on the way out of `Exchanging`. `handle_callback` makes one transition;
//! whoever drives it performs the action it returns and comes back with the
//! next event.

use crate::config::{Config, ConfigView};
use crate::json::json_document;
use crate::response::{
    plain_text, redirect_to, Reply, ReplyView, STATUS_BAD_REQUEST, STATUS_FOUND,
};
use crate::services::shopify::{
    auth_url, build_auth_url, is_reading_of, is_success, lemma_bad_answer_reads_as_error,
    outcome_view, token_request, token_request_for, ExchangeError, ExchangeErrorView,
    TokenRequest, TokenRequestView,
};
use crate::session::{issue_session, session_cookie, SESSION_COOKIE};
use crate::text::{ends_with, occurs_at, occurs_in};
use vstd::prelude::*;
use vstd::string::StringExecFns;

verus! {

/// What the name of every shop of the platform ends with.
pub const SHOP_SUFFIX: &'static str = ".myshopify.com";

/// Query of the endpoint that begins the handshake.
#[derive(Debug, PartialEq, Eq)]
pub struct AuthQuery {
    pub shop: String,
}

/// Query of the callback endpoint.
#[derive(Debug, PartialEq, Eq)]
pub struct CallbackQuery {
    pub shop: String,
    pub code: String,
}

/// A `CallbackQuery` as the contracts see it.
pub struct CallbackQueryView {
    pub shop: Seq<char>,
    pub code: Seq<char>,
}

impl View for CallbackQuery {
    type V = CallbackQueryView;

    open spec fn view(&self) -> CallbackQueryView {
        CallbackQueryView { shop: self.shop@, code: self.code@ }
    }
}

/// Begins the handshake: sends the merchant to the platform's authorize page
/// for the shop named in the query. The shop is not validated here.
pub fn handle_auth(query: &AuthQuery, config: &Config) -> (reply: Reply)
    ensures
        reply@ == redirect_to(auth_url(query.shop@, config@)),
{
    Reply::redirect(build_auth_url(query.shop.as_str(), config))
}

/// `shop` is not empty and ends with the platform's domain suffix.
pub open spec fn valid_shop(shop: Seq<char>) -> bool {
    shop.len() > 0 && SHOP_SUFFIX@.is_suffix_of(shop)
}

/// Why a callback is turned away.
#[derive(Debug, PartialEq, Eq)]
pub enum Rejection {
    /// The shop is empty or not of the platform.
    InvalidShop,
    /// The authorization code is empty.
    MissingCode,
    /// The token exchange failed.
    Exchange(ExchangeError),
}

/// A `Rejection` as the contracts see it.
pub enum RejectionView {
    InvalidShop,
    MissingCode,
    Exchange(ExchangeErrorView),
}

impl View for Rejection {
    type V = RejectionView;

    open spec fn view(&self) -> RejectionView {
        match self {
            Rejection::InvalidShop => RejectionView::InvalidShop,
            Rejection::MissingCode => RejectionView::MissingCode,
            Rejection::Exchange(e) => RejectionView::Exchange(e@),
        }
    }
}

/// What the caller is told of a rejection.
pub open spec fn rejection_message(rejection: RejectionView) -> Seq<char> {
    match rejection {
        RejectionView::InvalidShop => "Invalid Shopify store domain"@,
        RejectionView::MissingCode => "Missing authorization code"@,
        RejectionView::Exchange(e) => "Authentication failed: "@ + e.detail,
    }
}

/// The answer to a callback that is turned away: a bad request with the
/// reason as plain text, and no cookie.
pub open spec fn rejection_reply(rejection: RejectionView) -> ReplyView {
    plain_text(STATUS_BAD_REQUEST, rejection_message(rejection))
}

impl Rejection {
    /// The answer to a callback that is turned away for this reason. Every
    /// failure of the handshake is put into words here.
    pub fn reply(&self) -> (reply: Reply)
        ensures
            reply@ == rejection_reply(self@),
    {
        let body = match self {
            Rejection::InvalidShop => "Invalid Shopify store domain".to_owned(),
            Rejection::MissingCode => "Missing authorization code".to_owned(),
            Rejection::Exchange(e) => {
                let mut text = "Authentication failed: ".to_owned();
                text.append(e.detail.as_str());
                text
            },
        };
        Reply::text(STATUS_BAD_REQUEST, body)
    }
}

/// What is wrong with a callback's query, if anything: the shop is looked at
/// first, then the code.
pub open spec fn validation(query: CallbackQueryView) -> Option<RejectionView> {
    if !valid_shop(query.shop) {
        Some(RejectionView::InvalidShop)
    } else if query.code.len() == 0 {
        Some(RejectionView::MissingCode)
    } else {
        None
    }
}

/// Checks a callback's query before anything is sent to the platform.
pub fn validate_callback(query: &CallbackQuery) -> (finding: Option<Rejection>)
    ensures
        match finding {
            Some(rejection) => validation(query@) == Some(rejection@),
            None => validation(query@) is None,
        },
{
    if query.shop.as_str().is_empty() || !ends_with(query.shop.as_str(), SHOP_SUFFIX) {
        Some(Rejection::InvalidShop)
    } else if query.code.as_str().is_empty() {
        Some(Rejection::MissingCode)
    } else {
        None
    }
}

/// Where the browser lands after the handshake: the application's front
/// page, told which shop it is for.
pub open spec fn landing(shop: Seq<char>) -> Seq<char> {
    "/?shop="@ + shop
}

/// The answer that completes the handshake: a redirect to the landing page
/// of `shop` that hands `token` to the browser as the session cookie.
pub open spec fn issued_reply(shop: Seq<char>, token: Seq<char>) -> ReplyView {
    redirect_to(landing(shop)).with_cookie(session_cookie(token))
}

/// Issues the session for `shop`.
pub fn issue(shop: &str, token: &str) -> (reply: Reply)
    ensures
        reply@ == issued_reply(shop@, token@),
{
    let mut location = "/?shop=".to_owned();
    location.append(shop);
    Reply::redirect(location).with_cookie(issue_session(token))
}

/// Where a callback stands.
#[derive(Debug, PartialEq, Eq)]
pub enum CallbackState {
    /// Nothing has arrived yet.
    Start,
    /// The query of `shop` was accepted and the exchange is under way.
    Exchanging { shop: String },
    /// The session was issued.
    Done,
    /// The callback was turned away.
    Rejected,
}

/// A `CallbackState` as the contracts see it.
pub enum CallbackStateView {
    Start,
    Exchanging { shop: Seq<char> },
    Done,
    Rejected,
}

impl View for CallbackState {
    type V = CallbackStateView;

    open spec fn view(&self) -> CallbackStateView {
        match self {
            CallbackState::Start => CallbackStateView::Start,
            CallbackState::Exchanging { shop } => CallbackStateView::Exchanging { shop: shop@ },
            CallbackState::Done => CallbackStateView::Done,
            CallbackState::Rejected => CallbackStateView::Rejected,
        }
    }
}

/// What happens to a callback.
#[derive(Debug, PartialEq, Eq)]
pub enum CallbackEvent {
    /// The platform called back with this query.
    Request(CallbackQuery),
    /// The token exchange ended with this outcome.
    Exchanged(Result<String, ExchangeError>),
}

/// A `CallbackEvent` as the contracts see it.
pub enum CallbackEventView {
    Request(CallbackQueryView),
    Exchanged(Result<Seq<char>, ExchangeErrorView>),
}

impl View for CallbackEvent {
    type V = CallbackEventView;

    open spec fn view(&self) -> CallbackEventView {
        match self {
            CallbackEvent::Request(query) => CallbackEventView::Request(query@),
            CallbackEvent::Exchanged(outcome) => CallbackEventView::Exchanged(
                outcome_view(*outcome),
            ),
        }
    }
}

/// What the driver of a callback is to do next.
#[derive(Debug, PartialEq, Eq)]
pub enum CallbackAction {
    /// Post this request to the platform and come back with the outcome.
    Exchange(TokenRequest),
    /// Send this answer; the callback is over.
    Respond(Reply),
    /// Nothing: the event does not belong to the state.
    Ignore,
}

/// A `CallbackAction` as the contracts see it.
pub enum CallbackActionView {
    Exchange(TokenRequestView),
    Respond(ReplyView),
    Ignore,
}

impl View for CallbackAction {
    type V = CallbackActionView;

    open spec fn view(&self) -> CallbackActionView {
        match self {
            CallbackAction::Exchange(request) => CallbackActionView::Exchange(request@),
            CallbackAction::Respond(reply) => CallbackActionView::Respond(reply@),
            CallbackAction::Ignore => CallbackActionView::Ignore,
        }
    }
}

/// One transition of the callback.
///
/// From `Start`, a request either is turned away at once or starts the
/// exchange. From `Exchanging`, the outcome of the exchange either issues
/// the session or turns the callback away. Any other pairing of state and
/// event changes nothing.
pub open spec fn callback_step(
    state: CallbackStateView,
    event: CallbackEventView,
    config: ConfigView,
) -> (CallbackStateView, CallbackActionView) {
    match (state, event) {
        (CallbackStateView::Start, CallbackEventView::Request(query)) => match validation(query) {
            Some(rejection) => (
                CallbackStateView::Rejected,
                CallbackActionView::Respond(rejection_reply(rejection)),
            ),
            None => (
                CallbackStateView::Exchanging { shop: query.shop },
                CallbackActionView::Exchange(token_request_for(query.shop, query.code, config)),
            ),
        },
        (CallbackStateView::Exchanging { shop }, CallbackEventView::Exchanged(Ok(token))) => (
            CallbackStateView::Done,
            CallbackActionView::Respond(issued_reply(shop, token)),
        ),
        (CallbackStateView::Exchanging { shop }, CallbackEventView::Exchanged(Err(e))) => (
            CallbackStateView::Rejected,
            CallbackActionView::Respond(rejection_reply(RejectionView::Exchange(e))),
        ),
        (state, _) => (state, CallbackActionView::Ignore),
    }
}

/// Makes one transition of the callback: the state that follows `state` on
/// `event`, and what to do on the way.
pub fn handle_callback(state: CallbackState, event: CallbackEvent, config: &Config) -> (next: (
    CallbackState,
    CallbackAction,
))
    ensures
        (next.0@, next.1@) == callback_step(state@, event@, config@),
{
    match state {
        CallbackState::Start => match event {
            CallbackEvent::Request(query) => match validate_callback(&query) {
                Some(rejection) => (
                    CallbackState::Rejected,
                    CallbackAction::Respond(rejection.reply()),
                ),
                None => {
                    let request = token_request(query.shop.as_str(), query.code.as_str(), config);
                    (CallbackState::Exchanging { shop: query.shop }, CallbackAction::Exchange(request))
                },
            },
            CallbackEvent::Exchanged(_) => (CallbackState::Start, CallbackAction::Ignore),
        },
        CallbackState::Exchanging { shop } => match event {
            CallbackEvent::Exchanged(Ok(token)) => (
                CallbackState::Done,
                CallbackAction::Respond(issue(shop.as_str(), token.as_str())),
            ),
            CallbackEvent::Exchanged(Err(e)) => (
                CallbackState::Rejected,
                CallbackAction::Respond(Rejection::Exchange(e).reply()),
            ),
            CallbackEvent::Request(_) => (
                CallbackState::Exchanging { shop },
                CallbackAction::Ignore,
            ),
        },
        CallbackState::Done => (CallbackState::Done, CallbackAction::Ignore),
        CallbackState::Rejected => (CallbackState::Rejected, CallbackAction::Ignore),
    }
}

/// A callback whose shop does not end with the platform's domain suffix is
/// turned away with a bad request, and nothing is sent to the platform.
pub proof fn lemma_foreign_shop_is_rejected(query: CallbackQueryView, config: ConfigView)
    requires
        !SHOP_SUFFIX@.is_suffix_of(query.shop),
    ensures
        callback_step(CallbackStateView::Start, CallbackEventView::Request(query), config) == (
            CallbackStateView::Rejected,
            CallbackActionView::Respond(
                plain_text(STATUS_BAD_REQUEST, "Invalid Shopify store domain"@),
            ),
        ),
{
}

/// A callback with an empty authorization code is turned away with a bad
/// request, and nothing is sent to the platform.
pub proof fn lemma_empty_code_is_rejected(query: CallbackQueryView, config: ConfigView)
    requires
        query.code.len() == 0,
    ensures
        ({
            let (next, action) = callback_step(
                CallbackStateView::Start,
                CallbackEventView::Request(query),
                config,
            );
            &&& next == CallbackStateView::Rejected
            &&& action matches CallbackActionView::Respond(reply)
            &&& reply.status == STATUS_BAD_REQUEST
            &&& reply.set_cookie is None
        }),
{
}

/// A request goes out to the platform on one transition only: out of
/// `Start`, on a query with a shop of the platform and a code that is not
/// empty.
pub proof fn lemma_exchange_only_after_validation(
    state: CallbackStateView,
    event: CallbackEventView,
    config: ConfigView,
)
    ensures
        callback_step(state, event, config).1 is Exchange <==> {
            &&& state is Start
            &&& event matches CallbackEventView::Request(query)
            &&& valid_shop(query.shop)
            &&& query.code.len() > 0
        },
{
}

/// Where the exchange gives a token, the callback ends with a redirect to
/// the landing page of the shop, and the cookie it sets holds the token.
pub proof fn lemma_token_is_issued(shop: Seq<char>, token: Seq<char>, config: ConfigView)
    ensures
        ({
            let (next, action) = callback_step(
                CallbackStateView::Exchanging { shop },
                CallbackEventView::Exchanged(Ok(token)),
                config,
            );
            &&& next == CallbackStateView::Done
            &&& action matches CallbackActionView::Respond(reply)
            &&& reply.status == STATUS_FOUND
            &&& reply.location == Some("/?shop="@ + shop)
            &&& reply.set_cookie matches Some(cookie)
            &&& occurs_in(token, cookie)
        }),
{
    let cookie = session_cookie(token);
    let at = (SESSION_COOKIE@.len() + 1) as int;
    assert(cookie.subrange(at, at + token.len()) =~= token);
    assert(occurs_at(token, cookie, at));
}

/// Where the token endpoint answers with a failure status or with a body
/// that is no JSON, the callback ends with a bad request and sets no cookie.
pub proof fn lemma_failed_exchange_is_rejected(
    shop: Seq<char>,
    status: u16,
    body: Seq<u8>,
    outcome: Result<Seq<char>, ExchangeErrorView>,
    config: ConfigView,
)
    requires
        !is_success(status) || json_document(body) is None,
        is_reading_of(outcome, status, body),
    ensures
        ({
            let (next, action) = callback_step(
                CallbackStateView::Exchanging { shop },
                CallbackEventView::Exchanged(outcome),
                config,
            );
            &&& next == CallbackStateView::Rejected
            &&& action matches CallbackActionView::Respond(reply)
            &&& reply.status == STATUS_BAD_REQUEST
            &&& reply.set_cookie is None
            &&& reply.location is None
        }),
{
    lemma_bad_answer_reads_as_error(outcome, status, body);
}

/// A callback that is over stays over: in `Done` and in `Rejected` no event
/// changes the state or asks for anything.
pub proof fn lemma_finished_callback_stays(
    state: CallbackStateView,
    event: CallbackEventView,
    config: ConfigView,
)
    requires
        state is Done || state is Rejected,
    ensures
        callback_step(state, event, config) == (state, CallbackActionView::Ignore),
{
}

} // verus!
