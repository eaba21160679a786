//! The platform's side of the handshake: where to send the merchant, what to
//! post to the token endpoint, and how to read its answer.

use crate::config::{Config, ConfigView};
use crate::json::{error_text, json_document, parse_document, text_member};
use vstd::prelude::*;
use vstd::string::StringExecFns;

verus! {

/// Name of the member of the token endpoint's answer that holds the token.
pub const ACCESS_TOKEN_MEMBER: &'static str = "access_token";

/// Query of the landing page: the shop, if the caller named one.
#[derive(Debug, PartialEq, Eq)]
pub struct ShopQuery {
    pub shop: Option<String>,
}

/// The platform's authorize page for `shop`, asking for the configured
/// scopes on behalf of the configured client and naming this service's
/// callback as the place to come back to.
pub open spec fn auth_url(shop: Seq<char>, config: ConfigView) -> Seq<char> {
    "https://"@ + shop + "/admin/oauth/authorize?client_id="@ + config.shopify_api_key
        + "&scope="@ + config.shopify_scopes + "&redirect_uri="@ + config.backend_host
        + "/auth/callback"@
}

/// The address of the platform's authorize page for `shop`.
///
/// Nothing is checked or encoded: the shop and the settings are placed in
/// the address as they are.
pub fn build_auth_url(shop: &str, config: &Config) -> (url: String)
    ensures
        url@ == auth_url(shop@, config@),
{
    let mut url = "https://".to_owned();
    url.append(shop);
    url.append("/admin/oauth/authorize?client_id=");
    url.append(config.shopify_api_key.as_str());
    url.append("&scope=");
    url.append(config.shopify_scopes.as_str());
    url.append("&redirect_uri=");
    url.append(config.backend_host.as_str());
    url.append("/auth/callback");
    url
}

/// Whether the server knows `shop` to hold a live token. It keeps no record
/// of the tokens it has issued, so it knows this of no shop.
pub open spec fn authenticated(shop: Seq<char>) -> bool {
    false
}

/// Whether the server knows `shop` to hold a live token: never, as it keeps
/// no record of the tokens it has issued. A session is judged by the cookie
/// that the request carries, not by the shop's name.
pub fn is_authenticated(shop: &str) -> (known: bool)
    ensures
        known == authenticated(shop@),
{
    false
}

/// The platform's token endpoint for `shop`.
pub open spec fn token_endpoint(shop: Seq<char>) -> Seq<char> {
    "https://"@ + shop + "/admin/oauth/access_token"@
}

/// What to post to the token endpoint: the address, and the three members of
/// the JSON body.
#[derive(Debug, PartialEq, Eq)]
pub struct TokenRequest {
    pub url: String,
    pub client_id: String,
    pub client_secret: String,
    pub code: String,
}

/// A `TokenRequest` as the contracts see it.
pub struct TokenRequestView {
    pub url: Seq<char>,
    pub client_id: Seq<char>,
    pub client_secret: Seq<char>,
    pub code: Seq<char>,
}

impl View for TokenRequest {
    type V = TokenRequestView;

    open spec fn view(&self) -> TokenRequestView {
        TokenRequestView {
            url: self.url@,
            client_id: self.client_id@,
            client_secret: self.client_secret@,
            code: self.code@,
        }
    }
}

/// The request that trades `code` for a token of `shop`.
pub open spec fn token_request_for(
    shop: Seq<char>,
    code: Seq<char>,
    config: ConfigView,
) -> TokenRequestView {
    TokenRequestView {
        url: token_endpoint(shop),
        client_id: config.shopify_api_key,
        client_secret: config.shopify_api_secret,
        code,
    }
}

/// The request that trades `code` for a token of `shop`.
pub fn token_request(shop: &str, code: &str, config: &Config) -> (request: TokenRequest)
    ensures
        request@ == token_request_for(shop@, code@, config@),
{
    let mut url = "https://".to_owned();
    url.append(shop);
    url.append("/admin/oauth/access_token");
    TokenRequest {
        url,
        client_id: config.shopify_api_key.clone(),
        client_secret: config.shopify_api_secret.clone(),
        code: code.to_owned(),
    }
}

/// Why an exchange gave no token.
#[derive(Debug, Clone, Copy, PartialEq, Eq, Structural)]
pub enum ExchangeFault {
    /// The request got no answer.
    Network,
    /// The endpoint answered with this status, outside 200 to 299.
    Status(u16),
    /// The answer's body is no JSON document.
    MalformedJson,
    /// The answer is JSON, but holds no string under `access_token`.
    MissingAccessToken,
}

/// A failed exchange: the kind of failure, and a sentence for a human.
#[derive(Debug, PartialEq, Eq)]
pub struct ExchangeError {
    pub fault: ExchangeFault,
    pub detail: String,
}

/// An `ExchangeError` as the contracts see it.
pub struct ExchangeErrorView {
    pub fault: ExchangeFault,
    pub detail: Seq<char>,
}

impl View for ExchangeError {
    type V = ExchangeErrorView;

    open spec fn view(&self) -> ExchangeErrorView {
        ExchangeErrorView { fault: self.fault, detail: self.detail@ }
    }
}

/// The error for an answer of status `status`.
pub open spec fn status_error(status: u16) -> ExchangeErrorView {
    ExchangeErrorView {
        fault: ExchangeFault::Status(status),
        detail: "token endpoint answered with a failure status"@,
    }
}

/// The error for an answer without a token.
pub open spec fn missing_token_error() -> ExchangeErrorView {
    ExchangeErrorView {
        fault: ExchangeFault::MissingAccessToken,
        detail: "token endpoint answered without an access_token"@,
    }
}

impl ExchangeError {
    /// The request got no answer; `detail` is what the HTTP client says of
    /// it.
    pub fn network(detail: String) -> (e: ExchangeError)
        ensures
            e@ == (ExchangeErrorView { fault: ExchangeFault::Network, detail: detail@ }),
    {
        ExchangeError { fault: ExchangeFault::Network, detail }
    }

    /// The body was no JSON document; `detail` is what the parser says of
    /// it.
    pub fn malformed_json(detail: String) -> (e: ExchangeError)
        ensures
            e@ == (ExchangeErrorView { fault: ExchangeFault::MalformedJson, detail: detail@ }),
    {
        ExchangeError { fault: ExchangeFault::MalformedJson, detail }
    }

    /// The endpoint answered with `status`.
    pub fn status(status: u16) -> (e: ExchangeError)
        ensures
            e@ == status_error(status),
    {
        ExchangeError {
            fault: ExchangeFault::Status(status),
            detail: "token endpoint answered with a failure status".to_owned(),
        }
    }

    /// The answer held no token.
    pub fn missing_access_token() -> (e: ExchangeError)
        ensures
            e@ == missing_token_error(),
    {
        ExchangeError {
            fault: ExchangeFault::MissingAccessToken,
            detail: "token endpoint answered without an access_token".to_owned(),
        }
    }
}

/// The outcome of an exchange as the contracts see it.
pub open spec fn outcome_view(outcome: Result<String, ExchangeError>) -> Result<
    Seq<char>,
    ExchangeErrorView,
> {
    match outcome {
        Ok(token) => Ok(token@),
        Err(e) => Err(e@),
    }
}

/// Whether `status` reports success.
pub open spec fn is_success(status: u16) -> bool {
    200 <= status < 300
}

/// The token that a JSON answer carries: the text of its `access_token`
/// member, where `member` is what the lookup of that member gave.
pub open spec fn token_of_member(member: Option<Seq<char>>) -> Result<
    Seq<char>,
    ExchangeErrorView,
> {
    match member {
        Some(token) => Ok(token),
        None => Err(missing_token_error()),
    }
}

/// What the token endpoint's answer amounts to: the token, or the kind of
/// failure.
///
/// The status is looked at first, then whether the body is JSON, then
/// whether the JSON holds a string under `access_token`. An empty string
/// there is a token like any other.
pub open spec fn token_reading(status: u16, body: Seq<u8>) -> Result<Seq<char>, ExchangeFault> {
    if !is_success(status) {
        Err(ExchangeFault::Status(status))
    } else {
        match json_document(body) {
            None => Err(ExchangeFault::MalformedJson),
            Some(members) => if members.contains_key(ACCESS_TOKEN_MEMBER@) {
                Ok(members[ACCESS_TOKEN_MEMBER@])
            } else {
                Err(ExchangeFault::MissingAccessToken)
            },
        }
    }
}

/// `outcome` is a reading of the answer of status `status` and body `body`:
/// the token where `token_reading` names one, else an error of the kind it
/// names. The error's sentence is fixed for a failure status and for a
/// missing token; for a body that is no JSON it is the parser's own message,
/// of which nothing is said.
pub open spec fn is_reading_of(
    outcome: Result<Seq<char>, ExchangeErrorView>,
    status: u16,
    body: Seq<u8>,
) -> bool {
    match outcome {
        Ok(token) => token_reading(status, body) == Ok::<Seq<char>, ExchangeFault>(token),
        Err(e) => token_reading(status, body) == Err::<Seq<char>, ExchangeFault>(e.fault)
            && match e.fault {
            ExchangeFault::Status(code) => e == status_error(code),
            ExchangeFault::MissingAccessToken => e == missing_token_error(),
            _ => true,
        },
    }
}

/// The token of a JSON answer, given what the lookup of its `access_token`
/// member gave.
pub fn select_token(member: Option<String>) -> (outcome: Result<String, ExchangeError>)
    ensures
        outcome_view(outcome) == token_of_member(member.deep_view()),
{
    match member {
        Some(token) => Ok(token),
        None => Err(ExchangeError::missing_access_token()),
    }
}

/// Reads the token endpoint's answer: looks at the status, parses the body
/// as JSON and takes the text of its `access_token` member.
pub fn read_token_response(status: u16, body: &[u8]) -> (outcome: Result<String, ExchangeError>)
    ensures
        is_reading_of(outcome_view(outcome), status, body@),
{
    if status < 200 || status >= 300 {
        return Err(ExchangeError::status(status));
    }
    match parse_document(body) {
        Ok(document) => select_token(text_member(&document, ACCESS_TOKEN_MEMBER)),
        Err(e) => Err(ExchangeError::malformed_json(error_text(&e))),
    }
}

/// The authorize address is a function of the shop and the settings: built
/// twice from the same inputs it is the same text, and so the same bytes.
pub proof fn lemma_auth_url_repeats(
    shop: Seq<char>,
    config: ConfigView,
    first: Seq<char>,
    second: Seq<char>,
)
    requires
        first == auth_url(shop, config),
        second == auth_url(shop, config),
    ensures
        first == second,
        vstd::utf8::encode_utf8(first) == vstd::utf8::encode_utf8(second),
{
}

/// An answer with a failure status, or with a body that is no JSON, reads as
/// an error, whatever else it holds.
pub proof fn lemma_bad_answer_reads_as_error(
    outcome: Result<Seq<char>, ExchangeErrorView>,
    status: u16,
    body: Seq<u8>,
)
    requires
        is_reading_of(outcome, status, body),
        !is_success(status) || json_document(body) is None,
    ensures
        outcome is Err,
{
}

} // verus!
