use shopify_oauth::config::Config;
use shopify_oauth::handlers::auth::{
    handle_auth, handle_callback, issue, validate_callback, AuthQuery, CallbackAction,
    CallbackEvent, CallbackQuery, CallbackState, Rejection, SHOP_SUFFIX,
};
use shopify_oauth::handlers::dashboard::handle_dashboard;
use shopify_oauth::proxy::{proxy_failure, upstream_url, VITE_SERVER};
use shopify_oauth::response::{
    Reply, STATUS_BAD_GATEWAY, STATUS_BAD_REQUEST, STATUS_FOUND, STATUS_OK,
};
use shopify_oauth::services::shopify::{
    read_token_response, ExchangeError, ExchangeFault, ShopQuery, TokenRequest,
};

fn sample_config() -> Config {
    Config {
        shopify_api_key: "key123".to_string(),
        shopify_api_secret: "secret456".to_string(),
        shopify_scopes: "read_products".to_string(),
        backend_host: "https://app.example.com".to_string(),
        backend_port: "3000".to_string(),
    }
}

fn query(shop: &str, code: &str) -> CallbackQuery {
    CallbackQuery { shop: shop.to_string(), code: code.to_string() }
}

fn bad_request(body: &str) -> Reply {
    Reply { status: 400, location: None, set_cookie: None, body: body.to_string() }
}

/// Drives one callback to its answer. `client` stands for the token
/// endpoint: it gets the request and gives back a status and a body, or the
/// text of a network failure. Returns the answer and how often the client
/// was called.
fn run_callback(
    query: CallbackQuery,
    mut client: impl FnMut(&TokenRequest) -> Result<(u16, Vec<u8>), String>,
) -> (CallbackState, Reply, usize) {
    let config = sample_config();
    let mut calls = 0;
    let mut state = CallbackState::Start;
    let mut event = CallbackEvent::Request(query);
    loop {
        let (next, action) = handle_callback(state, event, &config);
        state = next;
        match action {
            CallbackAction::Exchange(request) => {
                calls += 1;
                let outcome = match client(&request) {
                    Ok((status, body)) => read_token_response(status, &body),
                    Err(detail) => Err(ExchangeError::network(detail)),
                };
                event = CallbackEvent::Exchanged(outcome);
            }
            CallbackAction::Respond(reply) => return (state, reply, calls),
            CallbackAction::Ignore => panic!("the callback ignored an event"),
        }
    }
}

#[test]
fn status_codes_are_the_documented_ones() {
    assert_eq!(STATUS_OK, 200);
    assert_eq!(STATUS_FOUND, 302);
    assert_eq!(STATUS_BAD_REQUEST, 400);
    assert_eq!(SHOP_SUFFIX, ".myshopify.com");
}

#[test]
fn handle_auth_redirects_to_the_authorize_page() {
    let reply = handle_auth(&AuthQuery { shop: "shop1.myshopify.com".to_string() }, &sample_config());
    assert_eq!(
        reply,
        Reply {
            status: 302,
            location: Some(
                "https://shop1.myshopify.com/admin/oauth/authorize?client_id=key123&scope=read_products&redirect_uri=https://app.example.com/auth/callback"
                    .to_string()
            ),
            set_cookie: None,
            body: String::new(),
        }
    );
}

#[test]
fn handle_auth_does_not_validate_the_shop() {
    let reply = handle_auth(&AuthQuery { shop: "evil.example.org".to_string() }, &sample_config());
    assert_eq!(reply.status, 302);
    assert_eq!(
        reply.location.as_deref(),
        Some("https://evil.example.org/admin/oauth/authorize?client_id=key123&scope=read_products&redirect_uri=https://app.example.com/auth/callback")
    );
}

#[test]
fn callback_rejects_a_foreign_shop_without_calling_the_platform() {
    for shop in [
        "",
        "shop1.example.com",
        "myshopify.com",
        "shop1.myshopify.com.evil.org",
        "shop1.myshopify.co",
        "shop1.MYSHOPIFY.COM",
        "shop1.myshopify.com/",
    ] {
        let (state, reply, calls) = run_callback(query(shop, "abc123"), |_| {
            Ok((200, br#"{"access_token": "tok_abc"}"#.to_vec()))
        });
        assert_eq!(state, CallbackState::Rejected);
        assert_eq!(reply, bad_request("Invalid Shopify store domain"));
        assert_eq!(calls, 0);
    }
}

#[test]
fn callback_rejects_an_empty_code_without_calling_the_platform() {
    let (state, reply, calls) = run_callback(query("shop1.myshopify.com", ""), |_| {
        Ok((200, br#"{"access_token": "tok_abc"}"#.to_vec()))
    });
    assert_eq!(state, CallbackState::Rejected);
    assert_eq!(reply, bad_request("Missing authorization code"));
    assert_eq!(calls, 0);
}

#[test]
fn callback_looks_at_the_shop_before_the_code() {
    let (_, reply, calls) = run_callback(query("", ""), |_| Err("unreachable".to_string()));
    assert_eq!(reply, bad_request("Invalid Shopify store domain"));
    assert_eq!(calls, 0);
}

#[test]
fn callback_issues_the_session_on_success() {
    let mut seen = Vec::new();
    let (state, reply, calls) = run_callback(query("shop1.myshopify.com", "abc123"), |request| {
        seen.push((
            request.url.clone(),
            request.client_id.clone(),
            request.client_secret.clone(),
            request.code.clone(),
        ));
        Ok((200, br#"{"access_token": "tok_abc", "scope": "read_products"}"#.to_vec()))
    });
    assert_eq!(state, CallbackState::Done);
    assert_eq!(calls, 1);
    assert_eq!(
        seen,
        vec![(
            "https://shop1.myshopify.com/admin/oauth/access_token".to_string(),
            "key123".to_string(),
            "secret456".to_string(),
            "abc123".to_string(),
        )]
    );
    assert_eq!(reply.status, 302);
    assert_eq!(reply.location.as_deref(), Some("/?shop=shop1.myshopify.com"));
    assert!(reply.set_cookie.as_deref().unwrap().contains("tok_abc"));
    assert_eq!(reply.set_cookie.as_deref(), Some("auth_token=tok_abc"));
    assert_eq!(reply.body, "");
}

#[test]
fn callback_accepts_the_bare_suffix_as_a_shop() {
    let (state, reply, calls) = run_callback(query(".myshopify.com", "c"), |_| {
        Ok((200, br#"{"access_token": "t"}"#.to_vec()))
    });
    assert_eq!(state, CallbackState::Done);
    assert_eq!(calls, 1);
    assert_eq!(reply.location.as_deref(), Some("/?shop=.myshopify.com"));
}

#[test]
fn callback_rejects_a_failure_status_and_sets_no_cookie() {
    for status in [199u16, 300, 400, 401, 500] {
        let (state, reply, calls) = run_callback(query("shop1.myshopify.com", "abc123"), |_| {
            Ok((status, br#"{"access_token": "tok_abc"}"#.to_vec()))
        });
        assert_eq!(state, CallbackState::Rejected);
        assert_eq!(calls, 1);
        assert_eq!(
            reply,
            bad_request("Authentication failed: token endpoint answered with a failure status")
        );
        assert_eq!(reply.set_cookie, None);
    }
}

#[test]
fn callback_rejects_malformed_json_and_sets_no_cookie() {
    let (state, reply, calls) = run_callback(query("shop1.myshopify.com", "abc123"), |_| {
        Ok((200, b"<html>oops</html>".to_vec()))
    });
    assert_eq!(state, CallbackState::Rejected);
    assert_eq!(calls, 1);
    assert_eq!(reply.status, 400);
    assert_eq!(reply.set_cookie, None);
    assert_eq!(reply.location, None);
    assert!(reply.body.starts_with("Authentication failed: "));
    assert!(reply.body.len() > "Authentication failed: ".len());
}

#[test]
fn callback_rejects_an_answer_without_token() {
    let (state, reply, calls) = run_callback(query("shop1.myshopify.com", "abc123"), |_| {
        Ok((200, br#"{"scope": "read_products"}"#.to_vec()))
    });
    assert_eq!(state, CallbackState::Rejected);
    assert_eq!(calls, 1);
    assert_eq!(
        reply,
        bad_request("Authentication failed: token endpoint answered without an access_token")
    );
}

#[test]
fn callback_rejects_a_network_failure_with_its_reason() {
    let (state, reply, calls) = run_callback(query("shop1.myshopify.com", "abc123"), |_| {
        Err("connection refused".to_string())
    });
    assert_eq!(state, CallbackState::Rejected);
    assert_eq!(calls, 1);
    assert_eq!(reply, bad_request("Authentication failed: connection refused"));
}

#[test]
fn callback_start_moves_to_exchanging_with_the_request() {
    let (state, action) = handle_callback(
        CallbackState::Start,
        CallbackEvent::Request(query("shop1.myshopify.com", "abc123")),
        &sample_config(),
    );
    assert_eq!(state, CallbackState::Exchanging { shop: "shop1.myshopify.com".to_string() });
    assert_eq!(
        action,
        CallbackAction::Exchange(TokenRequest {
            url: "https://shop1.myshopify.com/admin/oauth/access_token".to_string(),
            client_id: "key123".to_string(),
            client_secret: "secret456".to_string(),
            code: "abc123".to_string(),
        })
    );
}

#[test]
fn callback_ignores_an_event_out_of_turn() {
    let config = sample_config();
    let (state, action) = handle_callback(
        CallbackState::Start,
        CallbackEvent::Exchanged(Ok("tok_abc".to_string())),
        &config,
    );
    assert_eq!((state, action), (CallbackState::Start, CallbackAction::Ignore));

    let exchanging = CallbackState::Exchanging { shop: "shop1.myshopify.com".to_string() };
    let (state, action) = handle_callback(
        exchanging,
        CallbackEvent::Request(query("shop2.myshopify.com", "zzz")),
        &config,
    );
    assert_eq!(state, CallbackState::Exchanging { shop: "shop1.myshopify.com".to_string() });
    assert_eq!(action, CallbackAction::Ignore);
}

#[test]
fn callback_stays_finished() {
    let config = sample_config();
    let events = || {
        vec![
            CallbackEvent::Request(query("shop1.myshopify.com", "abc123")),
            CallbackEvent::Exchanged(Ok("tok_abc".to_string())),
            CallbackEvent::Exchanged(Err(ExchangeError::status(500))),
        ]
    };
    for event in events() {
        assert_eq!(
            handle_callback(CallbackState::Done, event, &config),
            (CallbackState::Done, CallbackAction::Ignore)
        );
    }
    for event in events() {
        assert_eq!(
            handle_callback(CallbackState::Rejected, event, &config),
            (CallbackState::Rejected, CallbackAction::Ignore)
        );
    }
}

#[test]
fn validate_callback_finds_the_first_fault() {
    assert_eq!(validate_callback(&query("shop1.myshopify.com", "abc123")), None);
    assert_eq!(validate_callback(&query("shop1.example.com", "abc123")), Some(Rejection::InvalidShop));
    assert_eq!(validate_callback(&query("shop1.myshopify.com", "")), Some(Rejection::MissingCode));
    assert_eq!(validate_callback(&query("", "")), Some(Rejection::InvalidShop));
}

#[test]
fn rejection_reply_puts_each_reason_into_words() {
    assert_eq!(Rejection::InvalidShop.reply(), bad_request("Invalid Shopify store domain"));
    assert_eq!(Rejection::MissingCode.reply(), bad_request("Missing authorization code"));
    let e = ExchangeError { fault: ExchangeFault::Network, detail: "timed out".to_string() };
    assert_eq!(Rejection::Exchange(e).reply(), bad_request("Authentication failed: timed out"));
}

#[test]
fn issue_redirects_to_the_landing_page_with_the_cookie() {
    assert_eq!(
        issue("shop1.myshopify.com", "tok_abc"),
        Reply {
            status: 302,
            location: Some("/?shop=shop1.myshopify.com".to_string()),
            set_cookie: Some("auth_token=tok_abc".to_string()),
            body: String::new(),
        }
    );
}

#[test]
fn dashboard_asks_for_a_shop() {
    assert_eq!(
        handle_dashboard(&ShopQuery { shop: None }),
        Reply {
            status: 200,
            location: None,
            set_cookie: None,
            body: "Please provide a shop parameter".to_string(),
        }
    );
}

#[test]
fn dashboard_sends_a_shop_to_the_handshake() {
    assert_eq!(
        handle_dashboard(&ShopQuery { shop: Some("shop1.myshopify.com".to_string()) }),
        Reply {
            status: 302,
            location: Some("/auth?shop=shop1.myshopify.com".to_string()),
            set_cookie: None,
            body: String::new(),
        }
    );
    assert_eq!(
        handle_dashboard(&ShopQuery { shop: Some(String::new()) }).location.as_deref(),
        Some("/auth?shop=")
    );
}

#[test]
fn reply_constructors_fill_the_fields() {
    assert_eq!(
        Reply::redirect("/auth".to_string()),
        Reply { status: 302, location: Some("/auth".to_string()), set_cookie: None, body: String::new() }
    );
    assert_eq!(
        Reply::text(400, "no".to_string()),
        Reply { status: 400, location: None, set_cookie: None, body: "no".to_string() }
    );
    assert_eq!(
        Reply::text(200, "yes".to_string()).with_cookie("a=b".to_string()),
        Reply { status: 200, location: None, set_cookie: Some("a=b".to_string()), body: "yes".to_string() }
    );
}

#[test]
fn upstream_url_appends_path_and_query() {
    assert_eq!(upstream_url(Some("/src/main.ts?v=1")), "http://localhost:5173/src/main.ts?v=1");
    assert_eq!(upstream_url(Some("/")), "http://localhost:5173/");
    assert_eq!(upstream_url(None), "http://localhost:5173");
    assert_eq!(VITE_SERVER, "http://localhost:5173");
}

#[test]
fn proxy_failure_is_a_bad_gateway_with_the_reason() {
    assert_eq!(STATUS_BAD_GATEWAY, 502);
    assert_eq!(
        proxy_failure("connection refused"),
        Reply {
            status: 502,
            location: None,
            set_cookie: None,
            body: "Failed to proxy request to Vite server at http://localhost:5173. Error: connection refused"
                .to_string(),
        }
    );
}
