use shopify_oauth::response::Reply;
use shopify_oauth::session::{
    decide, has_session, issue_session, session_gate, GateDecision, AUTH_PATH, CALLBACK_PATH,
    SESSION_COOKIE,
};

fn to_auth() -> GateDecision {
    GateDecision::Redirect(Reply {
        status: 302,
        location: Some("/auth".to_string()),
        set_cookie: None,
        body: String::new(),
    })
}

#[test]
fn session_names_are_the_documented_ones() {
    assert_eq!(SESSION_COOKIE, "auth_token");
    assert_eq!(AUTH_PATH, "/auth");
    assert_eq!(CALLBACK_PATH, "/auth/callback");
}

#[test]
fn issue_session_writes_name_and_token() {
    assert_eq!(issue_session("tok_abc"), "auth_token=tok_abc");
    assert_eq!(issue_session(""), "auth_token=");
}

#[test]
fn issue_session_neither_encodes_nor_trims_the_token() {
    assert_eq!(issue_session(" a b;c=d\u{e9}% "), "auth_token= a b;c=d\u{e9}% ");
}

#[test]
fn gate_redirects_a_request_without_cookie_header() {
    assert_eq!(session_gate("/some/protected/path", None), to_auth());
    assert_eq!(session_gate("/", None), to_auth());
    assert_eq!(session_gate("", None), to_auth());
}

#[test]
fn gate_forwards_a_request_with_the_session_cookie() {
    assert_eq!(
        session_gate("/some/protected/path", Some("auth_token=tok_abc")),
        GateDecision::Forward
    );
    assert_eq!(
        session_gate("/", Some("theme=dark; auth_token=tok_abc; lang=en")),
        GateDecision::Forward
    );
}

#[test]
fn gate_redirects_a_request_with_other_cookies_only() {
    assert_eq!(session_gate("/some/protected/path", Some("theme=dark")), to_auth());
    assert_eq!(session_gate("/some/protected/path", Some("")), to_auth());
    assert_eq!(session_gate("/some/protected/path", Some("auth_toke=n")), to_auth());
}

#[test]
fn gate_looks_for_the_name_and_not_at_the_value() {
    assert_eq!(session_gate("/orders", Some("auth_token=")), GateDecision::Forward);
    assert_eq!(session_gate("/orders", Some("auth_token")), GateDecision::Forward);
    assert_eq!(session_gate("/orders", Some("x=auth_token")), GateDecision::Forward);
}

#[test]
fn gate_always_forwards_the_handshake_endpoints() {
    for cookie in [None, Some(""), Some("theme=dark"), Some("auth_token=tok_abc")] {
        assert_eq!(session_gate("/auth", cookie), GateDecision::Forward);
        assert_eq!(session_gate("/auth/callback", cookie), GateDecision::Forward);
    }
}

#[test]
fn gate_exempts_the_two_paths_only() {
    for path in ["/auth/", "/auth/callback/", "/auth/other", "/authx", "/aut", "auth", "/AUTH"] {
        assert_eq!(session_gate(path, None), to_auth());
    }
}

#[test]
fn gate_forwards_what_issue_session_wrote() {
    let cookie = issue_session("tok_abc");
    assert_eq!(session_gate("/some/protected/path", Some(cookie.as_str())), GateDecision::Forward);
}

#[test]
fn has_session_wants_the_header_and_the_name() {
    assert!(has_session(Some("auth_token=tok_abc")));
    assert!(!has_session(Some("session=tok_abc")));
    assert!(!has_session(None));
}

#[test]
fn decide_takes_the_verdict_as_given() {
    assert_eq!(decide("/orders", true), GateDecision::Forward);
    assert_eq!(decide("/orders", false), to_auth());
    assert_eq!(decide("/auth", false), GateDecision::Forward);
    assert_eq!(decide("/auth/callback", false), GateDecision::Forward);
}
