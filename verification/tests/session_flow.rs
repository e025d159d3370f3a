use windscribe_ephemeral_port::cache::SimpleCache;
use windscribe_ephemeral_port::errors::ErrorKind;
use windscribe_ephemeral_port::session::{
    decide_response, interpret_login_response, session_cookie_header, Attempt, RequestDecision,
    RetryState, SessionManager,
};
use windscribe_ephemeral_port::windscribe::{
    build_delete_request, build_epf_request, build_login_request, interpret_delete_response,
    interpret_epf_response, interpret_status_body, WindscribeCsrfToken,
    WindscribeDeleteEpfResponse, WindscribeEpfRequestInfo, WindscribeEpfStatus,
    WindscribeRequestEpfResponse,
};

const COOKIE_LINE: &str =
    "ws_session_auth_hash=tok123; Path=/; Expires=Wed, 21 Oct 2026 07:28:00 GMT";
const COOKIE_EPOCH: i64 = 1792567680;

#[test]
fn redirect_with_session_cookie_logs_in() {
    let headers = vec![
        "other=1; Path=/".to_string(),
        COOKIE_LINE.to_string(),
    ];
    let session = interpret_login_response(302, &headers, "").unwrap();
    assert_eq!(session.token, "tok123");
    assert_eq!(session.expires, COOKIE_EPOCH);
}

#[test]
fn redirect_without_session_cookie_is_an_auth_error() {
    let headers = vec!["other=1; Path=/".to_string()];
    let err = interpret_login_response(302, &headers, "").unwrap_err();
    assert_eq!(err.kind, ErrorKind::Auth);
}

#[test]
fn cookie_without_expiry_is_an_auth_error() {
    let headers = vec!["ws_session_auth_hash=tok123; Path=/".to_string()];
    let err = interpret_login_response(302, &headers, "").unwrap_err();
    assert_eq!(err.kind, ErrorKind::Auth);
}

#[test]
fn login_page_error_fragment_is_scraped() {
    let body = "<html><form id=\"loginform\"><div class=\"login-box\">\
                <div class=\"error\"> Wrong password </div></div></form></html>";
    let err = interpret_login_response(200, &Vec::new(), body).unwrap_err();
    assert_eq!(err.kind, ErrorKind::Auth);
    assert_eq!(err.describe(), "Login failed: Wrong password");
}

#[test]
fn login_page_without_fragment_reports_unknown_error() {
    let err = interpret_login_response(200, &Vec::new(), "<html></html>").unwrap_err();
    assert_eq!(err.describe(), "Login failed: Unknown error");
}

#[test]
fn unexpected_login_status_is_a_protocol_error() {
    let err = interpret_login_response(500, &Vec::new(), "").unwrap_err();
    assert_eq!(err.kind, ErrorKind::Protocol);
}

#[test]
fn cookie_header_line_carries_the_token() {
    assert_eq!(session_cookie_header("abc"), "ws_session_auth_hash=abc");
}

#[test]
fn exactly_one_relogin_and_one_retry() {
    // the first authenticated call of a cycle answers with the
    // re-authentication status: one forced re-login, one retry, never more
    let mut flow = RetryState::new();
    let first = decide_response(&mut flow, 302, 200, Some(302));
    assert_eq!(first, RequestDecision::RetryAfterLogin);
    let second = decide_response(&mut flow, 302, 200, Some(302));
    assert_eq!(second, RequestDecision::Fail);

    let mut flow = RetryState::new();
    assert_eq!(
        decide_response(&mut flow, 302, 200, Some(302)),
        RequestDecision::RetryAfterLogin
    );
    assert_eq!(
        decide_response(&mut flow, 200, 200, Some(302)),
        RequestDecision::Accept
    );
}

#[test]
fn expected_status_is_accepted_and_others_fail() {
    let mut flow = RetryState::new();
    assert_eq!(decide_response(&mut flow, 200, 200, None), RequestDecision::Accept);
    assert_eq!(decide_response(&mut flow, 404, 200, None), RequestDecision::Fail);
}

#[test]
fn cache_returns_live_entries_and_evicts_expired_ones() {
    let mut cache = SimpleCache::new();
    cache.set("k", "v", Some(100));
    assert_eq!(cache.get("k", 99), Some("v".to_string()));
    assert_eq!(cache.get("k", 100), None);
    assert_eq!(cache.get("k", 99), None);
    cache.set("forever", "w", None);
    assert_eq!(cache.get("forever", i64::MAX), Some("w".to_string()));
    assert_eq!(cache.get("missing", 0), None);
}

#[test]
fn cache_set_replaces_and_keeps_other_keys() {
    let mut cache = SimpleCache::new();
    cache.set("a", "1", None);
    cache.set("b", "2", None);
    cache.set("a", "3", None);
    assert_eq!(cache.get("a", 0), Some("3".to_string()));
    assert_eq!(cache.get("b", 0), Some("2".to_string()));
    assert_eq!(cache.entries().len(), 2);
}

#[test]
fn cache_rebuilds_from_entries_last_wins() {
    let mut cache = SimpleCache::new();
    cache.set("a", "1", Some(50));
    cache.set("b", "2", None);
    let copy = SimpleCache::with_entries(cache.entries());
    let mut copy = copy;
    assert_eq!(copy.get("a", 0), Some("1".to_string()));
    assert_eq!(copy.get("a", 50), None);
    assert_eq!(copy.get("b", 123), Some("2".to_string()));
}

#[test]
fn session_manager_caches_a_login_and_honours_force() {
    let mut manager = SessionManager::new(SimpleCache::new());
    assert_eq!(manager.cached_session(false, 0), None);
    let headers = vec![COOKIE_LINE.to_string()];
    let session = manager.absorb_login_response(302, &headers, "").unwrap();
    assert_eq!(session.token, "tok123");
    assert_eq!(
        manager.cached_session(false, COOKIE_EPOCH - 1),
        Some("tok123".to_string())
    );
    // a forced refresh never reuses the cached token
    assert_eq!(manager.cached_session(true, COOKIE_EPOCH - 1), None);
    // past its expiry the cached token is evicted on read
    let mut manager2 = SessionManager::new(SimpleCache::new());
    manager2.absorb_login_response(302, &headers, "").unwrap();
    assert_eq!(manager2.cached_session(false, COOKIE_EPOCH), None);
}

#[test]
fn failed_login_caches_nothing() {
    let mut manager = SessionManager::new(SimpleCache::new());
    let err = manager.absorb_login_response(500, &Vec::new(), "").unwrap_err();
    assert_eq!(err.kind, ErrorKind::Protocol);
    assert_eq!(manager.cached_session(false, 0), None);
}

#[test]
fn login_request_carries_fixed_flags_and_credentials() {
    let csrf = WindscribeCsrfToken { csrf_token: "t0k".to_string(), csrf_time: 99 };
    let req = build_login_request(&csrf, "user", "pass");
    assert_eq!(req.login, 1);
    assert_eq!(req.upgrade, 0);
    assert_eq!(req.csrf_token, "t0k");
    assert_eq!(req.csrf_time, 99);
    assert_eq!(req.username, "user");
    assert_eq!(req.password, "pass");
    assert_eq!(req.code, "");
}

#[test]
fn mutation_requests_carry_the_csrf_pair() {
    let csrf = WindscribeCsrfToken { csrf_token: "t0k".to_string(), csrf_time: 99 };
    let del = build_delete_request(&csrf);
    assert_eq!(del.ctime, 99);
    assert_eq!(del.ctoken, "t0k");
    let any = build_epf_request(&csrf, None);
    assert_eq!(any.port, "");
    let fixed = build_epf_request(&csrf, Some(6543));
    assert_eq!(fixed.port, "6543");
    assert_eq!(fixed.ctime, 99);
}

#[test]
fn status_fetch_retries_once_on_the_relogin_marker() {
    let mut flow = RetryState::new();
    let redirect_body = "<a href=\"/login?auth_required\">sign in</a>";
    match interpret_status_body(&mut flow, redirect_body).unwrap() {
        Attempt::Retry => {}
        other => panic!("expected a retry, got {:?}", other),
    }
    // the refetched body still redirects: parsed, and it fails as a page
    let err = interpret_status_body(&mut flow, redirect_body).unwrap_err();
    assert_eq!(err.kind, ErrorKind::Parse);
}

#[test]
fn status_fetch_parses_a_clean_body() {
    let mut flow = RetryState::new();
    let html = "<div><script>window.epfExpires = 0;</script></div>";
    match interpret_status_body(&mut flow, html).unwrap() {
        Attempt::Settled(status) => assert_eq!(status, WindscribeEpfStatus::Disabled),
        other => panic!("expected a settled status, got {:?}", other),
    }
}

#[test]
fn delete_reply_is_interpreted_with_one_retry() {
    let mut flow = RetryState::new();
    match interpret_delete_response(&mut flow, None).unwrap() {
        Attempt::Retry => {}
        other => panic!("expected a retry, got {:?}", other),
    }
    let err = interpret_delete_response(&mut flow, None).unwrap_err();
    assert_eq!(err.kind, ErrorKind::Protocol);

    let mut flow = RetryState::new();
    let ok = WindscribeDeleteEpfResponse { success: 1, epf: true, message: None };
    match interpret_delete_response(&mut flow, Some(&ok)).unwrap() {
        Attempt::Settled(deleted) => assert!(deleted),
        other => panic!("expected settled, got {:?}", other),
    }
    let refused = WindscribeDeleteEpfResponse {
        success: 0,
        epf: false,
        message: Some("nope".to_string()),
    };
    let err = interpret_delete_response(&mut flow, Some(&refused)).unwrap_err();
    assert_eq!(err.kind, ErrorKind::Protocol);
    assert_eq!(err.describe(), "Failed to remove epf: nope");
}

#[test]
fn request_reply_yields_the_allocation_with_derived_expiry() {
    let mut flow = RetryState::new();
    let reply = WindscribeRequestEpfResponse {
        success: 1,
        epf: Some(WindscribeEpfRequestInfo { external: 7003, internal: 7003, start_ts: 1700000000 }),
        message: None,
    };
    match interpret_epf_response(&mut flow, Some(&reply)).unwrap() {
        Attempt::Settled(info) => {
            assert_eq!(info.internal_port, 7003);
            assert_eq!(info.external_port, 7003);
            assert_eq!(info.expires, 1700000000 + 604800);
        }
        other => panic!("expected settled, got {:?}", other),
    }
    let refused = WindscribeRequestEpfResponse {
        success: 0,
        epf: None,
        message: None,
    };
    let err = interpret_epf_response(&mut flow, Some(&refused)).unwrap_err();
    assert_eq!(err.kind, ErrorKind::Protocol);
    assert_eq!(err.describe(), "Failed to request matching epf: No message");
}
