use windscribe_ephemeral_port::errors::ErrorKind;
use windscribe_ephemeral_port::windscribe::{
    body_requires_relogin, parse_csrf_token, parse_epf_expires, parse_epf_ports, parse_epf_status,
    WindscribeEpfInfo, WindscribeEpfStatus,
};

fn status_page(expires: &str, ports: &[&str]) -> String {
    let mut spans = String::new();
    for p in ports {
        spans.push_str(&format!("<span>{}</span>", p));
    }
    format!(
        "<div><script>window.epfExpires = {};</script>\
         <div id=\"epf-port-info\">{}</div></div>",
        expires, spans
    )
}

#[test]
fn enabled_status_page_is_parsed() {
    let html = status_page("1700000000", &[" 6543 ", "6543"]);
    let status = parse_epf_status(&html).unwrap();
    assert_eq!(
        status,
        WindscribeEpfStatus::Enabled(WindscribeEpfInfo {
            expires: 1700000000 + 604800,
            internal_port: 6543,
            external_port: 6543,
        })
    );
}

#[test]
fn zero_expiry_means_disabled() {
    let html = status_page("0", &[]);
    assert_eq!(parse_epf_status(&html).unwrap(), WindscribeEpfStatus::Disabled);
}

#[test]
fn wrong_port_count_is_a_parse_error() {
    let one = status_page("1700000000", &["6543"]);
    assert_eq!(parse_epf_status(&one).unwrap_err().kind, ErrorKind::Parse);
    let three = status_page("1700000000", &["1", "2", "3"]);
    assert_eq!(parse_epf_status(&three).unwrap_err().kind, ErrorKind::Parse);
}

#[test]
fn missing_script_is_a_parse_error() {
    let err = parse_epf_status("<div>no script here</div>").unwrap_err();
    assert_eq!(err.kind, ErrorKind::Parse);
}

#[test]
fn epf_expires_is_read_from_the_script() {
    assert_eq!(
        parse_epf_expires("var x = 1; window.epfExpires = 1712345678; var y = 2;").unwrap(),
        1712345678
    );
    assert_eq!(
        parse_epf_expires("window.epfExpires = foo;").unwrap_err().kind,
        ErrorKind::Parse
    );
    assert_eq!(
        parse_epf_expires("window.epfExpires = 123").unwrap_err().kind,
        ErrorKind::Parse
    );
    assert_eq!(
        parse_epf_expires("nothing relevant").unwrap_err().kind,
        ErrorKind::Parse
    );
}

#[test]
fn ports_are_trimmed_and_non_numbers_skipped() {
    let html = "<div id=\"epf-port-info\"><span>label</span><span> 123 </span>\
                <span>\n456\n</span></div>";
    assert_eq!(parse_epf_ports(html).unwrap(), (123, 456));
}

#[test]
fn relogin_marker_is_detected_in_the_body() {
    assert!(body_requires_relogin(
        "<html><a href=\"/login?auth_required\">sign in</a></html>"
    ));
    assert!(!body_requires_relogin("<html>all good</html>"));
}

#[test]
fn csrf_pair_is_scraped_from_the_account_page() {
    let body = "<script>\ncsrf_time = 1712345678;\n    csrf_token = 'ab12CD_ef';\n</script>";
    let token = parse_csrf_token(body).unwrap();
    assert_eq!(token.csrf_time, 1712345678);
    assert_eq!(token.csrf_token, "ab12CD_ef");
}

#[test]
fn csrf_pair_on_one_line_is_accepted() {
    let body = "csrf_time = 7; csrf_token = 'zz';";
    let token = parse_csrf_token(body).unwrap();
    assert_eq!(token.csrf_time, 7);
    assert_eq!(token.csrf_token, "zz");
}

#[test]
fn missing_csrf_pair_is_a_parse_error() {
    assert_eq!(
        parse_csrf_token("<html>nothing</html>").unwrap_err().kind,
        ErrorKind::Parse
    );
    assert_eq!(
        parse_csrf_token("csrf_time = 5; csrf_nope").unwrap_err().kind,
        ErrorKind::Parse
    );
}
