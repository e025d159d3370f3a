//! The provider-facing model: port-forwarding status, expiry
//! derivation, and the parsers for the provider's pages.
//!
//! The provider exposes its state through a status page whose embedded
//! script carries an expiry epoch and whose markup carries two port
//! numbers, and through JSON replies to the delete and request
//! mutations. This module turns those into plain values and says
//! exactly how.

use vstd::prelude::*;
use vstd::string::StringSliceAdditionalSpecFns;
use vstd::string::StrSliceExecFns;
use vstd::string::StringExecFns;
use vstd::utf8::encode_utf8;
use crate::errors::ErrorKind;
use crate::errors::PortError;
use crate::html::select_texts;
use crate::html::select_texts_of;
use crate::session::retry_step;
use crate::session::Attempt;
use crate::session::RetryState;
use crate::text::all_ascii;
use crate::text::all_digits;
use crate::text::ascii_seq;
use crate::text::ascii_to_string;
use crate::text::bytes_range;
use crate::text::contains_seq;
use crate::text::decimal_of;
use crate::text::digit_run_end;
use crate::text::digits_value;
use crate::text::first_index_of;
use crate::text::contains_bytes;
use crate::text::find_first;
use crate::text::matches_at;
use crate::text::matches_prefix_at;
use crate::text::parse_trimmed_u64;
use crate::text::parse_u64_range;
use crate::text::scan_digits_end;
use crate::text::scan_word_end;
use crate::text::skip_spaces;
use crate::text::space_run_end;
use crate::text::str_to_bytes;
use crate::text::trim_spec;
use crate::text::u64_to_string;
use crate::text::word_run_end;

verus! {

/// The provider extends a fresh allocation by seven days past the epoch
/// it reports; the extension is mirrored from the provider's own
/// client-side logic and is a fixed business rule.
pub const SEVEN_DAYS_SECS: i64 = 604800;

/// The largest epoch second this engine accepts as a calendar time
/// (9999-12-31T23:59:59Z). Beyond it the provider's value is treated as
/// unparseable.
pub const MAX_EPOCH_SECS: i64 = 253402300799;

/// An active ephemeral port forwarding: when it expires and which
/// internal/external ports it binds.
#[derive(Clone, Copy, Debug, PartialEq, Eq, Structural)]
pub struct WindscribeEpfInfo {
    pub expires: i64,
    pub internal_port: u64,
    pub external_port: u64,
}

/// The provider's port-forwarding state as scraped from the status
/// page: absent, or active with its expiry and ports.
#[derive(Clone, Copy, Debug, PartialEq, Eq, Structural)]
pub enum WindscribeEpfStatus {
    Disabled,
    Enabled(WindscribeEpfInfo),
}

/// A short-lived anti-forgery pair required for login and mutations.
#[derive(Clone, Debug)]
pub struct WindscribeCsrfToken {
    pub csrf_token: String,
    pub csrf_time: u64,
}

/// The form submitted to the credential endpoint.
#[derive(Clone, Debug)]
pub struct WindscribeLoginRequest {
    pub login: u32,
    pub upgrade: u32,
    pub csrf_token: String,
    pub csrf_time: u64,
    pub username: String,
    pub password: String,
    pub code: String,
}

/// The form submitted to the delete-forwarding endpoint.
#[derive(Clone, Debug)]
pub struct WindscribeDeleteEpfRequest {
    pub ctime: u64,
    pub ctoken: String,
}

/// The provider's reply to a delete request.
#[derive(Clone, Debug)]
pub struct WindscribeDeleteEpfResponse {
    pub success: u32,
    pub epf: bool,
    pub message: Option<String>,
}

/// The form submitted to the request-forwarding endpoint; `port` is the
/// requested port in decimal, or empty for any port.
#[derive(Clone, Debug)]
pub struct WindscribeRequestEpfRequest {
    pub ctime: u64,
    pub ctoken: String,
    pub port: String,
}

/// The allocation inside the provider's reply to a request: external
/// and internal port plus the allocation epoch.
#[derive(Clone, Copy, Debug, PartialEq, Eq, Structural)]
pub struct WindscribeEpfRequestInfo {
    pub external: u64,
    pub internal: u64,
    pub start_ts: i64,
}

/// The provider's reply to a request for a new forwarding.
#[derive(Clone, Debug)]
pub struct WindscribeRequestEpfResponse {
    pub success: u32,
    pub epf: Option<WindscribeEpfRequestInfo>,
    pub message: Option<String>,
}

/// The true expiry of an allocation made at `start_time`: exactly seven
/// days later. Fails (as unparseable) outside `[0, MAX_EPOCH_SECS]`.
pub fn get_epf_expiration(start_time: i64) -> (r: Result<i64, PortError>)
    ensures
        match r {
            Ok(v) => 0 <= start_time <= MAX_EPOCH_SECS && v == start_time + SEVEN_DAYS_SECS,
            Err(e) => !(0 <= start_time <= MAX_EPOCH_SECS) && e.kind == ErrorKind::Parse,
        },
{
    if start_time < 0 || start_time > MAX_EPOCH_SECS {
        return Err(PortError::new(ErrorKind::Parse, "epf expiry epoch is out of range"));
    }
    Ok(start_time + SEVEN_DAYS_SECS)
}

/// The session silently expired: the status page came back as a
/// login redirect despite a non-error status code.
pub fn body_requires_relogin(body: &str) -> (r: bool)
    ensures
        r == contains_seq(body.spec_bytes(), "/login?auth_required".spec_bytes()),
{
    let b = str_to_bytes(body);
    let marker = str_to_bytes("/login?auth_required");
    contains_bytes(&b, &marker)
}

/// The number in the first `window.epfExpires = <digits>;` of the
/// script, if the page carries one.
pub open spec fn spec_epf_expires(b: Seq<u8>) -> Option<int> {
    let marker = "window.epfExpires = ".spec_bytes();
    match first_index_of(b, marker) {
        None => None,
        Some(i) => {
            let ds = i + marker.len();
            let e = digit_run_end(b, ds);
            if e == ds {
                None
            } else if e < b.len() && b[e] == 59 {
                Some(digits_value(b.subrange(ds, e)))
            } else {
                None
            }
        },
    }
}

/// The expiry epoch embedded in the status page's script.
pub fn parse_epf_expires(script: &str) -> (r: Result<u64, PortError>)
    ensures
        match r {
            Ok(v) => spec_epf_expires(script.spec_bytes()) == Some(v as int),
            Err(e) => e.kind == ErrorKind::Parse && (spec_epf_expires(script.spec_bytes()) is None
                || spec_epf_expires(script.spec_bytes()).unwrap() > u64::MAX as int),
        },
{
    let b = str_to_bytes(script);
    let marker = str_to_bytes("window.epfExpires = ");
    let i = match find_first(&b, &marker) {
        Some(i) => i,
        None => {
            return Err(PortError::new(ErrorKind::Parse, "failed to find epf expires var"));
        },
    };
    let bl: usize = b.len();
    proof {
        assert(i + marker@.len() <= bl);
    }
    let ds: usize = i + marker.len();
    let e = scan_digits_end(&b, ds);
    if e == ds {
        return Err(PortError::new(ErrorKind::Parse, "failed to find epf expires var"));
    }
    if !(e < b.len() && b[e] == 59) {
        return Err(PortError::new(ErrorKind::Parse, "failed to find epf expires var"));
    }
    match parse_u64_range(&b, ds, e) {
        Some(v) => Ok(v),
        None => Err(PortError::new(ErrorKind::Parse, "epf expires var is out of range")),
    }
}

/// The port a rendered markup text denotes: its digits after trimming
/// whitespace, if that is all the text holds and the value fits.
pub open spec fn port_of_text(t: Seq<char>) -> Option<u64> {
    let b = trim_spec(encode_utf8(t));
    if b.len() > 0 && all_digits(b) && digits_value(b) <= u64::MAX as int {
        Some(digits_value(b) as u64)
    } else {
        None
    }
}

/// The ports denoted by a sequence of texts, in order, skipping texts
/// that denote none.
pub open spec fn ports_of_texts(ts: Seq<Seq<char>>) -> Seq<u64>
    decreases ts.len(),
{
    if ts.len() == 0 {
        Seq::empty()
    } else {
        let rest = ports_of_texts(ts.drop_last());
        match port_of_text(ts.last()) {
            Some(p) => rest.push(p),
            None => rest,
        }
    }
}

/// The two port numbers rendered at the status page's fixed markup
/// positions, if exactly two are found.
pub open spec fn spec_epf_ports(html: Seq<char>) -> Option<(u64, u64)> {
    match select_texts_of(html, "#epf-port-info span"@) {
        None => None,
        Some(ts) => {
            let ps = ports_of_texts(ts);
            if ps.len() == 2 {
                Some((ps[0], ps[1]))
            } else {
                None
            }
        },
    }
}

/// The two port numbers on the status page.
pub fn parse_epf_ports(html: &str) -> (r: Result<(u64, u64), PortError>)
    ensures
        match r {
            Ok(p) => spec_epf_ports(html@) == Some(p),
            Err(e) => e.kind == ErrorKind::Parse && spec_epf_ports(html@) is None,
        },
{
    let texts = match select_texts(html, "#epf-port-info span") {
        Some(t) => t,
        None => {
            return Err(PortError::new(ErrorKind::Parse, "invalid port selector"));
        },
    };
    let ghost ts = texts.deep_view();
    let mut ports: Vec<u64> = Vec::new();
    let mut i: usize = 0;
    proof {
        assert(ts.take(0) =~= Seq::<Seq<char>>::empty());
    }
    while i < texts.len()
        invariant
            0 <= i <= texts@.len(),
            ts == texts.deep_view(),
            ts.len() == texts@.len(),
            ports@ == ports_of_texts(ts.take(i as int)),
        decreases texts@.len() - i,
    {
        let tb = texts[i].as_str().as_bytes_vec();
        proof {
            assert(ts.take(i + 1).drop_last() =~= ts.take(i as int));
            assert(ts.take(i + 1).last() == ts[i as int]);
            assert(ts[i as int] == texts@[i as int]@);
            assert(tb@ == encode_utf8(texts@[i as int]@));
        }
        match parse_trimmed_u64(&tb) {
            Some(p) => {
                ports.push(p);
            },
            None => {},
        }
        i += 1;
    }
    proof {
        assert(ts.take(texts@.len() as int) =~= ts);
    }
    if ports.len() == 2 {
        let p0 = ports[0];
        let p1 = ports[1];
        Ok((p0, p1))
    } else {
        Err(PortError::new(ErrorKind::Parse, "failed to find epf ports"))
    }
}

/// What the status page says, as a whole: the port-forwarding state it
/// renders, or nothing where its structure is not as expected.
pub open spec fn spec_epf_status(html: Seq<char>) -> Option<WindscribeEpfStatus> {
    match select_texts_of(html, "script:not([src])"@) {
        None => None,
        Some(scripts) => {
            if scripts.len() == 0 {
                None
            } else {
                match spec_epf_expires(encode_utf8(scripts[0])) {
                    None => None,
                    Some(v) => {
                        if v == 0 {
                            Some(WindscribeEpfStatus::Disabled)
                        } else if v > MAX_EPOCH_SECS as int {
                            None
                        } else {
                            match spec_epf_ports(html) {
                                None => None,
                                Some(p) => Some(
                                    WindscribeEpfStatus::Enabled(
                                        WindscribeEpfInfo {
                                            expires: (v + SEVEN_DAYS_SECS) as i64,
                                            internal_port: p.0,
                                            external_port: p.1,
                                        },
                                    ),
                                ),
                            }
                        }
                    },
                }
            }
        },
    }
}

/// The CSRF pair embedded in the account page, found by the fixed text
/// pattern `csrf_time = <digits>;` followed, after whitespace, by
/// `csrf_token = '<word>';` — at the first occurrence of `csrf_time = `.
pub open spec fn spec_csrf_pair(b: Seq<u8>) -> Option<(int, Seq<u8>)> {
    let m1 = "csrf_time = ".spec_bytes();
    let m2 = "csrf_token = '".spec_bytes();
    match first_index_of(b, m1) {
        None => None,
        Some(i) => {
            let ds = i + m1.len();
            let e = digit_run_end(b, ds);
            if e == ds {
                None
            } else if !(e < b.len() && b[e] == 59) {
                None
            } else {
                let k = space_run_end(b, e + 1);
                if !matches_at(b, k, m2) {
                    None
                } else {
                    let ws = k + m2.len();
                    let w = word_run_end(b, ws);
                    if w == ws {
                        None
                    } else if !matches_at(b, w, "';".spec_bytes()) {
                        None
                    } else {
                        Some((digits_value(b.subrange(ds, e)), b.subrange(ws, w)))
                    }
                }
            }
        },
    }
}

/// Scrape the action-CSRF pair from the account page.
pub fn parse_csrf_token(body: &str) -> (r: Result<WindscribeCsrfToken, PortError>)
    ensures
        ({
            let p = spec_csrf_pair(body.spec_bytes());
            match r {
                Ok(t) => p is Some && t.csrf_time as int == p.unwrap().0 && t.csrf_token@
                    == ascii_seq(p.unwrap().1),
                Err(e) => e.kind == ErrorKind::Parse && (p is None || p.unwrap().0 > u64::MAX
                    as int),
            }
        }),
{
    let b = str_to_bytes(body);
    let m1 = str_to_bytes("csrf_time = ");
    let m2 = str_to_bytes("csrf_token = '");
    let m3 = str_to_bytes("';");
    let i = match find_first(&b, &m1) {
        Some(i) => i,
        None => {
            return Err(PortError::new(ErrorKind::Parse, "failed to find csrf token"));
        },
    };
    let bl: usize = b.len();
    proof {
        assert(i + m1@.len() <= bl);
    }
    let ds: usize = i + m1.len();
    let e = scan_digits_end(&b, ds);
    if e == ds {
        return Err(PortError::new(ErrorKind::Parse, "failed to find csrf token"));
    }
    if !(e < b.len() && b[e] == 59) {
        return Err(PortError::new(ErrorKind::Parse, "failed to find csrf token"));
    }
    let k = skip_spaces(&b, e + 1);
    if !matches_prefix_at(&b, k, &m2) {
        return Err(PortError::new(ErrorKind::Parse, "failed to find csrf token"));
    }
    proof {
        assert(k + m2@.len() <= bl);
    }
    let ws: usize = k + m2.len();
    let w = scan_word_end(&b, ws);
    if w == ws {
        return Err(PortError::new(ErrorKind::Parse, "failed to find csrf token"));
    }
    if !matches_prefix_at(&b, w, &m3) {
        return Err(PortError::new(ErrorKind::Parse, "failed to find csrf token"));
    }
    let time = match parse_u64_range(&b, ds, e) {
        Some(v) => v,
        None => {
            return Err(PortError::new(ErrorKind::Parse, "csrf time is out of range"));
        },
    };
    let token_bytes = bytes_range(&b, ws, w);
    proof {
        assert forall|idx: int| 0 <= idx < token_bytes@.len() implies #[trigger] token_bytes@[idx]
            < 128 by {
            assert(token_bytes@[idx] == b@[ws + idx]);
        }
    }
    let token = ascii_to_string(token_bytes);
    Ok(WindscribeCsrfToken { csrf_token: token, csrf_time: time })
}

/// The login form for the two-step handshake: fixed flags, the CSRF
/// challenge, and the credentials. The second-factor code is not
/// supported and stays empty.
pub fn build_login_request(csrf: &WindscribeCsrfToken, username: &str, password: &str) -> (r:
    WindscribeLoginRequest)
    ensures
        r.login == 1,
        r.upgrade == 0,
        r.csrf_token@ == csrf.csrf_token@,
        r.csrf_time == csrf.csrf_time,
        r.username@ == username@,
        r.password@ == password@,
        r.code@.len() == 0,
{
    WindscribeLoginRequest {
        login: 1,
        upgrade: 0,
        csrf_token: csrf.csrf_token.clone(),
        csrf_time: csrf.csrf_time,
        username: username.to_owned(),
        password: password.to_owned(),
        code: String::new(),
    }
}

/// The form for the delete-forwarding endpoint.
pub fn build_delete_request(csrf: &WindscribeCsrfToken) -> (r: WindscribeDeleteEpfRequest)
    ensures
        r.ctime == csrf.csrf_time,
        r.ctoken@ == csrf.csrf_token@,
{
    WindscribeDeleteEpfRequest { ctime: csrf.csrf_time, ctoken: csrf.csrf_token.clone() }
}

/// The form for the request-forwarding endpoint: the requested port in
/// decimal, or empty to let the provider pick.
pub fn build_epf_request(csrf: &WindscribeCsrfToken, port: Option<u64>) -> (r:
    WindscribeRequestEpfRequest)
    ensures
        r.ctime == csrf.csrf_time,
        r.ctoken@ == csrf.csrf_token@,
        match port {
            Some(p) => r.port@ == ascii_seq(decimal_of(p as nat)),
            None => r.port@.len() == 0,
        },
{
    let port_text = match port {
        Some(p) => u64_to_string(p),
        None => String::new(),
    };
    WindscribeRequestEpfRequest {
        ctime: csrf.csrf_time,
        ctoken: csrf.csrf_token.clone(),
        port: port_text,
    }
}

/// One fetch of the status page: a body that turns out to be a login
/// redirect spends the single re-login and is fetched again; any other
/// body is parsed.
pub fn interpret_status_body(flow: &mut RetryState, body: &str) -> (r: Result<
    Attempt<WindscribeEpfStatus>,
    PortError,
>)
    ensures
        ({
            let needs = contains_seq(body.spec_bytes(), "/login?auth_required".spec_bytes());
            let fire = needs && !old(flow).retried;
            &&& *final(flow) == retry_step(*old(flow), needs).0
            &&& match r {
                Ok(Attempt::Retry) => fire,
                Ok(Attempt::Settled(st)) => !fire && spec_epf_status(body@) == Some(st),
                Err(e) => !fire && e.kind == ErrorKind::Parse && spec_epf_status(body@) is None,
            }
        }),
{
    let needs = body_requires_relogin(body);
    if flow.should_retry(needs) {
        Ok(Attempt::Retry)
    } else {
        match parse_epf_status(body) {
            Ok(st) => Ok(Attempt::Settled(st)),
            Err(e) => Err(e),
        }
    }
}

/// Digest the delete endpoint's reply: an undecodable body spends the
/// single re-login; `success == 1` settles on whether a forwarding was
/// deleted; anything else is a protocol violation carrying the
/// provider's message.
pub fn interpret_delete_response(
    flow: &mut RetryState,
    response: Option<&WindscribeDeleteEpfResponse>,
) -> (r: Result<Attempt<bool>, PortError>)
    ensures
        *final(flow) == retry_step(*old(flow), response is None).0,
        ({
            let fire = response is None && !old(flow).retried;
            match r {
                Ok(Attempt::Retry) => fire,
                Ok(Attempt::Settled(deleted)) => response is Some && response.unwrap().success
                    == 1 && deleted == response.unwrap().epf,
                Err(e) => {
                    &&& !fire
                    &&& e.kind == ErrorKind::Protocol
                    &&& (response is None || response.unwrap().success != 1)
                    &&& (response is Some ==> e.message@ == "Failed to remove epf: "@ + (
                    match response.unwrap().message {
                        Some(m) => m@,
                        None => "No message"@,
                    }))
                },
            }
        }),
{
    match response {
        None => {
            if flow.should_retry(true) {
                Ok(Attempt::Retry)
            } else {
                Err(PortError::new(ErrorKind::Protocol, "failed to decode delete response"))
            }
        },
        Some(res) => {
            if res.success == 1 {
                Ok(Attempt::Settled(res.epf))
            } else {
                let reason = match &res.message {
                    Some(m) => String::from_str("Failed to remove epf: ").concat(m.as_str()),
                    None => String::from_str("Failed to remove epf: ").concat("No message"),
                };
                Err(PortError::with_message(ErrorKind::Protocol, reason))
            }
        },
    }
}

/// Digest the request endpoint's reply: an undecodable body spends the
/// single re-login; `success == 1` with an allocation settles on the
/// new forwarding, its expiry derived from the allocation epoch;
/// anything else is a protocol violation carrying the provider's
/// message.
pub fn interpret_epf_response(
    flow: &mut RetryState,
    response: Option<&WindscribeRequestEpfResponse>,
) -> (r: Result<Attempt<WindscribeEpfInfo>, PortError>)
    ensures
        *final(flow) == retry_step(*old(flow), response is None).0,
        ({
            let fire = response is None && !old(flow).retried;
            match r {
                Ok(Attempt::Retry) => fire,
                Ok(Attempt::Settled(info)) => {
                    &&& response is Some
                    &&& response.unwrap().success == 1
                    &&& response.unwrap().epf is Some
                    &&& ({
                        let alloc = response.unwrap().epf.unwrap();
                        &&& 0 <= alloc.start_ts <= MAX_EPOCH_SECS
                        &&& info.expires == alloc.start_ts + SEVEN_DAYS_SECS
                        &&& info.internal_port == alloc.internal
                        &&& info.external_port == alloc.external
                    })
                },
                Err(e) => !fire && (if response is Some && response.unwrap().success == 1
                    && response.unwrap().epf is Some {
                    e.kind == ErrorKind::Parse && !(0 <= response.unwrap().epf.unwrap().start_ts
                        <= MAX_EPOCH_SECS)
                } else {
                    e.kind == ErrorKind::Protocol && (response is Some ==> e.message@
                        == "Failed to request matching epf: "@ + (
                    match response.unwrap().message {
                        Some(m) => m@,
                        None => "No message"@,
                    }))
                }),
            }
        }),
{
    match response {
        None => {
            if flow.should_retry(true) {
                Ok(Attempt::Retry)
            } else {
                Err(PortError::new(ErrorKind::Protocol, "failed to decode request response"))
            }
        },
        Some(res) => {
            let has_alloc = res.success == 1 && res.epf.is_some();
            if has_alloc {
                let alloc = match &res.epf {
                    Some(a) => *a,
                    None => {
                        return Err(
                            PortError::new(ErrorKind::Protocol, "failed to decode request response"),
                        );
                    },
                };
                let expires = match get_epf_expiration(alloc.start_ts) {
                    Ok(x) => x,
                    Err(e) => {
                        return Err(e);
                    },
                };
                Ok(
                    Attempt::Settled(
                        WindscribeEpfInfo {
                            expires,
                            internal_port: alloc.internal,
                            external_port: alloc.external,
                        },
                    ),
                )
            } else {
                let reason = match &res.message {
                    Some(m) => String::from_str("Failed to request matching epf: ").concat(
                        m.as_str(),
                    ),
                    None => String::from_str("Failed to request matching epf: ").concat(
                        "No message",
                    ),
                };
                Err(PortError::with_message(ErrorKind::Protocol, reason))
            }
        },
    }
}

/// Parse the status page into the provider's port-forwarding state.
pub fn parse_epf_status(html: &str) -> (r: Result<WindscribeEpfStatus, PortError>)
    ensures
        match r {
            Ok(st) => spec_epf_status(html@) == Some(st),
            Err(e) => e.kind == ErrorKind::Parse && spec_epf_status(html@) is None,
        },
{
    let scripts = match select_texts(html, "script:not([src])") {
        Some(t) => t,
        None => {
            return Err(PortError::new(ErrorKind::Parse, "invalid script selector"));
        },
    };
    if scripts.len() == 0 {
        return Err(PortError::new(ErrorKind::Parse, "failed to find epf script"));
    }
    proof {
        assert(scripts.deep_view()[0] == scripts@[0]@);
    }
    let v = match parse_epf_expires(scripts[0].as_str()) {
        Ok(v) => v,
        Err(e) => {
            return Err(e);
        },
    };
    if v == 0 {
        return Ok(WindscribeEpfStatus::Disabled);
    }
    if v > MAX_EPOCH_SECS as u64 {
        return Err(PortError::new(ErrorKind::Parse, "epf expiry epoch is out of range"));
    }
    let expires = match get_epf_expiration(v as i64) {
        Ok(x) => x,
        Err(e) => {
            return Err(e);
        },
    };
    let p = match parse_epf_ports(html) {
        Ok(p) => p,
        Err(e) => {
            return Err(e);
        },
    };
    Ok(
        WindscribeEpfStatus::Enabled(
            WindscribeEpfInfo { expires, internal_port: p.0, external_port: p.1 },
        ),
    )
}

} // verus!
