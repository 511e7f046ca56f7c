use safechain_proxy::authority::{resolve_authority, Authority, HTTP_DEFAULT_PORT};
use safechain_proxy::body_limit::{limit_body, BodyLimit, BodyLimitError, MAX_BODY_SIZE};
use safechain_proxy::dispatch::{http_plain_proxy_status, route, Route};
use safechain_proxy::headers::{
    connection_listed_flags, drop_hop_by_hop, is_connection_listed, lower_bytes, sanitize,
    HeaderField,
};
use safechain_proxy::shutdown::{ShutdownCoordinator, ShutdownPhase, DRAIN_DEADLINE_SECS};
use safechain_proxy::tunnel::{
    http_connect_accept, ConnectReply, Tunnel, TunnelAction, TunnelEvent, TunnelPhase,
};

fn field(name: &str, value: &str) -> HeaderField {
    HeaderField { name: name.as_bytes().to_vec(), value: value.as_bytes().to_vec() }
}

fn names(hs: &[HeaderField]) -> Vec<String> {
    hs.iter().map(|f| String::from_utf8(f.name.clone()).unwrap()).collect()
}

fn accepted(r: ConnectReply) -> Authority {
    match r {
        ConnectReply::Accept(a) => a,
        ConnectReply::BadRequest => panic!("target refused"),
    }
}

#[test]
fn proxy_authorization_is_not_forwarded() {
    let hs = vec![
        field("Host", "example.test"),
        field("Proxy-Authorization", "Basic xyz"),
        field("Accept", "*/*"),
    ];
    assert_eq!(names(&sanitize(&hs)), vec!["Host", "Accept"]);
}

#[test]
fn every_fixed_hop_by_hop_header_is_removed_in_any_case() {
    let hs = vec![
        field("CONNECTION", "close"),
        field("keep-alive", "timeout=5"),
        field("Proxy-Authenticate", "Basic"),
        field("proxy-authorization", "Basic xyz"),
        field("Te", "trailers"),
        field("TRAILER", "Expires"),
        field("Transfer-Encoding", "chunked"),
        field("Upgrade", "websocket"),
        field("Content-Type", "text/plain"),
    ];
    assert_eq!(names(&sanitize(&hs)), vec!["Content-Type"]);
}

#[test]
fn headers_named_by_connection_are_removed() {
    let hs = vec![
        field("Connection", "keep-alive, X-Custom"),
        field("x-custom", "1"),
        field("X-Other", "2"),
    ];
    assert!(is_connection_listed(&hs, b"X-CUSTOM"));
    assert!(!is_connection_listed(&hs, b"x-other"));
    assert_eq!(names(&sanitize(&hs)), vec!["X-Other"]);
}

#[test]
fn sanitizing_twice_changes_nothing() {
    let hs = vec![
        field("Connection", "x-a"),
        field("X-A", "1"),
        field("Upgrade", "h2c"),
        field("Via", "1.1 p"),
        field("Set-Cookie", "a=1"),
        field("Set-Cookie", "b=2"),
    ];
    let once = sanitize(&hs);
    let twice = sanitize(&once);
    assert_eq!(names(&once), vec!["Via", "Set-Cookie", "Set-Cookie"]);
    assert_eq!(names(&twice), names(&once));
    assert_eq!(twice[2].value, b"b=2".to_vec());
}

#[test]
fn empty_header_list_stays_empty() {
    assert!(sanitize(&Vec::new()).is_empty());
}

#[test]
fn lower_case_of_a_name() {
    assert_eq!(lower_bytes(b"Proxy-Authorization"), b"proxy-authorization".to_vec());
}

#[test]
fn body_limit_lets_exactly_the_ceiling_through() {
    let mut lim = BodyLimit::new(10);
    assert_eq!(lim.consume(4), Ok(()));
    assert_eq!(lim.consume(6), Ok(()));
    assert_eq!(lim.consumed(), 10);
    assert_eq!(lim.consume(1), Err(BodyLimitError::LimitExceeded));
    assert_eq!(lim.consumed(), 10);
    assert_eq!(lim.limit(), 10);
}

#[test]
fn body_over_the_limit_is_cut_before_the_passing_chunk() {
    assert_eq!(limit_body(10, &vec![3, 3, 3, 3]), (3, true));
    assert_eq!(limit_body(12, &vec![3, 3, 3, 3]), (4, false));
    assert_eq!(limit_body(0, &vec![]), (0, false));
    assert_eq!(limit_body(0, &vec![0, 1]), (1, true));
}

#[test]
fn default_body_limit_is_500_mib() {
    assert_eq!(MAX_BODY_SIZE, 524_288_000);
    let mut lim = BodyLimit::new(MAX_BODY_SIZE);
    assert_eq!(lim.consume(MAX_BODY_SIZE), Ok(()));
    assert_eq!(lim.consume(1), Err(BodyLimitError::LimitExceeded));
}

#[test]
fn connect_target_with_port() {
    let a = accepted(http_connect_accept("example.test:443"));
    assert_eq!(a.host, "example.test");
    assert_eq!(a.port, 443);
    let b = accepted(http_connect_accept("example.test:8443"));
    assert_eq!(b.port, 8443);
}

#[test]
fn connect_target_without_port_defaults_to_443() {
    let a = accepted(http_connect_accept("example.test"));
    assert_eq!(a.host, "example.test");
    assert_eq!(a.port, 443);
}

#[test]
fn connect_target_ipv6() {
    let a = accepted(http_connect_accept("[::1]:8080"));
    assert_eq!(a.host, "::1");
    assert_eq!(a.port, 8080);
}

#[test]
fn unparseable_connect_target_is_a_bad_request() {
    assert!(matches!(http_connect_accept(""), ConnectReply::BadRequest));
    assert!(matches!(http_connect_accept(":443"), ConnectReply::BadRequest));
    assert!(matches!(http_connect_accept("exa mple:443"), ConnectReply::BadRequest));
}

#[test]
fn plain_target_defaults_to_port_80() {
    let a = resolve_authority("example.test", HTTP_DEFAULT_PORT).unwrap();
    assert_eq!((a.host.as_str(), a.port), ("example.test", 80));
}

#[test]
fn connect_to_reachable_origin_replies_200_then_relays() {
    let (mut t, reply) = Tunnel::start("example.test:443");
    assert_eq!(accepted(reply).port, 443);
    assert_eq!(t.phase, TunnelPhase::Connecting);
    assert!(t.outbound_opened);
    assert_eq!(t.on_event(TunnelEvent::OutboundConnected), TunnelAction::ReplyOkAndRelay);
    assert_eq!(t.phase, TunnelPhase::Relaying);
    assert!(t.ok_sent);
    assert_eq!(t.on_event(TunnelEvent::RelayFinished), TunnelAction::CloseBoth);
    assert_eq!(t.phase, TunnelPhase::Closed);
}

#[test]
fn connect_with_bad_target_opens_nothing() {
    let (mut t, reply) = Tunnel::start("");
    assert!(matches!(reply, ConnectReply::BadRequest));
    assert_eq!(t.phase, TunnelPhase::Closed);
    assert!(!t.outbound_opened);
    assert_eq!(t.on_event(TunnelEvent::OutboundConnected), TunnelAction::Nothing);
    assert!(!t.ok_sent);
}

#[test]
fn connect_refused_by_origin_gets_502_without_200() {
    let (mut t, _) = Tunnel::start("example.test:443");
    assert_eq!(t.on_event(TunnelEvent::OutboundFailed), TunnelAction::ReplyAndClose(502));
    assert_eq!(t.phase, TunnelPhase::Closed);
    assert!(!t.ok_sent);
    assert_eq!(t.on_event(TunnelEvent::OutboundConnected), TunnelAction::Nothing);
    assert!(!t.ok_sent);
}

#[test]
fn client_leaving_during_connect_aborts_outbound() {
    let (mut t, _) = Tunnel::start("example.test:443");
    assert_eq!(t.on_event(TunnelEvent::ClientClosed), TunnelAction::AbortOutbound);
    assert_eq!(t.phase, TunnelPhase::Closed);
    assert!(!t.ok_sent);
}

#[test]
fn connect_method_is_routed_to_tunnel() {
    assert_eq!(route(b"CONNECT"), Route::Tunnel);
    assert_eq!(route(b"GET"), Route::Forward);
    assert_eq!(route(b"connect"), Route::Forward);
    assert_eq!(route(b""), Route::Forward);
}

#[test]
fn plain_proxy_status_is_origin_status_or_502() {
    assert_eq!(http_plain_proxy_status(Some(200)), 200);
    assert_eq!(http_plain_proxy_status(Some(404)), 404);
    assert_eq!(http_plain_proxy_status(None), 502);
}

#[test]
fn shutdown_with_no_task_terminates_at_once() {
    let mut c = ShutdownCoordinator::new(DRAIN_DEADLINE_SECS);
    assert!(c.accepts_connections());
    c.trigger(100);
    assert_eq!(c.phase(), ShutdownPhase::Terminated);
    assert!(!c.register());
}

#[test]
fn shutdown_drains_until_last_task_finishes() {
    let mut c = ShutdownCoordinator::new(30);
    assert!(c.register());
    assert!(c.register());
    c.trigger(10);
    assert_eq!(c.phase(), ShutdownPhase::Draining);
    assert!(!c.accepts_connections());
    assert_eq!(c.tick(39), 0);
    c.deregister();
    assert_eq!(c.phase(), ShutdownPhase::Draining);
    c.deregister();
    assert_eq!(c.phase(), ShutdownPhase::Terminated);
    assert_eq!(c.forced(), 0);
}

#[test]
fn shutdown_cancels_what_is_left_at_the_deadline() {
    let mut c = ShutdownCoordinator::new(30);
    for _ in 0..3 {
        assert!(c.register());
    }
    c.trigger(100);
    assert_eq!(c.tick(129), 0);
    assert_eq!(c.phase(), ShutdownPhase::Draining);
    assert_eq!(c.active(), 3);
    assert_eq!(c.tick(130), 3);
    assert_eq!(c.phase(), ShutdownPhase::Terminated);
    assert_eq!(c.active(), 0);
    assert_eq!(c.forced(), 3);
}

#[test]
fn flagged_and_fixed_fields_are_dropped() {
    let hs = vec![field("TE", "trailers"), field("X-A", "1"), field("Host", "h")];
    let r = drop_hop_by_hop(&hs, &vec![false, true, false]);
    assert_eq!(names(&r), vec!["Host"]);
    let r = drop_hop_by_hop(&hs, &vec![false, false, false]);
    assert_eq!(names(&r), vec!["X-A", "Host"]);
}

#[test]
fn listed_flags_follow_the_connection_field() {
    let hs = vec![field("Connection", "x-a, close"), field("X-A", "1"), field("Host", "h")];
    assert_eq!(connection_listed_flags(&hs), vec![false, true, false]);
}

#[test]
fn four_letter_connect_target_is_a_domain() {
    let a = accepted(http_connect_accept("abcd"));
    assert_eq!((a.host.as_str(), a.port), ("abcd", 443));
}
