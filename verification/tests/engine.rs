use lopxy::args::{LopxyArgs, LopxyCommand, StartArgs};
use lopxy::controller::{LopxyController, LopxyManagerServerController, LopxyProxyServerController};
use lopxy::env::LopxyEnv;
use lopxy::forward::{finish_forward, forward_method, plan_forward, ForwardEvent, ForwardMethod};
use lopxy::header::Header;
use lopxy::proxy::{ProxyClient, ProxyConfig};
use lopxy::request::{parse_proxy_request, LopxyProxyRequest};
use lopxy::response::{build_502_response, build_local_file_response, local_file_path, HttpVersion, UpstreamResponse};
use lopxy::router::{handle_proxy_request, route, RouteAction};
use lopxy::item::ProxyItem;
use lopxy::tunnel::{Tunnel, TunnelAction, TunnelEvent, TunnelKind, TunnelPhase};

fn controller() -> LopxyController {
    let args = LopxyArgs { command: LopxyCommand::Start(StartArgs::new()) };
    LopxyController::build(LopxyEnv::collect(args, Some("/tmp/lopxy-test".to_string()), None).unwrap())
}

fn client(enabled: bool, server: Option<&str>) -> ProxyClient {
    ProxyClient { client_port: 50000, system_proxy_config: ProxyConfig::new(enabled, server.map(|s| s.to_string()), None) }
}

fn request(bytes: &[u8]) -> LopxyProxyRequest {
    parse_proxy_request(bytes.to_vec(), 50000, Some(42)).unwrap()
}

#[test]
fn empty_registry_without_system_proxy_is_a_direct_tunnel() {
    let mut c = controller();
    let r = request(b"GET http://example.org/ HTTP/1.1\r\n\r\n");
    assert_eq!(r.host, "example.org:80");
    let action = handle_proxy_request(&r, &client(false, None), &mut c);
    assert!(matches!(action, RouteAction::DirectTunnel));
    let mut tunnel = Tunnel::new(TunnelKind::Direct);
    match tunnel.step(&r, &mut c, TunnelEvent::Connected) {
        TunnelAction::SendUpstream(bytes) => assert_eq!(bytes, b"GET http://example.org/ HTTP/1.1\r\n\r\n".to_vec()),
        _ => panic!("the request goes upstream as it came"),
    }
    let response = b"HTTP/1.1 200 OK\r\ncontent-length: 2\r\n\r\nok".to_vec();
    match tunnel.step(&r, &mut c, TunnelEvent::Transmitted(response.clone())) {
        TunnelAction::Reply(bytes) => assert_eq!(bytes, response),
        _ => panic!("the response goes to the client as it came"),
    }
    assert!(matches!(tunnel.step(&r, &mut c, TunnelEvent::Replied), TunnelAction::Relay));
    assert_eq!(tunnel.phase(), TunnelPhase::Relaying);
    assert_eq!(c.env().request_status_logs.len(), 0);
    assert!(matches!(tunnel.step(&r, &mut c, TunnelEvent::RelayEnded), TunnelAction::Close));
    assert_eq!(tunnel.phase(), TunnelPhase::Closed);
}

#[test]
fn direct_tunnel_does_not_depend_on_method_or_headers() {
    let mut c = controller();
    assert!(c.add_proxy_item("http://a.com/f.js", "file:///tmp/f.js", "application/javascript"));
    for bytes in [
        &b"GET http://example.org/ HTTP/1.1\r\n\r\n"[..],
        &b"POST http://example.org/x?y=1 HTTP/1.1\r\nHost: example.org\r\nContent-Length: 1\r\n\r\nz"[..],
        &b"DELETE http://a.com/f.js?v=2 HTTP/1.0\r\nX-A: 1\r\n\r\n"[..],
        &b"BREW http://a.com/ HTTP/1.1\r\nHost: elsewhere.test:1\r\n\r\n"[..],
    ] {
        let r = request(bytes);
        assert!(matches!(handle_proxy_request(&r, &client(false, None), &mut c), RouteAction::DirectTunnel));
        assert!(matches!(
            handle_proxy_request(&r, &client(false, Some("10.0.0.1:3128")), &mut c),
            RouteAction::DirectTunnel
        ));
        assert!(matches!(handle_proxy_request(&r, &client(true, None), &mut c), RouteAction::DirectTunnel));
    }
}

#[test]
fn file_rule_serves_the_local_file() {
    let mut c = controller();
    assert!(c.add_proxy_item("http://a.com/f.js", "file:///tmp/f.js", "application/javascript"));
    let r = request(b"GET http://a.com/f.js HTTP/1.1\r\nHost: a.com\r\n\r\n");
    let item = match handle_proxy_request(&r, &client(true, Some("10.0.0.1:3128")), &mut c) {
        RouteAction::LocalFile(item) => item,
        _ => panic!("the file responder serves a file target"),
    };
    assert_eq!(item.proxy_resource_url(), "file:///tmp/f.js");
    assert_eq!(local_file_path(item.proxy_resource_url(), false), Some("/tmp/f.js".to_string()));
    let contents: &[u8] = b"console.log(1);";
    let response = build_local_file_response(Some(contents), item.content_type());
    let expected: &[u8] =
        b"HTTP/1.1 202 OK\r\ncontent-length: 15\r\ncontent-type: application/javascript\r\n\r\nconsole.log(1);";
    assert_eq!(response, expected.to_vec());
}

#[test]
fn routing_table() {
    let r = request(b"GET http://a.com/f.js HTTP/1.1\r\n\r\n");
    assert!(matches!(route(&r, None, false), RouteAction::DirectTunnel));
    match route(&r, None, true) {
        RouteAction::Forward { url, redirected } => {
            assert_eq!(url, "http://a.com/f.js");
            assert!(!redirected);
        }
        _ => panic!("forwarded to the requested target"),
    }
    for flag in [false, true] {
        let item = ProxyItem::new("http://a.com/f.js", "https://b.com/g.js", "text/plain");
        match route(&r, Some(item), flag) {
            RouteAction::Forward { url, redirected } => {
                assert_eq!(url, "https://b.com/g.js");
                assert!(redirected);
            }
            _ => panic!("forwarded to the redirect target"),
        }
        let item = ProxyItem::new("http://a.com/f.js", "FILE:///tmp/g.js", "text/plain");
        assert!(matches!(route(&r, Some(item), flag), RouteAction::LocalFile(_)));
        let item = ProxyItem::new("http://a.com/f.js", "no url", "text/plain");
        assert!(matches!(route(&r, Some(item), flag), RouteAction::Drop));
    }
}

#[test]
fn connect_is_tunnelled_whatever_the_registry_holds() {
    let mut c = controller();
    assert!(c.add_proxy_item("http://example.org:443/", "file:///tmp/f.js", ""));
    let r = request(b"CONNECT example.org:443 HTTP/1.1\r\nHost: example.org:443\r\n\r\n");
    for cl in [client(false, None), client(true, Some("10.0.0.1:3128"))] {
        assert!(matches!(handle_proxy_request(&r, &cl, &mut c), RouteAction::ConnectTunnel));
    }
    let item = ProxyItem::new("example.org:443", "file:///tmp/f.js", "");
    assert!(matches!(route(&r, Some(item), true), RouteAction::ConnectTunnel));
}

#[test]
fn connect_tunnel_steps() {
    let mut c = controller();
    let r = request(b"CONNECT example.org:443 HTTP/1.1\r\nHost: example.org:443\r\n\r\n");
    let mut tunnel = Tunnel::new(TunnelKind::Connect);
    assert_eq!(tunnel.kind(), TunnelKind::Connect);
    assert_eq!(tunnel.phase(), TunnelPhase::Connecting);
    match tunnel.step(&r, &mut c, TunnelEvent::Connected) {
        TunnelAction::Reply(bytes) => assert_eq!(bytes, b"HTTP/1.0 200 Connection Established\r\n\r\n".to_vec()),
        _ => panic!("the client is told that the tunnel stands"),
    }
    assert!(matches!(tunnel.step(&r, &mut c, TunnelEvent::Replied), TunnelAction::Relay));
    assert!(matches!(tunnel.step(&r, &mut c, TunnelEvent::ShutdownTriggered), TunnelAction::Close));
    assert_eq!(c.env().request_status_logs.len(), 0);
}

#[test]
fn connect_failure_is_logged_once_and_not_answered() {
    let mut c = controller();
    let r = request(b"CONNECT unreachable.test:443 HTTP/1.1\r\nHost: unreachable.test:443\r\n\r\n");
    let mut tunnel = Tunnel::new(TunnelKind::Connect);
    let action = tunnel.step(&r, &mut c, TunnelEvent::ConnectFailed("connection refused".to_string()));
    assert!(matches!(action, TunnelAction::Close));
    assert_eq!(tunnel.phase(), TunnelPhase::Closed);
    let log = c.env().proxy_request_status_logs();
    assert_eq!(log.len(), 1);
    assert_eq!(log[0].pid, 42);
    assert_eq!(log[0].path, "unreachable.test:443");
    assert_eq!(log[0].status, "connection refused");
    assert!(matches!(tunnel.step(&r, &mut c, TunnelEvent::Connected), TunnelAction::Close));
    assert_eq!(c.env().request_status_logs.len(), 1);
}

#[test]
fn connect_reply_failure_is_not_logged() {
    let mut c = controller();
    let r = request(b"CONNECT example.org:443 HTTP/1.1\r\nHost: example.org:443\r\n\r\n");
    let mut tunnel = Tunnel::new(TunnelKind::Connect);
    assert!(matches!(tunnel.step(&r, &mut c, TunnelEvent::Connected), TunnelAction::Reply(_)));
    assert!(matches!(tunnel.step(&r, &mut c, TunnelEvent::ReplyFailed("broken pipe".to_string())), TunnelAction::Close));
    assert_eq!(c.env().request_status_logs.len(), 0);
}

#[test]
fn direct_tunnel_logs_an_abnormal_status() {
    let mut c = controller();
    let r = request(b"GET http://example.org/missing HTTP/1.1\r\n\r\n");
    let mut tunnel = Tunnel::new(TunnelKind::Direct);
    assert!(matches!(tunnel.step(&r, &mut c, TunnelEvent::Connected), TunnelAction::SendUpstream(_)));
    assert_eq!(tunnel.phase(), TunnelPhase::Transmitting);
    let response = b"HTTP/1.1 404 Not Found\r\n\r\n".to_vec();
    assert!(matches!(tunnel.step(&r, &mut c, TunnelEvent::Transmitted(response)), TunnelAction::Reply(_)));
    assert_eq!(c.env().request_status_logs.len(), 0);
    assert!(matches!(tunnel.step(&r, &mut c, TunnelEvent::Replied), TunnelAction::Relay));
    let log = c.env().proxy_request_status_logs();
    assert_eq!(log.len(), 1);
    assert_eq!(log[0].path, "http://example.org/missing");
    assert_eq!(log[0].status, "404 Not Found");
    assert_eq!(log[0].pid, 42);
}

#[test]
fn direct_tunnel_failures_are_logged() {
    let mut c = controller();
    let r = request(b"GET http://example.org/x HTTP/1.1\r\nHost: example.org:8080\r\n\r\n");
    let mut tunnel = Tunnel::new(TunnelKind::Direct);
    assert!(matches!(tunnel.step(&r, &mut c, TunnelEvent::ConnectFailed("no route".to_string())), TunnelAction::Close));
    let mut tunnel = Tunnel::new(TunnelKind::Direct);
    assert!(matches!(tunnel.step(&r, &mut c, TunnelEvent::Connected), TunnelAction::SendUpstream(_)));
    assert!(matches!(tunnel.step(&r, &mut c, TunnelEvent::TransmitFailed("reset".to_string())), TunnelAction::Close));
    let mut tunnel = Tunnel::new(TunnelKind::Direct);
    assert!(matches!(tunnel.step(&r, &mut c, TunnelEvent::Connected), TunnelAction::SendUpstream(_)));
    assert!(matches!(
        tunnel.step(&r, &mut c, TunnelEvent::Transmitted(b"HTTP/1.1 500 Oops\r\n\r\n".to_vec())),
        TunnelAction::Reply(_)
    ));
    assert!(matches!(tunnel.step(&r, &mut c, TunnelEvent::ReplyFailed("broken pipe".to_string())), TunnelAction::Close));
    let log = c.env().proxy_request_status_logs();
    assert_eq!(log.iter().map(|l| l.status.as_str()).collect::<Vec<&str>>(), vec!["no route", "reset", "broken pipe"]);
    assert!(log.iter().all(|l| l.path == "http://example.org/x"));
}

#[test]
fn forward_method_mapping() {
    assert_eq!(forward_method("GET"), ForwardMethod::Get);
    assert_eq!(forward_method("post"), ForwardMethod::Post);
    assert_eq!(forward_method("Put"), ForwardMethod::Put);
    assert_eq!(forward_method("DELETE"), ForwardMethod::Delete);
    assert_eq!(forward_method("head"), ForwardMethod::Head);
    assert_eq!(forward_method("pAtCh"), ForwardMethod::Patch);
    assert_eq!(forward_method("OPTIONS"), ForwardMethod::Get);
    assert_eq!(forward_method("BREW"), ForwardMethod::Get);
    assert_eq!(forward_method(""), ForwardMethod::Get);
}

#[test]
fn forward_plan() {
    let r = request(
        b"POST http://a.com/api HTTP/1.1\r\nHost: a.com\r\nUser-Agent: t\r\nX-Test: one\r\nContent-Length: 4\r\n\r\nbody",
    );
    let plan = plan_forward(&r, &client(true, Some("10.0.0.1:3128")), "https://b.com:8443/api");
    assert_eq!(plan.upstream_proxy, Some("http://10.0.0.1:3128".to_string()));
    assert_eq!(plan.url, "https://b.com:8443/api");
    assert_eq!(plan.method, ForwardMethod::Post);
    assert_eq!(plan.body, b"body".to_vec());
    assert_eq!(plan.headers.len(), 3);
    assert_eq!(plan.headers.get("host").unwrap().as_bytes(), b"b.com");
    assert_eq!(plan.headers.get("x-test").unwrap().as_bytes(), b"one");
    assert_eq!(plan.headers.get("content-length").unwrap().as_bytes(), b"4");
    assert!(plan.headers.get("user-agent").is_none());
}

#[test]
fn forward_plan_without_upstream_proxy() {
    let r = request(b"GET http://a.com/api HTTP/1.1\r\n\r\n");
    for cl in [client(false, Some("10.0.0.1:3128")), client(true, None), client(false, None)] {
        let plan = plan_forward(&r, &cl, "file:///tmp/x");
        assert_eq!(plan.upstream_proxy, None);
        assert_eq!(plan.method, ForwardMethod::Get);
        assert_eq!(plan.body, Vec::<u8>::new());
        assert_eq!(plan.headers.len(), 1);
        assert_eq!(plan.headers.get("host").unwrap().as_bytes(), b"");
    }
}

#[test]
fn unreachable_redirect_target_is_logged_once() {
    let mut c = controller();
    let r = request(b"GET http://a.com/f.js HTTP/1.1\r\nHost: a.com\r\n\r\n");
    let reply = finish_forward(&r, &mut c, "http://unreachable.test/f.js", ForwardEvent::Failed("dns error".to_string()));
    assert_eq!(reply, None);
    let log = c.env().proxy_request_status_logs();
    assert_eq!(log.len(), 1);
    assert_eq!(log[0].path, "http://unreachable.test/f.js");
    assert_eq!(log[0].status, "dns error");
    assert_eq!(log[0].pid, 42);
    assert_eq!(log[0].timestamp, c.env().status_refresh_timestamp);
}

#[test]
fn forwarded_response_is_written_back() {
    let mut c = controller();
    let r = request(b"GET http://a.com/f.js HTTP/1.1\r\nHost: a.com\r\n\r\n");
    let resp = UpstreamResponse::new(HttpVersion::Http11, 200, vec![Header::new("content-type", b"text/css")], b"a{}".to_vec()).unwrap();
    let reply = finish_forward(&r, &mut c, "http://b.com/f.css", ForwardEvent::Responded(resp));
    assert_eq!(reply, Some(b"HTTP/1.1 200 OK\r\ncontent-type: text/css\r\n\r\na{}".to_vec()));
    assert_eq!(c.env().request_status_logs.len(), 0);
    let resp = UpstreamResponse::new(HttpVersion::Http10, 503, Vec::new(), Vec::new()).unwrap();
    let reply = finish_forward(&r, &mut c, "http://b.com/f.css", ForwardEvent::Responded(resp));
    assert_eq!(reply, Some(b"HTTP/1.0 503 Service Unavailable\r\n\r\n".to_vec()));
    let log = c.env().proxy_request_status_logs();
    assert_eq!(log.len(), 1);
    assert_eq!(log[0].path, "http://b.com/f.css");
    assert_eq!(log[0].status, "503 Service Unavailable");
}

#[test]
fn forward_without_a_client_answers_502() {
    let mut c = controller();
    let r = request(b"GET http://a.com/f.js HTTP/1.1\r\nHost: a.com\r\n\r\n");
    assert_eq!(finish_forward(&r, &mut c, "http://b.com/", ForwardEvent::ClientBuildFailed), Some(build_502_response()));
    assert_eq!(c.env().request_status_logs.len(), 0);
    assert_eq!(finish_forward(&r, &mut c, "http://b.com/", ForwardEvent::BodyFailed { status: 200 }), None);
    assert_eq!(c.env().request_status_logs.len(), 0);
    assert_eq!(finish_forward(&r, &mut c, "http://b.com/", ForwardEvent::BodyFailed { status: 500 }), None);
    assert_eq!(c.env().request_status_logs.len(), 1);
}

#[test]
fn controller_reports() {
    let mut c = controller();
    c.report_proxy_request_status("http://a.com/", 200, 1);
    c.report_proxy_request_status("http://a.com/", 204, 1);
    assert_eq!(c.env().request_status_logs.len(), 0);
    c.report_proxy_request_status("http://a.com/", 301, 2);
    c.report_proxy_request_status("http://a.com/", 42, 3);
    c.report_connection_error("a.com:80", None, "timed out", 4);
    c.report_connection_error("a.com:80", Some("http://a.com/x".to_string()), "refused", 5);
    let log = c.proxy_request_logs();
    assert_eq!(log.len(), 4);
    assert_eq!(log[0].status, "301 Moved Permanently");
    assert_eq!(log[0].pid, 2);
    assert_eq!(log[1].status, "Unknown Status");
    assert_eq!(log[2].path, "a.com:80");
    assert_eq!(log[2].status, "timed out");
    assert_eq!(log[3].path, "http://a.com/x");
    assert_eq!(log[3].status, "refused");
    assert!(c.proxy_redirect("http://a.com/").is_none());
}

#[test]
fn controller_mutations_mark_the_registry_unsaved() {
    let mut c = controller();
    assert!(c.env().config_to_save().is_none());
    assert!(!c.add_proxy_item("no url", "http://b.com/", ""));
    assert!(c.env().config_to_save().is_none());
    assert!(c.add_proxy_item("http://a.com/", "http://b.com/", ""));
    assert_eq!(c.env().config_to_save().unwrap().proxy_item_count(), 1);
    assert!(!c.env_mut().save_config(false));
    assert!(c.env().config_to_save().is_some());
    assert!(c.env_mut().save_config(true));
    assert!(c.env().config_to_save().is_none());
    assert!(c.modify_proxy_item("http://a.com/", "http://c.com/", "text/css"));
    assert!(c.env().config_to_save().is_some());
    assert!(c.env_mut().save_config(true));
    assert!(!c.remove_proxy_item("http://z.com/"));
    assert!(c.env().config_to_save().is_none());
    assert!(c.remove_proxy_item("http://a.com/"));
    assert!(c.env().config_to_save().is_some());
    assert_eq!(c.list_all_proxy_item().len(), 0);
    assert_eq!(c.proxy_redirect("http://a.com/").map(|i| i.proxy_resource_url().to_string()), None);
}

#[test]
fn controller_shutdown_and_flags() {
    let mut c = controller();
    assert!(!c.env().proxy_shutdown.shutdown_started());
    c.shutdown();
    assert!(c.env().proxy_shutdown.shutdown_started());
    assert!(c.is_system_proxy_enabled(Some(1)));
    assert!(!c.is_system_proxy_enabled(None));
    assert_eq!(c.set_system_proxy_enabled(true), 1);
    assert_eq!(c.set_system_proxy_enabled(false), 0);
}
