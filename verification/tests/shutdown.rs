use lopxy::args::{LopxyArgs, LopxyCommand, StartArgs};
use lopxy::controller::{LopxyController, LopxyManagerServerController};
use lopxy::env::LopxyEnv;
use lopxy::proxy::{AcceptAction, AcceptEvent, Proxy, ProxyConfig};
use lopxy::shutdown::{ShutdownCoordinator, ShutdownState};

fn proxy() -> Proxy {
    Proxy::build(
        ProxyConfig::new(true, Some("10.0.0.1:3128".to_string()), None),
        ProxyConfig::new(true, Some("127.0.0.1:7237".to_string()), Some("<local>".to_string())),
    )
}

#[test]
fn coordinator_starts_running() {
    let c = ShutdownCoordinator::new();
    assert_eq!(c.state(), ShutdownState::Running);
    assert_eq!(c.active(), 0);
    assert!(!c.shutdown_started());
}

#[test]
fn nothing_registers_after_the_trigger() {
    let mut c = ShutdownCoordinator::new();
    assert!(c.register());
    assert!(c.register());
    assert_eq!(c.active(), 2);
    assert!(c.shutdown());
    assert!(!c.shutdown());
    assert_eq!(c.state(), ShutdownState::ShuttingDown);
    assert!(c.shutdown_started());
    assert!(!c.register());
    assert_eq!(c.active(), 2);
}

#[test]
fn barrier_opens_after_the_last_operation() {
    let mut c = ShutdownCoordinator::new();
    assert!(c.register());
    assert!(c.register());
    assert!(!c.wait_shutdown_complete());
    c.shutdown();
    assert!(!c.wait_shutdown_complete());
    c.complete();
    assert!(!c.wait_shutdown_complete());
    assert_eq!(c.state(), ShutdownState::ShuttingDown);
    c.complete();
    assert!(c.wait_shutdown_complete());
    assert_eq!(c.state(), ShutdownState::Drained);
    assert!(c.wait_shutdown_complete());
    assert!(!c.register());
    c.complete();
    assert_eq!(c.active(), 0);
    assert_eq!(c.state(), ShutdownState::Drained);
}

#[test]
fn barrier_of_an_idle_coordinator() {
    let mut c = ShutdownCoordinator::new();
    assert!(!c.wait_shutdown_complete());
    assert_eq!(c.state(), ShutdownState::Running);
    c.shutdown();
    assert!(c.wait_shutdown_complete());
    assert_eq!(c.state(), ShutdownState::Drained);
}

#[test]
fn listener_spawns_while_running() {
    let p = proxy();
    let mut c = ShutdownCoordinator::new();
    assert_eq!(p.bind_address(), Some(&"127.0.0.1:7237".to_string()));
    match p.on_accept_event(&mut c, AcceptEvent::Accepted(50001)) {
        AcceptAction::Spawn(client) => {
            assert_eq!(client.client_port, 50001);
            assert!(client.use_system_proxy());
            assert_eq!(client.system_proxy_config.proxy_server(), Some(&"10.0.0.1:3128".to_string()));
        }
        _ => panic!("a handler is spawned"),
    }
    assert_eq!(c.active(), 1);
    assert!(matches!(p.on_accept_event(&mut c, AcceptEvent::AcceptFailed), AcceptAction::Accept));
    assert!(matches!(p.on_accept_event(&mut c, AcceptEvent::HandlerExited), AcceptAction::Accept));
    assert_eq!(c.active(), 0);
    assert_eq!(c.state(), ShutdownState::Running);
}

#[test]
fn listener_returns_only_after_every_handler_has_left() {
    let p = proxy();
    let mut c = ShutdownCoordinator::new();
    assert!(matches!(p.on_accept_event(&mut c, AcceptEvent::Accepted(1)), AcceptAction::Spawn(_)));
    assert!(matches!(p.on_accept_event(&mut c, AcceptEvent::Accepted(2)), AcceptAction::Spawn(_)));
    assert!(matches!(p.on_accept_event(&mut c, AcceptEvent::ShutdownTriggered), AcceptAction::Wait));
    assert!(matches!(p.on_accept_event(&mut c, AcceptEvent::Accepted(3)), AcceptAction::Wait));
    assert_eq!(c.active(), 2);
    assert!(matches!(p.on_accept_event(&mut c, AcceptEvent::AcceptFailed), AcceptAction::Wait));
    assert!(matches!(p.on_accept_event(&mut c, AcceptEvent::HandlerExited), AcceptAction::Wait));
    assert!(matches!(p.on_accept_event(&mut c, AcceptEvent::HandlerExited), AcceptAction::Return));
    assert_eq!(c.state(), ShutdownState::Drained);
    assert!(matches!(p.on_accept_event(&mut c, AcceptEvent::Accepted(4)), AcceptAction::Return));
    assert!(matches!(p.on_accept_event(&mut c, AcceptEvent::ShutdownTriggered), AcceptAction::Return));
}

#[test]
fn idle_listener_returns_at_the_trigger() {
    let p = proxy();
    let mut c = ShutdownCoordinator::new();
    assert!(matches!(p.on_accept_event(&mut c, AcceptEvent::ShutdownTriggered), AcceptAction::Return));
}

#[test]
fn listener_sees_the_trigger_of_the_controller() {
    let p = proxy();
    let args = LopxyArgs { command: LopxyCommand::Start(StartArgs::new()) };
    let mut controller =
        LopxyController::build(LopxyEnv::collect(args, Some("/tmp/lopxy-test".to_string()), None).unwrap());
    assert!(matches!(
        p.on_accept_event(&mut controller.env_mut().proxy_shutdown, AcceptEvent::Accepted(1)),
        AcceptAction::Spawn(_)
    ));
    controller.shutdown();
    assert!(matches!(
        p.on_accept_event(&mut controller.env_mut().proxy_shutdown, AcceptEvent::Accepted(2)),
        AcceptAction::Wait
    ));
    assert!(matches!(
        p.on_accept_event(&mut controller.env_mut().proxy_shutdown, AcceptEvent::ShutdownTriggered),
        AcceptAction::Wait
    ));
    assert!(matches!(
        p.on_accept_event(&mut controller.env_mut().proxy_shutdown, AcceptEvent::HandlerExited),
        AcceptAction::Return
    ));
    assert_eq!(controller.env().proxy_shutdown.state(), ShutdownState::Drained);
}

#[test]
fn build_client_copies_the_upstream_setting() {
    let p = proxy();
    let client = p.build_client(7);
    assert_eq!(client.client_port, 7);
    assert_eq!(client.system_proxy_config.enabled(), true);
    assert_eq!(client.system_proxy_config.proxy_server(), Some(&"10.0.0.1:3128".to_string()));
    assert_eq!(client.system_proxy_config.proxy_override(), None);
}
