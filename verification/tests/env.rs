use lopxy::args::{
    AddArgs, ListArgs, LopxyArgs, LopxyCommand, ModifyArgs, RemoveArgs, StartArgs, StopArgs, DEFAULT_PROXY_PORT,
    DEFAULT_WEB_MANAGER_PORT,
};
use lopxy::config::LopxyConfig;
use lopxy::controller::{LopxyController, LopxyManagerServerController};
use lopxy::env::{InstanceGuard, LopxyEnv};
use lopxy::instance::LopxyInstance;
use lopxy::item::ProxyItem;
use lopxy::shutdown::ShutdownState;

fn env(command: LopxyCommand) -> LopxyEnv {
    LopxyEnv::collect(LopxyArgs { command }, Some("/home/u/.lopxy".to_string()), None).unwrap()
}

fn start(daemon: bool) -> LopxyCommand {
    LopxyCommand::Start(StartArgs { web_manager_port: 8283, proxy_port: 7237, daemon })
}

#[test]
fn default_start_arguments() {
    let args = StartArgs::new();
    assert_eq!(args.web_manager_port, 8283);
    assert_eq!(args.proxy_port, 7237);
    assert!(!args.daemon);
    assert_eq!(DEFAULT_WEB_MANAGER_PORT, 8283);
    assert_eq!(DEFAULT_PROXY_PORT, 7237);
}

#[test]
fn collect_needs_a_directory() {
    assert!(LopxyEnv::collect(LopxyArgs { command: LopxyCommand::Status }, None, None).is_none());
    let e = env(LopxyCommand::Status);
    assert_eq!(e.config_dir, "/home/u/.lopxy");
    assert_eq!(e.static_assets_dir(), "/home/u/.lopxy/static");
    assert_eq!(e.config_path(), "/home/u/.lopxy/config.toml");
    assert_eq!(e.lopxy_pid_path(), "/home/u/.lopxy/lopxy.pid");
    assert_eq!(e.load_config().proxy_item_count(), 0);
    assert_eq!(e.status_refresh_timestamp, 0);
    assert_eq!(e.request_status_logs.len(), 0);
    assert_eq!(e.proxy_shutdown.state(), ShutdownState::Running);
    assert!(e.config_to_save().is_none());
}

#[test]
fn collect_takes_the_stored_registry() {
    let stored = LopxyConfig::from_items(vec![ProxyItem::new("http://a.com/", "http://b.com/", "")], 77);
    let e = LopxyEnv::collect(LopxyArgs { command: LopxyCommand::List(ListArgs {}) }, Some("d".to_string()), Some(stored))
        .unwrap();
    assert_eq!(e.load_config().proxy_item_count(), 1);
    assert_eq!(e.load_config().timestamp(), 77);
    assert!(e.config_to_save().is_none());
}

#[test]
fn command_arguments() {
    let e = env(start(true));
    assert!(e.start_args().unwrap().daemon);
    assert!(e.add_args().is_none());
    assert!(e.remove_args().is_none());
    assert!(e.modify_args().is_none());
    let e = env(LopxyCommand::Add(AddArgs {
        resource_url: "http://a.com/".to_string(),
        proxy_resource_url: "http://b.com/".to_string(),
        content_type: "application/octet-stream".to_string(),
    }));
    assert_eq!(e.add_args().unwrap().resource_url, "http://a.com/");
    assert!(e.start_args().is_none());
    let e = env(LopxyCommand::Remove(RemoveArgs { resource_url: "http://a.com/".to_string() }));
    assert_eq!(e.remove_args().unwrap().resource_url, "http://a.com/");
    let e = env(LopxyCommand::Modify(ModifyArgs {
        resource_url: "http://a.com/".to_string(),
        proxy_resource_url: "http://b.com/".to_string(),
        content_type: "text/css".to_string(),
    }));
    assert_eq!(e.modify_args().unwrap().content_type, "text/css");
    let e = env(LopxyCommand::Stop(StopArgs {}));
    assert!(e.start_args().is_none() && e.add_args().is_none() && e.remove_args().is_none());
}

#[test]
fn guard_instance_decides_how_to_start() {
    let running = LopxyInstance::parse("1\r\n2\r\n3").unwrap();
    assert!(matches!(env(start(false)).guard_instance(Some(&running), 9), InstanceGuard::AlreadyRunning));
    assert!(matches!(env(start(true)).guard_instance(Some(&running), 9), InstanceGuard::AlreadyRunning));
    assert!(matches!(env(start(true)).guard_instance(None, 9), InstanceGuard::Background));
    match env(start(false)).guard_instance(None, 9) {
        InstanceGuard::Record(content) => assert_eq!(content, "9\r\n8283\r\n7237"),
        _ => panic!("the instance is recorded"),
    }
}

#[test]
fn guard_instance_leaves_whatever_the_command_where_one_runs() {
    let running = LopxyInstance::parse("1\r\n2\r\n3").unwrap();
    assert!(matches!(env(LopxyCommand::Status).guard_instance(Some(&running), 9), InstanceGuard::AlreadyRunning));
    assert!(matches!(env(LopxyCommand::Enable).guard_instance(Some(&running), 9), InstanceGuard::AlreadyRunning));
}

#[test]
fn failed_save_is_reported_as_failed_and_not_rolled_back() {
    let mut e = env(start(false));
    assert!(e.add_proxy_item("http://a.com/", "http://b.com/", ""));
    assert!(e.config_to_save().is_some());
    assert!(!e.finish_mutation(true, Some(false)));
    assert_eq!(e.load_config().proxy_item_count(), 1);
    assert!(e.load_config().proxy_item_exists("http://a.com/"));
    assert!(e.config_to_save().is_some());
    assert!(!e.finish_mutation(false, Some(true)));
    assert!(e.config_to_save().is_none());
    assert!(!e.finish_mutation(false, None));
    assert!(e.finish_mutation(true, None));
    assert!(e.add_proxy_item("http://c.com/", "http://b.com/", ""));
    assert!(!e.finish_mutation(true, None));
    assert!(e.config_to_save().is_some());
    assert!(e.finish_mutation(true, Some(true)));
    assert!(e.config_to_save().is_none());
    assert_eq!(e.load_config().proxy_item_count(), 2);
}

#[test]
fn controller_reports_a_failed_save() {
    let mut c = LopxyController::build(env(start(false)));
    let accepted = c.add_proxy_item("http://a.com/", "http://b.com/", "");
    assert!(accepted);
    assert!(!c.finish_mutation(accepted, Some(false)));
    assert_eq!(c.list_all_proxy_item().len(), 1);
    assert!(c.env().config_to_save().is_some());
    let accepted = c.modify_proxy_item("http://a.com/", "http://c.com/", "");
    assert!(c.finish_mutation(accepted, Some(true)));
    assert!(c.env().config_to_save().is_none());
}

#[test]
fn controller_snapshot_is_the_snapshot_of_the_state() {
    let mut e = env(start(false));
    assert!(e.config.add_proxy_item_at("http://a.com/", "http://b.com/", "text/css", 50));
    e.record_proxy_request_status(1, String::new(), "a".to_string(), "s".to_string(), 10);
    e.record_proxy_request_status(2, String::new(), "b".to_string(), "t".to_string(), 20);
    let mut c = LopxyController::build(e);
    let report = c.lopxy_status(0, 10, true).unwrap();
    assert!(report.success);
    assert_eq!(report.web_manager_port, 8283);
    assert_eq!(report.proxy_port, 7237);
    assert!(report.proxy_enabled);
    assert!(report.updated);
    assert_eq!(report.status_log_timestamp, 20);
    assert_eq!(report.request_status_logs.len(), 1);
    assert_eq!(report.request_status_logs[0].path, "b");
    assert_eq!(report.request_status_logs[0].status, "t");
    assert_eq!(report.config_timestamp, 50);
    assert_eq!(report.proxy_items.len(), 1);
    assert_eq!(report.proxy_items[0].content_type(), "text/css");
    let report = c.lopxy_status(50, 20, false).unwrap();
    assert!(!report.updated);
    assert!(!report.proxy_enabled);
    assert_eq!(report.status_log_timestamp, 20);
    assert_eq!(report.config_timestamp, 50);
    assert_eq!(report.request_status_logs.len(), 0);
    assert_eq!(report.proxy_items.len(), 0);
    let logs = c.proxy_request_logs();
    assert_eq!(logs.len(), 2);
    assert_eq!(logs[0].path, "a");
}

#[test]
fn web_manager_instance_url() {
    let running = LopxyInstance::parse("1\r\n8283\r\n7237").unwrap();
    let e = env(LopxyCommand::Status);
    assert_eq!(e.web_manager_instance(Some(&running)), Some("http://127.0.0.1:8283".to_string()));
    assert_eq!(e.web_manager_instance(None), None);
}

#[test]
fn status_records_are_stamped() {
    let mut e = env(start(false));
    e.record_proxy_request_status(7, "curl".to_string(), "http://a.com/".to_string(), "404 Not Found".to_string(), 1000);
    assert_eq!(e.status_refresh_timestamp, 1000);
    let log = e.proxy_request_status_logs();
    assert_eq!(log.len(), 1);
    assert_eq!(log[0].timestamp, 1000);
    assert_eq!(log[0].pid, 7);
    assert_eq!(log[0].bin_name, "curl");
    assert_eq!(log[0].path, "http://a.com/");
    assert_eq!(log[0].status, "404 Not Found");
    e.report_proxy_request_status(0, "http://b.com/".to_string(), "refused".to_string());
    let log = e.proxy_request_status_logs();
    assert_eq!(log.len(), 2);
    assert_eq!(log[1].timestamp, e.status_refresh_timestamp);
    assert_eq!(log[1].path, "http://b.com/");
    assert!(e.status_refresh_timestamp > 1000);
}

#[test]
fn status_log_in_the_environment_is_bounded() {
    let mut e = env(start(false));
    for n in 0..501 {
        e.record_proxy_request_status(1, String::new(), format!("http://a.com/{}", n), "x".to_string(), n);
    }
    let log = e.proxy_request_status_logs();
    assert_eq!(log.len(), 500);
    assert_eq!(log[0].path, "http://a.com/1");
    assert_eq!(log[499].path, "http://a.com/500");
}

#[test]
fn status_snapshot_brings_only_what_is_new() {
    let mut e = env(start(false));
    assert!(e.config.add_proxy_item_at("http://a.com/", "http://b.com/", "", 50));
    e.record_proxy_request_status(1, String::new(), "a".to_string(), "s".to_string(), 10);
    e.record_proxy_request_status(1, String::new(), "b".to_string(), "s".to_string(), 20);
    e.record_proxy_request_status(1, String::new(), "c".to_string(), "s".to_string(), 30);

    let report = e.lopxy_status(0, 0, true);
    assert!(report.success);
    assert_eq!(report.web_manager_port, 8283);
    assert_eq!(report.proxy_port, 7237);
    assert!(report.proxy_enabled);
    assert!(report.updated);
    assert_eq!(report.status_log_timestamp, 30);
    assert_eq!(report.request_status_logs.len(), 3);
    assert_eq!(report.config_timestamp, 50);
    assert_eq!(report.proxy_items.len(), 1);

    let report = e.lopxy_status(50, 10, false);
    assert!(!report.proxy_enabled);
    assert!(report.updated);
    assert_eq!(report.status_log_timestamp, 30);
    assert_eq!(report.request_status_logs.iter().map(|r| r.path.as_str()).collect::<Vec<&str>>(), vec!["b", "c"]);
    assert_eq!(report.config_timestamp, 50);
    assert_eq!(report.proxy_items.len(), 0);

    let report = e.lopxy_status(50, 30, false);
    assert!(!report.updated);
    assert_eq!(report.status_log_timestamp, 30);
    assert_eq!(report.request_status_logs.len(), 0);
    assert_eq!(report.proxy_items.len(), 0);

    let report = e.lopxy_status(49, 99, false);
    assert!(report.updated);
    assert_eq!(report.status_log_timestamp, 99);
    assert_eq!(report.request_status_logs.len(), 0);
    assert_eq!(report.config_timestamp, 50);
    assert_eq!(report.proxy_items[0].resource_url(), "http://a.com/");
}

#[test]
fn controller_status_needs_a_started_server() {
    let mut c = LopxyController::build(env(start(false)));
    assert!(c.lopxy_status(0, 0, false).is_some());
    let mut c = LopxyController::build(env(LopxyCommand::Status));
    assert!(c.lopxy_status(0, 0, false).is_none());
    let mut c = LopxyController::build(env(LopxyCommand::Enable));
    assert!(c.lopxy_status(0, 0, false).is_none());
    let mut c = LopxyController::build(env(LopxyCommand::Disable));
    assert!(c.lopxy_status(0, 0, false).is_none());
    let mut c = LopxyController::build(env(LopxyCommand::Manager));
    assert!(c.lopxy_status(0, 0, false).is_none());
}
