//! The controller: the one object that the proxy engine and the web manager
//! call into. It owns the process-wide state.

use vstd::prelude::*;
use vstd::string::*;

use crate::config::{
    items_view,
    spec_add_accepts,
    spec_add_items,
    spec_item_exists,
    spec_modify_accepts,
    spec_modify_items,
    spec_redirect,
    spec_remove_items,
};
use crate::args::LopxyCommand;
use crate::env::{LopxyEnv, LopxyStatusReport, LopxyStatusReportView, spec_lopxy_status, spec_stored};
use crate::item::{ProxyItem, ProxyItemView};
use crate::proxy::{ProxyConfig, spec_flag_enabled, spec_flag_value};
use crate::response::{get_exception_request_status_desc, spec_exception_request_status_desc};
use crate::shutdown::spec_trigger;
use crate::status::{LopxyProxyRequestStatus, RequestStatusView, records_view, spec_reported};
use crate::uri::opt_view;

verus! {

/// What is logged for a request that ended: a record for a status, a record
/// for a failed connection, or nothing.
pub enum Report {
    Nothing,
    Status { request_url: Seq<char>, status: u16 },
    ConnectionError { host: Seq<char>, known_url: Option<Seq<char>>, err: Seq<char> },
}

/// Whether the status log went from `before` to `after` by what a report
/// adds: one record for a failed connection, one record for a status outside
/// the 2xx class, nothing for a 2xx status or for no report.
pub open spec fn spec_report_applied(
    before: Seq<RequestStatusView>,
    after: Seq<RequestStatusView>,
    pid: u32,
    report: Report,
) -> bool {
    match report {
        Report::Nothing => after == before,
        Report::Status { request_url, status } => match spec_exception_request_status_desc(status) {
            None => after == before,
            Some(desc) => spec_reported(before, after, pid, request_url, desc),
        },
        Report::ConnectionError { host, known_url, err } => spec_reported(
            before,
            after,
            pid,
            spec_error_path(host, known_url),
            err,
        ),
    }
}

/// What the proxy engine asks of its controller.
pub trait LopxyProxyServerController {
    /// The redirect rules that lookups go by.
    spec fn registry(&self) -> Seq<ProxyItemView>;

    /// The log of abnormal outcomes.
    spec fn status_log(&self) -> Seq<RequestStatusView>;

    /// The redirect rule for exactly this URL, if there is one.
    fn proxy_redirect(&mut self, resource_url: &str) -> (res: Option<ProxyItem>)
        ensures
            item_opt_view(res) == spec_redirect(old(self).registry(), resource_url@),
            final(self).registry() == old(self).registry(),
            final(self).status_log() == old(self).status_log(),
    ;

    /// Takes note of the status that a request ended with: a status outside
    /// the 2xx class adds one record to the log, a 2xx status adds none.
    fn report_proxy_request_status(&mut self, request_url: &str, status: u16, pid: u32)
        ensures
            spec_report_applied(
                old(self).status_log(),
                final(self).status_log(),
                pid,
                Report::Status { request_url: request_url@, status },
            ),
            final(self).registry() == old(self).registry(),
    ;

    /// Takes note of a connection that failed: one record with the text of
    /// the error, under the request URL where it is known, else the host.
    fn report_connection_error(&mut self, host: &str, request_url: Option<String>, err: &str, pid: u32)
        ensures
            spec_report_applied(
                old(self).status_log(),
                final(self).status_log(),
                pid,
                Report::ConnectionError { host: host@, known_url: opt_view(request_url), err: err@ },
            ),
            final(self).registry() == old(self).registry(),
    ;
}

/// The view of an optional rule.
pub open spec fn item_opt_view(item: Option<ProxyItem>) -> Option<ProxyItemView> {
    match item {
        Some(item) => Some(item@),
        None => None,
    }
}

/// What the web manager sees of its controller.
pub ghost struct ManagerView {
    /// The redirect rules.
    pub rules: Seq<ProxyItemView>,
    /// The time of the last change of the rules.
    pub rules_timestamp: i64,
    /// The log of abnormal outcomes.
    pub records: Seq<RequestStatusView>,
    /// The time of the last record.
    pub records_timestamp: i64,
    /// The ports of the web manager and of the proxy, where lopxy was
    /// started to serve.
    pub ports: Option<(u32, u32)>,
}

/// What a change of the rules does to what the manager sees: the rules are
/// `rules`; the time of their last change moves forward where the change
/// was taken and stays where it was refused; the log and the ports are as
/// they were.
pub open spec fn spec_rules_changed(before: ManagerView, after: ManagerView, taken: bool, rules: Seq<ProxyItemView>) -> bool {
    &&& after.rules == rules
    &&& !taken ==> after.rules_timestamp == before.rules_timestamp
    &&& taken ==> after.rules_timestamp >= before.rules_timestamp
    &&& taken && before.rules_timestamp < i64::MAX ==> after.rules_timestamp > before.rules_timestamp
    &&& after.records == before.records
    &&& after.records_timestamp == before.records_timestamp
    &&& after.ports == before.ports
}

/// The snapshot that a poller gets of what the manager sees, `None` where
/// lopxy was not started to serve and so has no ports to report.
pub open spec fn spec_manager_status(
    view: ManagerView,
    config_timestamp: i64,
    status_log_timestamp: i64,
    proxy_enabled: bool,
) -> Option<LopxyStatusReportView> {
    match view.ports {
        Some(ports) => Some(
            spec_lopxy_status(
                ports.0,
                ports.1,
                view.rules,
                view.rules_timestamp,
                view.records,
                view.records_timestamp,
                config_timestamp,
                status_log_timestamp,
                proxy_enabled,
            ),
        ),
        None => None,
    }
}

/// The view of an optional snapshot.
pub open spec fn report_opt_view(report: Option<LopxyStatusReport>) -> Option<LopxyStatusReportView> {
    match report {
        Some(report) => Some(report@),
        None => None,
    }
}

/// What the web manager asks of its controller.
pub trait LopxyManagerServerController {
    /// What the manager sees.
    spec fn manager_view(&self) -> ManagerView;

    /// Fires the shutdown trigger of the proxy.
    fn shutdown(&mut self)
        ensures
            final(self).manager_view() == old(self).manager_view(),
    ;

    fn list_all_proxy_item(&mut self) -> (res: &Vec<ProxyItem>)
        ensures
            items_view(res@) == old(self).manager_view().rules,
    ;

    /// Adds a rule; refused where the key is registered or a URL does not
    /// parse.
    fn add_proxy_item(&mut self, resource_url: &str, proxy_resource_url: &str, content_type: &str) -> (res: bool)
        ensures
            res == spec_add_accepts(old(self).manager_view().rules, resource_url@, proxy_resource_url@),
            spec_rules_changed(
                old(self).manager_view(),
                final(self).manager_view(),
                res,
                spec_add_items(old(self).manager_view().rules, resource_url@, proxy_resource_url@, content_type@),
            ),
    ;

    /// Removes the rules with this key; `false` where there is none.
    fn remove_proxy_item(&mut self, resource_url: &str) -> (res: bool)
        ensures
            res == spec_item_exists(old(self).manager_view().rules, resource_url@),
            spec_rules_changed(
                old(self).manager_view(),
                final(self).manager_view(),
                res,
                spec_remove_items(old(self).manager_view().rules, resource_url@),
            ),
    ;

    /// Changes the rule with this key, or adds it where there is none.
    fn modify_proxy_item(&mut self, resource_url: &str, proxy_resource_url: &str, content_type: &str) -> (res:
        bool)
        ensures
            res == spec_modify_accepts(old(self).manager_view().rules, resource_url@, proxy_resource_url@),
            spec_rules_changed(
                old(self).manager_view(),
                final(self).manager_view(),
                res,
                spec_modify_items(
                    old(self).manager_view().rules,
                    resource_url@,
                    proxy_resource_url@,
                    content_type@,
                ),
            ),
    ;

    /// Whether the stored flag of the operating system means that a proxy
    /// is in force.
    fn is_system_proxy_enabled(&mut self, proxy_enable: Option<u32>) -> (res: bool)
        ensures
            res == spec_flag_enabled(proxy_enable),
            final(self).manager_view() == old(self).manager_view(),
    ;

    /// The flag to store in the operating system's settings.
    fn set_system_proxy_enabled(&mut self, enabled: bool) -> (res: u32)
        ensures
            res == spec_flag_value(enabled),
            final(self).manager_view() == old(self).manager_view(),
    ;

    /// Copies of the records of the status log, oldest first.
    fn proxy_request_logs(&mut self) -> (res: Vec<LopxyProxyRequestStatus>)
        ensures
            records_view(res@) == old(self).manager_view().records,
            final(self).manager_view() == old(self).manager_view(),
    ;

    /// The snapshot for a poller that last saw the rules at
    /// `config_timestamp` and the log at `status_log_timestamp`; `None`
    /// where lopxy was not started to serve.
    fn lopxy_status(&mut self, config_timestamp: i64, status_log_timestamp: i64, proxy_enabled: bool) -> (res:
        Option<LopxyStatusReport>)
        ensures
            report_opt_view(res) == spec_manager_status(
                old(self).manager_view(),
                config_timestamp,
                status_log_timestamp,
                proxy_enabled,
            ),
            final(self).manager_view() == old(self).manager_view(),
    ;
}

/// What the manager sees of the process-wide state.
pub open spec fn spec_manager_view(env: LopxyEnv) -> ManagerView {
    ManagerView {
        rules: env.config@.proxy_items,
        rules_timestamp: env.config@.timestamp,
        records: env.request_status_logs@,
        records_timestamp: env.status_refresh_timestamp,
        ports: match env.command_args {
            LopxyCommand::Start(args) => Some((args.web_manager_port, args.proxy_port)),
            _ => None,
        },
    }
}

pub struct LopxyController {
    env: LopxyEnv,
}

/// The path under which a failed connection is logged: the request URL where
/// it is known, else the host.
pub open spec fn spec_error_path(host: Seq<char>, request_url: Option<Seq<char>>) -> Seq<char> {
    match request_url {
        Some(url) => url,
        None => host,
    }
}

impl LopxyController {
    pub fn build(lopxy_env: LopxyEnv) -> (res: LopxyController)
        ensures
            res.spec_env() == lopxy_env,
    {
        LopxyController { env: lopxy_env }
    }

    /// The state that the controller owns.
    pub closed spec fn spec_env(&self) -> LopxyEnv {
        self.env
    }

    pub fn env(&self) -> (res: &LopxyEnv)
        ensures
            *res == self.spec_env(),
    {
        &self.env
    }

    pub fn env_mut(&mut self) -> (res: &mut LopxyEnv)
        ensures
            *res == old(self).spec_env(),
            final(self).spec_env() == *final(res),
    {
        &mut self.env
    }

    /// Settles what the caller of a change is told, after the attempt to
    /// store the registry. `accepted` is what the change itself returned;
    /// `written` is how the write went, `None` where nothing was written
    /// because nothing had changed. A change that could not be stored is
    /// reported as failed and is not rolled back.
    pub fn finish_mutation(&mut self, accepted: bool, written: Option<bool>) -> (res: bool)
        ensures
            res == (accepted && spec_stored(old(self).spec_env().config_unsaved, written)),
            final(self).spec_env().config == old(self).spec_env().config,
            final(self).spec_env().config_unsaved == !spec_stored(old(self).spec_env().config_unsaved, written),
            final(self).manager_view() == old(self).manager_view(),
            final(self).registry() == old(self).registry(),
            final(self).status_log() == old(self).status_log(),
    {
        self.env.finish_mutation(accepted, written)
    }
}

impl LopxyProxyServerController for LopxyController {
    open spec fn registry(&self) -> Seq<ProxyItemView> {
        self.spec_env().config@.proxy_items
    }

    open spec fn status_log(&self) -> Seq<RequestStatusView> {
        self.spec_env().request_status_logs@
    }

    fn proxy_redirect(&mut self, resource_url: &str) -> (res: Option<ProxyItem>)
        ensures
            final(self).spec_env() == old(self).spec_env(),
    {
        self.env.config.proxy_redirect(resource_url)
    }

    fn report_proxy_request_status(&mut self, request_url: &str, status: u16, pid: u32)
        ensures
            final(self).spec_env().config == old(self).spec_env().config,
            final(self).spec_env().config_unsaved == old(self).spec_env().config_unsaved,
    {
        match get_exception_request_status_desc(status) {
            Some(desc) => {
                self.env.report_proxy_request_status(pid, request_url.to_owned(), desc);
            },
            None => {},
        }
    }

    fn report_connection_error(&mut self, host: &str, request_url: Option<String>, err: &str, pid: u32)
        ensures
            final(self).spec_env().config == old(self).spec_env().config,
            final(self).spec_env().config_unsaved == old(self).spec_env().config_unsaved,
    {
        let path: String = match request_url {
            Some(url) => url,
            None => host.to_owned(),
        };
        self.env.report_proxy_request_status(pid, path, err.to_owned());
    }
}

impl LopxyManagerServerController for LopxyController {
    open spec fn manager_view(&self) -> ManagerView {
        spec_manager_view(self.spec_env())
    }

    fn shutdown(&mut self)
        ensures
            final(self).spec_env().proxy_shutdown@ == spec_trigger(old(self).spec_env().proxy_shutdown@),
            final(self).spec_env().config == old(self).spec_env().config,
            final(self).spec_env().config_unsaved == old(self).spec_env().config_unsaved,
    {
        let _ = self.env.proxy_shutdown.shutdown();
    }

    fn list_all_proxy_item(&mut self) -> (res: &Vec<ProxyItem>)
    {
        self.env.config.proxy_item_list()
    }

    fn add_proxy_item(&mut self, resource_url: &str, proxy_resource_url: &str, content_type: &str) -> (res: bool)
        ensures
            !res ==> final(self).spec_env().config@.timestamp == old(self).spec_env().config@.timestamp,
            res && old(self).spec_env().config@.timestamp < i64::MAX ==> final(self).spec_env().config@.timestamp
                > old(self).spec_env().config@.timestamp,
            final(self).spec_env().config_unsaved == (old(self).spec_env().config_unsaved || res),
    {
        self.env.add_proxy_item(resource_url, proxy_resource_url, content_type)
    }

    fn remove_proxy_item(&mut self, resource_url: &str) -> (res: bool)
        ensures
            !res ==> final(self).spec_env().config@.timestamp == old(self).spec_env().config@.timestamp,
            res && old(self).spec_env().config@.timestamp < i64::MAX ==> final(self).spec_env().config@.timestamp
                > old(self).spec_env().config@.timestamp,
            final(self).spec_env().config_unsaved == (old(self).spec_env().config_unsaved || res),
    {
        self.env.remove_proxy_item(resource_url)
    }

    fn modify_proxy_item(&mut self, resource_url: &str, proxy_resource_url: &str, content_type: &str) -> (res:
        bool)
        ensures
            !res ==> final(self).spec_env().config@.timestamp == old(self).spec_env().config@.timestamp,
            res && old(self).spec_env().config@.timestamp < i64::MAX ==> final(self).spec_env().config@.timestamp
                > old(self).spec_env().config@.timestamp,
            final(self).spec_env().config_unsaved == (old(self).spec_env().config_unsaved || res),
    {
        self.env.modify_proxy_item(resource_url, proxy_resource_url, content_type)
    }

    fn is_system_proxy_enabled(&mut self, proxy_enable: Option<u32>) -> (res: bool)
        ensures
            final(self).spec_env() == old(self).spec_env(),
    {
        ProxyConfig::is_system_proxy_enabled(proxy_enable)
    }

    fn set_system_proxy_enabled(&mut self, enabled: bool) -> (res: u32)
        ensures
            final(self).spec_env() == old(self).spec_env(),
    {
        ProxyConfig::set_system_proxy_enabled(enabled)
    }

    fn proxy_request_logs(&mut self) -> (res: Vec<LopxyProxyRequestStatus>)
        ensures
            final(self).spec_env() == old(self).spec_env(),
    {
        self.env.proxy_request_status_logs()
    }

    fn lopxy_status(&mut self, config_timestamp: i64, status_log_timestamp: i64, proxy_enabled: bool) -> (res:
        Option<LopxyStatusReport>)
        ensures
            res is Some <==> old(self).spec_env().command_args is Start,
            final(self).spec_env() == old(self).spec_env(),
    {
        if self.env.start_args().is_some() {
            Some(self.env.lopxy_status(config_timestamp, status_log_timestamp, proxy_enabled))
        } else {
            None
        }
    }
}

} // verus!
