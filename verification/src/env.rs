//! The process-wide state of lopxy: where its files are, what it was started
//! to do, the registry, the status log and the shutdown coordinator.

use vstd::prelude::*;
use vstd::string::*;

use crate::args::{AddArgs, LopxyArgs, LopxyCommand, ModifyArgs, RemoveArgs, StartArgs};
use crate::clock::now_millis;
use crate::config::{
    LopxyConfig,
    LopxyConfigView,
    items_view,
    spec_add_accepts,
    spec_add_items,
    spec_item_exists,
    spec_modify_accepts,
    spec_modify_items,
    spec_remove_items,
};
use crate::instance::{LopxyInstance, spec_local_address};
use crate::item::{ProxyItem, ProxyItemView};
use crate::shutdown::{ShutdownCoordinator, ShutdownState, ShutdownView};
use crate::status::{
    LopxyProxyRequestStatus,
    RequestStatusLog,
    RequestStatusView,
    records_view,
    spec_log_push,
    spec_newer_than,
    spec_reported,
    spec_status_record,
};

verus! {

/// A snapshot of lopxy for a poller that last saw the registry at
/// `config_timestamp` and the status log at `status_log_timestamp`.
pub struct LopxyStatusReport {
    pub success: bool,
    pub web_manager_port: u32,
    pub proxy_port: u32,
    pub proxy_enabled: bool,
    /// Whether the report brings anything that the poller has not seen.
    pub updated: bool,
    pub status_log_timestamp: i64,
    pub request_status_logs: Vec<LopxyProxyRequestStatus>,
    pub config_timestamp: i64,
    pub proxy_items: Vec<ProxyItem>,
}

/// The mathematical value of a [`LopxyStatusReport`].
pub ghost struct LopxyStatusReportView {
    pub success: bool,
    pub web_manager_port: u32,
    pub proxy_port: u32,
    pub proxy_enabled: bool,
    pub updated: bool,
    pub status_log_timestamp: i64,
    pub request_status_logs: Seq<RequestStatusView>,
    pub config_timestamp: i64,
    pub proxy_items: Seq<ProxyItemView>,
}

impl View for LopxyStatusReport {
    type V = LopxyStatusReportView;

    open spec fn view(&self) -> LopxyStatusReportView {
        LopxyStatusReportView {
            success: self.success,
            web_manager_port: self.web_manager_port,
            proxy_port: self.proxy_port,
            proxy_enabled: self.proxy_enabled,
            updated: self.updated,
            status_log_timestamp: self.status_log_timestamp,
            request_status_logs: records_view(self.request_status_logs@),
            config_timestamp: self.config_timestamp,
            proxy_items: items_view(self.proxy_items@),
        }
    }
}

/// What a poller is told. `rules` and `rules_timestamp` are the registry
/// and the time of its last change, `records` and `records_timestamp` the
/// status log and the time of its last record. The poller last saw the
/// registry at `config_timestamp` and the log at `status_log_timestamp`.
/// It gets the records that are newer than what it saw, with the time of
/// the last record, where the log has moved on; and the whole registry,
/// with the time of its last change, where the registry has moved on. What
/// has not moved on comes back empty, under the time that the poller gave.
pub open spec fn spec_lopxy_status(
    web_manager_port: u32,
    proxy_port: u32,
    rules: Seq<ProxyItemView>,
    rules_timestamp: i64,
    records: Seq<RequestStatusView>,
    records_timestamp: i64,
    config_timestamp: i64,
    status_log_timestamp: i64,
    proxy_enabled: bool,
) -> LopxyStatusReportView {
    let log_moved = records_timestamp > status_log_timestamp;
    let rules_moved = rules_timestamp > config_timestamp;
    LopxyStatusReportView {
        success: true,
        web_manager_port,
        proxy_port,
        proxy_enabled,
        updated: log_moved || rules_moved,
        status_log_timestamp: if log_moved {
            records_timestamp
        } else {
            status_log_timestamp
        },
        request_status_logs: if log_moved {
            spec_newer_than(records, status_log_timestamp)
        } else {
            Seq::<RequestStatusView>::empty()
        },
        config_timestamp: if rules_moved {
            rules_timestamp
        } else {
            config_timestamp
        },
        proxy_items: if rules_moved {
            rules
        } else {
            Seq::<ProxyItemView>::empty()
        },
    }
}

/// Whether what is on disk holds the registry after an attempt to store
/// it. `written` is how the write went, `None` where nothing was written
/// because nothing had changed.
pub open spec fn spec_stored(unsaved: bool, written: Option<bool>) -> bool {
    match written {
        Some(ok) => ok,
        None => !unsaved,
    }
}

/// What has to happen before lopxy starts to serve.
pub enum InstanceGuard {
    /// Another lopxy runs: this one leaves.
    AlreadyRunning,
    /// Lopxy was asked to run in the background: it restarts itself there.
    Background,
    /// Lopxy serves, after writing this content to its instance file.
    Record(String),
}

pub struct LopxyEnv {
    pub config_dir: String,
    pub static_assets_dir: String,
    pub config: LopxyConfig,
    pub command_args: LopxyCommand,
    pub proxy_shutdown: ShutdownCoordinator,
    pub request_status_logs: RequestStatusLog,
    /// When the status log last took a record.
    pub status_refresh_timestamp: i64,
    /// Whether the registry has changed since it was last stored.
    pub config_unsaved: bool,
}

/// A file or directory inside a directory.
pub open spec fn spec_join_path(dir: Seq<char>, name: Seq<char>) -> Seq<char> {
    dir + "/"@ + name
}

/// The registry that lopxy starts with: the stored one, or an empty one.
pub open spec fn spec_initial_config(stored: Option<LopxyConfigView>) -> LopxyConfigView {
    match stored {
        Some(stored) => stored,
        None => LopxyConfigView { proxy_items: Seq::<ProxyItemView>::empty(), timestamp: 0 },
    }
}

/// Asks `sysinfo` for the process table and looks the process up: its
/// name, `None` where the table holds no such process. Nothing is claimed
/// about the value.
#[verifier::external_body]
pub(crate) fn process_name(pid: u32) -> Option<String> {
    let mut system = sysinfo::System::default();
    sysinfo::SystemExt::refresh_all(&mut system);
    match sysinfo::SystemExt::process(&system, sysinfo::PidExt::from_u32(pid)) {
        Some(process) => Some(sysinfo::ProcessExt::name(process).to_string()),
        None => None,
    }
}

fn join_path(dir: &str, name: &str) -> (res: String)
    ensures
        res@ == spec_join_path(dir@, name@),
{
    String::from_str(dir).concat("/").concat(name)
}

impl LopxyEnv {
    /// The state at start: `config_dir` is the directory of lopxy's files,
    /// `None` where the machine offers none, and `stored` is the registry
    /// that was found there.
    pub fn collect(args: LopxyArgs, config_dir: Option<String>, stored: Option<LopxyConfig>) -> (res: Option<
        LopxyEnv,
    >)
        ensures
            res is Some <==> config_dir is Some,
            res matches Some(env) ==> {
                &&& env.config_dir@ == config_dir->0@
                &&& env.static_assets_dir@ == spec_join_path(config_dir->0@, "static"@)
                &&& env.config@ == spec_initial_config(
                    match stored {
                        Some(stored) => Some(stored@),
                        None => None,
                    },
                )
                &&& env.command_args == args.command
                &&& env.proxy_shutdown@ == (ShutdownView { state: ShutdownState::Running, active: 0 })
                &&& env.request_status_logs@.len() == 0
                &&& env.status_refresh_timestamp == 0
                &&& !env.config_unsaved
            },
    {
        let config_dir: String = match config_dir {
            Some(dir) => dir,
            None => {
                return None;
            },
        };
        let static_assets_dir: String = join_path(config_dir.as_str(), "static");
        let config: LopxyConfig = match stored {
            Some(stored) => stored,
            None => LopxyConfig::new(),
        };
        Some(
            LopxyEnv {
                config_dir,
                static_assets_dir,
                config,
                command_args: args.command,
                proxy_shutdown: ShutdownCoordinator::new(),
                request_status_logs: RequestStatusLog::new(),
                status_refresh_timestamp: 0,
                config_unsaved: false,
            },
        )
    }

    pub fn start_args(&self) -> (res: Option<&StartArgs>)
        ensures
            match res {
                Some(args) => self.command_args == LopxyCommand::Start(*args),
                None => !(self.command_args is Start),
            },
    {
        match &self.command_args {
            LopxyCommand::Start(args) => Some(args),
            _ => None,
        }
    }

    pub fn add_args(&self) -> (res: Option<&AddArgs>)
        ensures
            match res {
                Some(args) => self.command_args == LopxyCommand::Add(*args),
                None => !(self.command_args is Add),
            },
    {
        match &self.command_args {
            LopxyCommand::Add(args) => Some(args),
            _ => None,
        }
    }

    pub fn remove_args(&self) -> (res: Option<&RemoveArgs>)
        ensures
            match res {
                Some(args) => self.command_args == LopxyCommand::Remove(*args),
                None => !(self.command_args is Remove),
            },
    {
        match &self.command_args {
            LopxyCommand::Remove(args) => Some(args),
            _ => None,
        }
    }

    pub fn modify_args(&self) -> (res: Option<&ModifyArgs>)
        ensures
            match res {
                Some(args) => self.command_args == LopxyCommand::Modify(*args),
                None => !(self.command_args is Modify),
            },
    {
        match &self.command_args {
            LopxyCommand::Modify(args) => Some(args),
            _ => None,
        }
    }

    /// The path of the stored registry.
    pub fn config_path(&self) -> (res: String)
        ensures
            res@ == spec_join_path(self.config_dir@, "config.toml"@),
    {
        join_path(self.config_dir.as_str(), "config.toml")
    }

    /// The path of the instance file.
    pub fn lopxy_pid_path(&self) -> (res: String)
        ensures
            res@ == spec_join_path(self.config_dir@, "lopxy.pid"@),
    {
        join_path(self.config_dir.as_str(), "lopxy.pid")
    }

    /// The directory of the web manager's files.
    pub fn static_assets_dir(&self) -> (res: &str)
        ensures
            res@ == self.static_assets_dir@,
    {
        self.static_assets_dir.as_str()
    }

    /// The registry.
    pub fn load_config(&self) -> (res: &LopxyConfig)
        ensures
            *res == self.config,
    {
        &self.config
    }

    /// The registry, where it has changed since it was last stored.
    pub fn config_to_save(&self) -> (res: Option<&LopxyConfig>)
        ensures
            res is Some <==> self.config_unsaved,
            res matches Some(config) ==> *config == self.config,
    {
        if self.config_unsaved {
            Some(&self.config)
        } else {
            None
        }
    }

    /// Takes note of how storing the registry went. A registry that could
    /// not be stored stays marked as changed; it is not rolled back.
    pub fn save_config(&mut self, stored: bool) -> (res: bool)
        ensures
            res == stored,
            final(self).config_unsaved == (old(self).config_unsaved && !stored),
            final(self).config == old(self).config,
            final(self).request_status_logs == old(self).request_status_logs,
            final(self).status_refresh_timestamp == old(self).status_refresh_timestamp,
            final(self).proxy_shutdown == old(self).proxy_shutdown,
            final(self).command_args == old(self).command_args,
    {
        if stored {
            self.config_unsaved = false;
        }
        stored
    }

    /// Settles what the caller of a change is told, after the attempt to
    /// store the registry. `accepted` is what the change itself returned;
    /// `written` is how the write went, `None` where nothing was written
    /// because nothing had changed. A change that could not be stored is
    /// reported as failed, but it is not rolled back: the registry stays as
    /// the change left it, and stays marked as changed.
    pub fn finish_mutation(&mut self, accepted: bool, written: Option<bool>) -> (res: bool)
        ensures
            res == (accepted && spec_stored(old(self).config_unsaved, written)),
            final(self).config == old(self).config,
            final(self).config_unsaved == !spec_stored(old(self).config_unsaved, written),
            final(self).request_status_logs == old(self).request_status_logs,
            final(self).status_refresh_timestamp == old(self).status_refresh_timestamp,
            final(self).proxy_shutdown == old(self).proxy_shutdown,
            final(self).command_args == old(self).command_args,
    {
        let stored: bool = match written {
            Some(ok) => ok,
            None => !self.config_unsaved,
        };
        self.config_unsaved = !stored;
        accepted && stored
    }

    /// Adds a redirect rule; a rule that is taken marks the registry as
    /// changed.
    pub fn add_proxy_item(&mut self, resource_url: &str, proxy_resource_url: &str, content_type: &str) -> (res:
        bool)
        ensures
            res == spec_add_accepts(old(self).config@.proxy_items, resource_url@, proxy_resource_url@),
            final(self).config@.proxy_items == spec_add_items(
                old(self).config@.proxy_items,
                resource_url@,
                proxy_resource_url@,
                content_type@,
            ),
            !res ==> final(self).config@.timestamp == old(self).config@.timestamp,
            final(self).config@.timestamp >= old(self).config@.timestamp,
            res && old(self).config@.timestamp < i64::MAX ==> final(self).config@.timestamp > old(
                self,
            ).config@.timestamp,
            final(self).config_unsaved == (old(self).config_unsaved || res),
            final(self).request_status_logs == old(self).request_status_logs,
            final(self).status_refresh_timestamp == old(self).status_refresh_timestamp,
            final(self).proxy_shutdown == old(self).proxy_shutdown,
            final(self).command_args == old(self).command_args,
    {
        let res: bool = self.config.add_proxy_item(resource_url, proxy_resource_url, content_type);
        if res {
            self.config_unsaved = true;
        }
        res
    }

    /// Removes a redirect rule; a removal marks the registry as changed.
    pub fn remove_proxy_item(&mut self, resource_url: &str) -> (res: bool)
        ensures
            res == spec_item_exists(old(self).config@.proxy_items, resource_url@),
            final(self).config@.proxy_items == spec_remove_items(old(self).config@.proxy_items, resource_url@),
            !res ==> final(self).config@ == old(self).config@,
            final(self).config@.timestamp >= old(self).config@.timestamp,
            res && old(self).config@.timestamp < i64::MAX ==> final(self).config@.timestamp > old(
                self,
            ).config@.timestamp,
            final(self).config_unsaved == (old(self).config_unsaved || res),
            final(self).request_status_logs == old(self).request_status_logs,
            final(self).status_refresh_timestamp == old(self).status_refresh_timestamp,
            final(self).proxy_shutdown == old(self).proxy_shutdown,
            final(self).command_args == old(self).command_args,
    {
        let res: bool = self.config.remove_proxy_item(resource_url);
        if res {
            self.config_unsaved = true;
        }
        res
    }

    /// Changes a redirect rule; a change marks the registry as changed.
    pub fn modify_proxy_item(&mut self, resource_url: &str, proxy_resource_url: &str, content_type: &str) -> (res:
        bool)
        ensures
            res == spec_modify_accepts(old(self).config@.proxy_items, resource_url@, proxy_resource_url@),
            final(self).config@.proxy_items == spec_modify_items(
                old(self).config@.proxy_items,
                resource_url@,
                proxy_resource_url@,
                content_type@,
            ),
            !res ==> final(self).config@.timestamp == old(self).config@.timestamp,
            final(self).config@.timestamp >= old(self).config@.timestamp,
            res && old(self).config@.timestamp < i64::MAX ==> final(self).config@.timestamp > old(
                self,
            ).config@.timestamp,
            final(self).config_unsaved == (old(self).config_unsaved || res),
            final(self).request_status_logs == old(self).request_status_logs,
            final(self).status_refresh_timestamp == old(self).status_refresh_timestamp,
            final(self).proxy_shutdown == old(self).proxy_shutdown,
            final(self).command_args == old(self).command_args,
    {
        let res: bool = self.config.modify_proxy_item(resource_url, proxy_resource_url, content_type);
        if res {
            self.config_unsaved = true;
        }
        res
    }

    /// Decides how lopxy starts: `running` is the instance that was found
    /// running, `pid` the id of this process. Where an instance runs, this
    /// one leaves, whatever it was started to do; to go on, it must have
    /// been started to serve.
    pub fn guard_instance(&self, running: Option<&LopxyInstance>, pid: u32) -> (res: InstanceGuard)
        requires
            running is None ==> self.command_args is Start,
        ensures
            match res {
                InstanceGuard::AlreadyRunning => running is Some,
                InstanceGuard::Background => running is None && self.command_args->Start_0.daemon,
                InstanceGuard::Record(content) => {
                    &&& running is None
                    &&& !self.command_args->Start_0.daemon
                    &&& content@ == vstd::utf8::decode_utf8(
                        crate::instance::spec_record(
                            pid,
                            self.command_args->Start_0.web_manager_port,
                            self.command_args->Start_0.proxy_port,
                        ),
                    )
                },
            },
    {
        if running.is_some() {
            return InstanceGuard::AlreadyRunning;
        }
        let start_args: &StartArgs = match self.start_args() {
            Some(args) => args,
            None => unreached(),
        };
        if start_args.daemon {
            return InstanceGuard::Background;
        }
        InstanceGuard::Record(LopxyInstance::record(pid, start_args.web_manager_port, start_args.proxy_port))
    }

    /// The URL of the web manager of the running instance.
    pub fn web_manager_instance(&self, running: Option<&LopxyInstance>) -> (res: Option<String>)
        ensures
            res is Some <==> running is Some,
            res matches Some(url) ==> url@ == "http://"@ + vstd::utf8::decode_utf8(
                spec_local_address(running->0@.web_manager_port),
            ),
    {
        match running {
            Some(instance) => {
                let address: String = instance.web_manager_url();
                Some(String::from_str("http://").concat(address.as_str()))
            },
            None => None,
        }
    }

    /// Records an abnormal outcome at time `now`. `bin_name` is the name of
    /// the process `pid`, empty where it is not known.
    pub fn record_proxy_request_status(
        &mut self,
        pid: u32,
        bin_name: String,
        path: String,
        status: String,
        now: i64,
    )
        ensures
            final(self).request_status_logs@ == spec_log_push(
                old(self).request_status_logs@,
                RequestStatusView { timestamp: now, pid, bin_name: bin_name@, path: path@, status: status@ },
            ),
            final(self).status_refresh_timestamp == now,
            final(self).config == old(self).config,
            final(self).config_unsaved == old(self).config_unsaved,
            final(self).proxy_shutdown == old(self).proxy_shutdown,
            final(self).command_args == old(self).command_args,
    {
        self.status_refresh_timestamp = now;
        self.request_status_logs.push(LopxyProxyRequestStatus { timestamp: now, pid, bin_name, path, status });
    }

    /// Records an abnormal outcome, stamped with the current time and, as
    /// far as it can be found, the name of the process `pid`.
    pub fn report_proxy_request_status(&mut self, pid: u32, path: String, status: String)
        ensures
            spec_reported(old(self).request_status_logs@, final(self).request_status_logs@, pid, path@, status@),
            final(self).request_status_logs@.last().timestamp == final(self).status_refresh_timestamp,
            final(self).config == old(self).config,
            final(self).config_unsaved == old(self).config_unsaved,
            final(self).proxy_shutdown == old(self).proxy_shutdown,
            final(self).command_args == old(self).command_args,
    {
        let now: i64 = now_millis();
        let bin_name: String = match process_name(pid) {
            Some(name) => name,
            None => String::new(),
        };
        let ghost record = spec_status_record(now, pid, bin_name@, path@, status@);
        self.record_proxy_request_status(pid, bin_name, path, status, now);
        assert(self.request_status_logs@ == spec_log_push(old(self).request_status_logs@, record));
    }

    /// Copies of all records of the status log, oldest first.
    pub fn proxy_request_status_logs(&self) -> (res: Vec<LopxyProxyRequestStatus>)
        ensures
            records_view(res@) == self.request_status_logs@,
    {
        self.request_status_logs.records()
    }

    /// The snapshot for a poller: the records and the rules are included
    /// only where they are newer than what the poller has seen.
    pub fn lopxy_status(&self, config_timestamp: i64, status_log_timestamp: i64, proxy_enabled: bool) -> (res:
        LopxyStatusReport)
        requires
            self.command_args is Start,
        ensures
            res@ == spec_lopxy_status(
                self.command_args->Start_0.web_manager_port,
                self.command_args->Start_0.proxy_port,
                self.config@.proxy_items,
                self.config@.timestamp,
                self.request_status_logs@,
                self.status_refresh_timestamp,
                config_timestamp,
                status_log_timestamp,
                proxy_enabled,
            ),
    {
        let start_args: &StartArgs = match self.start_args() {
            Some(args) => args,
            None => unreached(),
        };
        assert(records_view(Seq::<LopxyProxyRequestStatus>::empty()) =~= Seq::<RequestStatusView>::empty());
        assert(items_view(Seq::<ProxyItem>::empty()) =~= Seq::<ProxyItemView>::empty());
        let mut report = LopxyStatusReport {
            success: true,
            web_manager_port: start_args.web_manager_port,
            proxy_port: start_args.proxy_port,
            proxy_enabled,
            updated: false,
            status_log_timestamp,
            request_status_logs: Vec::new(),
            config_timestamp,
            proxy_items: Vec::new(),
        };
        if self.status_refresh_timestamp > status_log_timestamp {
            report.updated = true;
            report.status_log_timestamp = self.status_refresh_timestamp;
            report.request_status_logs = self.request_status_logs.newer_than(status_log_timestamp);
        }
        if self.config.timestamp() > config_timestamp {
            report.updated = true;
            report.config_timestamp = self.config.timestamp();
            let items = self.config.proxy_item_list();
            let mut copies: Vec<ProxyItem> = Vec::new();
            let mut i: usize = 0;
            while i < items.len()
                invariant
                    i <= items@.len(),
                    items_view(copies@) == items_view(items@).subrange(0, i as int),
                decreases items@.len() - i,
            {
                let ghost before = items_view(copies@);
                let item = items[i].clone();
                copies.push(item);
                assert(items_view(copies@) =~= before.push(item@));
                i += 1;
                assert(items_view(copies@) =~= items_view(items@).subrange(0, i as int));
            }
            assert(items_view(copies@) =~= items_view(items@));
            report.proxy_items = copies;
        }
        report
    }
}

} // verus!
