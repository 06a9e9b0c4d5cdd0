//! Proxy settings: the ones that the operating system holds and the ones that
//! lopxy installs while it runs.
//!
//! Reading and writing the operating system's store is the caller's part. It
//! hands over what it read as [`SystemProxySettings`] and stores what
//! [`ProxyConfig::update_system_proxy`] tells it to.

use vstd::prelude::*;
use vstd::string::*;

use crate::shutdown::{
    ShutdownCoordinator,
    ShutdownState,
    ShutdownView,
    spec_admits,
    spec_complete,
    spec_register,
    spec_settle,
    spec_shutdown_consistent,
    spec_trigger,
};
use crate::uri::opt_view;

verus! {

/// An upstream proxy setting: whether it is in force, the `host:port` of the
/// proxy, and the list of hosts that bypass it.
pub struct ProxyConfig {
    enabled: bool,
    proxy_server: Option<String>,
    proxy_override: Option<String>,
}

/// The mathematical value of a [`ProxyConfig`].
pub ghost struct ProxyConfigView {
    pub enabled: bool,
    pub proxy_server: Option<Seq<char>>,
    pub proxy_override: Option<Seq<char>>,
}

impl View for ProxyConfig {
    type V = ProxyConfigView;

    closed spec fn view(&self) -> ProxyConfigView {
        ProxyConfigView {
            enabled: self.enabled,
            proxy_server: opt_view(self.proxy_server),
            proxy_override: opt_view(self.proxy_override),
        }
    }
}

/// The three values of the operating system's proxy settings. A value that
/// could not be read is `None`.
pub struct SystemProxySettings {
    pub proxy_enable: Option<u32>,
    pub proxy_server: Option<String>,
    pub proxy_override: Option<String>,
}

/// The mathematical value of [`SystemProxySettings`].
pub ghost struct SystemProxySettingsView {
    pub proxy_enable: Option<u32>,
    pub proxy_server: Option<Seq<char>>,
    pub proxy_override: Option<Seq<char>>,
}

impl View for SystemProxySettings {
    type V = SystemProxySettingsView;

    open spec fn view(&self) -> SystemProxySettingsView {
        SystemProxySettingsView {
            proxy_enable: self.proxy_enable,
            proxy_server: opt_view(self.proxy_server),
            proxy_override: opt_view(self.proxy_override),
        }
    }
}

/// Whether the stored flag means that a proxy is in force: any number above
/// zero does, a flag that could not be read does not.
pub open spec fn spec_flag_enabled(proxy_enable: Option<u32>) -> bool {
    match proxy_enable {
        Some(flag) => flag > 0,
        None => false,
    }
}

/// The number that is stored for a flag.
pub open spec fn spec_flag_value(enabled: bool) -> u32 {
    if enabled {
        1
    } else {
        0
    }
}

/// The setting that the stored values stand for.
pub open spec fn spec_system_proxy(settings: SystemProxySettingsView) -> ProxyConfigView {
    ProxyConfigView {
        enabled: spec_flag_enabled(settings.proxy_enable),
        proxy_server: settings.proxy_server,
        proxy_override: settings.proxy_override,
    }
}

/// A text to store for an optional value: the empty text where there is none.
pub open spec fn spec_or_empty(value: Option<Seq<char>>) -> Seq<char> {
    match value {
        Some(value) => value,
        None => Seq::<char>::empty(),
    }
}

/// The values that are stored to put a setting in force.
pub open spec fn spec_update_system_proxy(config: ProxyConfigView) -> SystemProxySettingsView {
    SystemProxySettingsView {
        proxy_enable: Some(spec_flag_value(config.enabled)),
        proxy_server: Some(spec_or_empty(config.proxy_server)),
        proxy_override: Some(spec_or_empty(config.proxy_override)),
    }
}

/// Whether requests are sent on through an upstream proxy: the setting names
/// one and is in force.
pub open spec fn spec_use_system_proxy(config: ProxyConfigView) -> bool {
    config.proxy_server is Some && config.enabled
}

fn clone_text(text: &Option<String>) -> (res: Option<String>)
    ensures
        opt_view(res) == opt_view(*text),
{
    match text {
        Some(text) => Some(text.clone()),
        None => None,
    }
}

fn text_or_empty(text: &Option<String>) -> (res: String)
    ensures
        res@ == spec_or_empty(opt_view(*text)),
{
    match text {
        Some(text) => text.clone(),
        None => String::new(),
    }
}

impl Clone for ProxyConfig {
    fn clone(&self) -> (res: Self)
        ensures
            res@ == self@,
    {
        ProxyConfig {
            enabled: self.enabled,
            proxy_server: clone_text(&self.proxy_server),
            proxy_override: clone_text(&self.proxy_override),
        }
    }
}

impl ProxyConfig {
    pub fn new(enabled: bool, proxy_server: Option<String>, proxy_override: Option<String>) -> (res: ProxyConfig)
        ensures
            res@ == (ProxyConfigView {
                enabled,
                proxy_server: opt_view(proxy_server),
                proxy_override: opt_view(proxy_override),
            }),
    {
        ProxyConfig { enabled, proxy_server, proxy_override }
    }

    pub fn enabled(&self) -> (res: bool)
        ensures
            res == self@.enabled,
    {
        self.enabled
    }

    pub fn proxy_server(&self) -> (res: Option<&String>)
        ensures
            match res {
                Some(server) => self@.proxy_server == Some(server@),
                None => self@.proxy_server is None,
            },
    {
        self.proxy_server.as_ref()
    }

    pub fn proxy_override(&self) -> (res: Option<&String>)
        ensures
            match res {
                Some(bypass) => self@.proxy_override == Some(bypass@),
                None => self@.proxy_override is None,
            },
    {
        self.proxy_override.as_ref()
    }

    /// The setting that the operating system holds, from the values that were
    /// read from its store. `None` stands for a platform without such a
    /// store, and gives `None`.
    pub fn system_proxy(settings: Option<SystemProxySettings>) -> (res: Option<ProxyConfig>)
        ensures
            match res {
                Some(config) => settings is Some && config@ == spec_system_proxy(settings->0@),
                None => settings is None,
            },
    {
        match settings {
            Some(settings) => Some(
                ProxyConfig {
                    enabled: ProxyConfig::is_system_proxy_enabled(settings.proxy_enable),
                    proxy_server: settings.proxy_server,
                    proxy_override: settings.proxy_override,
                },
            ),
            None => None,
        }
    }

    /// Whether the stored flag means that a proxy is in force.
    pub fn is_system_proxy_enabled(proxy_enable: Option<u32>) -> (res: bool)
        ensures
            res == spec_flag_enabled(proxy_enable),
    {
        match proxy_enable {
            Some(flag) => flag > 0,
            None => false,
        }
    }

    /// The number to store as the flag to switch the proxy on or off.
    pub fn set_system_proxy_enabled(enabled: bool) -> (res: u32)
        ensures
            res == spec_flag_value(enabled),
    {
        if enabled {
            1
        } else {
            0
        }
    }

    /// The values to store to put this setting in force. A server or a
    /// bypass list that is not set is stored as the empty text.
    pub fn update_system_proxy(&self) -> (res: SystemProxySettings)
        ensures
            res@ == spec_update_system_proxy(self@),
    {
        SystemProxySettings {
            proxy_enable: Some(ProxyConfig::set_system_proxy_enabled(self.enabled)),
            proxy_server: Some(text_or_empty(&self.proxy_server)),
            proxy_override: Some(text_or_empty(&self.proxy_override)),
        }
    }
}

/// A setting with a server and a bypass list that was put in force is the
/// setting that is read back.
pub proof fn lemma_install_then_snapshot(config: ProxyConfigView)
    requires
        config.proxy_server is Some,
        config.proxy_override is Some,
    ensures
        spec_system_proxy(spec_update_system_proxy(config)) == config,
{
}

/// What one connection carries with it: the client's port and the upstream
/// proxy setting as it stood when lopxy started.
pub struct ProxyClient {
    pub client_port: u16,
    pub system_proxy_config: ProxyConfig,
}

impl ProxyClient {
    /// Whether requests of this client go on through the upstream proxy.
    pub fn use_system_proxy(&self) -> (res: bool)
        ensures
            res == spec_use_system_proxy(self.system_proxy_config@),
    {
        self.system_proxy_config.proxy_server().is_some() && self.system_proxy_config.enabled()
    }
}

/// What the listener reports.
#[derive(Clone, Copy, PartialEq, Eq, Structural, Debug)]
pub enum AcceptEvent {
    /// A client connected from this port.
    Accepted(u16),
    /// An accept failed.
    AcceptFailed,
    /// The shutdown trigger fired.
    ShutdownTriggered,
    /// The handler of a connection has left.
    HandlerExited,
}

/// What the listener does next.
pub enum AcceptAction {
    /// Hand the connection to a handler of its own, then accept again.
    Spawn(ProxyClient),
    /// Accept again.
    Accept,
    /// Accept nothing more; wait for the handlers that are left.
    Wait,
    /// Every handler has left: the listener returns.
    Return,
}

/// The kind of an [`AcceptAction`].
#[derive(Clone, Copy, PartialEq, Eq, Structural, Debug)]
pub enum AcceptKind {
    Spawn,
    Accept,
    Wait,
    Return,
}

impl AcceptAction {
    pub open spec fn kind(self) -> AcceptKind {
        match self {
            AcceptAction::Spawn(_) => AcceptKind::Spawn,
            AcceptAction::Accept => AcceptKind::Accept,
            AcceptAction::Wait => AcceptKind::Wait,
            AcceptAction::Return => AcceptKind::Return,
        }
    }
}

/// The listener of the proxy: the proxy setting that the operating system
/// held at start, and the one that lopxy has put in its place. The shutdown
/// coordinator is not the listener's own: it is the one of the process-wide
/// state, which the controller triggers, and is handed in with every
/// report.
pub struct Proxy {
    pub system_proxy_config: ProxyConfig,
    pub proxy_config: ProxyConfig,
}

/// The coordinator after the listener has taken a report.
pub open spec fn spec_accept_next(s: ShutdownView, event: AcceptEvent) -> ShutdownView {
    match event {
        AcceptEvent::Accepted(_) => spec_settle(spec_register(s)),
        AcceptEvent::AcceptFailed => spec_settle(s),
        AcceptEvent::ShutdownTriggered => spec_settle(spec_trigger(s)),
        AcceptEvent::HandlerExited => spec_settle(spec_complete(s)),
    }
}

/// What the listener does after a report. While it runs, a connection gets
/// a handler and anything else is followed by another accept. Once the
/// trigger has fired nothing is accepted: the listener waits until the last
/// handler has left, and then returns.
pub open spec fn spec_accept_kind(s: ShutdownView, event: AcceptEvent) -> AcceptKind {
    let next = spec_accept_next(s, event);
    if next.state == ShutdownState::Running {
        if event is Accepted && spec_admits(s) {
            AcceptKind::Spawn
        } else {
            AcceptKind::Accept
        }
    } else if next.state == ShutdownState::Drained {
        AcceptKind::Return
    } else {
        AcceptKind::Wait
    }
}

impl Proxy {
    pub fn build(system_proxy_config: ProxyConfig, proxy_config: ProxyConfig) -> (res: Proxy)
        ensures
            res.system_proxy_config == system_proxy_config,
            res.proxy_config == proxy_config,
    {
        Proxy { system_proxy_config, proxy_config }
    }

    /// The address that the listener binds, if the setting names one.
    pub fn bind_address(&self) -> (res: Option<&String>)
        ensures
            match res {
                Some(address) => self.proxy_config@.proxy_server == Some(address@),
                None => self.proxy_config@.proxy_server is None,
            },
    {
        self.proxy_config.proxy_server()
    }

    /// What a handler carries for a connection from `client_port`.
    pub fn build_client(&self, client_port: u16) -> (res: ProxyClient)
        ensures
            res.client_port == client_port,
            res.system_proxy_config@ == self.system_proxy_config@,
    {
        ProxyClient { client_port, system_proxy_config: self.system_proxy_config.clone() }
    }

    /// Takes a report of the listener and says what to do next. `shutdown`
    /// is the coordinator that the controller triggers.
    pub fn on_accept_event(&self, shutdown: &mut ShutdownCoordinator, event: AcceptEvent) -> (res: AcceptAction)
        ensures
            final(shutdown)@ == spec_accept_next(old(shutdown)@, event),
            res.kind() == spec_accept_kind(old(shutdown)@, event),
            res matches AcceptAction::Spawn(client) ==> event matches AcceptEvent::Accepted(port) && client.client_port
                == port && client.system_proxy_config@ == self.system_proxy_config@,
    {
        let mut spawn: Option<u16> = None;
        match event {
            AcceptEvent::Accepted(port) => {
                if shutdown.register() {
                    spawn = Some(port);
                }
            },
            AcceptEvent::AcceptFailed => {},
            AcceptEvent::ShutdownTriggered => {
                let _ = shutdown.shutdown();
            },
            AcceptEvent::HandlerExited => {
                shutdown.complete();
            },
        }
        let drained: bool = shutdown.wait_shutdown_complete();
        if drained {
            AcceptAction::Return
        } else if shutdown.shutdown_started() {
            AcceptAction::Wait
        } else {
            match spawn {
                Some(port) => AcceptAction::Spawn(self.build_client(port)),
                None => AcceptAction::Accept,
            }
        }
    }
}

/// The coordinator after a run of reports.
pub open spec fn spec_accept_run(s: ShutdownView, events: Seq<AcceptEvent>) -> ShutdownView
    decreases events.len(),
{
    if events.len() == 0 {
        s
    } else {
        spec_accept_next(spec_accept_run(s, events.drop_last()), events.last())
    }
}

/// The handlers that were spawned in a run of reports.
pub open spec fn spec_spawned(s: ShutdownView, events: Seq<AcceptEvent>) -> nat
    decreases events.len(),
{
    if events.len() == 0 {
        0
    } else {
        spec_spawned(s, events.drop_last()) + if spec_accept_kind(
            spec_accept_run(s, events.drop_last()),
            events.last(),
        ) == AcceptKind::Spawn {
            1nat
        } else {
            0nat
        }
    }
}

/// The handlers that have left in a run of reports.
pub open spec fn spec_exited(events: Seq<AcceptEvent>) -> nat
    decreases events.len(),
{
    if events.len() == 0 {
        0
    } else {
        spec_exited(events.drop_last()) + if events.last() is HandlerExited {
            1nat
        } else {
            0nat
        }
    }
}

/// A run in which no handler leaves that was not spawned before.
pub open spec fn spec_feasible(s: ShutdownView, events: Seq<AcceptEvent>) -> bool
    decreases events.len(),
{
    if events.len() == 0 {
        true
    } else {
        spec_feasible(s, events.drop_last()) && spec_exited(events) <= s.active + spawned_before(s, events)
    }
}

/// The handlers that were spawned before the last report of a run.
pub open spec fn spawned_before(s: ShutdownView, events: Seq<AcceptEvent>) -> nat {
    if events.len() == 0 {
        0
    } else {
        spec_spawned(s, events.drop_last())
    }
}

/// Once the trigger has fired no connection is accepted any more: whatever
/// is reported, the listener neither spawns a handler nor accepts again,
/// and it returns only when no handler is left.
pub proof fn lemma_nothing_accepted_after_trigger(s: ShutdownView, events: Seq<AcceptEvent>, event: AcceptEvent)
    requires
        s.state != ShutdownState::Running,
        spec_shutdown_consistent(s),
    ensures
        spec_accept_run(s, events).state != ShutdownState::Running,
        spec_shutdown_consistent(spec_accept_run(s, events)),
        spec_accept_kind(spec_accept_run(s, events), event) != AcceptKind::Spawn,
        spec_accept_kind(spec_accept_run(s, events), event) != AcceptKind::Accept,
        spec_accept_kind(spec_accept_run(s, events), event) == AcceptKind::Return ==> spec_accept_next(
            spec_accept_run(s, events),
            event,
        ).active == 0,
    decreases events.len(),
{
    if events.len() > 0 {
        lemma_nothing_accepted_after_trigger(s, events.drop_last(), events.last());
    }
}

/// The trigger takes effect at once: the report of it is never answered
/// with a handler or another accept, from whatever state.
pub proof fn lemma_trigger_stops_accepting(s: ShutdownView)
    requires
        spec_shutdown_consistent(s),
    ensures
        spec_accept_next(s, AcceptEvent::ShutdownTriggered).state != ShutdownState::Running,
        spec_shutdown_consistent(spec_accept_next(s, AcceptEvent::ShutdownTriggered)),
        spec_accept_kind(s, AcceptEvent::ShutdownTriggered) != AcceptKind::Spawn,
        spec_accept_kind(s, AcceptEvent::ShutdownTriggered) != AcceptKind::Accept,
{
}

/// In every feasible run from a fresh listener, the handlers that are still
/// counted are exactly the ones that were spawned and have not left. So
/// when the listener returns, every handler that it ever spawned has left.
pub proof fn lemma_return_after_all_handlers(events: Seq<AcceptEvent>)
    requires
        spec_feasible(ShutdownView { state: ShutdownState::Running, active: 0 }, events),
    ensures
        spec_accept_run(ShutdownView { state: ShutdownState::Running, active: 0 }, events).active + spec_exited(
            events,
        ) == spec_spawned(ShutdownView { state: ShutdownState::Running, active: 0 }, events),
        spec_shutdown_consistent(spec_accept_run(ShutdownView { state: ShutdownState::Running, active: 0 }, events)),
        spec_accept_run(ShutdownView { state: ShutdownState::Running, active: 0 }, events).state
            == ShutdownState::Drained ==> spec_exited(events) == spec_spawned(
            ShutdownView { state: ShutdownState::Running, active: 0 },
            events,
        ),
    decreases events.len(),
{
    let start = ShutdownView { state: ShutdownState::Running, active: 0 };
    if events.len() > 0 {
        let front = events.drop_last();
        lemma_return_after_all_handlers(front);
        let before = spec_accept_run(start, front);
        let after = spec_accept_run(start, events);
        assert(after == spec_accept_next(before, events.last()));
        assert(spawned_before(start, events) == spec_spawned(start, front));
    }
}

} // verus!
