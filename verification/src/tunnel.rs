//! The tunnel engine: the steps of a `CONNECT` tunnel and of a direct relay
//! of plain HTTP. The caller connects, copies bytes and reports back what
//! happened; each report is answered with the next thing to do.

use vstd::prelude::*;
use vstd::string::*;

use crate::controller::{LopxyProxyServerController, Report, spec_report_applied};
use crate::request::LopxyProxyRequest;
use crate::response::{spec_try_response_status, try_response_status};
use crate::text::copy_range;

verus! {

/// Which of the two tunnels a session is.
#[derive(Clone, Copy, PartialEq, Eq, Structural, Debug)]
pub enum TunnelKind {
    /// Opened by a `CONNECT` request: the client is told when the tunnel
    /// stands.
    Connect,
    /// Opened for a plain request without a redirect rule: the bytes of the
    /// request are the first that go upstream.
    Direct,
}

/// How far a session has come.
#[derive(Clone, Copy, PartialEq, Eq, Structural, Debug)]
pub enum TunnelPhase {
    /// The outbound connection is being opened.
    Connecting,
    /// The request went upstream; the first response is awaited.
    Transmitting,
    /// Bytes are being written to the client before the relay starts.
    Replying,
    /// Both directions are copied.
    Relaying,
    /// The session is over.
    Closed,
}

/// What the caller reports.
pub enum TunnelEvent {
    /// The outbound connection stands.
    Connected,
    /// The outbound connection could not be opened.
    ConnectFailed(String),
    /// The request went upstream and this came back.
    Transmitted(Vec<u8>),
    /// Sending the request upstream or reading the response failed.
    TransmitFailed(String),
    /// The bytes for the client were written.
    Replied,
    /// Writing to the client failed.
    ReplyFailed(String),
    /// One of the two copy loops ended, by end of stream or by an error.
    RelayEnded,
    /// The shutdown trigger fired.
    ShutdownTriggered,
}

/// What the caller does next.
pub enum TunnelAction {
    /// Write these bytes upstream and collect the response.
    SendUpstream(Vec<u8>),
    /// Write these bytes to the client.
    Reply(Vec<u8>),
    /// Copy both directions until one ends or the shutdown trigger fires.
    Relay,
    /// Close both sockets.
    Close,
}

/// The mathematical value of a [`TunnelAction`].
pub ghost enum TunnelActionView {
    SendUpstream(Seq<u8>),
    Reply(Seq<u8>),
    Relay,
    Close,
}

impl View for TunnelAction {
    type V = TunnelActionView;

    open spec fn view(&self) -> TunnelActionView {
        match self {
            TunnelAction::SendUpstream(bytes) => TunnelActionView::SendUpstream(bytes@),
            TunnelAction::Reply(bytes) => TunnelActionView::Reply(bytes@),
            TunnelAction::Relay => TunnelActionView::Relay,
            TunnelAction::Close => TunnelActionView::Close,
        }
    }
}

/// A tunnel session.
pub struct Tunnel {
    kind: TunnelKind,
    phase: TunnelPhase,
    /// The status of the first response of a direct relay, kept until the
    /// response has reached the client.
    status: Option<u16>,
}

/// The mathematical value of a [`Tunnel`].
pub ghost struct TunnelView {
    pub kind: TunnelKind,
    pub phase: TunnelPhase,
    pub status: Option<u16>,
}

impl View for Tunnel {
    type V = TunnelView;

    closed spec fn view(&self) -> TunnelView {
        TunnelView { kind: self.kind, phase: self.phase, status: self.status }
    }
}

/// The line that tells the client of a `CONNECT` request that the tunnel
/// stands.
pub open spec fn spec_connection_established() -> Seq<u8> {
    "HTTP/1.0 200 Connection Established\r\n\r\n".spec_bytes()
}

/// The outcome of one step: the session afterwards, what the caller does
/// next, and what is logged.
pub ghost struct TunnelStep {
    pub next: TunnelView,
    pub action: TunnelActionView,
    pub report: Report,
}

/// A session that ends.
pub open spec fn spec_close(tunnel: TunnelView, report: Report) -> TunnelStep {
    TunnelStep {
        next: TunnelView { kind: tunnel.kind, phase: TunnelPhase::Closed, status: None },
        action: TunnelActionView::Close,
        report,
    }
}

/// A session that moves on.
pub open spec fn spec_advance(
    tunnel: TunnelView,
    phase: TunnelPhase,
    status: Option<u16>,
    action: TunnelActionView,
    report: Report,
) -> TunnelStep {
    TunnelStep { next: TunnelView { kind: tunnel.kind, phase, status }, action, report }
}

/// The steps of a tunnel. A connection that cannot be opened is logged and
/// the session ends without a byte for the client. A `CONNECT` tunnel then
/// tells the client that it stands and relays. A direct relay sends the
/// request upstream, hands the first response to the client, logs its
/// status, and relays. Whatever ends the relay ends the session, and so does
/// any report that does not fit the phase.
pub open spec fn spec_tunnel_step(
    tunnel: TunnelView,
    host: Seq<char>,
    target: Option<Seq<char>>,
    request_bytes: Seq<u8>,
    event: TunnelEvent,
) -> TunnelStep {
    match (tunnel.phase, event) {
        (TunnelPhase::Connecting, TunnelEvent::ConnectFailed(err)) => spec_close(
            tunnel,
            Report::ConnectionError { host, known_url: target, err: err@ },
        ),
        (TunnelPhase::Connecting, TunnelEvent::Connected) => match tunnel.kind {
            TunnelKind::Connect => spec_advance(
                tunnel,
                TunnelPhase::Replying,
                None,
                TunnelActionView::Reply(spec_connection_established()),
                Report::Nothing,
            ),
            TunnelKind::Direct => spec_advance(
                tunnel,
                TunnelPhase::Transmitting,
                None,
                TunnelActionView::SendUpstream(request_bytes),
                Report::Nothing,
            ),
        },
        (TunnelPhase::Transmitting, TunnelEvent::TransmitFailed(err)) => spec_close(
            tunnel,
            Report::ConnectionError { host, known_url: target, err: err@ },
        ),
        (TunnelPhase::Transmitting, TunnelEvent::Transmitted(response)) => spec_advance(
            tunnel,
            TunnelPhase::Replying,
            spec_try_response_status(response@),
            TunnelActionView::Reply(response@),
            Report::Nothing,
        ),
        (TunnelPhase::Replying, TunnelEvent::ReplyFailed(err)) => match tunnel.kind {
            TunnelKind::Connect => spec_close(tunnel, Report::Nothing),
            TunnelKind::Direct => spec_close(
                tunnel,
                Report::ConnectionError { host, known_url: target, err: err@ },
            ),
        },
        (TunnelPhase::Replying, TunnelEvent::Replied) => spec_advance(
            tunnel,
            TunnelPhase::Relaying,
            None,
            TunnelActionView::Relay,
            match (tunnel.status, target) {
                (Some(status), Some(url)) => Report::Status { request_url: url, status },
                _ => Report::Nothing,
            },
        ),
        _ => spec_close(tunnel, Report::Nothing),
    }
}

impl Tunnel {
    /// A session that is about to connect.
    pub fn new(kind: TunnelKind) -> (res: Tunnel)
        ensures
            res@ == (TunnelView { kind, phase: TunnelPhase::Connecting, status: None }),
    {
        Tunnel { kind, phase: TunnelPhase::Connecting, status: None }
    }

    pub fn kind(&self) -> (res: TunnelKind)
        ensures
            res == self@.kind,
    {
        self.kind
    }

    pub fn phase(&self) -> (res: TunnelPhase)
        ensures
            res == self@.phase,
    {
        self.phase
    }

    fn close(&mut self) -> (res: TunnelAction)
        ensures
            final(self)@ == (TunnelView { kind: old(self)@.kind, phase: TunnelPhase::Closed, status: None }),
            res@ == TunnelActionView::Close,
    {
        self.phase = TunnelPhase::Closed;
        self.status = None;
        TunnelAction::Close
    }

    /// Takes a report of the caller, logs what is to be logged, and says
    /// what to do next.
    pub fn step<C: LopxyProxyServerController>(
        &mut self,
        request: &LopxyProxyRequest,
        controller: &mut C,
        event: TunnelEvent,
    ) -> (res: TunnelAction)
        ensures
            final(self)@ == spec_tunnel_step(
                old(self)@,
                request.host@,
                request.request_header@.path,
                request.request_bytes@,
                event,
            ).next,
            res@ == spec_tunnel_step(
                old(self)@,
                request.host@,
                request.request_header@.path,
                request.request_bytes@,
                event,
            ).action,
            spec_report_applied(
                old(controller).status_log(),
                final(controller).status_log(),
                request.pid,
                spec_tunnel_step(
                    old(self)@,
                    request.host@,
                    request.request_header@.path,
                    request.request_bytes@,
                    event,
                ).report,
            ),
            final(controller).registry() == old(controller).registry(),
    {
        match self.phase {
            TunnelPhase::Connecting => match event {
                TunnelEvent::ConnectFailed(err) => {
                    controller.report_connection_error(
                        request.host.as_str(),
                        request.try_request_url(),
                        err.as_str(),
                        request.pid,
                    );
                    self.close()
                },
                TunnelEvent::Connected => match self.kind {
                    TunnelKind::Connect => {
                        self.phase = TunnelPhase::Replying;
                        self.status = None;
                        TunnelAction::Reply("HTTP/1.0 200 Connection Established\r\n\r\n".as_bytes_vec())
                    },
                    TunnelKind::Direct => {
                        self.phase = TunnelPhase::Transmitting;
                        self.status = None;
                        let bytes = copy_range(request.request_bytes.as_slice(), 0, request.request_bytes.len());
                        assert(bytes@ =~= request.request_bytes@);
                        TunnelAction::SendUpstream(bytes)
                    },
                },
                _ => self.close(),
            },
            TunnelPhase::Transmitting => match event {
                TunnelEvent::TransmitFailed(err) => {
                    controller.report_connection_error(
                        request.host.as_str(),
                        request.try_request_url(),
                        err.as_str(),
                        request.pid,
                    );
                    self.close()
                },
                TunnelEvent::Transmitted(response) => {
                    self.phase = TunnelPhase::Replying;
                    self.status = try_response_status(response.as_slice());
                    TunnelAction::Reply(response)
                },
                _ => self.close(),
            },
            TunnelPhase::Replying => match event {
                TunnelEvent::ReplyFailed(err) => {
                    match self.kind {
                        TunnelKind::Connect => {},
                        TunnelKind::Direct => {
                            controller.report_connection_error(
                                request.host.as_str(),
                                request.try_request_url(),
                                err.as_str(),
                                request.pid,
                            );
                        },
                    }
                    self.close()
                },
                TunnelEvent::Replied => {
                    match self.status {
                        Some(status) => match request.try_request_url() {
                            Some(url) => {
                                controller.report_proxy_request_status(url.as_str(), status, request.pid);
                            },
                            None => {},
                        },
                        None => {},
                    }
                    self.phase = TunnelPhase::Relaying;
                    self.status = None;
                    TunnelAction::Relay
                },
                _ => self.close(),
            },
            _ => self.close(),
        }
    }
}

/// A `CONNECT` tunnel whose outbound connection cannot be opened ends with
/// one record in the log and nothing for the client: the only action is to
/// close.
pub proof fn lemma_connect_failure_is_silent(
    host: Seq<char>,
    target: Option<Seq<char>>,
    request_bytes: Seq<u8>,
    err: String,
    kind: TunnelKind,
)
    ensures
        spec_tunnel_step(
            TunnelView { kind, phase: TunnelPhase::Connecting, status: None },
            host,
            target,
            request_bytes,
            TunnelEvent::ConnectFailed(err),
        ) == spec_close(
            TunnelView { kind, phase: TunnelPhase::Connecting, status: None },
            Report::ConnectionError { host, known_url: target, err: err@ },
        ),
{
}

/// A closed session stays closed and asks for nothing but closing, whatever
/// is reported to it.
pub proof fn lemma_closed_is_final(
    tunnel: TunnelView,
    host: Seq<char>,
    target: Option<Seq<char>>,
    request_bytes: Seq<u8>,
    event: TunnelEvent,
)
    requires
        tunnel.phase == TunnelPhase::Closed || tunnel.phase == TunnelPhase::Relaying,
    ensures
        spec_tunnel_step(tunnel, host, target, request_bytes, event) == spec_close(tunnel, Report::Nothing),
{
}

/// The session after a run of reports.
pub open spec fn spec_tunnel_run(
    tunnel: TunnelView,
    host: Seq<char>,
    target: Option<Seq<char>>,
    request_bytes: Seq<u8>,
    events: Seq<TunnelEvent>,
) -> TunnelView
    decreases events.len(),
{
    if events.len() == 0 {
        tunnel
    } else {
        spec_tunnel_step(
            spec_tunnel_run(tunnel, host, target, request_bytes, events.drop_last()),
            host,
            target,
            request_bytes,
            events.last(),
        ).next
    }
}

/// How many steps of a run have something to log.
pub open spec fn spec_tunnel_reports(
    tunnel: TunnelView,
    host: Seq<char>,
    target: Option<Seq<char>>,
    request_bytes: Seq<u8>,
    events: Seq<TunnelEvent>,
) -> nat
    decreases events.len(),
{
    if events.len() == 0 {
        0
    } else {
        spec_tunnel_reports(tunnel, host, target, request_bytes, events.drop_last()) + if spec_tunnel_step(
            spec_tunnel_run(tunnel, host, target, request_bytes, events.drop_last()),
            host,
            target,
            request_bytes,
            events.last(),
        ).report is Nothing {
            0nat
        } else {
            1nat
        }
    }
}

/// A session logs at most once, whatever is reported to it and in whatever
/// order: after a failure it is closed, and after the status of the first
/// response it only relays.
pub proof fn lemma_session_logs_at_most_once(
    kind: TunnelKind,
    host: Seq<char>,
    target: Option<Seq<char>>,
    request_bytes: Seq<u8>,
    events: Seq<TunnelEvent>,
)
    ensures
        spec_tunnel_reports(
            TunnelView { kind, phase: TunnelPhase::Connecting, status: None },
            host,
            target,
            request_bytes,
            events,
        ) <= 1,
        spec_tunnel_reports(
            TunnelView { kind, phase: TunnelPhase::Connecting, status: None },
            host,
            target,
            request_bytes,
            events,
        ) == 1 ==> {
            let end = spec_tunnel_run(
                TunnelView { kind, phase: TunnelPhase::Connecting, status: None },
                host,
                target,
                request_bytes,
                events,
            );
            end.phase == TunnelPhase::Closed || end.phase == TunnelPhase::Relaying
        },
    decreases events.len(),
{
    if events.len() > 0 {
        lemma_session_logs_at_most_once(kind, host, target, request_bytes, events.drop_last());
    }
}

} // verus!
