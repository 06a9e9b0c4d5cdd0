//! The forward engine: what goes out when a request is issued again, and
//! what the client gets back.

use reqwest::header::HeaderMap;
use vstd::prelude::*;
use vstd::string::*;
use vstd::utf8::*;

use crate::controller::{LopxyProxyServerController, Report, spec_report_applied};
use crate::header::{header_map_entries, header_map_insert, spec_insert_header};
use crate::proxy::{ProxyClient, spec_use_system_proxy};
use crate::request::{LopxyProxyRequest, spec_body, spec_forward_headers};
use crate::response::{
    UpstreamResponse,
    build_502_response,
    build_raw_response_bytes,
    spec_raw_response_bytes,
    spec_response_502,
};
use crate::text::{str_eq, str_uppercase, to_uppercase};
use crate::uri::{get_host_from_url, opt_view, spec_host_from_url};

verus! {

/// The verb of the outbound request.
#[derive(Clone, Copy, PartialEq, Eq, Structural, Debug)]
pub enum ForwardMethod {
    Get,
    Post,
    Put,
    Delete,
    Head,
    Patch,
}

/// The verb that a request goes out with: its own, read in upper case, where
/// that is one of the six known ones, else GET.
pub open spec fn spec_forward_method(method: Seq<char>) -> ForwardMethod {
    let upper = str_uppercase(method);
    if upper == "POST"@ {
        ForwardMethod::Post
    } else if upper == "PUT"@ {
        ForwardMethod::Put
    } else if upper == "DELETE"@ {
        ForwardMethod::Delete
    } else if upper == "HEAD"@ {
        ForwardMethod::Head
    } else if upper == "PATCH"@ {
        ForwardMethod::Patch
    } else {
        ForwardMethod::Get
    }
}

/// The address of the upstream proxy that the outbound request goes
/// through, where one is in force.
pub open spec fn spec_upstream_proxy(use_system_proxy: bool, proxy_server: Option<Seq<char>>) -> Option<
    Seq<char>,
> {
    match proxy_server {
        Some(server) => if use_system_proxy {
            Some("http://"@ + server)
        } else {
            None
        },
        None => None,
    }
}

/// The value of the outbound `Host` header: the host of the target, empty
/// where the target has none.
pub open spec fn spec_forward_host(url: Seq<char>) -> Seq<char> {
    match spec_host_from_url(url) {
        Some(host) => host,
        None => Seq::<char>::empty(),
    }
}

/// The header table of the outbound request: the headers of the request
/// that are copied, and `Host` set from the target.
pub open spec fn spec_plan_headers(
    headers: Seq<crate::header::HeaderView>,
    url: Seq<char>,
) -> Map<Seq<u8>, Seq<u8>> {
    spec_insert_header(spec_forward_headers(headers), "host".spec_bytes(), encode_utf8(spec_forward_host(url)))
}

/// Everything that the outbound request is made of.
pub struct ForwardPlan {
    /// The upstream proxy to go through, if any.
    pub upstream_proxy: Option<String>,
    pub url: String,
    pub method: ForwardMethod,
    pub headers: HeaderMap,
    pub body: Vec<u8>,
}

pub fn forward_method(method: &str) -> (res: ForwardMethod)
    ensures
        res == spec_forward_method(method@),
{
    let upper: String = to_uppercase(method);
    if str_eq(upper.as_str(), "POST") {
        ForwardMethod::Post
    } else if str_eq(upper.as_str(), "PUT") {
        ForwardMethod::Put
    } else if str_eq(upper.as_str(), "DELETE") {
        ForwardMethod::Delete
    } else if str_eq(upper.as_str(), "HEAD") {
        ForwardMethod::Head
    } else if str_eq(upper.as_str(), "PATCH") {
        ForwardMethod::Patch
    } else {
        ForwardMethod::Get
    }
}

/// Plans the outbound request for `url`: through the upstream proxy where
/// one is in force, with the verb and body of the request, and with the headers of
/// the request but for the ones that are never copied and for `Host`, which
/// names the host of `url`.
pub fn plan_forward(request: &LopxyProxyRequest, client: &ProxyClient, url: &str) -> (res: ForwardPlan)
    ensures
        opt_view(res.upstream_proxy) == spec_upstream_proxy(
            spec_use_system_proxy(client.system_proxy_config@),
            client.system_proxy_config@.proxy_server,
        ),
        res.url@ == url@,
        res.method == spec_forward_method(request.method@),
        header_map_entries(res.headers) == spec_plan_headers(request.request_header@.headers, url@),
        res.body@ == spec_body(request.request_bytes@, request.request_header@.headers),
{
    let upstream_proxy: Option<String> = if client.use_system_proxy() {
        match client.system_proxy_config.proxy_server() {
            Some(server) => Some(String::from_str("http://").concat(server.as_str())),
            None => None,
        }
    } else {
        None
    };
    let mut headers: HeaderMap = request.headers();
    let host: String = match get_host_from_url(url) {
        Some(host) => host,
        None => String::new(),
    };
    header_map_insert(&mut headers, "host", host.as_str().as_bytes());
    ForwardPlan {
        upstream_proxy,
        url: url.to_owned(),
        method: forward_method(request.method()),
        headers,
        body: request.body(),
    }
}

/// How the outbound request ended.
pub enum ForwardEvent {
    /// The outbound client could not be set up.
    ClientBuildFailed,
    /// The request could not be sent or no response came. The text is the
    /// error.
    Failed(String),
    /// A response came, but its body could not be read.
    BodyFailed { status: u16 },
    /// A response came.
    Responded(UpstreamResponse),
}

/// What is written to the client after the outbound request: 502 where the
/// client could not be set up, the reconstructed response where one came
/// whole, and nothing otherwise.
pub open spec fn spec_forward_reply(event: ForwardEvent) -> Option<Seq<u8>> {
    match event {
        ForwardEvent::ClientBuildFailed => Some(spec_response_502()),
        ForwardEvent::Failed(_) => None,
        ForwardEvent::BodyFailed { .. } => None,
        ForwardEvent::Responded(resp) => Some(spec_raw_response_bytes(resp@)),
    }
}

/// What is logged after the outbound request: the error where the request
/// failed, the status where a response came, nothing where the client could
/// not be set up.
pub open spec fn spec_forward_report(host: Seq<char>, url: Seq<char>, event: ForwardEvent) -> Report {
    match event {
        ForwardEvent::ClientBuildFailed => Report::Nothing,
        ForwardEvent::Failed(err) => Report::ConnectionError { host, known_url: Some(url), err: err@ },
        ForwardEvent::BodyFailed { status } => Report::Status { request_url: url, status },
        ForwardEvent::Responded(resp) => Report::Status { request_url: url, status: resp@.status },
    }
}

/// The view of optional bytes.
pub open spec fn opt_bytes_view(bytes: Option<Vec<u8>>) -> Option<Seq<u8>> {
    match bytes {
        Some(bytes) => Some(bytes@),
        None => None,
    }
}

/// Ends a forwarded request: reports to the controller what is to be logged
/// and returns the bytes to write to the client, if any. A failed request is
/// neither repeated nor answered.
pub fn finish_forward<C: LopxyProxyServerController>(
    request: &LopxyProxyRequest,
    controller: &mut C,
    url: &str,
    event: ForwardEvent,
) -> (res: Option<Vec<u8>>)
    ensures
        opt_bytes_view(res) == spec_forward_reply(event),
        spec_report_applied(
            old(controller).status_log(),
            final(controller).status_log(),
            request.pid,
            spec_forward_report(request.host@, url@, event),
        ),
        final(controller).registry() == old(controller).registry(),
{
    match event {
        ForwardEvent::ClientBuildFailed => Some(build_502_response()),
        ForwardEvent::Failed(err) => {
            controller.report_connection_error(
                request.host.as_str(),
                Some(url.to_owned()),
                err.as_str(),
                request.pid,
            );
            None
        },
        ForwardEvent::BodyFailed { status } => {
            controller.report_proxy_request_status(url, status, request.pid);
            None
        },
        ForwardEvent::Responded(resp) => {
            controller.report_proxy_request_status(url, resp.status(), request.pid);
            Some(build_raw_response_bytes(&resp))
        },
    }
}

/// Whatever the request carried under `Host`, the outbound `Host` names the
/// host of the target, as long as the header table takes it.
pub proof fn lemma_host_from_target(headers: Seq<crate::header::HeaderView>, url: Seq<char>)
    requires
        crate::header::header_name_canonical("host".spec_bytes()) is Some,
        crate::header::spec_header_value_valid(encode_utf8(spec_forward_host(url))),
    ensures
        spec_plan_headers(headers, url).dom().contains(
            crate::header::header_name_canonical("host".spec_bytes())->0,
        ),
        spec_plan_headers(headers, url)[crate::header::header_name_canonical("host".spec_bytes())->0]
            == encode_utf8(spec_forward_host(url)),
{
}

} // verus!
