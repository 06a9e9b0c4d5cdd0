//! The routing decision: which engine serves a request.

use vstd::prelude::*;
use vstd::string::*;
use vstd::utf8::*;

use crate::config::spec_redirect;
use crate::controller::{LopxyProxyServerController, item_opt_view};
use crate::item::{ProxyItem, ProxyItemView};
use crate::proxy::{ProxyClient, spec_use_system_proxy};
use crate::header::HeaderView;
use crate::request::LopxyProxyRequest;
use crate::response::{
    lemma_file_response,
    spec_local_file_response,
    spec_raw_response,
    spec_response_404,
    spec_try_response_status,
};
use crate::text::{spec_decimal, spec_eq_ignore_ascii_case, str_eq_ignore_ascii_case};
use crate::uri::{get_uri_scheme, spec_uri_scheme};

verus! {

/// What is done with a request.
pub enum RouteAction {
    /// The connection is closed without an answer.
    Drop,
    /// A tunnel to the requested host is opened for a `CONNECT` request.
    ConnectTunnel,
    /// The bytes of the request are relayed to the host it names.
    DirectTunnel,
    /// The file that the rule names is served.
    LocalFile(ProxyItem),
    /// The request is issued again, to `url`.
    Forward { url: String, redirected: bool },
}

/// The mathematical value of a [`RouteAction`].
pub ghost enum RouteActionView {
    Drop,
    ConnectTunnel,
    DirectTunnel,
    LocalFile(ProxyItemView),
    Forward { url: Seq<char>, redirected: bool },
}

impl View for RouteAction {
    type V = RouteActionView;

    open spec fn view(&self) -> RouteActionView {
        match self {
            RouteAction::Drop => RouteActionView::Drop,
            RouteAction::ConnectTunnel => RouteActionView::ConnectTunnel,
            RouteAction::DirectTunnel => RouteActionView::DirectTunnel,
            RouteAction::LocalFile(item) => RouteActionView::LocalFile(item@),
            RouteAction::Forward { url, redirected } => RouteActionView::Forward {
                url: url@,
                redirected: *redirected,
            },
        }
    }
}

/// Whether a scheme is `file`, in any case of its letters.
pub open spec fn spec_is_file_scheme(scheme: Seq<char>) -> bool {
    spec_eq_ignore_ascii_case(encode_utf8(scheme), "file".spec_bytes())
}

/// Where a request with a redirect rule goes: to the file responder for a
/// `file` target, to the forward engine for any other, and nowhere where the
/// target is no URL.
pub open spec fn spec_route_redirect(item: ProxyItemView) -> RouteActionView {
    match spec_uri_scheme(item.proxy_resource_url) {
        None => RouteActionView::Drop,
        Some(scheme) => if spec_is_file_scheme(scheme) {
            RouteActionView::LocalFile(item)
        } else {
            RouteActionView::Forward { url: item.proxy_resource_url, redirected: true }
        },
    }
}

/// The routing table. A `CONNECT` request is tunnelled whatever the registry
/// holds; a request without a target is dropped; any other request goes by
/// the rule that was found for its target and by whether an upstream proxy
/// is in force.
pub open spec fn spec_route(
    https: bool,
    target: Option<Seq<char>>,
    redirect: Option<ProxyItemView>,
    use_system_proxy: bool,
) -> RouteActionView {
    if https {
        RouteActionView::ConnectTunnel
    } else {
        match target {
            None => RouteActionView::Drop,
            Some(url) => match redirect {
                Some(item) => spec_route_redirect(item),
                None => if use_system_proxy {
                    RouteActionView::Forward { url, redirected: false }
                } else {
                    RouteActionView::DirectTunnel
                },
            },
        }
    }
}

/// Decides where a request goes, given the rule that the registry holds for
/// its target.
pub fn route(request: &LopxyProxyRequest, redirect: Option<ProxyItem>, use_system_proxy: bool) -> (res:
    RouteAction)
    ensures
        res@ == spec_route(request.https, request.request_header@.path, item_opt_view(redirect), use_system_proxy),
{
    if request.https {
        return RouteAction::ConnectTunnel;
    }
    let url: String = match request.try_request_url() {
        Some(url) => url,
        None => {
            return RouteAction::Drop;
        },
    };
    match redirect {
        None => {
            if use_system_proxy {
                RouteAction::Forward { url, redirected: false }
            } else {
                RouteAction::DirectTunnel
            }
        },
        Some(item) => {
            let scheme: String = match get_uri_scheme(item.proxy_resource_url()) {
                Some(scheme) => scheme,
                None => {
                    return RouteAction::Drop;
                },
            };
            if str_eq_ignore_ascii_case(scheme.as_str(), "file") {
                RouteAction::LocalFile(item)
            } else {
                let target: String = item.proxy_resource_url().to_owned();
                RouteAction::Forward { url: target, redirected: true }
            }
        },
    }
}

/// The rule that the registry is asked for: none for a `CONNECT` request and
/// for a request without a target, for which no lookup is made.
pub open spec fn spec_looked_up(
    https: bool,
    target: Option<Seq<char>>,
    registry: Seq<ProxyItemView>,
) -> Option<ProxyItemView> {
    if https {
        None
    } else {
        match target {
            None => None,
            Some(url) => spec_redirect(registry, url),
        }
    }
}

/// Routes a request of a client: looks its target up in the registry of the
/// controller and decides by the routing table.
pub fn handle_proxy_request<C: LopxyProxyServerController>(
    request: &LopxyProxyRequest,
    client: &ProxyClient,
    controller: &mut C,
) -> (res: RouteAction)
    ensures
        res@ == spec_route(
            request.https,
            request.request_header@.path,
            spec_looked_up(request.https, request.request_header@.path, old(controller).registry()),
            spec_use_system_proxy(client.system_proxy_config@),
        ),
        final(controller).registry() == old(controller).registry(),
        final(controller).status_log() == old(controller).status_log(),
{
    if request.https {
        return RouteAction::ConnectTunnel;
    }
    let redirect: Option<ProxyItem> = match request.try_request_url() {
        Some(url) => controller.proxy_redirect(url.as_str()),
        None => None,
    };
    route(request, redirect, client.use_system_proxy())
}

/// A request that is no `CONNECT` and has a target is relayed directly
/// whenever the registry has no rule for the target and no upstream proxy is
/// in force: neither the method nor the headers nor anything else in the
/// request has a say.
pub proof fn lemma_direct_tunnel(target: Seq<char>, registry: Seq<ProxyItemView>)
    requires
        spec_redirect(registry, target) is None,
    ensures
        spec_route(false, Some(target), spec_looked_up(false, Some(target), registry), false)
            == RouteActionView::DirectTunnel,
{
}

/// A `CONNECT` request is tunnelled whatever the registry and the proxy
/// setting are.
pub proof fn lemma_connect_always_tunnels(
    target: Option<Seq<char>>,
    redirect: Option<ProxyItemView>,
    use_system_proxy: bool,
)
    ensures
        spec_route(true, target, redirect, use_system_proxy) == RouteActionView::ConnectTunnel,
{
}

/// The engine that an action names, without what it carries.
#[derive(Clone, Copy, PartialEq, Eq, Structural, Debug)]
pub enum RouteKind {
    Drop,
    ConnectTunnel,
    DirectTunnel,
    LocalFile,
    Forward,
}

impl RouteActionView {
    pub open spec fn kind(self) -> RouteKind {
        match self {
            RouteActionView::Drop => RouteKind::Drop,
            RouteActionView::ConnectTunnel => RouteKind::ConnectTunnel,
            RouteActionView::DirectTunnel => RouteKind::DirectTunnel,
            RouteActionView::LocalFile(_) => RouteKind::LocalFile,
            RouteActionView::Forward { .. } => RouteKind::Forward,
        }
    }
}

/// For requests that are no `CONNECT` and have a target, the engine is
/// chosen by the rule that was found and by the proxy setting alone: two
/// such requests with the same rule and the same setting go to the same
/// engine, whatever their targets, methods and headers are.
pub proof fn lemma_branch_by_rule_and_setting(
    first_target: Seq<char>,
    second_target: Seq<char>,
    redirect: Option<ProxyItemView>,
    use_system_proxy: bool,
)
    ensures
        spec_route(false, Some(first_target), redirect, use_system_proxy).kind() == spec_route(
            false,
            Some(second_target),
            redirect,
            use_system_proxy,
        ).kind(),
{
}

/// `file` is a file scheme.
pub proof fn lemma_file_scheme()
    ensures
        spec_is_file_scheme("file"@),
{
}

/// A request for a URL whose rule has a `file` target goes to the file
/// responder with that rule, whatever the proxy setting is; the lookup
/// leaves the status log as it was; and what the responder builds from the
/// file that was read is a 202 reply with the rule's content type and the
/// file as its body, or the 404 reply where the file could not be read.
pub proof fn lemma_file_rule_is_served(
    url: Seq<char>,
    registry: Seq<ProxyItemView>,
    use_system_proxy: bool,
    file: Seq<u8>,
)
    requires
        spec_redirect(registry, url) is Some,
        spec_uri_scheme(spec_redirect(registry, url)->0.proxy_resource_url) is Some,
        spec_is_file_scheme(spec_uri_scheme(spec_redirect(registry, url)->0.proxy_resource_url)->0),
    ensures
        spec_route(false, Some(url), spec_looked_up(false, Some(url), registry), use_system_proxy)
            == RouteActionView::LocalFile(spec_redirect(registry, url)->0),
        spec_local_file_response(Some(file), spec_redirect(registry, url)->0.content_type) == spec_raw_response(
            encode_utf8("HTTP/1.1 202 OK"@),
            seq![
                HeaderView { name: encode_utf8("content-length"@), value: spec_decimal(file.len()) },
                HeaderView {
                    name: encode_utf8("content-type"@),
                    value: encode_utf8(spec_redirect(registry, url)->0.content_type),
                },
            ],
            file,
        ),
        spec_try_response_status(
            spec_local_file_response(Some(file), spec_redirect(registry, url)->0.content_type),
        ) == Some(202u16),
        spec_local_file_response(None, spec_redirect(registry, url)->0.content_type) == spec_response_404(),
{
    lemma_file_response(file, spec_redirect(registry, url)->0.content_type);
}

} // verus!
