//! A proxy request: what the parser read from the client's first bytes, and
//! what the engines take from it.

use reqwest::header::HeaderMap;
use vstd::prelude::*;
use vstd::string::*;
use vstd::utf8::*;

use crate::header::{
    Header,
    HeaderView,
    header_map_entries,
    header_map_insert,
    header_map_new,
    headers_view,
    lemma_insert_header_size,
    spec_insert_header,
    spec_no_headers,
};
use crate::text::{
    bytes_eq_ignore_ascii_case,
    contains_byte,
    copy_range,
    parse_decimal,
    spec_eq_ignore_ascii_case,
    spec_parse_decimal,
    str_eq,
    utf8_text,
};
use crate::uri::{get_host_from_url, opt_view, spec_host_from_url};

verus! {

/// The most headers that one request can carry.
pub const MAX_REQUEST_HEADERS: usize = 64;

/// The start line and the headers of a request.
pub struct RequestHead {
    method: Option<String>,
    path: Option<String>,
    headers: Vec<Header>,
}

/// The mathematical value of a [`RequestHead`].
pub ghost struct RequestHeadView {
    pub method: Option<Seq<char>>,
    pub path: Option<Seq<char>>,
    pub headers: Seq<HeaderView>,
}

impl View for RequestHead {
    type V = RequestHeadView;

    closed spec fn view(&self) -> RequestHeadView {
        RequestHeadView {
            method: opt_view(self.method),
            path: opt_view(self.path),
            headers: headers_view(self.headers@),
        }
    }
}

/// What the `httparse` crate reads from the bytes of a request with room for
/// 64 headers: `None` where it reports an error, else the method, the target
/// and the header table as it leaves them, also where the request is cut off.
pub uninterp spec fn httparse_request(buf: Seq<u8>) -> Option<RequestHeadView>;

/// Calls `httparse::Request::parse` with 64 header slots and copies method,
/// path and headers. The contract claims that the outcome is a function of
/// the bytes, named [`httparse_request`], and that no more headers come back
/// than there are slots.
#[verifier::external_body]
pub(crate) fn parse_request_head(buf: &[u8]) -> (res: Option<RequestHead>)
    ensures
        match res {
            Some(head) => httparse_request(buf@) == Some(head@) && head@.headers.len() <= MAX_REQUEST_HEADERS,
            None => httparse_request(buf@) is None,
        },
{
    let mut slots = [httparse::EMPTY_HEADER; MAX_REQUEST_HEADERS];
    let mut request = httparse::Request::new(&mut slots);
    if request.parse(buf).is_err() {
        return None;
    }
    Some(RequestHead {
        method: request.method.map(|m| m.to_string()),
        path: request.path.map(|p| p.to_string()),
        headers: request.headers.iter().map(|h| Header { name: h.name.to_string(), value: h.value.to_vec() }).collect(),
    })
}

/// The position of the first header at or after `from` whose name is `name`
/// but for the case of ASCII letters, or the number of headers.
pub open spec fn spec_find_header(headers: Seq<HeaderView>, name: Seq<u8>, from: int) -> int
    decreases headers.len() - from,
{
    if from < 0 || from >= headers.len() {
        headers.len() as int
    } else if spec_eq_ignore_ascii_case(headers[from].name, name) {
        from
    } else {
        spec_find_header(headers, name, from + 1)
    }
}

/// The value of the first `Host` header that is text, as text.
pub open spec fn spec_host_header(headers: Seq<HeaderView>, from: int) -> Option<Seq<char>>
    decreases headers.len() - from,
{
    if from < 0 || from >= headers.len() {
        None
    } else if spec_eq_ignore_ascii_case(headers[from].name, "host".spec_bytes()) && valid_utf8(
        headers[from].value,
    ) {
        Some(decode_utf8(headers[from].value))
    } else {
        spec_host_header(headers, from + 1)
    }
}

/// A host with its port: a host that names no port gets port 80.
pub open spec fn spec_with_default_port(host: Seq<char>) -> Seq<char> {
    if encode_utf8(host).contains(58u8) {
        host
    } else {
        host + ":80"@
    }
}

/// The host that a request is for: the `Host` header where there is one, else
/// the host of the request target; in both cases with a port.
pub open spec fn spec_host_from_request(head: RequestHeadView) -> Option<Seq<char>> {
    match spec_host_header(head.headers, 0) {
        Some(host) => Some(spec_with_default_port(host)),
        None => match head.path {
            None => None,
            Some(path) => match spec_host_from_url(path) {
                None => None,
                Some(host) => Some(spec_with_default_port(host)),
            },
        },
    }
}

/// The length that a request declares for its body: the number in the first
/// `Content-Length` header, 0 where there is none or it is no number.
pub open spec fn spec_content_length(headers: Seq<HeaderView>) -> nat {
    let at = spec_find_header(headers, "content-length".spec_bytes(), 0);
    if at >= headers.len() {
        0
    } else {
        match spec_parse_decimal(headers[at].value, usize::MAX as nat) {
            Some(n) => n,
            None => 0,
        }
    }
}

/// The body of a request: the last bytes of what was read, as many as the
/// request declares; empty where it declares none, or as many as were read
/// in all or more.
pub open spec fn spec_body(request_bytes: Seq<u8>, headers: Seq<HeaderView>) -> Seq<u8> {
    let declared = spec_content_length(headers);
    if declared == 0 || declared >= request_bytes.len() {
        Seq::<u8>::empty()
    } else {
        request_bytes.skip(request_bytes.len() - declared)
    }
}

/// A header that is not copied to the outbound request.
pub open spec fn spec_header_excluded(name: Seq<u8>) -> bool {
    ||| spec_eq_ignore_ascii_case(name, "host".spec_bytes())
    ||| spec_eq_ignore_ascii_case(name, "postman-token".spec_bytes())
    ||| spec_eq_ignore_ascii_case(name, "user-agent".spec_bytes())
    ||| spec_eq_ignore_ascii_case(name, "accept".spec_bytes())
    ||| spec_eq_ignore_ascii_case(name, "accept-encoding".spec_bytes())
    ||| spec_eq_ignore_ascii_case(name, "cache-control".spec_bytes())
    ||| spec_eq_ignore_ascii_case(name, "connection".spec_bytes())
}

/// The header table of the outbound request: every header of the request
/// that is not excluded, set in order, so that a later one replaces an
/// earlier one of the same name.
pub open spec fn spec_forward_headers(headers: Seq<HeaderView>) -> Map<Seq<u8>, Seq<u8>>
    decreases headers.len(),
{
    if headers.len() == 0 {
        spec_no_headers()
    } else if spec_header_excluded(headers.last().name) {
        spec_forward_headers(headers.drop_last())
    } else {
        spec_insert_header(spec_forward_headers(headers.drop_last()), headers.last().name, headers.last().value)
    }
}

fn header_excluded(name: &str) -> (res: bool)
    ensures
        res == spec_header_excluded(name.spec_bytes()),
{
    let name = name.as_bytes();
    bytes_eq_ignore_ascii_case(name, "host".as_bytes()) || bytes_eq_ignore_ascii_case(
        name,
        "postman-token".as_bytes(),
    ) || bytes_eq_ignore_ascii_case(name, "user-agent".as_bytes()) || bytes_eq_ignore_ascii_case(
        name,
        "accept".as_bytes(),
    ) || bytes_eq_ignore_ascii_case(name, "accept-encoding".as_bytes()) || bytes_eq_ignore_ascii_case(
        name,
        "cache-control".as_bytes(),
    ) || bytes_eq_ignore_ascii_case(name, "connection".as_bytes())
}

impl RequestHead {
    #[verifier::type_invariant]
    spec fn within_limit(self) -> bool {
        self.headers@.len() <= MAX_REQUEST_HEADERS
    }

    /// A request head from its parts; `None` where there are more headers
    /// than a request can carry.
    pub fn new(method: Option<String>, path: Option<String>, headers: Vec<Header>) -> (res: Option<RequestHead>)
        ensures
            res is Some <==> headers@.len() <= MAX_REQUEST_HEADERS,
            res matches Some(head) ==> head@ == (RequestHeadView {
                method: opt_view(method),
                path: opt_view(path),
                headers: headers_view(headers@),
            }),
    {
        if headers.len() > MAX_REQUEST_HEADERS {
            None
        } else {
            Some(RequestHead { method, path, headers })
        }
    }

    pub fn method(&self) -> (res: Option<&String>)
        ensures
            match res {
                Some(m) => self@.method == Some(m@),
                None => self@.method is None,
            },
    {
        self.method.as_ref()
    }

    pub fn path(&self) -> (res: Option<&String>)
        ensures
            match res {
                Some(p) => self@.path == Some(p@),
                None => self@.path is None,
            },
    {
        self.path.as_ref()
    }

    pub fn headers(&self) -> (res: &Vec<Header>)
        ensures
            headers_view(res@) == self@.headers,
            res@.len() <= MAX_REQUEST_HEADERS,
    {
        proof {
            use_type_invariant(self);
        }
        &self.headers
    }
}

/// The position of the first header with this name, or the number of headers.
fn find_header(headers: &Vec<Header>, name: &str) -> (res: usize)
    ensures
        res == spec_find_header(headers_view(headers@), name.spec_bytes(), 0),
        res <= headers@.len(),
{
    let ghost views = headers_view(headers@);
    let mut i: usize = 0;
    while i < headers.len()
        invariant
            i <= headers@.len(),
            views == headers_view(headers@),
            spec_find_header(views, name.spec_bytes(), i as int) == spec_find_header(views, name.spec_bytes(), 0),
        decreases headers@.len() - i,
    {
        if bytes_eq_ignore_ascii_case(headers[i].name.as_str().as_bytes(), name.as_bytes()) {
            return i;
        }
        i += 1;
    }
    i
}

/// Appends `:80` to a host that names no port.
fn with_default_port(host: String) -> (res: String)
    ensures
        res@ == spec_with_default_port(host@),
{
    if contains_byte(host.as_str().as_bytes(), 58) {
        host
    } else {
        host.concat(":80")
    }
}

/// The host that a request is for, with its port.
pub fn get_host_from_request(request: &RequestHead) -> (res: Option<String>)
    ensures
        opt_view(res) == spec_host_from_request(request@),
{
    let headers = request.headers();
    let ghost views = headers_view(headers@);
    let mut i: usize = 0;
    while i < headers.len()
        invariant
            i <= headers@.len(),
            views == headers_view(headers@),
            views == request@.headers,
            spec_host_header(views, i as int) == spec_host_header(views, 0),
        decreases headers@.len() - i,
    {
        if bytes_eq_ignore_ascii_case(headers[i].name.as_str().as_bytes(), "host".as_bytes()) {
            match utf8_text(headers[i].value.as_slice()) {
                Some(host) => {
                    return Some(with_default_port(host));
                },
                None => {},
            }
        }
        i += 1;
    }
    let path: &String = match request.path() {
        Some(path) => path,
        None => {
            return None;
        },
    };
    match get_host_from_url(path.as_str()) {
        Some(host) => Some(with_default_port(host)),
        None => None,
    }
}

/// One request of a client, as the engines see it.
pub struct LopxyProxyRequest {
    /// Whether the client asked for a tunnel with `CONNECT`.
    pub https: bool,
    /// The host that the request is for, with its port.
    pub host: String,
    pub method: String,
    pub client_port: u16,
    /// The process behind the client's port, 0 where it is not known.
    pub pid: u32,
    /// Everything that was read from the client.
    pub request_bytes: Vec<u8>,
    pub request_header: RequestHead,
}

/// Whether the first bytes of a client make a request that is served: they
/// parse, they name a host, and they name a method.
pub open spec fn spec_request_accepted(buf: Seq<u8>) -> bool {
    match httparse_request(buf) {
        Some(head) => spec_host_from_request(head) is Some && head.method is Some,
        None => false,
    }
}

/// The process id that is recorded for a request.
pub open spec fn spec_known_pid(pid: Option<u32>) -> u32 {
    match pid {
        Some(pid) => pid,
        None => 0,
    }
}

/// The request URL as it is reported: the target where the request has one,
/// else a URL made of the host.
pub open spec fn spec_request_url(https: bool, host: Seq<char>, path: Option<Seq<char>>) -> Seq<char> {
    match path {
        Some(path) => path,
        None => if https {
            "https://"@ + host
        } else {
            "http://"@ + host
        },
    }
}

/// Reads a request from the first bytes of a client. `pid` is the process
/// that was found behind the client's port, if any. `None` means that the
/// connection is closed without an answer.
pub fn parse_proxy_request(request_buffer: Vec<u8>, client_port: u16, pid: Option<u32>) -> (res: Option<
    LopxyProxyRequest,
>)
    ensures
        res is Some <==> spec_request_accepted(request_buffer@),
        res matches Some(request) ==> {
            &&& httparse_request(request_buffer@) == Some(request.request_header@)
            &&& Some(request.host@) == spec_host_from_request(request.request_header@)
            &&& Some(request.method@) == request.request_header@.method
            &&& request.https == (request.method@ == "CONNECT"@)
            &&& request.client_port == client_port
            &&& request.pid == spec_known_pid(pid)
            &&& request.request_bytes@ == request_buffer@
        },
{
    let head: RequestHead = match parse_request_head(request_buffer.as_slice()) {
        Some(head) => head,
        None => {
            return None;
        },
    };
    let host: String = match get_host_from_request(&head) {
        Some(host) => host,
        None => {
            return None;
        },
    };
    let method: String = match head.method() {
        Some(method) => method.clone(),
        None => {
            return None;
        },
    };
    let https: bool = str_eq(method.as_str(), "CONNECT");
    let pid: u32 = match pid {
        Some(pid) => pid,
        None => 0,
    };
    Some(
        LopxyProxyRequest {
            https,
            host,
            method,
            client_port,
            pid,
            request_bytes: request_buffer,
            request_header: head,
        },
    )
}

impl LopxyProxyRequest {
    /// The request target, if the request has one.
    pub fn try_request_url(&self) -> (res: Option<String>)
        ensures
            opt_view(res) == self.request_header@.path,
    {
        match self.request_header.path() {
            Some(url) => Some(url.clone()),
            None => None,
        }
    }

    /// The request target, or a URL made of the host where there is none.
    pub fn request_url(&self) -> (res: String)
        ensures
            res@ == spec_request_url(self.https, self.host@, self.request_header@.path),
    {
        match self.request_header.path() {
            Some(url) => url.clone(),
            None => {
                let scheme: &str = if self.https {
                    "https://"
                } else {
                    "http://"
                };
                String::from_str(scheme).concat(self.host.as_str())
            },
        }
    }

    pub fn method(&self) -> (res: &str)
        ensures
            res@ == self.method@,
    {
        self.method.as_str()
    }

    /// The length that the request declares for its body.
    pub fn content_length(&self) -> (res: usize)
        ensures
            res == spec_content_length(self.request_header@.headers),
    {
        let headers = self.request_header.headers();
        let at: usize = find_header(headers, "content-length");
        if at >= headers.len() {
            return 0;
        }
        match parse_decimal(headers[at].value.as_slice(), usize::MAX as u64) {
            Some(n) => n as usize,
            None => 0,
        }
    }

    /// A copy of the request body.
    pub fn body(&self) -> (res: Vec<u8>)
        ensures
            res@ == spec_body(self.request_bytes@, self.request_header@.headers),
    {
        let content_length: usize = self.content_length();
        let total: usize = self.request_bytes.len();
        if content_length == 0 || content_length >= total {
            return Vec::new();
        }
        let body = copy_range(self.request_bytes.as_slice(), total - content_length, total);
        assert(body@ =~= self.request_bytes@.skip(total - content_length));
        body
    }

    /// The headers that go out with the forwarded request. `Host` is left
    /// out here and set by the forward engine.
    pub fn headers(&self) -> (res: HeaderMap)
        ensures
            header_map_entries(res) == spec_forward_headers(self.request_header@.headers),
            header_map_entries(res).dom().finite(),
            header_map_entries(res).dom().len() <= MAX_REQUEST_HEADERS,
    {
        let headers = self.request_header.headers();
        let ghost views = headers_view(headers@);
        let mut map: HeaderMap = header_map_new();
        assert(views.subrange(0, 0) =~= Seq::<HeaderView>::empty());
        let mut i: usize = 0;
        while i < headers.len()
            invariant
                i <= headers@.len() <= MAX_REQUEST_HEADERS,
                views == headers_view(headers@),
                header_map_entries(map) == spec_forward_headers(views.subrange(0, i as int)),
                header_map_entries(map).dom().finite(),
                header_map_entries(map).dom().len() <= i,
            decreases headers@.len() - i,
        {
            let ghost before = views.subrange(0, i as int);
            let ghost after = views.subrange(0, i + 1);
            proof {
                assert(after.drop_last() =~= before);
                assert(after.last() == headers@[i as int]@);
                lemma_insert_header_size(header_map_entries(map), after.last().name, after.last().value);
            }
            let header = &headers[i];
            if !header_excluded(header.name.as_str()) {
                header_map_insert(&mut map, header.name.as_str(), header.value.as_slice());
            }
            i += 1;
        }
        assert(views.subrange(0, i as int) =~= views);
        map
    }
}

} // verus!
