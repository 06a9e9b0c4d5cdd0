//! Responses as they are written to the client: a status line, the header
//! lines in order, a blank line and the body.

use vstd::prelude::*;
use vstd::string::*;
use vstd::utf8::*;

use crate::header::{Header, HeaderView, headers_view};
use crate::text::{
    append_bytes,
    decimal_bytes,
    lemma_parse_decimal_of_decimal,
    parse_decimal,
    skip_whitespace,
    spec_decimal,
    spec_digits_value,
    spec_is_digit,
    spec_is_whitespace,
    spec_parse_decimal,
    spec_skip_whitespace,
    spec_strip_plus,
    spec_token_end,
    token_end,
};
use crate::text::utf8_text;
use crate::uri::{get_uri_path, opt_view, percent_decode, percent_decoded, spec_uri_path};

verus! {

/// The protocol version that an upstream server answered with.
#[derive(Clone, Copy, PartialEq, Eq, Structural, Debug)]
pub enum HttpVersion {
    Http09,
    Http10,
    Http11,
    Http2,
    Http3,
    Other,
}

/// The label that stands for a version in a status line. An unknown version
/// is written as HTTP/1.1.
pub open spec fn spec_http_version_desc(version: HttpVersion) -> Seq<char> {
    match version {
        HttpVersion::Http09 => "HTTP/0.9"@,
        HttpVersion::Http10 => "HTTP/1.0"@,
        HttpVersion::Http11 => "HTTP/1.1"@,
        HttpVersion::Http2 => "HTTP/2.0"@,
        HttpVersion::Http3 => "HTTP/3.0"@,
        HttpVersion::Other => "HTTP/1.1"@,
    }
}

pub fn http_version_desc(version: HttpVersion) -> (res: &'static str)
    ensures
        res@ == spec_http_version_desc(version),
{
    match version {
        HttpVersion::Http09 => "HTTP/0.9",
        HttpVersion::Http10 => "HTTP/1.0",
        HttpVersion::Http11 => "HTTP/1.1",
        HttpVersion::Http2 => "HTTP/2.0",
        HttpVersion::Http3 => "HTTP/3.0",
        HttpVersion::Other => "HTTP/1.1",
    }
}

/// A status code that the `http` crate accepts.
pub open spec fn spec_status_is_valid(status: u16) -> bool {
    100 <= status < 1000
}

/// A status code of the 2xx class.
pub open spec fn spec_status_is_success(status: u16) -> bool {
    200 <= status < 300
}

/// How the `http` crate prints a status code: the number, a space, and the
/// reason phrase that it knows for the number.
pub uninterp spec fn status_display(status: u16) -> Seq<char>;

/// Calls `reqwest::StatusCode::from_u16` and prints the code with `{}`.
/// The contract claims that the code is accepted exactly from 100 to 999, and
/// that the text is a function of the number, named [`status_display`].
#[verifier::external_body]
pub(crate) fn status_text(status: u16) -> (res: Option<String>)
    ensures
        res is Some <==> spec_status_is_valid(status),
        res matches Some(text) ==> text@ == status_display(status),
{
    match reqwest::StatusCode::from_u16(status) {
        Ok(code) => Some(format!("{}", code)),
        Err(_) => None,
    }
}

/// What is logged for a response status: nothing for a 2xx status, the
/// printed status for any other valid one, and a fixed text for a number that
/// is no status code.
pub open spec fn spec_exception_request_status_desc(status: u16) -> Option<Seq<char>> {
    if !spec_status_is_valid(status) {
        Some("Unknown Status"@)
    } else if spec_status_is_success(status) {
        None
    } else {
        Some(status_display(status))
    }
}

pub fn get_exception_request_status_desc(status: u16) -> (res: Option<String>)
    ensures
        opt_view(res) == spec_exception_request_status_desc(status),
{
    match status_text(status) {
        Some(text) => {
            if 200 <= status && status < 300 {
                None
            } else {
                Some(text)
            }
        },
        None => Some("Unknown Status".to_owned()),
    }
}

/// The status code in the first bytes of a raw response: the second
/// whitespace-separated word within the first 20 bytes, read as a decimal
/// number that fits 16 bits.
pub open spec fn spec_try_response_status(raw: Seq<u8>) -> Option<u16> {
    let head = raw.subrange(0, if raw.len() < 20 { raw.len() as int } else { 20 });
    let first = spec_skip_whitespace(head, 0);
    let first_end = spec_token_end(head, first);
    let second = spec_skip_whitespace(head, first_end);
    let second_end = spec_token_end(head, second);
    if first >= head.len() || second >= head.len() {
        None
    } else {
        match spec_parse_decimal(head.subrange(second, second_end), 0xffff) {
            Some(code) => Some(code as u16),
            None => None,
        }
    }
}

pub fn try_response_status(raw_response_bytes: &[u8]) -> (res: Option<u16>)
    ensures
        res == spec_try_response_status(raw_response_bytes@),
{
    let parse_len: usize = if raw_response_bytes.len() < 20 { raw_response_bytes.len() } else { 20 };
    let head = vstd::slice::slice_subrange(raw_response_bytes, 0, parse_len);
    let first: usize = skip_whitespace(head, 0);
    if first >= head.len() {
        return None;
    }
    let first_end: usize = token_end(head, first);
    let second: usize = skip_whitespace(head, first_end);
    if second >= head.len() {
        return None;
    }
    let second_end: usize = token_end(head, second);
    let word = vstd::slice::slice_subrange(head, second, second_end);
    match parse_decimal(word, 0xffff) {
        Some(code) => Some(code as u16),
        None => None,
    }
}

/// Carriage return and line feed.
pub open spec fn spec_crlf() -> Seq<u8> {
    seq![13u8, 10u8]
}

/// One header line: name, colon, space, value, line end.
pub open spec fn spec_header_line(header: HeaderView) -> Seq<u8> {
    header.name + seq![58u8, 32u8] + header.value + spec_crlf()
}

/// The header lines in their order.
pub open spec fn spec_header_block(headers: Seq<HeaderView>) -> Seq<u8>
    decreases headers.len(),
{
    if headers.len() == 0 {
        Seq::<u8>::empty()
    } else {
        spec_header_block(headers.drop_last()) + spec_header_line(headers.last())
    }
}

/// The bytes of a response: status line, header lines, a blank line, body.
pub open spec fn spec_raw_response(status_line: Seq<u8>, headers: Seq<HeaderView>, body: Seq<u8>) -> Seq<u8> {
    status_line + spec_crlf() + spec_header_block(headers) + spec_crlf() + body
}

/// A response in parts, before it is written out.
pub struct RawResponse {
    pub status_line: Vec<u8>,
    pub headers: Vec<Header>,
    pub body: Vec<u8>,
}

impl RawResponse {
    /// Writes the response out. This is the one place where the wire format
    /// is assembled.
    pub fn serialize(&self) -> (res: Vec<u8>)
        ensures
            res@ == spec_raw_response(self.status_line@, headers_view(self.headers@), self.body@),
    {
        let crlf: [u8; 2] = [13, 10];
        let colon: [u8; 2] = [58, 32];
        assert(crlf@ =~= spec_crlf());
        assert(colon@ =~= seq![58u8, 32u8]);
        let mut out: Vec<u8> = Vec::new();
        append_bytes(&mut out, self.status_line.as_slice());
        append_bytes(&mut out, crlf.as_slice());
        let ghost start = out@;
        let ghost headers = headers_view(self.headers@);
        assert(headers.subrange(0, 0) =~= Seq::<HeaderView>::empty());
        let mut i: usize = 0;
        while i < self.headers.len()
            invariant
                i <= self.headers@.len(),
                crlf@ == spec_crlf(),
                colon@ == seq![58u8, 32u8],
                headers == headers_view(self.headers@),
                out@ == start + spec_header_block(headers.subrange(0, i as int)),
            decreases self.headers@.len() - i,
        {
            let ghost before = out@;
            let header = &self.headers[i];
            append_bytes(&mut out, header.name.as_str().as_bytes());
            append_bytes(&mut out, colon.as_slice());
            append_bytes(&mut out, header.value.as_slice());
            append_bytes(&mut out, crlf.as_slice());
            proof {
                let longer = headers.subrange(0, i + 1);
                assert(longer.drop_last() =~= headers.subrange(0, i as int));
                assert(longer.last() == header@);
                assert(out@ =~= before + spec_header_line(header@));
                assert(out@ =~= start + spec_header_block(longer));
            }
            i += 1;
        }
        assert(headers.subrange(0, i as int) =~= headers);
        let ghost block_end = out@;
        append_bytes(&mut out, crlf.as_slice());
        append_bytes(&mut out, self.body.as_slice());
        assert(out@ =~= spec_raw_response(self.status_line@, headers, self.body@));
        out
    }
}

/// A response with one `content-type: text/html; charset=utf-8` header.
pub open spec fn spec_html_response(status_line: Seq<char>, body: Seq<char>) -> Seq<u8> {
    spec_raw_response(
        encode_utf8(status_line),
        seq![
            HeaderView { name: encode_utf8("content-type"@), value: encode_utf8("text/html; charset=utf-8"@) },
        ],
        encode_utf8(body),
    )
}

fn build_html_response(status_line: &str, body: &str) -> (res: Vec<u8>)
    ensures
        res@ == spec_html_response(status_line@, body@),
{
    let mut headers: Vec<Header> = Vec::new();
    headers.push(Header::new("content-type", "text/html; charset=utf-8".as_bytes()));
    let response = RawResponse {
        status_line: status_line.as_bytes_vec(),
        headers,
        body: body.as_bytes_vec(),
    };
    assert(headers_view(response.headers@) =~= seq![
        HeaderView { name: encode_utf8("content-type"@), value: encode_utf8("text/html; charset=utf-8"@) },
    ]);
    response.serialize()
}

/// The reply for a target that cannot be served.
pub open spec fn spec_response_404() -> Seq<u8> {
    spec_html_response(
        "HTTP/1.1 404 Not Found"@,
        "<html><head><title>404 Not Found</title></head><body><center><h1>404 Not Found</h1></center></body></html>"@,
    )
}

/// The reply for an upstream that cannot be reached.
pub open spec fn spec_response_502() -> Seq<u8> {
    spec_html_response(
        "HTTP/1.1 502 Bad Gateway"@,
        "<html><head><title>502 Bad Gateway</title></head><body><center><h1>502 Bad Gateway</h1></center></body></html>"@,
    )
}

pub fn build_404_response() -> (res: Vec<u8>)
    ensures
        res@ == spec_response_404(),
{
    build_html_response(
        "HTTP/1.1 404 Not Found",
        "<html><head><title>404 Not Found</title></head><body><center><h1>404 Not Found</h1></center></body></html>",
    )
}

pub fn build_502_response() -> (res: Vec<u8>)
    ensures
        res@ == spec_response_502(),
{
    build_html_response(
        "HTTP/1.1 502 Bad Gateway",
        "<html><head><title>502 Bad Gateway</title></head><body><center><h1>502 Bad Gateway</h1></center></body></html>",
    )
}

/// A response as it came back from an upstream server.
pub struct UpstreamResponse {
    version: HttpVersion,
    status: u16,
    headers: Vec<Header>,
    body: Vec<u8>,
}

/// The mathematical value of an [`UpstreamResponse`].
pub ghost struct UpstreamResponseView {
    pub version: HttpVersion,
    pub status: u16,
    pub headers: Seq<HeaderView>,
    pub body: Seq<u8>,
}

impl View for UpstreamResponse {
    type V = UpstreamResponseView;

    closed spec fn view(&self) -> UpstreamResponseView {
        UpstreamResponseView {
            version: self.version,
            status: self.status,
            headers: headers_view(self.headers@),
            body: self.body@,
        }
    }
}

/// The status line of a reconstructed response, without its line end.
pub open spec fn spec_status_line(version: HttpVersion, status: u16) -> Seq<u8> {
    encode_utf8(spec_http_version_desc(version)) + seq![32u8] + encode_utf8(status_display(status))
}

/// The bytes that stand for an upstream response on the client's connection.
pub open spec fn spec_raw_response_bytes(resp: UpstreamResponseView) -> Seq<u8> {
    spec_raw_response(spec_status_line(resp.version, resp.status), resp.headers, resp.body)
}

impl UpstreamResponse {
    #[verifier::type_invariant]
    spec fn status_in_range(self) -> bool {
        spec_status_is_valid(self.status)
    }

    /// An upstream response; `None` where the number is no status code.
    pub fn new(version: HttpVersion, status: u16, headers: Vec<Header>, body: Vec<u8>) -> (res: Option<
        UpstreamResponse,
    >)
        ensures
            res is Some <==> spec_status_is_valid(status),
            res matches Some(resp) ==> resp@ == (UpstreamResponseView {
                version,
                status,
                headers: headers_view(headers@),
                body: body@,
            }),
    {
        if status < 100 || status >= 1000 {
            None
        } else {
            Some(UpstreamResponse { version, status, headers, body })
        }
    }

    pub fn status(&self) -> (res: u16)
        ensures
            res == self@.status,
            spec_status_is_valid(res),
    {
        proof {
            use_type_invariant(self);
        }
        self.status
    }
}

/// Writes an upstream response out for the client: the status line with the
/// version's label and the printed status, the headers in the order in which
/// they were received, a blank line and the body.
pub fn build_raw_response_bytes(resp: &UpstreamResponse) -> (res: Vec<u8>)
    ensures
        res@ == spec_raw_response_bytes(resp@),
{
    proof {
        use_type_invariant(resp);
    }
    let text: String = match status_text(resp.status) {
        Some(text) => text,
        None => unreached(),
    };
    let mut status_line: Vec<u8> = Vec::new();
    append_bytes(&mut status_line, http_version_desc(resp.version).as_bytes());
    status_line.push(32);
    append_bytes(&mut status_line, text.as_str().as_bytes());
    assert(status_line@ =~= spec_status_line(resp.version, resp.status));
    let mut headers: Vec<Header> = Vec::new();
    let mut i: usize = 0;
    while i < resp.headers.len()
        invariant
            i <= resp.headers@.len(),
            headers_view(headers@) == headers_view(resp.headers@).subrange(0, i as int),
        decreases resp.headers@.len() - i,
    {
        let ghost before = headers_view(headers@);
        let header = resp.headers[i].clone();
        headers.push(header);
        assert(headers_view(headers@) =~= before.push(header@));
        i += 1;
        assert(headers_view(headers@) =~= headers_view(resp.headers@).subrange(0, i as int));
    }
    assert(headers_view(headers@) =~= headers_view(resp.headers@));
    let mut body: Vec<u8> = Vec::new();
    append_bytes(&mut body, resp.body.as_slice());
    assert(body@ =~= resp.body@);
    let response = RawResponse { status_line, headers, body };
    response.serialize()
}

/// The separator swap of a path for a platform that writes `\`: the leading
/// separator of the URL path goes, and every `/` becomes `\`. `None` where
/// the path is empty or what is left is no text.
pub open spec fn spec_backslash_path(path: Seq<char>) -> Option<Seq<char>> {
    let bytes = encode_utf8(path);
    let swapped = bytes.skip(1).map_values(|b: u8| if b == 47 { 92u8 } else { b });
    if bytes.len() == 0 || !valid_utf8(swapped) {
        None
    } else {
        Some(decode_utf8(swapped))
    }
}

/// The file that a `file` target names: the path of the URL, percent-decoded,
/// and with `backslash` set, in the form of a platform that writes `\`.
/// `None` where the target is empty, is no URL, or does not decode.
pub open spec fn spec_local_file_path(local_file_uri: Seq<char>, backslash: bool) -> Option<Seq<char>> {
    if local_file_uri.len() == 0 {
        None
    } else {
        match spec_uri_path(local_file_uri) {
            None => None,
            Some(path) => match percent_decoded(path) {
                None => None,
                Some(decoded) => if backslash {
                    spec_backslash_path(decoded)
                } else {
                    Some(decoded)
                },
            },
        }
    }
}

fn backslash_path(path: &str) -> (res: Option<String>)
    ensures
        opt_view(res) == spec_backslash_path(path@),
{
    let bytes = path.as_bytes();
    if bytes.len() == 0 {
        return None;
    }
    let mut swapped: Vec<u8> = Vec::new();
    let mut i: usize = 1;
    while i < bytes.len()
        invariant
            1 <= i <= bytes@.len(),
            swapped@ == bytes@.skip(1).map_values(|b: u8| if b == 47 { 92u8 } else { b }).subrange(0, i - 1),
        decreases bytes@.len() - i,
    {
        let b: u8 = bytes[i];
        swapped.push(if b == 47 { 92 } else { b });
        i += 1;
        assert(swapped@ =~= bytes@.skip(1).map_values(|b: u8| if b == 47 { 92u8 } else { b }).subrange(
            0,
            i - 1,
        ));
    }
    assert(swapped@ =~= bytes@.skip(1).map_values(|b: u8| if b == 47 { 92u8 } else { b }));
    utf8_text(swapped.as_slice())
}

/// Finds the file that a `file` target names. Reading it is the caller's
/// part; what was read goes to [`build_local_file_response`].
pub fn local_file_path(local_file_uri: &str, backslash: bool) -> (res: Option<String>)
    ensures
        opt_view(res) == spec_local_file_path(local_file_uri@, backslash),
{
    if local_file_uri.is_empty() {
        return None;
    }
    let path: String = match get_uri_path(local_file_uri) {
        Some(path) => path,
        None => {
            return None;
        },
    };
    let decoded: String = match percent_decode(path.as_str()) {
        Some(decoded) => decoded,
        None => {
            return None;
        },
    };
    if backslash {
        backslash_path(decoded.as_str())
    } else {
        Some(decoded)
    }
}

/// The reply that serves a file: status 202, the length of the file, the
/// configured content type, and the file as the body.
pub open spec fn spec_file_response(file: Seq<u8>, content_type: Seq<char>) -> Seq<u8> {
    spec_raw_response(
        encode_utf8("HTTP/1.1 202 OK"@),
        seq![
            HeaderView { name: encode_utf8("content-length"@), value: spec_decimal(file.len()) },
            HeaderView { name: encode_utf8("content-type"@), value: encode_utf8(content_type) },
        ],
        file,
    )
}

/// The reply for a `file` target: the file where it was read, else 404.
pub open spec fn spec_local_file_response(file: Option<Seq<u8>>, content_type: Seq<char>) -> Seq<u8> {
    match file {
        Some(file) => spec_file_response(file, content_type),
        None => spec_response_404(),
    }
}

/// Builds the reply for a `file` target from what was read at the path that
/// [`local_file_path`] gave: `None` stands for a path that is missing or
/// cannot be read.
pub fn build_local_file_response(file_buf: Option<&[u8]>, content_type: &str) -> (res: Vec<u8>)
    ensures
        res@ == spec_local_file_response(
            match file_buf {
                Some(file) => Some(file@),
                None => None,
            },
            content_type@,
        ),
{
    let file: &[u8] = match file_buf {
        Some(file) => file,
        None => {
            return build_404_response();
        },
    };
    let mut headers: Vec<Header> = Vec::new();
    let length: Vec<u8> = decimal_bytes(file.len() as u64);
    headers.push(Header::new("content-length", length.as_slice()));
    headers.push(Header::new("content-type", content_type.as_bytes()));
    let mut body: Vec<u8> = Vec::new();
    append_bytes(&mut body, file);
    assert(body@ =~= file@);
    let response = RawResponse { status_line: "HTTP/1.1 202 OK".as_bytes_vec(), headers, body };
    assert(headers_view(response.headers@) =~= seq![
        HeaderView { name: encode_utf8("content-length"@), value: spec_decimal(file@.len()) },
        HeaderView { name: encode_utf8("content-type"@), value: encode_utf8(content_type@) },
    ]);
    response.serialize()
}

/// A raw response that starts with an eight-byte version label, a space,
/// three digits and whitespace has those three digits as its status.
pub proof fn lemma_status_of_status_line(raw: Seq<u8>)
    requires
        raw.len() >= 13,
        forall|k: int| 0 <= k < 8 ==> !spec_is_whitespace(#[trigger] raw[k]),
        raw[8] == 32,
        spec_is_digit(raw[9]) && spec_is_digit(raw[10]) && spec_is_digit(raw[11]),
        spec_is_whitespace(raw[12]),
    ensures
        spec_try_response_status(raw) == Some(
            ((raw[9] - 48) * 100 + (raw[10] - 48) * 10 + (raw[11] - 48)) as u16,
        ),
{
    let head = raw.subrange(0, if raw.len() < 20 { raw.len() as int } else { 20 });
    assert(forall|k: int| 0 <= k < 13 ==> head[k] == raw[k]);
    reveal_with_fuel(spec_token_end, 10);
    reveal_with_fuel(spec_skip_whitespace, 3);
    assert(!spec_is_whitespace(head[0]));
    assert(spec_skip_whitespace(head, 0) == 0);
    assert(!spec_is_whitespace(head[1]) && !spec_is_whitespace(head[2]) && !spec_is_whitespace(head[3]));
    assert(!spec_is_whitespace(head[4]) && !spec_is_whitespace(head[5]) && !spec_is_whitespace(head[6]));
    assert(!spec_is_whitespace(head[7]));
    assert(spec_token_end(head, 0) == 8);
    assert(spec_skip_whitespace(head, 8) == 9);
    assert(spec_token_end(head, 9) == 12);
    let word = head.subrange(9, 12);
    assert(word[0] == raw[9] && word[1] == raw[10] && word[2] == raw[11]);
    assert(spec_strip_plus(word) == word);
    reveal_with_fuel(spec_digits_value, 4);
    assert(word.drop_last().drop_last().drop_last().len() == 0);
    assert(word.drop_last().drop_last().last() == raw[9]);
    assert(word.drop_last().last() == raw[10]);
    assert(word.last() == raw[11]);
    assert(spec_digits_value(word) == (raw[9] - 48) * 100 + (raw[10] - 48) * 10 + (raw[11] - 48));
}

/// The bytes of an ASCII text are its characters.
proof fn lemma_ascii_bytes(text: Seq<char>)
    requires
        is_ascii_chars(text),
    ensures
        encode_utf8(text).len() == text.len(),
        forall|i: int| 0 <= i < text.len() ==> (#[trigger] encode_utf8(text)[i]) == text[i] as u8,
{
    is_ascii_chars_encode_utf8(text);
}

/// The reply that serves a file reads back as status 202, its
/// `content-length` value reads back as the length of the file, and the
/// reply ends with the bytes of the file.
pub proof fn lemma_file_response(file: Seq<u8>, content_type: Seq<char>)
    ensures
        spec_try_response_status(spec_file_response(file, content_type)) == Some(202u16),
        spec_parse_decimal(spec_decimal(file.len()), file.len()) == Some(file.len()),
        spec_file_response(file, content_type).len() >= file.len(),
        spec_file_response(file, content_type).skip(spec_file_response(file, content_type).len() - file.len())
            == file,
{
    let raw = spec_file_response(file, content_type);
    let line = "HTTP/1.1 202 OK"@;
    reveal_strlit("HTTP/1.1 202 OK");
    lemma_ascii_bytes(line);
    assert(forall|k: int| 0 <= k < 15 ==> raw[k] == encode_utf8(line)[k]);
    assert(raw[15] == 13);
    assert(raw[8] == 32 && raw[9] == 50 && raw[10] == 48 && raw[11] == 50 && raw[12] == 32);
    assert forall|k: int| 0 <= k < 8 implies !spec_is_whitespace(#[trigger] raw[k]) by {
        assert(raw[k] == line[k] as u8);
    }
    lemma_status_of_status_line(raw);
    lemma_parse_decimal_of_decimal(file.len(), file.len());
    assert(raw.skip(raw.len() - file.len()) =~= file);
}

/// The fixed replies read back as status 404 and 502.
pub proof fn lemma_error_response_status()
    ensures
        spec_try_response_status(spec_response_404()) == Some(404u16),
        spec_try_response_status(spec_response_502()) == Some(502u16),
{
    let not_found = spec_response_404();
    let line = "HTTP/1.1 404 Not Found"@;
    reveal_strlit("HTTP/1.1 404 Not Found");
    lemma_ascii_bytes(line);
    assert(forall|k: int| 0 <= k < 22 ==> not_found[k] == encode_utf8(line)[k]);
    assert(not_found[8] == 32 && not_found[9] == 52 && not_found[10] == 48 && not_found[11] == 52
        && not_found[12] == 32);
    assert forall|k: int| 0 <= k < 8 implies !spec_is_whitespace(#[trigger] not_found[k]) by {
        assert(not_found[k] == line[k] as u8);
    }
    lemma_status_of_status_line(not_found);

    let bad_gateway = spec_response_502();
    let line = "HTTP/1.1 502 Bad Gateway"@;
    reveal_strlit("HTTP/1.1 502 Bad Gateway");
    lemma_ascii_bytes(line);
    assert(forall|k: int| 0 <= k < 24 ==> bad_gateway[k] == encode_utf8(line)[k]);
    assert(bad_gateway[8] == 32 && bad_gateway[9] == 53 && bad_gateway[10] == 48 && bad_gateway[11] == 50
        && bad_gateway[12] == 32);
    assert forall|k: int| 0 <= k < 8 implies !spec_is_whitespace(#[trigger] bad_gateway[k]) by {
        assert(bad_gateway[k] == line[k] as u8);
    }
    lemma_status_of_status_line(bad_gateway);
}

} // verus!
