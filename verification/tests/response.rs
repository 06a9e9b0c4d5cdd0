use lopxy::header::Header;
use lopxy::response::{
    build_404_response, build_502_response, build_local_file_response, build_raw_response_bytes,
    get_exception_request_status_desc, http_version_desc, local_file_path, try_response_status, HttpVersion,
    RawResponse, UpstreamResponse,
};

#[test]
fn not_found_response_bytes() {
    let expected: &[u8] = b"HTTP/1.1 404 Not Found\r\ncontent-type: text/html; charset=utf-8\r\n\r\n<html><head><title>404 Not Found</title></head><body><center><h1>404 Not Found</h1></center></body></html>";
    assert_eq!(build_404_response(), expected.to_vec());
}

#[test]
fn bad_gateway_response_bytes() {
    let expected: &[u8] = b"HTTP/1.1 502 Bad Gateway\r\ncontent-type: text/html; charset=utf-8\r\n\r\n<html><head><title>502 Bad Gateway</title></head><body><center><h1>502 Bad Gateway</h1></center></body></html>";
    assert_eq!(build_502_response(), expected.to_vec());
}

#[test]
fn fixed_responses_read_back_their_status() {
    assert_eq!(try_response_status(&build_404_response()), Some(404));
    assert_eq!(try_response_status(&build_502_response()), Some(502));
}

#[test]
fn local_file_response_for_an_existing_file() {
    let file: &[u8] = b"hello";
    let response = build_local_file_response(Some(file), "application/javascript");
    let expected: &[u8] =
        b"HTTP/1.1 202 OK\r\ncontent-length: 5\r\ncontent-type: application/javascript\r\n\r\nhello";
    assert_eq!(response, expected.to_vec());
    assert_eq!(try_response_status(&response), Some(202));
}

#[test]
fn local_file_response_for_a_large_and_an_empty_file() {
    let file = vec![7u8; 1234];
    let response = build_local_file_response(Some(&file), "image/png");
    let head: &[u8] = b"HTTP/1.1 202 OK\r\ncontent-length: 1234\r\ncontent-type: image/png\r\n\r\n";
    assert_eq!(&response[..head.len()], head);
    assert_eq!(&response[head.len()..], &file[..]);
    let empty: &[u8] = b"";
    let response = build_local_file_response(Some(empty), "");
    let expected: &[u8] = b"HTTP/1.1 202 OK\r\ncontent-length: 0\r\ncontent-type: \r\n\r\n";
    assert_eq!(response, expected.to_vec());
}

#[test]
fn local_file_response_for_a_missing_file_is_404() {
    assert_eq!(build_local_file_response(None, "text/plain"), build_404_response());
}

#[test]
fn local_file_path_takes_the_decoded_path() {
    assert_eq!(local_file_path("file:///tmp/f.js", false), Some("/tmp/f.js".to_string()));
    assert_eq!(local_file_path("file:///tmp/a%20b.js", false), Some("/tmp/a b.js".to_string()));
    assert_eq!(local_file_path("file:///tmp/%E4%B8%AD.js", false), Some("/tmp/\u{4e2d}.js".to_string()));
}

#[test]
fn local_file_path_with_backslashes() {
    assert_eq!(local_file_path("file:///C:/site/f.js", true), Some("C:\\site\\f.js".to_string()));
    assert_eq!(local_file_path("file:///C:/my%20site/f.js", true), Some("C:\\my site\\f.js".to_string()));
}

#[test]
fn local_file_path_rejects_what_it_cannot_read() {
    assert_eq!(local_file_path("", false), None);
    assert_eq!(local_file_path("not a url", false), None);
    assert_eq!(local_file_path("file:///tmp/%FF.js", false), None);
    assert_eq!(local_file_path("mailto:", true), None);
}

#[test]
fn response_status_is_the_second_word() {
    assert_eq!(try_response_status(b"HTTP/1.1 200 OK\r\n\r\n"), Some(200));
    assert_eq!(try_response_status(b"HTTP/1.0 404 Not Found\r\n"), Some(404));
    assert_eq!(try_response_status(b"  HTTP/1.1\t301\r\nLocation: x"), Some(301));
    assert_eq!(try_response_status(b"HTTP/1.1 +200 OK"), Some(200));
    assert_eq!(try_response_status(b"HTTP/1.1 007"), Some(7));
    assert_eq!(try_response_status(b"HTTP/1.1 65535 x"), Some(65535));
}

#[test]
fn response_status_that_is_none() {
    assert_eq!(try_response_status(b""), None);
    assert_eq!(try_response_status(b"   \r\n"), None);
    assert_eq!(try_response_status(b"HTTP/1.1"), None);
    assert_eq!(try_response_status(b"HTTP/1.1   "), None);
    assert_eq!(try_response_status(b"HTTP/1.1 abc"), None);
    assert_eq!(try_response_status(b"HTTP/1.1 65536 x"), None);
    assert_eq!(try_response_status(b"HTTP/1.1 -200"), None);
    assert_eq!(try_response_status(b"HTTP/1.1 + 200"), None);
    assert_eq!(try_response_status(b"HTTP/1.1 20\xff OK"), None);
    assert_eq!(try_response_status(b"HTTP/1.1 2\xc3\xa90 OK"), None);
}

#[test]
fn response_status_reads_twenty_bytes_only() {
    assert_eq!(try_response_status(b"HTTP/1.1           20012345"), Some(2));
    assert_eq!(try_response_status(b"HTTP/1.1            200"), None);
    assert_eq!(try_response_status(b"HTTP/1.1         200 OK"), Some(200));
}

#[test]
fn exception_status_description() {
    assert_eq!(get_exception_request_status_desc(200), None);
    assert_eq!(get_exception_request_status_desc(204), None);
    assert_eq!(get_exception_request_status_desc(299), None);
    assert_eq!(get_exception_request_status_desc(404), Some("404 Not Found".to_string()));
    assert_eq!(get_exception_request_status_desc(502), Some("502 Bad Gateway".to_string()));
    assert_eq!(get_exception_request_status_desc(300), Some("300 Multiple Choices".to_string()));
    assert_eq!(get_exception_request_status_desc(199), Some("199 <unknown status code>".to_string()));
    assert_eq!(get_exception_request_status_desc(100), Some("100 Continue".to_string()));
    assert_eq!(get_exception_request_status_desc(999), Some("999 <unknown status code>".to_string()));
    assert_eq!(get_exception_request_status_desc(99), Some("Unknown Status".to_string()));
    assert_eq!(get_exception_request_status_desc(1000), Some("Unknown Status".to_string()));
    assert_eq!(get_exception_request_status_desc(0), Some("Unknown Status".to_string()));
}

#[test]
fn version_labels() {
    assert_eq!(http_version_desc(HttpVersion::Http09), "HTTP/0.9");
    assert_eq!(http_version_desc(HttpVersion::Http10), "HTTP/1.0");
    assert_eq!(http_version_desc(HttpVersion::Http11), "HTTP/1.1");
    assert_eq!(http_version_desc(HttpVersion::Http2), "HTTP/2.0");
    assert_eq!(http_version_desc(HttpVersion::Http3), "HTTP/3.0");
    assert_eq!(http_version_desc(HttpVersion::Other), "HTTP/1.1");
}

#[test]
fn serialize_writes_headers_in_order() {
    let response = RawResponse {
        status_line: b"HTTP/1.1 200 OK".to_vec(),
        headers: vec![Header::new("b", b"2"), Header::new("a", b"1"), Header::new("b", b"3")],
        body: b"xyz".to_vec(),
    };
    let expected: &[u8] = b"HTTP/1.1 200 OK\r\nb: 2\r\na: 1\r\nb: 3\r\n\r\nxyz";
    assert_eq!(response.serialize(), expected.to_vec());
    let bare = RawResponse { status_line: Vec::new(), headers: Vec::new(), body: Vec::new() };
    assert_eq!(bare.serialize(), b"\r\n\r\n".to_vec());
}

#[test]
fn raw_response_of_an_upstream_response() {
    let headers = vec![Header::new("content-type", b"text/plain"), Header::new("x-n", b"\xfa1")];
    let resp = UpstreamResponse::new(HttpVersion::Http2, 404, headers, b"gone".to_vec()).unwrap();
    assert_eq!(resp.status(), 404);
    let expected: &[u8] = b"HTTP/2.0 404 Not Found\r\ncontent-type: text/plain\r\nx-n: \xfa1\r\n\r\ngone";
    assert_eq!(build_raw_response_bytes(&resp), expected.to_vec());
    let resp = UpstreamResponse::new(HttpVersion::Other, 200, Vec::new(), Vec::new()).unwrap();
    assert_eq!(build_raw_response_bytes(&resp), b"HTTP/1.1 200 OK\r\n\r\n".to_vec());
}

#[test]
fn upstream_response_needs_a_status_code() {
    assert!(UpstreamResponse::new(HttpVersion::Http11, 99, Vec::new(), Vec::new()).is_none());
    assert!(UpstreamResponse::new(HttpVersion::Http11, 1000, Vec::new(), Vec::new()).is_none());
    assert!(UpstreamResponse::new(HttpVersion::Http11, 100, Vec::new(), Vec::new()).is_some());
    assert!(UpstreamResponse::new(HttpVersion::Http11, 999, Vec::new(), Vec::new()).is_some());
}
