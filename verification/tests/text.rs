use lopxy::text::{
    ascii_lower, bytes_eq, bytes_eq_ignore_ascii_case, contains_byte, copy_range, decimal_bytes, is_whitespace,
    parse_decimal, skip_whitespace, str_eq, str_eq_ignore_ascii_case, token_end, append_bytes,
};
use lopxy::uri::{get_host_from_url, get_uri_path, get_uri_scheme, verify_url};

#[test]
fn exact_comparison() {
    assert!(bytes_eq(b"", b""));
    assert!(bytes_eq(b"abc", b"abc"));
    assert!(!bytes_eq(b"abc", b"abd"));
    assert!(!bytes_eq(b"abc", b"ab"));
    assert!(str_eq("CONNECT", "CONNECT"));
    assert!(!str_eq("CONNECT", "connect"));
    assert!(str_eq("\u{4e2d}", "\u{4e2d}"));
    assert!(!str_eq("\u{4e2d}", "\u{4e2e}"));
}

#[test]
fn comparison_without_ascii_case() {
    assert!(bytes_eq_ignore_ascii_case(b"Host", b"hOST"));
    assert!(bytes_eq_ignore_ascii_case(b"content-length", b"Content-Length"));
    assert!(!bytes_eq_ignore_ascii_case(b"host", b"hosts"));
    assert!(!bytes_eq_ignore_ascii_case(b"@", b"`"));
    assert!(!bytes_eq_ignore_ascii_case(b"[", b"{"));
    assert!(str_eq_ignore_ascii_case("FILE", "file"));
    assert!(!str_eq_ignore_ascii_case("\u{c9}", "\u{e9}"));
    assert_eq!(ascii_lower(b'A'), b'a');
    assert_eq!(ascii_lower(b'Z'), b'z');
    assert_eq!(ascii_lower(b'a'), b'a');
    assert_eq!(ascii_lower(b'@'), b'@');
    assert_eq!(ascii_lower(0xc9), 0xc9);
}

#[test]
fn byte_helpers() {
    assert!(contains_byte(b"a:b", b':'));
    assert!(!contains_byte(b"ab", b':'));
    assert!(!contains_byte(b"", b':'));
    let mut buf = b"ab".to_vec();
    append_bytes(&mut buf, b"cd");
    append_bytes(&mut buf, b"");
    assert_eq!(buf, b"abcd".to_vec());
    assert_eq!(copy_range(b"abcdef", 2, 4), b"cd".to_vec());
    assert_eq!(copy_range(b"abcdef", 3, 3), Vec::<u8>::new());
}

#[test]
fn decimal_parsing() {
    assert_eq!(parse_decimal(b"0", 10), Some(0));
    assert_eq!(parse_decimal(b"10", 10), Some(10));
    assert_eq!(parse_decimal(b"11", 10), None);
    assert_eq!(parse_decimal(b"+7", 10), Some(7));
    assert_eq!(parse_decimal(b"0007", 10), Some(7));
    assert_eq!(parse_decimal(b"", 10), None);
    assert_eq!(parse_decimal(b"+", 10), None);
    assert_eq!(parse_decimal(b"-1", 10), None);
    assert_eq!(parse_decimal(b"++1", 10), None);
    assert_eq!(parse_decimal(b" 1", 10), None);
    assert_eq!(parse_decimal(b"1 ", 10), None);
    assert_eq!(parse_decimal(b"1a", 10), None);
    assert_eq!(parse_decimal(b"18446744073709551615", u64::MAX), Some(u64::MAX));
    assert_eq!(parse_decimal(b"18446744073709551616", u64::MAX), None);
    assert_eq!(parse_decimal(b"99999999999999999999999999", u64::MAX), None);
    assert_eq!(parse_decimal(b"4294967295", 4294967295), Some(4294967295));
    assert_eq!(parse_decimal(b"4294967296", 4294967295), None);
}

#[test]
fn decimal_writing() {
    assert_eq!(decimal_bytes(0), b"0".to_vec());
    assert_eq!(decimal_bytes(9), b"9".to_vec());
    assert_eq!(decimal_bytes(10), b"10".to_vec());
    assert_eq!(decimal_bytes(1234), b"1234".to_vec());
    assert_eq!(decimal_bytes(u64::MAX), b"18446744073709551615".to_vec());
    assert_eq!(parse_decimal(&decimal_bytes(987654321), u64::MAX), Some(987654321));
}

#[test]
fn whitespace_words() {
    assert!(is_whitespace(b' '));
    assert!(is_whitespace(b'\t'));
    assert!(is_whitespace(b'\n'));
    assert!(is_whitespace(0x0c));
    assert!(is_whitespace(b'\r'));
    assert!(!is_whitespace(0x0b));
    assert!(!is_whitespace(b'a'));
    assert_eq!(skip_whitespace(b"  ab c", 0), 2);
    assert_eq!(skip_whitespace(b"  ab c", 2), 2);
    assert_eq!(skip_whitespace(b"   ", 1), 3);
    assert_eq!(token_end(b"  ab c", 2), 4);
    assert_eq!(token_end(b"abc", 0), 3);
    assert_eq!(token_end(b"abc", 3), 3);
}

#[test]
fn url_parts() {
    assert_eq!(get_uri_scheme("http://a.com/x"), Some("http".to_string()));
    assert_eq!(get_uri_scheme("FILE:///tmp/f.js"), Some("file".to_string()));
    assert_eq!(get_uri_scheme("no url"), None);
    assert_eq!(get_uri_path("http://a.com/x/y?q=1"), Some("/x/y".to_string()));
    assert_eq!(get_uri_path("file:///tmp/f.js"), Some("/tmp/f.js".to_string()));
    assert_eq!(get_uri_path("/tmp/f.js"), None);
    assert_eq!(get_host_from_url("http://a.com:8080/x"), Some("a.com".to_string()));
    assert_eq!(get_host_from_url("http://127.0.0.1/x"), Some("127.0.0.1".to_string()));
    assert_eq!(get_host_from_url("http://[::1]:80/x"), Some("[::1]".to_string()));
    assert_eq!(get_host_from_url("file:///tmp/f.js"), None);
    assert_eq!(get_host_from_url("a.com"), None);
    assert!(verify_url("http://a.com/"));
    assert!(verify_url("file:///tmp/f.js"));
    assert!(!verify_url("a.com/f.js"));
    assert!(!verify_url(""));
}
