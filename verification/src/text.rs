//! Byte and string helpers shared by the parser, the registry and the
//! response builders.
//!
//! Text that arrives on the wire is handled as bytes. A `&str` is compared and
//! searched through its UTF-8 encoding, which `spec_bytes` names.

use vstd::prelude::*;
use vstd::string::*;
use vstd::utf8::*;

verus! {

/// Compares two byte slices position by position.
pub fn bytes_eq(a: &[u8], b: &[u8]) -> (res: bool)
    ensures
        res == (a@ == b@),
{
    if a.len() != b.len() {
        return false;
    }
    let mut i: usize = 0;
    while i < a.len()
        invariant
            a@.len() == b@.len(),
            i <= a@.len(),
            forall|k: int| 0 <= k < i ==> a@[k] == b@[k],
        decreases a@.len() - i,
    {
        if a[i] != b[i] {
            return false;
        }
        i += 1;
    }
    assert(a@ =~= b@);
    true
}

/// Exact string comparison, decided on the UTF-8 encodings.
pub fn str_eq(a: &str, b: &str) -> (res: bool)
    ensures
        res == (a@ == b@),
{
    let res = bytes_eq(a.as_bytes(), b.as_bytes());
    proof {
        encode_utf8_decode_utf8(a@);
        encode_utf8_decode_utf8(b@);
    }
    res
}

/// The ASCII lower-case form of a byte; bytes outside `A..=Z` stay as they are.
pub open spec fn spec_ascii_lower(b: u8) -> u8 {
    if 65 <= b <= 90 {
        (b + 32) as u8
    } else {
        b
    }
}

/// Two byte strings that differ at most in the case of their ASCII letters.
pub open spec fn spec_eq_ignore_ascii_case(a: Seq<u8>, b: Seq<u8>) -> bool {
    &&& a.len() == b.len()
    &&& forall|i: int| 0 <= i < a.len() ==> spec_ascii_lower(#[trigger] a[i]) == spec_ascii_lower(b[i])
}

pub fn ascii_lower(b: u8) -> (res: u8)
    ensures
        res == spec_ascii_lower(b),
{
    if 65 <= b && b <= 90 {
        b + 32
    } else {
        b
    }
}

/// Case-insensitive comparison of two byte strings, folding ASCII letters only.
pub fn bytes_eq_ignore_ascii_case(a: &[u8], b: &[u8]) -> (res: bool)
    ensures
        res == spec_eq_ignore_ascii_case(a@, b@),
{
    if a.len() != b.len() {
        return false;
    }
    let mut i: usize = 0;
    while i < a.len()
        invariant
            a@.len() == b@.len(),
            i <= a@.len(),
            forall|k: int| 0 <= k < i ==> spec_ascii_lower(#[trigger] a@[k]) == spec_ascii_lower(b@[k]),
        decreases a@.len() - i,
    {
        if ascii_lower(a[i]) != ascii_lower(b[i]) {
            return false;
        }
        i += 1;
    }
    true
}

/// Case-insensitive comparison of two strings, folding ASCII letters only.
pub fn str_eq_ignore_ascii_case(a: &str, b: &str) -> (res: bool)
    ensures
        res == spec_eq_ignore_ascii_case(a.spec_bytes(), b.spec_bytes()),
{
    bytes_eq_ignore_ascii_case(a.as_bytes(), b.as_bytes())
}

/// Whether a byte occurs anywhere in a byte string.
pub fn contains_byte(s: &[u8], b: u8) -> (res: bool)
    ensures
        res == s@.contains(b),
{
    let mut i: usize = 0;
    while i < s.len()
        invariant
            i <= s@.len(),
            forall|k: int| 0 <= k < i ==> s@[k] != b,
        decreases s@.len() - i,
    {
        if s[i] == b {
            return true;
        }
        i += 1;
    }
    false
}

/// Appends a byte string to a buffer.
pub fn append_bytes(buf: &mut Vec<u8>, s: &[u8])
    ensures
        final(buf)@ == old(buf)@ + s@,
{
    let mut i: usize = 0;
    while i < s.len()
        invariant
            i <= s@.len(),
            buf@ == old(buf)@ + s@.subrange(0, i as int),
        decreases s@.len() - i,
    {
        buf.push(s[i]);
        i += 1;
        assert(buf@ =~= old(buf)@ + s@.subrange(0, i as int));
    }
    assert(s@.subrange(0, s@.len() as int) =~= s@);
}

/// Copies the part `from..to` of a byte string into a new vector.
pub fn copy_range(s: &[u8], from: usize, to: usize) -> (res: Vec<u8>)
    requires
        from <= to <= s@.len(),
    ensures
        res@ == s@.subrange(from as int, to as int),
{
    let mut out: Vec<u8> = Vec::new();
    let mut i: usize = from;
    while i < to
        invariant
            from <= i <= to <= s@.len(),
            out@ == s@.subrange(from as int, i as int),
        decreases to - i,
    {
        out.push(s[i]);
        i += 1;
        assert(out@ =~= s@.subrange(from as int, i as int));
    }
    out
}

/// An ASCII decimal digit.
pub open spec fn spec_is_digit(b: u8) -> bool {
    48 <= b <= 57
}

pub open spec fn spec_all_digits(s: Seq<u8>) -> bool {
    forall|i: int| 0 <= i < s.len() ==> spec_is_digit(#[trigger] s[i])
}

/// The number that a string of decimal digits denotes, leading zeros allowed.
pub open spec fn spec_digits_value(s: Seq<u8>) -> nat
    decreases s.len(),
{
    if s.len() == 0 {
        0
    } else {
        spec_digits_value(s.drop_last()) * 10 + (s.last() - 48) as nat
    }
}

/// The digits of an unsigned decimal literal: one leading `+` is dropped.
pub open spec fn spec_strip_plus(s: Seq<u8>) -> Seq<u8> {
    if s.len() > 0 && s[0] == 43 {
        s.skip(1)
    } else {
        s
    }
}

/// Reads an unsigned decimal number no larger than `max`: an optional `+`,
/// then at least one digit and nothing else.
pub open spec fn spec_parse_decimal(s: Seq<u8>, max: nat) -> Option<nat> {
    let digits = spec_strip_plus(s);
    if digits.len() == 0 || !spec_all_digits(digits) || spec_digits_value(digits) > max {
        None
    } else {
        Some(spec_digits_value(digits))
    }
}

/// A longer digit string never denotes a smaller number than its prefix.
pub proof fn lemma_digits_value_prefix(s: Seq<u8>, k: int)
    requires
        0 <= k <= s.len(),
        spec_all_digits(s),
    ensures
        spec_digits_value(s.subrange(0, k)) <= spec_digits_value(s),
    decreases s.len() - k,
{
    if k == s.len() {
        assert(s.subrange(0, k) =~= s);
    } else {
        lemma_digits_value_prefix(s, k + 1);
        let longer = s.subrange(0, k + 1);
        assert(longer.drop_last() =~= s.subrange(0, k));
        assert(spec_is_digit(s[k]));
        assert(longer.last() == s[k]);
    }
}

/// Reads an unsigned decimal number no larger than `max` from a byte string.
pub fn parse_decimal(s: &[u8], max: u64) -> (res: Option<u64>)
    ensures
        res is Some <==> spec_parse_decimal(s@, max as nat) is Some,
        res matches Some(v) ==> spec_parse_decimal(s@, max as nat) == Some(v as nat),
{
    let start: usize = if s.len() > 0 && s[0] == 43 { 1 } else { 0 };
    let ghost digits = spec_strip_plus(s@);
    assert(digits =~= s@.subrange(start as int, s@.len() as int));
    if start == s.len() {
        return None;
    }
    let mut acc: u64 = 0;
    let mut i: usize = start;
    while i < s.len()
        invariant
            start <= i <= s@.len(),
            digits == spec_strip_plus(s@),
            digits == s@.subrange(start as int, s@.len() as int),
            digits.len() > 0,
            spec_all_digits(digits.subrange(0, i - start)),
            acc as nat == spec_digits_value(digits.subrange(0, i - start)),
            acc <= max,
        decreases s@.len() - i,
    {
        let b: u8 = s[i];
        let ghost before = digits.subrange(0, i - start);
        let ghost after = digits.subrange(0, i - start + 1);
        assert(after.drop_last() =~= before);
        assert(after.last() == b);
        assert(digits[i - start] == b);
        if b < 48 || b > 57 {
            assert(!spec_is_digit(digits[i - start]));
            return None;
        }
        let next: u128 = acc as u128 * 10 + (b - 48) as u128;
        if next > max as u128 {
            proof {
                assert(spec_digits_value(after) > max);
                if spec_all_digits(digits) {
                    lemma_digits_value_prefix(digits, i - start + 1);
                }
            }
            return None;
        }
        acc = next as u64;
        i += 1;
        assert forall|k: int| 0 <= k < after.len() implies spec_is_digit(#[trigger] after[k]) by {
            if k < before.len() {
                assert(before[k] == after[k]);
            }
        }
    }
    assert(digits.subrange(0, i - start) =~= digits);
    Some(acc)
}

/// The decimal digits of a number, without leading zeros.
pub open spec fn spec_decimal(n: nat) -> Seq<u8>
    decreases n,
{
    if n < 10 {
        seq![(48 + n) as u8]
    } else {
        spec_decimal(n / 10).push((48 + n % 10) as u8)
    }
}

/// Writes a number in decimal digits.
pub fn decimal_bytes(n: u64) -> (res: Vec<u8>)
    ensures
        res@ == spec_decimal(n as nat),
    decreases n,
{
    if n < 10 {
        let mut out: Vec<u8> = Vec::new();
        out.push(48 + n as u8);
        assert(out@ =~= seq![(48 + n) as u8]);
        out
    } else {
        let mut out: Vec<u8> = decimal_bytes(n / 10);
        out.push(48 + (n % 10) as u8);
        out
    }
}

/// What is written in decimal consists of digits and reads back as the same
/// number.
pub proof fn lemma_decimal_round_trip(n: nat)
    ensures
        spec_decimal(n).len() > 0,
        spec_all_digits(spec_decimal(n)),
        spec_digits_value(spec_decimal(n)) == n,
    decreases n,
{
    if n < 10 {
        let s = spec_decimal(n);
        assert(s.drop_last().len() == 0);
        assert(spec_digits_value(s.drop_last()) == 0);
    } else {
        lemma_decimal_round_trip(n / 10);
        let s = spec_decimal(n);
        assert(s.drop_last() =~= spec_decimal(n / 10));
    }
}

/// A number written by `decimal_bytes` is read back by `parse_decimal`
/// whenever it is within the limit.
pub proof fn lemma_parse_decimal_of_decimal(n: nat, max: nat)
    requires
        n <= max,
    ensures
        spec_parse_decimal(spec_decimal(n), max) == Some(n),
{
    lemma_decimal_round_trip(n);
    let s = spec_decimal(n);
    assert(spec_is_digit(s[0]));
}

/// The bytes that `split_ascii_whitespace` treats as separators.
pub open spec fn spec_is_whitespace(b: u8) -> bool {
    b == 32 || b == 9 || b == 10 || b == 12 || b == 13
}

/// The first position at or after `i` that holds no whitespace, or the length.
pub open spec fn spec_skip_whitespace(s: Seq<u8>, i: int) -> int
    decreases s.len() - i,
{
    if i < 0 || i >= s.len() {
        s.len() as int
    } else if !spec_is_whitespace(s[i]) {
        i
    } else {
        spec_skip_whitespace(s, i + 1)
    }
}

/// The first position at or after `i` that holds whitespace, or the length.
pub open spec fn spec_token_end(s: Seq<u8>, i: int) -> int
    decreases s.len() - i,
{
    if i < 0 || i >= s.len() {
        s.len() as int
    } else if spec_is_whitespace(s[i]) {
        i
    } else {
        spec_token_end(s, i + 1)
    }
}

pub fn is_whitespace(b: u8) -> (res: bool)
    ensures
        res == spec_is_whitespace(b),
{
    b == 32 || b == 9 || b == 10 || b == 12 || b == 13
}

pub fn skip_whitespace(s: &[u8], from: usize) -> (res: usize)
    requires
        from <= s@.len(),
    ensures
        res == spec_skip_whitespace(s@, from as int),
        from <= res <= s@.len(),
{
    let mut i: usize = from;
    while i < s.len() && is_whitespace(s[i])
        invariant
            from <= i <= s@.len(),
            spec_skip_whitespace(s@, i as int) == spec_skip_whitespace(s@, from as int),
        decreases s@.len() - i,
    {
        i += 1;
    }
    i
}

pub fn token_end(s: &[u8], from: usize) -> (res: usize)
    requires
        from <= s@.len(),
    ensures
        res == spec_token_end(s@, from as int),
        from <= res <= s@.len(),
{
    let mut i: usize = from;
    while i < s.len() && !is_whitespace(s[i])
        invariant
            from <= i <= s@.len(),
            spec_token_end(s@, i as int) == spec_token_end(s@, from as int),
        decreases s@.len() - i,
    {
        i += 1;
    }
    i
}

/// Calls `std::str::from_utf8` and copies the text. The contract claims what
/// the documentation of that function says: it succeeds exactly on well-formed
/// UTF-8 and yields the characters that the bytes encode.
#[verifier::external_body]
pub(crate) fn utf8_text(bytes: &[u8]) -> (res: Option<String>)
    ensures
        res is Some <==> valid_utf8(bytes@),
        res matches Some(text) ==> text@ == decode_utf8(bytes@),
{
    match std::str::from_utf8(bytes) {
        Ok(text) => Some(text.to_owned()),
        Err(_) => None,
    }
}

/// The upper-case form that `str::to_uppercase` gives a text.
pub uninterp spec fn str_uppercase(text: Seq<char>) -> Seq<char>;

/// Calls `str::to_uppercase`. The contract claims only that the outcome is a
/// function of the text, named [`str_uppercase`].
#[verifier::external_body]
pub(crate) fn to_uppercase(text: &str) -> (res: String)
    ensures
        res@ == str_uppercase(text@),
{
    text.to_uppercase()
}

/// A byte string of ASCII bytes only.
pub open spec fn spec_is_ascii_bytes(bytes: Seq<u8>) -> bool {
    forall|i: int| 0 <= i < bytes.len() ==> (#[trigger] bytes[i]) < 128
}

/// ASCII bytes are well-formed UTF-8: they encode one character each.
pub proof fn lemma_ascii_is_utf8(bytes: Seq<u8>)
    requires
        spec_is_ascii_bytes(bytes),
    ensures
        valid_utf8(bytes),
        encode_utf8(decode_utf8(bytes)) == bytes,
        decode_utf8(bytes).len() == bytes.len(),
{
    let chars = Seq::new(bytes.len(), |i: int| bytes[i] as char);
    assert(is_ascii_chars(chars));
    is_ascii_chars_encode_utf8(chars);
    assert(encode_utf8(chars) =~= bytes);
    encode_utf8_valid_utf8(chars);
    encode_utf8_decode_utf8(chars);
}

/// Decimal digits are ASCII.
pub proof fn lemma_decimal_is_ascii(n: nat)
    ensures
        spec_is_ascii_bytes(spec_decimal(n)),
{
    lemma_decimal_round_trip(n);
    let digits = spec_decimal(n);
    assert forall|i: int| 0 <= i < digits.len() implies (#[trigger] digits[i]) < 128 by {
        assert(spec_is_digit(digits[i]));
    }
}

/// The text that ASCII bytes spell.
pub fn ascii_text(bytes: &[u8]) -> (res: String)
    requires
        spec_is_ascii_bytes(bytes@),
    ensures
        res@ == decode_utf8(bytes@),
        encode_utf8(res@) == bytes@,
{
    proof {
        lemma_ascii_is_utf8(bytes@);
    }
    match utf8_text(bytes) {
        Some(text) => text,
        None => unreached(),
    }
}

} // verus!
