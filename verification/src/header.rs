//! A header line: a name and its value.

use reqwest::header::{HeaderMap, HeaderName, HeaderValue};
use vstd::prelude::*;
use vstd::string::*;
use vstd::utf8::*;

use crate::text::{append_bytes, copy_range};

verus! {

/// One header as it stands in a request or a response. The name is text, the
/// value is kept as the bytes that were on the wire.
pub struct Header {
    pub name: String,
    pub value: Vec<u8>,
}

/// The mathematical value of a [`Header`]: name and value as bytes.
pub ghost struct HeaderView {
    pub name: Seq<u8>,
    pub value: Seq<u8>,
}

impl View for Header {
    type V = HeaderView;

    open spec fn view(&self) -> HeaderView {
        HeaderView { name: encode_utf8(self.name@), value: self.value@ }
    }
}

/// The values of a list of headers.
pub open spec fn headers_view(headers: Seq<Header>) -> Seq<HeaderView> {
    headers.map_values(|h: Header| h@)
}

impl Clone for Header {
    fn clone(&self) -> (res: Self)
        ensures
            res@ == self@,
    {
        let value = copy_range(self.value.as_slice(), 0, self.value.len());
        assert(value@ =~= self.value@);
        Header { name: self.name.clone(), value }
    }
}

impl Header {
    pub fn new(name: &str, value: &[u8]) -> (res: Header)
        ensures
            res@ == (HeaderView { name: name.spec_bytes(), value: value@ }),
    {
        let mut stored: Vec<u8> = Vec::new();
        append_bytes(&mut stored, value);
        assert(stored@ =~= value@);
        Header { name: name.to_owned(), value: stored }
    }
}

/// The header table of the `http` crate, as `reqwest` hands it on.
#[verifier::external_type_specification]
#[verifier::external_body]
#[verifier::reject_recursive_types(T)]
pub struct ExHeaderMap<T>(HeaderMap<T>);

/// The header value type of the `http` crate.
#[verifier::external_type_specification]
#[verifier::external_body]
pub struct ExHeaderValue(HeaderValue);

/// What a header table holds: for each name in it, in the spelling that the
/// table keeps, the bytes of the first value under that name.
pub uninterp spec fn header_map_entries(map: HeaderMap) -> Map<Seq<u8>, Seq<u8>>;

/// The spelling under which the `http` crate keeps a header name, `None`
/// where it refuses the name.
pub uninterp spec fn header_name_canonical(name: Seq<u8>) -> Option<Seq<u8>>;

/// A byte that may stand in a header value: a tab, or anything from the space
/// on but DEL.
pub open spec fn spec_value_byte_valid(b: u8) -> bool {
    (b >= 32 && b != 127) || b == 9
}

/// A header value that the `http` crate accepts.
pub open spec fn spec_header_value_valid(value: Seq<u8>) -> bool {
    forall|i: int| 0 <= i < value.len() ==> spec_value_byte_valid(#[trigger] value[i])
}

/// The table after a header was set: one that is refused leaves the table as
/// it is, any other replaces what stood under the name.
pub open spec fn spec_insert_header(entries: Map<Seq<u8>, Seq<u8>>, name: Seq<u8>, value: Seq<u8>) -> Map<
    Seq<u8>,
    Seq<u8>,
> {
    match header_name_canonical(name) {
        Some(canonical) => if spec_header_value_valid(value) {
            entries.insert(canonical, value)
        } else {
            entries
        },
        None => entries,
    }
}

/// The empty table.
pub open spec fn spec_no_headers() -> Map<Seq<u8>, Seq<u8>> {
    Map::empty()
}

/// The most names that this crate puts into one header table.
pub const HEADER_TABLE_LIMIT: usize = 4096;

/// Calls `HeaderMap::new`. The contract claims that the new table is empty.
#[verifier::external_body]
pub(crate) fn header_map_new() -> (res: HeaderMap)
    ensures
        header_map_entries(res) == spec_no_headers(),
{
    HeaderMap::new()
}

/// Calls `HeaderName::from_bytes`, `HeaderValue::from_bytes` and
/// `HeaderMap::insert`. The contract claims that the header is refused where
/// the name is refused or a byte of the value is neither a tab nor at least
/// a space and other than DEL; that a header that is taken replaces whatever
/// stood under its name; and that nothing else in the table changes. The
/// table is kept far below the size at which `insert` panics.
#[verifier::external_body]
pub(crate) fn header_map_insert(
    map: &mut HeaderMap,
    name: &str,
    value: &[u8],
) -> (res: bool)
    requires
        header_map_entries(*old(map)).dom().finite(),
        header_map_entries(*old(map)).dom().len() < HEADER_TABLE_LIMIT,
    ensures
        res == (header_name_canonical(name.spec_bytes()) is Some && spec_header_value_valid(value@)),
        header_map_entries(*final(map)) == spec_insert_header(
            header_map_entries(*old(map)),
            name.spec_bytes(),
            value@,
        ),
{
    let name = match HeaderName::from_bytes(name.as_bytes()) {
        Ok(name) => name,
        Err(_) => return false,
    };
    let value = match HeaderValue::from_bytes(value) {
        Ok(value) => value,
        Err(_) => return false,
    };
    map.insert(name, value);
    true
}

/// Setting a header keeps the table finite and adds at most one name.
pub proof fn lemma_insert_header_size(entries: Map<Seq<u8>, Seq<u8>>, name: Seq<u8>, value: Seq<u8>)
    requires
        entries.dom().finite(),
    ensures
        spec_insert_header(entries, name, value).dom().finite(),
        spec_insert_header(entries, name, value).dom().len() <= entries.dom().len() + 1,
{
}

} // verus!
