//! The parts of `http` and `tonic` that carry gRPC metadata. Nothing in this file is proved: each
//! contract states what the outside function does.

use http::header::{HeaderMap, HeaderName, HeaderValue};
use tonic::metadata::{BinaryMetadataValue, KeyAndValueRef, MetadataMap};
use vstd::prelude::*;

verus! {

/// `http::HeaderMap`: a multimap from header names to values.
#[verifier::external_type_specification]
#[verifier::external_body]
#[verifier::reject_recursive_types(T)]
pub struct ExHeaderMap<T>(http::header::HeaderMap<T>);

/// `http::HeaderValue`: the bytes of one header value.
#[verifier::external_type_specification]
#[verifier::external_body]
pub struct ExHeaderValue(http::header::HeaderValue);

/// What a header map holds: for each name that occurs in it, the values in the order in which they
/// were added.
pub uninterp spec fn header_contents(headers: HeaderMap<HeaderValue>) -> Map<Seq<char>, Seq<Seq<u8>>>;

/// The encoded form in which `tonic` sends a binary metadata value.
pub uninterp spec fn encoded_binary(value: Seq<u8>) -> Seq<u8>;

/// The binary metadata value that `tonic` reads from an encoded form, if it is one.
pub uninterp spec fn decoded_binary(encoded: Seq<u8>) -> Option<Seq<u8>>;

/// No header at all.
pub open spec fn no_headers() -> Map<Seq<char>, Seq<Seq<u8>>> {
    Map::empty()
}

/// How many names a header map can hold and surely take one more.
pub const HEADER_NAMES_ALWAYS_HELD: usize = 6553;

/// The longest header name.
pub const MAX_HEADER_NAME_LEN: usize = 65535;

/// A byte that a header name may hold.
pub open spec fn is_name_byte(b: u8) -> bool {
    ||| 0x30 <= b <= 0x39
    ||| 0x41 <= b <= 0x5a
    ||| 0x5e <= b <= 0x7a
    ||| b == 0x21
    ||| 0x23 <= b <= 0x27
    ||| b == 0x2a
    ||| b == 0x2b
    ||| b == 0x2d
    ||| b == 0x2e
    ||| b == 0x7c
    ||| b == 0x7e
}

/// The character that a byte of a header name stands for, in lower case.
pub open spec fn name_char(b: u8) -> char {
    if 0x41 <= b <= 0x5a {
        (b + 0x20) as u8 as char
    } else {
        b as char
    }
}

/// The normal form of a header name, or `None` for bytes that are none.
pub open spec fn header_name_of(bytes: Seq<u8>) -> Option<Seq<char>> {
    if 1 <= bytes.len() <= MAX_HEADER_NAME_LEN && forall|i: int|
        0 <= i < bytes.len() ==> is_name_byte(#[trigger] bytes[i]) {
        Some(bytes.map_values(|b: u8| name_char(b)))
    } else {
        None
    }
}

/// Bytes that a header value may hold.
pub open spec fn is_header_value(bytes: Seq<u8>) -> bool {
    forall|i: int|
        0 <= i < bytes.len() ==> ((#[trigger] bytes[i]) >= 32 && bytes[i] != 127) || bytes[i] == 9
}

/// A key of a binary metadata value.
pub open spec fn is_binary_key(key: Seq<char>) -> bool {
    key.len() >= 4 && key.skip(key.len() - 4) == seq!['-', 'b', 'i', 'n']
}

/// A header map with one more value under `name`.
pub open spec fn with_value(
    contents: Map<Seq<char>, Seq<Seq<u8>>>,
    name: Seq<char>,
    value: Seq<u8>,
) -> Map<Seq<char>, Seq<Seq<u8>>> {
    if contents.contains_key(name) {
        contents.insert(name, contents[name].push(value))
    } else {
        contents.insert(name, seq![value])
    }
}

/// One key and value of a header map.
#[derive(Debug)]
pub struct MetadataItem {
    pub key: String,
    /// The value as it is sent.
    pub value: Vec<u8>,
    /// Whether the value is the encoded form of a binary one.
    pub binary: bool,
}

/// The values under `key`, in order.
pub open spec fn values_under(pairs: Seq<(Seq<char>, Seq<u8>)>, key: Seq<char>) -> Seq<Seq<u8>>
    decreases pairs.len(),
{
    if pairs.len() == 0 {
        Seq::empty()
    } else if pairs.last().0 == key {
        values_under(pairs.drop_last(), key).push(pairs.last().1)
    } else {
        values_under(pairs.drop_last(), key)
    }
}

/// Keys and values of items.
pub open spec fn item_pairs(items: Seq<MetadataItem>) -> Seq<(Seq<char>, Seq<u8>)> {
    items.map_values(|item: MetadataItem| (item.key@, item.value@))
}

/// The pairs list a header map: no key is foreign, and each name has its values in order.
pub open spec fn lists(
    pairs: Seq<(Seq<char>, Seq<u8>)>,
    contents: Map<Seq<char>, Seq<Seq<u8>>>,
) -> bool {
    &&& forall|i: int| 0 <= i < pairs.len() ==> contents.contains_key((#[trigger] pairs[i]).0)
    &&& forall|key: Seq<char>| #[trigger]
        contents.contains_key(key) ==> values_under(pairs, key) == contents[key]
}

/// `http::HeaderMap::new`: a map without headers.
#[verifier::external_body]
pub(crate) fn new_header_map() -> (res: HeaderMap<HeaderValue>)
    ensures
        header_contents(res) == no_headers(),
{
    HeaderMap::new()
}

/// `http::HeaderName::from_bytes`: checks a header name and brings it to lower case. The error is
/// its display text.
#[verifier::external_body]
pub(crate) fn parse_header_name(bytes: &[u8]) -> (res: Result<String, String>)
    ensures
        res is Ok <==> header_name_of(bytes@) is Some,
        res matches Ok(name) ==> header_name_of(bytes@) == Some(name@),
        res matches Err(error) ==> error@ == "invalid HTTP header name"@,
{
    HeaderName::from_bytes(bytes).map(|name| name.as_str().to_owned()).map_err(|e| e.to_string())
}

/// `http::HeaderValue::from_bytes`: checks a header value. The error is its display text.
#[verifier::external_body]
pub(crate) fn check_header_value(bytes: &[u8]) -> (res: Result<(), String>)
    ensures
        res is Ok <==> is_header_value(bytes@),
        res matches Err(error) ==> error@ == "failed to parse header value"@,
{
    HeaderValue::from_bytes(bytes).map(|_| ()).map_err(|e| e.to_string())
}

/// `http::HeaderMap::try_append`: adds a value behind those that the name has. It may fail, and then
/// leaves the headers as they were, only on a map of many names. The error is its display text.
#[verifier::external_body]
pub(crate) fn append_header(headers: &mut HeaderMap<HeaderValue>, name: &str, value: &[u8]) -> (res:
    Result<bool, String>)
    requires
        exists|bytes: Seq<u8>| header_name_of(bytes) == Some(name@),
        is_header_value(value@),
    ensures
        res matches Ok(known) ==> known == header_contents(*old(headers)).contains_key(name@),
        res is Ok ==> header_contents(*final(headers)) == with_value(header_contents(*old(headers)), name@, value@),
        res is Err ==> header_contents(*final(headers)) == header_contents(*old(headers)),
        res is Err ==> header_contents(*old(headers)).dom().len() > HEADER_NAMES_ALWAYS_HELD,
        res matches Err(error) ==> error@ == "max size reached"@,
{
    let name = HeaderName::from_bytes(name.as_bytes()).unwrap();
    headers.try_append(name, HeaderValue::from_bytes(value).unwrap()).map_err(|e| e.to_string())
}

/// `tonic::metadata::MetadataMap::from_headers` and its `iter`: lists the headers, telling binary
/// values from others by their keys. The values of one name come in order; the order of the names is
/// left open. A header value holds no bytes but those it may hold.
#[verifier::external_body]
pub(crate) fn metadata_items(headers: HeaderMap<HeaderValue>) -> (res: Vec<MetadataItem>)
    ensures
        lists(item_pairs(res@), header_contents(headers)),
        forall|i: int| 0 <= i < res@.len() ==> (#[trigger] res@[i]).binary == is_binary_key(res@[i].key@),
        forall|i: int| 0 <= i < res@.len() ==> is_header_value((#[trigger] res@[i]).value@),
{
    let metadata = MetadataMap::from_headers(headers);
    let convert = |entry: KeyAndValueRef<'_>| match entry {
        KeyAndValueRef::Ascii(key, value) => {
            (key.as_str().to_owned(), value.as_encoded_bytes().to_vec(), false)
        }
        KeyAndValueRef::Binary(key, value) => {
            (key.as_str().to_owned(), value.as_encoded_bytes().to_vec(), true)
        }
    };
    let items = metadata.iter().map(convert);
    items.map(|(key, value, binary)| MetadataItem { key, value, binary }).collect()
}

/// `tonic::metadata::BinaryMetadataValue::from_bytes` and `as_encoded_bytes`: the form in which a
/// binary value is sent. It is a valid header value, and decoding gives the value back.
#[verifier::external_body]
pub(crate) fn encode_binary_value(value: &[u8]) -> (res: Vec<u8>)
    requires
        value@.len() / 3 * 4 + 4 <= isize::MAX,
    ensures
        res@ == encoded_binary(value@),
        is_header_value(res@),
        decoded_binary(res@) == Some(value@),
{
    BinaryMetadataValue::from_bytes(value).as_encoded_bytes().to_vec()
}

/// `tonic::metadata::BinaryMetadataValue::to_bytes`: decodes a binary value. The error is its display
/// text.
#[verifier::external_body]
pub(crate) fn decode_binary_value(encoded: &[u8]) -> (res: Result<Vec<u8>, String>)
    requires
        is_header_value(encoded@),
    ensures
        res is Ok <==> decoded_binary(encoded@) is Some,
        res matches Ok(value) ==> decoded_binary(encoded@) == Some(value@),
        res matches Err(error) ==> error@ == "failed to parse metadata value"@,
{
    let mut headers = HeaderMap::new();
    headers.insert("value-bin", HeaderValue::from_bytes(encoded).unwrap());
    let metadata = MetadataMap::from_headers(headers);
    let value = metadata.get_bin("value-bin").unwrap();
    value.to_bytes().map(|bytes| bytes.to_vec()).map_err(|e| e.to_string())
}

/// `tonic::Code::from_i32`: the number of a gRPC status code, with unknown numbers mapped to that of
/// `Unknown`.
#[verifier::external_body]
pub(crate) fn grpc_code(code: i32) -> (res: i32)
    ensures
        res == (if 0 <= code <= 16 { code } else { 2 }),
{
    tonic::Code::from_i32(code) as i32
}

} // verus!
