//! Metadata of gRPC requests and responses on their way between the host and the core.
//!
//! On the side of the host a metadata value is raw bytes. On the side of the core the value of a key
//! that ends in `-bin` is encoded.

use super::headers::{
    append_header, check_header_value, decode_binary_value, decoded_binary, encode_binary_value,
    encoded_binary, grpc_code, header_contents, header_name_of, is_binary_key, is_header_value,
    item_pairs, metadata_items, new_header_map, no_headers, parse_header_name, values_under,
    with_value, MetadataItem, HEADER_NAMES_ALWAYS_HELD,
};
use crate::status::{Status, CODE_OK};
use crate::text::join4;
use http::header::{HeaderMap, HeaderValue};
use vstd::prelude::*;
use vstd::utf8::encode_utf8;

verus! {

/// A metadata key with one raw value.
#[derive(Debug)]
pub struct MetadataEntry {
    pub key: String,
    pub value: Vec<u8>,
}

/// Keys and values of entries.
pub open spec fn entry_pairs(entries: Seq<MetadataEntry>) -> Seq<(Seq<char>, Seq<u8>)> {
    entries.map_values(|entry: MetadataEntry| (entry.key@, entry.value@))
}

/// A response as the host returns it.
#[derive(Debug)]
pub struct BridgeGrpcResponse {
    pub headers: Vec<MetadataEntry>,
    pub trailers: Vec<MetadataEntry>,
    pub status_code: i32,
    pub status_message: String,
    pub status_details: Vec<u8>,
    pub proto: Vec<u8>,
}

/// A successful response as the core takes it.
#[derive(Debug)]
pub struct GrpcSuccessResponse {
    pub headers: HeaderMap<HeaderValue>,
    pub proto: Vec<u8>,
}

/// A response as the core takes it.
pub type HostGrpcResponse = Result<GrpcSuccessResponse, Status>;

/// Whether a metadata key has binary values.
pub fn has_binary_suffix(key: &str) -> (res: bool)
    ensures
        res == is_binary_key(key@),
{
    let n: usize = key.unicode_len();
    if n < 4 {
        return false;
    }
    assert(key@.skip(key@.len() - 4).len() == 4);
    let res = key.get_char(n - 4) == '-' && key.get_char(n - 3) == 'b' && key.get_char(n - 2) == 'i'
        && key.get_char(n - 1) == 'n';
    proof {
        let tail = key@.skip(key@.len() - 4);
        let bin = seq!['-', 'b', 'i', 'n'];
        if res {
            assert(tail =~= bin);
        } else if tail == bin {
            assert(tail[0] == bin[0] && tail[1] == bin[1] && tail[2] == bin[2] && tail[3]
                == bin[3]);
        }
    }
    res
}

/// The raw value behind the value under `key` in a header map, if there is one.
pub open spec fn raw_value(key: Seq<char>, value: Seq<u8>) -> Option<Seq<u8>> {
    if is_binary_key(key) {
        decoded_binary(value)
    } else {
        Some(value)
    }
}

/// The error text for a binary value under `key` that does not decode.
pub open spec fn undecodable(key: Seq<char>) -> Seq<char> {
    "invalid gRPC binary metadata value for "@ + key + ": "@ + "failed to parse metadata value"@
}

/// Turns listed headers into entries for the host, decoding binary values.
pub fn metadata_entries_from_items(items: Vec<MetadataItem>) -> (res: Result<
    Vec<MetadataEntry>,
    String,
>)
    requires
        forall|i: int|
            0 <= i < items@.len() ==> (#[trigger] items@[i]).binary == is_binary_key(
                items@[i].key@,
            ) && is_header_value(items@[i].value@),
    ensures
        match res {
            Ok(entries) => entries@.len() == items@.len() && forall|i: int|
                0 <= i < items@.len() ==> (#[trigger] entries@[i]).key@ == items@[i].key@
                    && raw_value(items@[i].key@, items@[i].value@) == Some(entries@[i].value@),
            Err(error) => exists|i: int|
                0 <= i < items@.len() && raw_value(
                    (#[trigger] items@[i]).key@,
                    items@[i].value@,
                ) is None && error@ == undecodable(items@[i].key@) && forall|j: int|
                    0 <= j < i ==> raw_value(
                        (#[trigger] items@[j]).key@,
                        items@[j].value@,
                    ) is Some,
        },
{
    let mut entries: Vec<MetadataEntry> = Vec::new();
    for item in it: items
        invariant
            it.seq() == items@,
            entries@.len() == it.index(),
            forall|i: int|
                0 <= i < items@.len() ==> (#[trigger] items@[i]).binary == is_binary_key(
                    items@[i].key@,
                ) && is_header_value(items@[i].value@),
            forall|i: int|
                0 <= i < it.index() ==> (#[trigger] entries@[i]).key@ == items@[i].key@
                    && raw_value(items@[i].key@, items@[i].value@) == Some(entries@[i].value@),
    {
        let ghost n = it.index() as int;
        assert(item == items@[n]);
        assert forall|j: int| 0 <= j < n implies raw_value(
            (#[trigger] items@[j]).key@,
            items@[j].value@,
        ) is Some by {
            assert(entries@[j].key@ == items@[j].key@);
        }
        if item.binary {
            match decode_binary_value(item.value.as_slice()) {
                Ok(value) => {
                    entries.push(MetadataEntry { key: item.key, value });
                },
                Err(error) => {
                    return Err(
                        join4(
                            "invalid gRPC binary metadata value for ",
                            item.key.as_str(),
                            ": ",
                            error.as_str(),
                        ),
                    );
                },
            }
        } else {
            entries.push(MetadataEntry { key: item.key, value: item.value });
        }
    }
    Ok(entries)
}

/// The pairs list the raw values behind a header map: no key is foreign, and each name has its
/// values in order.
pub open spec fn lists_raw(
    pairs: Seq<(Seq<char>, Seq<u8>)>,
    contents: Map<Seq<char>, Seq<Seq<u8>>>,
) -> bool {
    &&& forall|i: int| 0 <= i < pairs.len() ==> contents.contains_key((#[trigger] pairs[i]).0)
    &&& forall|key: Seq<char>| #[trigger]
        contents.contains_key(key) ==> values_under(pairs, key).len() == contents[key].len()
            && forall|j: int|
            0 <= j < contents[key].len() ==> raw_value(key, #[trigger] contents[key][j]) == Some(
                values_under(pairs, key)[j],
            )
}

proof fn lemma_values_related(
    sent: Seq<(Seq<char>, Seq<u8>)>,
    raw: Seq<(Seq<char>, Seq<u8>)>,
    key: Seq<char>,
)
    requires
        sent.len() == raw.len(),
        forall|i: int|
            0 <= i < sent.len() ==> (#[trigger] raw[i]).0 == sent[i].0 && raw_value(
                sent[i].0,
                sent[i].1,
            ) == Some(raw[i].1),
    ensures
        values_under(sent, key).len() == values_under(raw, key).len(),
        forall|j: int|
            0 <= j < values_under(sent, key).len() ==> raw_value(
                key,
                #[trigger] values_under(sent, key)[j],
            ) == Some(values_under(raw, key)[j]),
    decreases sent.len(),
{
    if sent.len() > 0 {
        assert(raw.last() == raw[raw.len() - 1]);
        assert forall|i: int| 0 <= i < sent.drop_last().len() implies (
        #[trigger] raw.drop_last()[i]).0 == sent.drop_last()[i].0 && raw_value(
            sent.drop_last()[i].0,
            sent.drop_last()[i].1,
        ) == Some(raw.drop_last()[i].1) by {
            assert(raw.drop_last()[i] == raw[i]);
            assert(sent.drop_last()[i] == sent[i]);
        }
        lemma_values_related(sent.drop_last(), raw.drop_last(), key);
    }
}

proof fn lemma_value_listed(pairs: Seq<(Seq<char>, Seq<u8>)>, i: int) -> (j: int)
    requires
        0 <= i < pairs.len(),
    ensures
        0 <= j < values_under(pairs, pairs[i].0).len(),
        values_under(pairs, pairs[i].0)[j] == pairs[i].1,
    decreases pairs.len(),
{
    if i == pairs.len() - 1 {
        values_under(pairs, pairs[i].0).len() - 1
    } else {
        assert(pairs.drop_last()[i] == pairs[i]);
        lemma_value_listed(pairs.drop_last(), i)
    }
}

/// Turns the headers of a request into entries for the host, decoding binary values.
pub fn header_map_into_metadata_entries(headers: HeaderMap<HeaderValue>) -> (res: Result<
    Vec<MetadataEntry>,
    String,
>)
    ensures
        match res {
            Ok(entries) => lists_raw(entry_pairs(entries@), header_contents(headers)),
            Err(error) => exists|key: Seq<char>, j: int|
                header_contents(headers).contains_key(key) && 0 <= j < header_contents(
                    headers,
                )[key].len() && raw_value(
                    key,
                    #[trigger] header_contents(headers)[key][j],
                ) is None && error@ == undecodable(key),
        },
{
    let items = metadata_items(headers);
    let ghost listed = items@;
    let ghost contents = header_contents(headers);
    let ghost sent = item_pairs(listed);
    let res = metadata_entries_from_items(items);
    proof {
        match &res {
            Ok(entries) => {
                let raw = entry_pairs(entries@);
                assert forall|i: int| 0 <= i < sent.len() implies (#[trigger] raw[i]).0
                    == sent[i].0 && raw_value(sent[i].0, sent[i].1) == Some(raw[i].1) by {
                    assert(entries@[i].key@ == listed[i].key@);
                }
                assert forall|i: int| 0 <= i < raw.len() implies contents.contains_key(
                    (#[trigger] raw[i]).0,
                ) by {
                    assert(contents.contains_key(sent[i].0));
                }
                assert forall|key: Seq<char>| #[trigger]
                    contents.contains_key(key) implies values_under(raw, key).len()
                    == contents[key].len() && forall|j: int|
                    0 <= j < contents[key].len() ==> raw_value(
                        key,
                        #[trigger] contents[key][j],
                    ) == Some(values_under(raw, key)[j]) by {
                    lemma_values_related(sent, raw, key);
                    assert(values_under(sent, key) == contents[key]);
                }
            },
            Err(error) => {
                let i = choose|i: int|
                    0 <= i < listed.len() && raw_value(
                        (#[trigger] listed[i]).key@,
                        listed[i].value@,
                    ) is None && error@ == undecodable(listed[i].key@);
                assert(sent[i] == (listed[i].key@, listed[i].value@));
                let key = listed[i].key@;
                let j = lemma_value_listed(sent, i);
                assert(values_under(sent, key) == contents[key]);
                assert(raw_value(key, contents[key][j]) is None);
            },
        }
    }
    res
}

/// The header name of an entry.
pub open spec fn entry_name(pair: (Seq<char>, Seq<u8>)) -> Option<Seq<char>> {
    header_name_of(encode_utf8(pair.0))
}

/// The value under which an entry is stored in a header map.
pub open spec fn stored_value(pair: (Seq<char>, Seq<u8>)) -> Seq<u8> {
    if is_binary_key(pair.0) {
        encoded_binary(pair.1)
    } else {
        pair.1
    }
}

/// What is wrong with an entry, if anything.
pub open spec fn entry_error(pair: (Seq<char>, Seq<u8>), context: Seq<char>) -> Option<Seq<char>> {
    if entry_name(pair) is None {
        Some(
            "invalid host gRPC "@ + context + " metadata name: "@ + "invalid HTTP header name"@,
        )
    } else if !is_binary_key(pair.0) && !is_header_value(pair.1) {
        Some(
            "invalid host gRPC "@ + context + " metadata value: "@
                + "failed to parse header value"@,
        )
    } else {
        None
    }
}

/// The error text for more names than a header map holds.
pub open spec fn too_many_names(context: Seq<char>) -> Seq<char> {
    "invalid host gRPC "@ + context + " metadata: "@ + "max size reached"@
}

/// A header map after entries were added in order.
pub open spec fn with_entries(
    contents: Map<Seq<char>, Seq<Seq<u8>>>,
    pairs: Seq<(Seq<char>, Seq<u8>)>,
) -> Map<Seq<char>, Seq<Seq<u8>>>
    decreases pairs.len(),
{
    if pairs.len() == 0 {
        contents
    } else {
        with_value(
            with_entries(contents, pairs.drop_last()),
            entry_name(pairs.last())->Some_0,
            stored_value(pairs.last()),
        )
    }
}

/// All entries can be stored.
pub open spec fn storable(pairs: Seq<(Seq<char>, Seq<u8>)>, context: Seq<char>) -> bool {
    forall|i: int| 0 <= i < pairs.len() ==> entry_error(#[trigger] pairs[i], context) is None
}

/// The binary values are short enough to be encoded in memory.
pub open spec fn encodable(pairs: Seq<(Seq<char>, Seq<u8>)>) -> bool {
    forall|i: int|
        0 <= i < pairs.len() && is_binary_key((#[trigger] pairs[i]).0) ==> pairs[i].1.len() / 3 * 4
            + 4 <= isize::MAX
}

/// Adding stopped before entry `i`: it is the first one that cannot be stored, or the map holds too
/// many names.
pub open spec fn stopped_at(
    before: Map<Seq<char>, Seq<Seq<u8>>>,
    pairs: Seq<(Seq<char>, Seq<u8>)>,
    context: Seq<char>,
    i: int,
    error: Seq<char>,
) -> bool {
    &&& 0 <= i < pairs.len()
    &&& storable(pairs.take(i), context)
    &&& match entry_error(pairs[i], context) {
        Some(text) => error == text,
        None => error == too_many_names(context) && with_entries(
            before,
            pairs.take(i),
        ).dom().len() > HEADER_NAMES_ALWAYS_HELD,
    }
}

/// Adding stopped with an error, and the entries before the one that it stopped at are added.
pub open spec fn stopped(
    before: Map<Seq<char>, Seq<Seq<u8>>>,
    after: Map<Seq<char>, Seq<Seq<u8>>>,
    pairs: Seq<(Seq<char>, Seq<u8>)>,
    context: Seq<char>,
    error: Seq<char>,
) -> bool {
    exists|i: int|
        #[trigger] stopped_at(before, pairs, context, i, error) && after == with_entries(
            before,
            pairs.take(i),
        )
}

/// Adds the entries to the headers, in order, encoding binary values.
///
/// Stops at the first entry that cannot be stored; those before it stay added.
pub fn append_metadata_entries(
    headers: &mut HeaderMap<HeaderValue>,
    entries: &[MetadataEntry],
    context: &str,
) -> (res: Result<(), String>)
    requires
        encodable(entry_pairs(entries@)),
    ensures
        match res {
            Ok(_) => {
                &&& storable(entry_pairs(entries@), context@)
                &&& header_contents(*final(headers)) == with_entries(
                    header_contents(*old(headers)),
                    entry_pairs(entries@),
                )
                &&& values_decode_back(entry_pairs(entries@))
            },
            Err(error) => stopped(
                header_contents(*old(headers)),
                header_contents(*final(headers)),
                entry_pairs(entries@),
                context@,
                error@,
            ),
        },
{
    let ghost before = header_contents(*headers);
    let ghost pairs = entry_pairs(entries@);
    let mut ix: usize = 0;
    proof {
        assert(pairs.take(0).len() == 0);
    }
    while ix < entries.len()
        invariant
            ix <= entries@.len(),
            before == header_contents(*old(headers)),
            pairs == entry_pairs(entries@),
            encodable(pairs),
            storable(pairs.take(ix as int), context@),
            values_decode_back(pairs.take(ix as int)),
            header_contents(*headers) == with_entries(before, pairs.take(ix as int)),
        decreases entries@.len() - ix,
    {
        let entry = &entries[ix];
        let ghost pair = pairs[ix as int];
        assert(pair == (entry.key@, entry.value@));
        let name = match parse_header_name(entry.key.as_str().as_bytes()) {
            Ok(name) => name,
            Err(error) => {
                let text = join4("invalid host gRPC ", context, " metadata name: ", error.as_str());
                assert(stopped_at(before, pairs, context@, ix as int, text@));
                return Err(text);
            },
        };
        let value = if has_binary_suffix(entry.key.as_str()) {
            encode_binary_value(entry.value.as_slice())
        } else {
            match check_header_value(entry.value.as_slice()) {
                Ok(_) => vstd::slice::slice_to_vec(entry.value.as_slice()),
                Err(error) => {
                    let text = join4(
                        "invalid host gRPC ",
                        context,
                        " metadata value: ",
                        error.as_str(),
                    );
                    assert(stopped_at(before, pairs, context@, ix as int, text@));
                    return Err(text);
                },
            }
        };
        assert(value@ == stored_value(pair));
        match append_header(headers, name.as_str(), value.as_slice()) {
            Ok(_) => {},
            Err(error) => {
                let text = join4("invalid host gRPC ", context, " metadata: ", error.as_str());
                assert(stopped_at(before, pairs, context@, ix as int, text@));
                return Err(text);
            },
        }
        proof {
            let next = pairs.take(ix + 1);
            assert(next.drop_last() == pairs.take(ix as int));
            assert(next.last() == pair);
            assert forall|i: int| 0 <= i < next.len() implies entry_error(
                #[trigger] next[i],
                context@,
            ) is None by {
                if i < ix {
                    assert(next[i] == pairs.take(ix as int)[i]);
                }
            }
            assert forall|i: int|
                0 <= i < next.len() && is_binary_key((#[trigger] next[i]).0) implies decoded_binary(
                encoded_binary(next[i].1),
            ) == Some(next[i].1) by {
                if i < ix {
                    assert(next[i] == pairs.take(ix as int)[i]);
                }
            }
        }
        ix += 1;
    }
    assert(pairs.take(ix as int) == pairs);
    Ok(())
}

/// Each binary value comes back when its encoded form is decoded.
pub open spec fn values_decode_back(pairs: Seq<(Seq<char>, Seq<u8>)>) -> bool {
    forall|i: int|
        0 <= i < pairs.len() && is_binary_key((#[trigger] pairs[i]).0) ==> decoded_binary(
            encoded_binary(pairs[i].1),
        ) == Some(pairs[i].1)
}

/// Adding the entries stops with an error.
pub open spec fn unstorable(
    before: Map<Seq<char>, Seq<Seq<u8>>>,
    pairs: Seq<(Seq<char>, Seq<u8>)>,
    context: Seq<char>,
    error: Seq<char>,
) -> bool {
    exists|i: int| #[trigger] stopped_at(before, pairs, context, i, error)
}

/// All metadata of a response: that of its headers, then that of its trailers.
pub open spec fn response_metadata(response: BridgeGrpcResponse) -> Map<Seq<char>, Seq<Seq<u8>>> {
    with_entries(
        with_entries(no_headers(), entry_pairs(response.headers@)),
        entry_pairs(response.trailers@),
    )
}

/// The number of a gRPC code, with numbers that name no code mapped to that of `Unknown`.
pub open spec fn known_code(code: i32) -> i32 {
    if 0 <= code <= 16 {
        code
    } else {
        2
    }
}

/// All entries of a response can be stored.
pub open spec fn storable_response(response: BridgeGrpcResponse) -> bool {
    &&& storable(entry_pairs(response.headers@), "response header"@)
    &&& storable(entry_pairs(response.trailers@), "response trailer"@)
}

/// `res` is what a response of the host is turned into.
pub open spec fn converts_to(
    response: BridgeGrpcResponse,
    res: Result<HostGrpcResponse, String>,
) -> bool {
    &&& match res {
        Ok(Ok(success)) => {
            &&& storable_response(response)
            &&& response.status_code == CODE_OK
            &&& header_contents(success.headers) == response_metadata(response)
            &&& success.proto@ == response.proto@
        },
        Ok(Err(status)) => {
            &&& storable_response(response)
            &&& response.status_code != CODE_OK
            &&& status.code == known_code(response.status_code)
            &&& status.message@ == response.status_message@
            &&& status.details@ == response.status_details@
            &&& header_contents(status.metadata) == response_metadata(response)
        },
        Err(error) => unstorable(
            no_headers(),
            entry_pairs(response.headers@),
            "response header"@,
            error@,
        ) || (storable(entry_pairs(response.headers@), "response header"@) && unstorable(
            with_entries(no_headers(), entry_pairs(response.headers@)),
            entry_pairs(response.trailers@),
            "response trailer"@,
            error@,
        )),
    }
    &&& res is Err && storable_response(response) ==> response.headers@.len()
        + response.trailers@.len() > HEADER_NAMES_ALWAYS_HELD + 1
}

/// The binary values of a response are short enough to be encoded in memory.
pub open spec fn encodable_response(response: BridgeGrpcResponse) -> bool {
    encodable(entry_pairs(response.headers@)) && encodable(entry_pairs(response.trailers@))
}

/// Turns a response of the host into one for the core.
///
/// Headers and trailers are merged. A code other than that of `Ok` makes it a failed one.
pub fn into_grpc_response(response: BridgeGrpcResponse) -> (res: Result<HostGrpcResponse, String>)
    requires
        encodable_response(response),
    ensures
        converts_to(response, res),
{
    let ghost headers = entry_pairs(response.headers@);
    let ghost trailers = entry_pairs(response.trailers@);
    let mut metadata = new_header_map();
    let added = append_metadata_entries(
        &mut metadata,
        response.headers.as_slice(),
        "response header",
    );
    if let Err(error) = added {
        proof {
            let i = choose|i: int| #[trigger]
                stopped_at(no_headers(), headers, "response header"@, i, error@);
            lemma_with_entries_names(no_headers(), headers.take(i));
        }
        return Err(error);
    }
    let added = append_metadata_entries(
        &mut metadata,
        response.trailers.as_slice(),
        "response trailer",
    );
    if let Err(error) = added {
        proof {
            let before = with_entries(no_headers(), headers);
            let i = choose|i: int| #[trigger]
                stopped_at(before, trailers, "response trailer"@, i, error@);
            lemma_with_entries_names(no_headers(), headers);
            lemma_with_entries_names(before, trailers.take(i));
        }
        return Err(error);
    }
    if response.status_code == CODE_OK {
        Ok(Ok(GrpcSuccessResponse { headers: metadata, proto: response.proto }))
    } else {
        Ok(
            Err(
                Status {
                    code: grpc_code(response.status_code),
                    message: response.status_message,
                    details: response.status_details,
                    metadata,
                },
            ),
        )
    }
}

/// Each entry adds at most one name.
pub(crate) proof fn lemma_with_entries_names(
    contents: Map<Seq<char>, Seq<Seq<u8>>>,
    pairs: Seq<(Seq<char>, Seq<u8>)>,
)
    requires
        contents.dom().finite(),
    ensures
        with_entries(contents, pairs).dom().finite(),
        with_entries(contents, pairs).dom().len() <= contents.dom().len() + pairs.len(),
    decreases pairs.len(),
{
    if pairs.len() > 0 {
        lemma_with_entries_names(contents, pairs.drop_last());
        let before = with_entries(contents, pairs.drop_last());
        let name = entry_name(pairs.last())->Some_0;
        let after = with_entries(contents, pairs);
        assert(after.dom() =~= before.dom().insert(name));
    }
}

/// The keys are header names in normal form.
pub open spec fn normal_keys(pairs: Seq<(Seq<char>, Seq<u8>)>) -> bool {
    forall|i: int|
        0 <= i < pairs.len() ==> entry_name(#[trigger] pairs[i]) == Some(pairs[i].0)
}

proof fn lemma_with_entries_raw(pairs: Seq<(Seq<char>, Seq<u8>)>, key: Seq<char>)
    requires
        normal_keys(pairs),
        values_decode_back(pairs),
    ensures
        ({
            let contents = with_entries(no_headers(), pairs);
            &&& contents.contains_key(key) <==> values_under(pairs, key).len() > 0
            &&& contents.contains_key(key) ==> contents[key].len() == values_under(pairs, key).len()
            &&& contents.contains_key(key) ==> forall|j: int|
                0 <= j < contents[key].len() ==> raw_value(key, #[trigger] contents[key][j])
                    == Some(values_under(pairs, key)[j])
        }),
    decreases pairs.len(),
{
    if pairs.len() > 0 {
        let init = pairs.drop_last();
        let last = pairs.last();
        assert(last == pairs[pairs.len() - 1]);
        assert forall|i: int| 0 <= i < init.len() implies entry_name(#[trigger] init[i]) == Some(
            init[i].0,
        ) by {
            assert(init[i] == pairs[i]);
        }
        assert forall|i: int|
            0 <= i < init.len() && is_binary_key((#[trigger] init[i]).0) implies decoded_binary(
            encoded_binary(init[i].1),
        ) == Some(init[i].1) by {
            assert(init[i] == pairs[i]);
        }
        lemma_with_entries_raw(init, key);
        assert(raw_value(last.0, stored_value(last)) == Some(last.1));
    }
}

pub(crate) proof fn lemma_values_under_none(pairs: Seq<(Seq<char>, Seq<u8>)>, key: Seq<char>)
    requires
        forall|i: int| 0 <= i < pairs.len() ==> (#[trigger] pairs[i]).0 != key,
    ensures
        values_under(pairs, key).len() == 0,
    decreases pairs.len(),
{
    if pairs.len() > 0 {
        let init = pairs.drop_last();
        assert forall|i: int| 0 <= i < init.len() implies (#[trigger] init[i]).0 != key by {
            assert(init[i] == pairs[i]);
        }
        lemma_values_under_none(init, key);
        assert(pairs.last() == pairs[pairs.len() - 1]);
    }
}

/// Metadata that the host hands in and that is later listed for the host is what was handed in: each
/// key has the raw values that it had, in order. `pairs` were added by [`append_metadata_entries`]
/// to a map without headers, which reports `values_decode_back`; `listed` was read from the map by
/// [`header_map_into_metadata_entries`].
pub proof fn law_metadata_round_trip(
    pairs: Seq<(Seq<char>, Seq<u8>)>,
    listed: Seq<(Seq<char>, Seq<u8>)>,
    key: Seq<char>,
)
    requires
        normal_keys(pairs),
        values_decode_back(pairs),
        lists_raw(listed, with_entries(no_headers(), pairs)),
    ensures
        values_under(listed, key) == values_under(pairs, key),
{
    let contents = with_entries(no_headers(), pairs);
    lemma_with_entries_raw(pairs, key);
    if contents.contains_key(key) {
        assert forall|j: int| 0 <= j < contents[key].len() implies values_under(listed, key)[j]
            == values_under(pairs, key)[j] by {
            assert(raw_value(key, contents[key][j]) == Some(values_under(pairs, key)[j]));
        }
        assert(values_under(listed, key) =~= values_under(pairs, key));
    } else {
        assert forall|i: int| 0 <= i < listed.len() implies (#[trigger] listed[i]).0 != key by {
            assert(contents.contains_key(listed[i].0));
        }
        lemma_values_under_none(listed, key);
        assert(values_under(listed, key) =~= values_under(pairs, key));
    }
}

} // verus!
