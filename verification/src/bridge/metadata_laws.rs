//! How metadata gets from the host to the core and back.

use super::headers::{
    decoded_binary, encoded_binary, header_contents, header_name_of, is_binary_key, is_header_value,
    values_under, MetadataItem,
};
use super::metadata::{
    append_metadata_entries, entry_name, entry_pairs, has_binary_suffix,
    header_map_into_metadata_entries, into_grpc_response, metadata_entries_from_items, stored_value,
    with_entries, BridgeGrpcResponse, HostGrpcResponse, MetadataEntry,
};
use http::header::{HeaderMap, HeaderValue};
use vstd::prelude::*;
use vstd::utf8::encode_utf8;

verus! {

/// The key ends in `-bin`.
pub open spec fn ends_in_bin(key: Seq<char>) -> bool {
    let n = key.len();
    &&& n >= 4
    &&& key[n - 4] == '-'
    &&& key[n - 3] == 'b'
    &&& key[n - 2] == 'i'
    &&& key[n - 1] == 'n'
}

pub(crate) proof fn lemma_ends_in_bin(key: Seq<char>)
    ensures
        is_binary_key(key) == ends_in_bin(key),
{
    let bin = seq!['-', 'b', 'i', 'n'];
    if key.len() >= 4 {
        let tail = key.skip(key.len() - 4);
        if ends_in_bin(key) {
            assert(tail =~= bin);
        }
        if tail == bin {
            assert(tail[0] == bin[0] && tail[1] == bin[1] && tail[2] == bin[2] && tail[3]
                == bin[3]);
        }
    }
}

/// Exactly the keys that end in `-bin` have binary values.
pub proof fn law_binary_keys_end_in_bin(key: &str, res: bool)
    requires
        call_ensures(has_binary_suffix, (key,), res),
    ensures
        res == ends_in_bin(key@),
{
    lemma_ends_in_bin(key@);
}

/// The header name of a key: its letters in lower case.
pub open spec fn named(key: Seq<char>, name: Seq<char>) -> bool {
    header_name_of(encode_utf8(key)) == Some(name)
}

/// What an entry is stored as: a binary value encoded, any other as it is.
pub open spec fn sent_as(entry: MetadataEntry) -> Seq<u8> {
    if ends_in_bin(entry.key@) {
        encoded_binary(entry.value@)
    } else {
        entry.value@
    }
}

/// What the entries of this header name are stored as, in their order.
pub open spec fn sent_under(entries: Seq<MetadataEntry>, name: Seq<char>) -> Seq<Seq<u8>> {
    entries.filter(|entry: MetadataEntry| named(entry.key@, name)).map_values(
        |entry: MetadataEntry| sent_as(entry),
    )
}

/// The values under a name, none if it does not occur.
pub open spec fn held_under(
    contents: Map<Seq<char>, Seq<Seq<u8>>>,
    name: Seq<char>,
) -> Seq<Seq<u8>> {
    if contents.contains_key(name) {
        contents[name]
    } else {
        Seq::empty()
    }
}

pub(crate) proof fn lemma_sent_under(
    before: Map<Seq<char>, Seq<Seq<u8>>>,
    entries: Seq<MetadataEntry>,
    name: Seq<char>,
)
    requires
        forall|i: int|
            0 <= i < entries.len() ==> header_name_of(
                encode_utf8((#[trigger] entries[i]).key@),
            ) is Some,
    ensures
        held_under(with_entries(before, entry_pairs(entries)), name) == held_under(before, name)
            + sent_under(entries, name),
    decreases entries.len(),
{
    let of_name = |entry: MetadataEntry| named(entry.key@, name);
    let sent = |entry: MetadataEntry| sent_as(entry);
    let pairs = entry_pairs(entries);
    reveal(Seq::filter);
    if entries.len() == 0 {
        assert(sent_under(entries, name) =~= Seq::empty());
        assert(held_under(before, name) + sent_under(entries, name) =~= held_under(before, name));
    } else {
        let init = entries.drop_last();
        let last = entries.last();
        assert(pairs.drop_last() =~= entry_pairs(init));
        assert(pairs.last() == (last.key@, last.value@));
        assert forall|i: int| 0 <= i < init.len() implies header_name_of(
            encode_utf8((#[trigger] init[i]).key@),
        ) is Some by {
            assert(init[i] == entries[i]);
        }
        lemma_sent_under(before, init, name);
        lemma_ends_in_bin(last.key@);
        assert(stored_value(pairs.last()) == sent_as(last));
        assert(last == entries[entries.len() - 1]);
        let held = held_under(before, name) + sent_under(init, name);
        if of_name(last) {
            assert(entries.filter(of_name) == init.filter(of_name).push(last));
            assert(sent_under(entries, name) =~= sent_under(init, name).push(sent_as(last)));
            assert(held.push(sent_as(last)) =~= held_under(before, name) + sent_under(
                entries,
                name,
            ));
            assert(Seq::<Seq<u8>>::empty().push(sent_as(last)) =~= seq![sent_as(last)]);
        } else {
            assert(entries.filter(of_name) == init.filter(of_name));
        }
    }
}

/// Entries that were added stand under their header names behind what was there, each name with its
/// values in their order, binary ones encoded, and all of them can be stored.
pub proof fn law_entries_are_added_in_order(
    headers: &mut HeaderMap<HeaderValue>,
    entries: &[MetadataEntry],
    context: &str,
    name: Seq<char>,
)
    requires
        call_ensures(append_metadata_entries, (headers, entries, context), Ok(())),
    ensures
        held_under(header_contents(*final(headers)), name) == held_under(
            header_contents(*old(headers)),
            name,
        ) + sent_under(entries@, name),
        forall|i: int|
            0 <= i < entries@.len() ==> header_name_of(
                encode_utf8((#[trigger] entries@[i]).key@),
            ) is Some,
        forall|i: int|
            0 <= i < entries@.len() ==> ends_in_bin((#[trigger] entries@[i]).key@)
                || is_header_value(entries@[i].value@),
{
    lemma_storable(entries@, context@);
    lemma_sent_under(header_contents(*old(headers)), entries@, name);
}

proof fn lemma_storable(entries: Seq<MetadataEntry>, context: Seq<char>)
    requires
        super::metadata::storable(entry_pairs(entries), context),
    ensures
        forall|i: int|
            0 <= i < entries.len() ==> header_name_of(
                encode_utf8((#[trigger] entries[i]).key@),
            ) is Some,
        forall|i: int|
            0 <= i < entries.len() ==> ends_in_bin((#[trigger] entries[i]).key@) || is_header_value(
                entries[i].value@,
            ),
{
    let pairs = entry_pairs(entries);
    assert forall|i: int| 0 <= i < entries.len() implies header_name_of(
        encode_utf8((#[trigger] entries[i]).key@),
    ) is Some && (ends_in_bin(entries[i].key@) || is_header_value(entries[i].value@)) by {
        assert(pairs[i] == (entries[i].key@, entries[i].value@));
        assert(super::metadata::entry_error(pairs[i], context) is None);
        lemma_ends_in_bin(entries[i].key@);
    }
}

/// An entry can be stored: its key is a header name, and its value is binary or one of a header.
pub open spec fn can_be_stored(entry: MetadataEntry) -> bool {
    header_name_of(encode_utf8(entry.key@)) is Some && (ends_in_bin(entry.key@) || is_header_value(
        entry.value@,
    ))
}

/// Adding entries stops only at one that cannot be stored, or where the map holds more names than it
/// can always take one more beside.
pub proof fn law_adding_stops_only_for_a_reason(
    headers: &mut HeaderMap<HeaderValue>,
    entries: &[MetadataEntry],
    context: &str,
    error: String,
)
    requires
        call_ensures(append_metadata_entries, (headers, entries, context), Err(error)),
        header_contents(*old(headers)).dom().finite(),
        forall|i: int| 0 <= i < entries@.len() ==> can_be_stored(#[trigger] entries@[i]),
    ensures
        header_contents(*old(headers)).dom().len() + entries@.len() > 6553,
{
    let before = header_contents(*old(headers));
    let pairs = entry_pairs(entries@);
    let i = choose|i: int| #[trigger]
        super::metadata::stopped_at(before, pairs, context@, i, error@);
    assert(pairs[i] == (entries@[i].key@, entries@[i].value@));
    assert(can_be_stored(entries@[i]));
    lemma_ends_in_bin(entries@[i].key@);
    super::metadata::lemma_with_entries_names(before, pairs.take(i));
}

/// The value under a key that is listed for the host: a binary one decoded, any other as it is.
pub open spec fn read_as(key: Seq<char>, sent: Seq<u8>) -> Option<Seq<u8>> {
    if ends_in_bin(key) {
        decoded_binary(sent)
    } else {
        Some(sent)
    }
}

/// The values of the entries of this key, in their order.
pub open spec fn listed_under(entries: Seq<MetadataEntry>, key: Seq<char>) -> Seq<Seq<u8>> {
    entries.filter(|entry: MetadataEntry| entry.key@ == key).map_values(
        |entry: MetadataEntry| entry.value@,
    )
}

pub(crate) proof fn lemma_listed_under(entries: Seq<MetadataEntry>, key: Seq<char>)
    ensures
        values_under(entry_pairs(entries), key) == listed_under(entries, key),
    decreases entries.len(),
{
    let of_key = |entry: MetadataEntry| entry.key@ == key;
    let pairs = entry_pairs(entries);
    reveal(Seq::filter);
    if entries.len() == 0 {
        assert(listed_under(entries, key) =~= Seq::empty());
    } else {
        let init = entries.drop_last();
        let last = entries.last();
        assert(pairs.drop_last() =~= entry_pairs(init));
        assert(pairs.last() == (last.key@, last.value@));
        lemma_listed_under(init, key);
        if of_key(last) {
            assert(entries.filter(of_key) == init.filter(of_key).push(last));
            assert(listed_under(entries, key) =~= listed_under(init, key).push(last.value@));
        } else {
            assert(entries.filter(of_key) == init.filter(of_key));
        }
    }
}

/// Headers are listed for the host whole: every key that is listed is a header, and every header is
/// listed with all its values in their order, binary ones decoded.
pub proof fn law_headers_are_listed(
    headers: HeaderMap<HeaderValue>,
    entries: Vec<MetadataEntry>,
    key: Seq<char>,
)
    requires
        call_ensures(header_map_into_metadata_entries, (headers,), Ok(entries)),
    ensures
        listed_under(entries@, key).len() == held_under(header_contents(headers), key).len(),
        forall|j: int|
            0 <= j < listed_under(entries@, key).len() ==> read_as(
                key,
                held_under(header_contents(headers), key)[j],
            ) == Some(#[trigger] listed_under(entries@, key)[j]),
{
    lemma_listed(entry_pairs(entries@), header_contents(headers), key);
    lemma_listed_under(entries@, key);
    lemma_ends_in_bin(key);
}

pub(crate) proof fn lemma_listed(
    pairs: Seq<(Seq<char>, Seq<u8>)>,
    contents: Map<Seq<char>, Seq<Seq<u8>>>,
    key: Seq<char>,
)
    requires
        super::metadata::lists_raw(pairs, contents),
    ensures
        values_under(pairs, key).len() == held_under(contents, key).len(),
        forall|j: int|
            0 <= j < values_under(pairs, key).len() ==> super::metadata::raw_value(
                key,
                held_under(contents, key)[j],
            ) == Some(#[trigger] values_under(pairs, key)[j]),
{
    if contents.contains_key(key) {
        assert forall|j: int| 0 <= j < values_under(pairs, key).len() implies super::metadata::raw_value(
            key,
            held_under(contents, key)[j],
        ) == Some(#[trigger] values_under(pairs, key)[j]) by {
            assert(super::metadata::raw_value(key, contents[key][j]) == Some(
                values_under(pairs, key)[j],
            ));
        }
    } else {
        assert forall|i: int| 0 <= i < pairs.len() implies (#[trigger] pairs[i]).0 != key by {
            assert(contents.contains_key(pairs[i].0));
        }
        super::metadata::lemma_values_under_none(pairs, key);
    }
}

/// Listing fails only if a binary value does not decode.
pub proof fn law_listing_fails_only_for_binary_values(
    headers: HeaderMap<HeaderValue>,
    error: String,
) -> (found: (Seq<char>, int))
    requires
        call_ensures(header_map_into_metadata_entries, (headers,), Err(error)),
    ensures
        header_contents(headers).contains_key(found.0),
        0 <= found.1 < header_contents(headers)[found.0].len(),
        ends_in_bin(found.0),
        decoded_binary(header_contents(headers)[found.0][found.1]) is None,
        error@ == "invalid gRPC binary metadata value for "@ + found.0 + ": "@
            + "failed to parse metadata value"@,
{
    let contents = header_contents(headers);
    let (key, j) = choose|key: Seq<char>, j: int|
        contents.contains_key(key) && 0 <= j < contents[key].len() && super::metadata::raw_value(
            key,
            #[trigger] contents[key][j],
        ) is None && error@ == super::metadata::undecodable(key);
    lemma_ends_in_bin(key);
    (key, j)
}

/// A response of the host with the code of success is one for the core, with its message; with any
/// other code it is a failure, with that code, or that of `Unknown` if it is none, and with the text
/// and the details of the host. Either has the metadata of the headers and, behind it, that of the
/// trailers, name by name.
pub proof fn law_responses_are_converted(
    response: BridgeGrpcResponse,
    res: HostGrpcResponse,
    name: Seq<char>,
)
    requires
        call_ensures(into_grpc_response, (response,), Ok(res)),
    ensures
        converts_response(response, res, name),
{
    lemma_converts(response, res, name);
}

/// The response for the core is the one of the host, as far as the headers of this name go.
pub open spec fn converts_response(
    response: BridgeGrpcResponse,
    res: HostGrpcResponse,
    name: Seq<char>,
) -> bool {
    let sent = sent_under(response.headers@, name) + sent_under(response.trailers@, name);
    match res {
        Ok(success) => {
            &&& response.status_code == 0
            &&& success.proto@ == response.proto@
            &&& held_under(header_contents(success.headers), name) == sent
        },
        Err(status) => {
            &&& response.status_code != 0
            &&& 0 < response.status_code <= 16 ==> status.code == response.status_code
            &&& response.status_code < 0 || response.status_code > 16 ==> status.code == 2
            &&& status.message@ == response.status_message@
            &&& status.details@ == response.status_details@
            &&& held_under(header_contents(status.metadata), name) == sent
        },
    }
}

pub(crate) proof fn lemma_converts(
    response: BridgeGrpcResponse,
    res: HostGrpcResponse,
    name: Seq<char>,
)
    requires
        super::metadata::converts_to(response, Ok(res)),
    ensures
        converts_response(response, res, name),
{
    lemma_storable(response.headers@, "response header"@);
    lemma_storable(response.trailers@, "response trailer"@);
    let none = super::headers::no_headers();
    lemma_sent_under(none, response.headers@, name);
    let front = with_entries(none, entry_pairs(response.headers@));
    lemma_sent_under(front, response.trailers@, name);
    assert(held_under(none, name) + sent_under(response.headers@, name) =~= sent_under(
        response.headers@,
        name,
    ));
}

/// A response of the host is refused only if an entry of it cannot be stored, or if it has more than
/// 6554 entries.
pub proof fn law_responses_are_refused_only_for_a_reason(
    response: BridgeGrpcResponse,
    error: String,
)
    requires
        call_ensures(into_grpc_response, (response,), Err(error)),
        forall|i: int|
            0 <= i < response.headers@.len() ==> can_be_stored(#[trigger] response.headers@[i]),
        forall|i: int|
            0 <= i < response.trailers@.len() ==> can_be_stored(#[trigger] response.trailers@[i]),
    ensures
        response.headers@.len() + response.trailers@.len() > 6554,
{
    lemma_all_storable(response.headers@, "response header"@);
    lemma_all_storable(response.trailers@, "response trailer"@);
}

proof fn lemma_all_storable(entries: Seq<MetadataEntry>, context: Seq<char>)
    requires
        forall|i: int| 0 <= i < entries.len() ==> can_be_stored(#[trigger] entries[i]),
    ensures
        super::metadata::storable(entry_pairs(entries), context),
{
    let pairs = entry_pairs(entries);
    assert forall|i: int| 0 <= i < pairs.len() implies super::metadata::entry_error(
        #[trigger] pairs[i],
        context,
    ) is None by {
        assert(pairs[i] == (entries[i].key@, entries[i].value@));
        assert(can_be_stored(entries[i]));
        lemma_ends_in_bin(entries[i].key@);
    }
}

/// Metadata that the host hands in comes back to the host as it was: once entries whose keys are
/// header names in lower case were added to an empty map, listing the map gives each key its values in
/// their order.
pub proof fn law_metadata_comes_back(
    headers: &mut HeaderMap<HeaderValue>,
    entries: &[MetadataEntry],
    context: &str,
    listed: Vec<MetadataEntry>,
    key: Seq<char>,
)
    requires
        call_ensures(append_metadata_entries, (headers, entries, context), Ok(())),
        header_contents(*old(headers)) == Map::<Seq<char>, Seq<Seq<u8>>>::empty(),
        forall|i: int|
            0 <= i < entries@.len() ==> named(
                (#[trigger] entries@[i]).key@,
                entries@[i].key@,
            ),
        call_ensures(header_map_into_metadata_entries, (*final(headers),), Ok(listed)),
    ensures
        listed_under(listed@, key) == listed_under(entries@, key),
{
    let pairs = entry_pairs(entries@);
    assert forall|i: int| 0 <= i < pairs.len() implies entry_name(#[trigger] pairs[i]) == Some(
        pairs[i].0,
    ) by {
        assert(named(entries@[i].key@, entries@[i].key@));
    }
    super::metadata::law_metadata_round_trip(pairs, entry_pairs(listed@), key);
    lemma_listed_under(listed@, key);
    lemma_listed_under(entries@, key);
}

/// Listed headers become entries one by one, each with its key, binary values decoded.
pub proof fn law_items_become_entries(
    items: Vec<MetadataItem>,
    entries: Vec<MetadataEntry>,
    i: int,
)
    requires
        call_ensures(metadata_entries_from_items, (items,), Ok(entries)),
        0 <= i < items@.len(),
    ensures
        entries@.len() == items@.len(),
        entries@[i].key@ == items@[i].key@,
        read_as(items@[i].key@, items@[i].value@) == Some(entries@[i].value@),
{
    lemma_ends_in_bin(items@[i].key@);
    assert(entries@[i].key@ == items@[i].key@);
}

/// Adding the entries stops at the one at `i`, behind entries that can all be stored, and the error
/// tells why: its key is no header name, its value is not one of a header, or there are too many names.
pub open spec fn stops_at(
    entries: Seq<MetadataEntry>,
    i: int,
    context: Seq<char>,
    error: Seq<char>,
) -> bool {
    &&& 0 <= i < entries.len()
    &&& forall|j: int| 0 <= j < i ==> can_be_stored(#[trigger] entries[j])
    &&& error == if header_name_of(encode_utf8(entries[i].key@)) is None {
        "invalid host gRPC "@ + context + " metadata name: "@ + "invalid HTTP header name"@
    } else if !can_be_stored(entries[i]) {
        "invalid host gRPC "@ + context + " metadata value: "@ + "failed to parse header value"@
    } else {
        "invalid host gRPC "@ + context + " metadata: "@ + "max size reached"@
    }
}

proof fn lemma_stops_at(
    before: Map<Seq<char>, Seq<Seq<u8>>>,
    entries: Seq<MetadataEntry>,
    context: Seq<char>,
    i: int,
    error: Seq<char>,
)
    requires
        super::metadata::stopped_at(before, entry_pairs(entries), context, i, error),
    ensures
        stops_at(entries, i, context, error),
        forall|name: Seq<char>|
            held_under(#[trigger] with_entries(before, entry_pairs(entries).take(i)), name)
                == held_under(before, name) + sent_under(entries.take(i), name),
{
    let pairs = entry_pairs(entries);
    let front = entries.take(i);
    assert(pairs.take(i) =~= entry_pairs(front));
    lemma_storable(front, context);
    assert forall|j: int| 0 <= j < i implies can_be_stored(#[trigger] entries[j]) by {
        assert(front[j] == entries[j]);
    }
    assert(pairs[i] == (entries[i].key@, entries[i].value@));
    lemma_ends_in_bin(entries[i].key@);
    assert forall|name: Seq<char>|
        held_under(#[trigger] with_entries(before, entry_pairs(entries).take(i)), name)
        == held_under(before, name) + sent_under(entries.take(i), name) by {
        lemma_sent_under(before, front, name);
    }
}

/// The entries up to the one at `i` were added under this name.
pub open spec fn added_up_to(
    before: Map<Seq<char>, Seq<Seq<u8>>>,
    after: Map<Seq<char>, Seq<Seq<u8>>>,
    entries: Seq<MetadataEntry>,
    i: int,
    name: Seq<char>,
) -> bool {
    held_under(after, name) == held_under(before, name) + sent_under(entries.take(i), name)
}

/// If adding entries fails, it stops at the first that cannot be stored, or where there are too many
/// names, and the error tells which; exactly the entries before that one are added.
pub proof fn law_adding_stops_at_the_first_bad_entry(
    headers: &mut HeaderMap<HeaderValue>,
    entries: &[MetadataEntry],
    context: &str,
    error: String,
)
    requires
        call_ensures(append_metadata_entries, (headers, entries, context), Err(error)),
    ensures
        exists|i: int| #[trigger]
            stops_at(entries@, i, context@, error@) && forall|name: Seq<char>| #[trigger]
                added_up_to(
                    header_contents(*old(headers)),
                    header_contents(*final(headers)),
                    entries@,
                    i,
                    name,
                ),
{
    let before = header_contents(*old(headers));
    let pairs = entry_pairs(entries@);
    let i = choose|i: int| #[trigger]
        super::metadata::stopped_at(before, pairs, context@, i, error@) && header_contents(
            *final(headers),
        ) == with_entries(before, pairs.take(i));
    lemma_stops_at(before, entries@, context@, i, error@);
    assert forall|name: Seq<char>| #[trigger]
        added_up_to(before, header_contents(*final(headers)), entries@, i, name) by {
        assert(held_under(with_entries(before, pairs.take(i)), name) == held_under(before, name)
            + sent_under(entries@.take(i), name));
    }
    assert(stops_at(entries@, i, context@, error@));
}

/// If a response is refused, it is for its first header that cannot be stored, or, if all headers can,
/// for its first such trailer; the error tells why.
pub proof fn law_responses_are_refused_for_their_first_bad_entry(
    response: BridgeGrpcResponse,
    error: String,
)
    requires
        call_ensures(into_grpc_response, (response,), Err(error)),
    ensures
        (exists|i: int| #[trigger] stops_at(response.headers@, i, "response header"@, error@)) || ((
        forall|i: int|
            0 <= i < response.headers@.len() ==> can_be_stored(#[trigger] response.headers@[i]))
            && exists|i: int| #[trigger]
            stops_at(response.trailers@, i, "response trailer"@, error@)),
{
    let none = super::headers::no_headers();
    let headers = entry_pairs(response.headers@);
    let trailers = entry_pairs(response.trailers@);
    if super::metadata::unstorable(none, headers, "response header"@, error@) {
        let i = choose|i: int| #[trigger]
            super::metadata::stopped_at(none, headers, "response header"@, i, error@);
        lemma_stops_at(none, response.headers@, "response header"@, i, error@);
    } else {
        let before = with_entries(none, headers);
        let i = choose|i: int| #[trigger]
            super::metadata::stopped_at(before, trailers, "response trailer"@, i, error@);
        lemma_stops_at(before, response.trailers@, "response trailer"@, i, error@);
        lemma_storable(response.headers@, "response header"@);
    }
}

/// Turning listed headers into entries fails only at the first binary value that does not decode, and
/// the error tells its key.
pub proof fn law_items_fail_at_the_first_undecodable_one(
    items: Vec<MetadataItem>,
    error: String,
) -> (i: int)
    requires
        call_ensures(metadata_entries_from_items, (items,), Err(error)),
    ensures
        0 <= i < items@.len(),
        ends_in_bin(items@[i].key@) && decoded_binary(items@[i].value@) is None,
        error@ == "invalid gRPC binary metadata value for "@ + items@[i].key@ + ": "@
            + "failed to parse metadata value"@,
        forall|j: int|
            0 <= j < i ==> read_as((#[trigger] items@[j]).key@, items@[j].value@) is Some,
{
    let i = choose|i: int|
        0 <= i < items@.len() && super::metadata::raw_value(
            (#[trigger] items@[i]).key@,
            items@[i].value@,
        ) is None && error@ == super::metadata::undecodable(items@[i].key@) && forall|j: int|
            0 <= j < i ==> super::metadata::raw_value(
                (#[trigger] items@[j]).key@,
                items@[j].value@,
            ) is Some;
    lemma_ends_in_bin(items@[i].key@);
    assert forall|j: int| 0 <= j < i implies read_as(
        (#[trigger] items@[j]).key@,
        items@[j].value@,
    ) is Some by {
        lemma_ends_in_bin(items@[j].key@);
        assert(super::metadata::raw_value(items@[j].key@, items@[j].value@) is Some);
    }
    i
}

} // verus!
