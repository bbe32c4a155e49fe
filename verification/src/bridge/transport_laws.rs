//! How requests reach the host, and responses the core.

use super::abi::BridgeOutput;
use super::abi_laws::{lemma_tells, lemma_tells_error, lemma_word, tells_error, tells_success};
use super::headers::{decoded_binary, header_contents};
use super::metadata::{converts_to, entry_pairs, lists_raw, BridgeGrpcResponse, HostGrpcResponse};
use super::metadata_laws::{ends_in_bin, lemma_ends_in_bin};
use super::state::{Bridge, CompleteOutput};
use super::transport::{
    encoded_grpc_request_len, ensure_host_transport_response_size, prepare_pending_grpc_request,
    response_or_cancelled, take_next_grpc_request_output, GrpcRequest, HostTransport,
    PendingGrpcRequest, TransportState,
};
use crate::status::Status;
use crate::text::decimal;
use vstd::prelude::*;

verus! {

/// A response of up to four mebibytes is taken in, and a larger one refused by its size.
pub proof fn law_large_responses_are_refused(len: usize, res: Result<(), String>)
    requires
        call_ensures(ensure_host_transport_response_size, (len,), res),
    ensures
        res is Ok <==> len <= 4 * 1024 * 1024,
        res matches Err(error) ==> error@ == "host transport response payload"@ + " is "@ + decimal(
            len as nat,
        ) + " bytes, exceeds "@ + decimal(4194304) + " byte limit"@,
{
}

/// A request whose length a result word can carry is taken at that length.
pub proof fn law_request_lengths_are_checked(len: usize, res: Result<usize, String>)
    requires
        call_ensures(encoded_grpc_request_len, (len,), res),
    ensures
        res is Ok <==> len <= 0xffff_ffff,
        res matches Ok(n) ==> n == len,
        res matches Err(error) ==> error@ == "gRPC request protobuf"@ + " is "@ + decimal(len as nat)
            + " bytes, exceeds the bridge ABI u32 length limit"@,
{
}

/// The request is the one of the core under this id: its service, its call and its message are as they
/// were, and its metadata is that of its headers.
pub open spec fn is_request_of(pending: PendingGrpcRequest, id: u64, request: GrpcRequest) -> bool {
    &&& pending.id == id
    &&& pending.service == request.service
    &&& pending.rpc == request.rpc
    &&& pending.proto@ == request.proto@
    &&& lists_raw(entry_pairs(pending.metadata@), header_contents(request.headers))
}

/// A header of the request has a binary value, one under a name that ends in `-bin`, that does not
/// decode, and the text tells which.
pub open spec fn has_undecodable_header(request: GrpcRequest, text: Seq<char>) -> bool {
    exists|key: Seq<char>, j: int|
        #![trigger header_contents(request.headers)[key][j]]
        header_contents(request.headers).contains_key(key) && 0 <= j < header_contents(
            request.headers,
        )[key].len() && ends_in_bin(key) && decoded_binary(
            header_contents(request.headers)[key][j],
        ) is None && text == "invalid gRPC binary metadata value for "@ + key + ": "@
            + "failed to parse metadata value"@
}

/// In the form of the host, the request takes this many bytes.
pub open spec fn takes<F: Fn(&PendingGrpcRequest) -> usize>(
    id: u64,
    request: GrpcRequest,
    encoded_len: F,
    n: usize,
) -> bool {
    exists|pending: PendingGrpcRequest|
        #![trigger call_ensures(encoded_len, (&pending,), n)]
        is_request_of(pending, id, request) && call_ensures(encoded_len, (&pending,), n)
}

/// The request is too long by itself, and the text tells how long it is and which limit that exceeds.
pub open spec fn is_too_long<F: Fn(&PendingGrpcRequest) -> usize>(
    id: u64,
    request: GrpcRequest,
    encoded_len: F,
    text: Seq<char>,
) -> bool {
    exists|n: usize| #[trigger]
        takes(id, request, encoded_len, n) && n > 4 * 1024 * 1024 && text == if n > 0xffff_ffff {
            "gRPC request protobuf"@ + " is "@ + decimal(n as nat)
                + " bytes, exceeds the bridge ABI u32 length limit"@
        } else {
            "host transport request protobuf"@ + " is "@ + decimal(n as nat) + " bytes, exceeds "@
                + decimal(4194304) + " byte limit"@
        }
}

/// The request fits by itself, but not with this many bytes queued, and the text tells how many it
/// would be.
pub open spec fn overfills_queue<F: Fn(&PendingGrpcRequest) -> usize>(
    id: u64,
    request: GrpcRequest,
    encoded_len: F,
    queued_bytes: int,
    text: Seq<char>,
) -> bool {
    exists|n: usize| #[trigger]
        takes(id, request, encoded_len, n) && n <= 4 * 1024 * 1024 && queued_bytes + n > 16 * 1024
            * 1024 && text == if queued_bytes + n > usize::MAX {
            "host transport queued request bytes overflowed usize"@
        } else {
            "host transport queued request bytes would grow to "@ + decimal(
                (queued_bytes + n) as nat,
            ) + ", exceeds "@ + decimal(16777216) + " byte limit"@
        }
}

/// The request fits by itself.
pub open spec fn fits_by_itself<F: Fn(&PendingGrpcRequest) -> usize>(
    id: u64,
    request: GrpcRequest,
    encoded_len: F,
) -> bool {
    exists|n: usize| #[trigger] takes(id, request, encoded_len, n) && n <= 4 * 1024 * 1024
}

proof fn lemma_undecodable(request: GrpcRequest, error: Seq<char>)
    requires
        super::transport::bad_metadata(header_contents(request.headers), error),
    ensures
        has_undecodable_header(request, error),
{
    let contents = header_contents(request.headers);
    let (key, j) = choose|key: Seq<char>, j: int|
        contents.contains_key(key) && 0 <= j < contents[key].len() && super::metadata::raw_value(
            key,
            #[trigger] contents[key][j],
        ) is None && error == super::metadata::undecodable(key);
    lemma_ends_in_bin(key);
    assert(decoded_binary(contents[key][j]) is None);
}

proof fn lemma_too_long<F: Fn(&PendingGrpcRequest) -> usize>(
    id: u64,
    request: GrpcRequest,
    encoded_len: F,
    error: Seq<char>,
)
    requires
        super::transport::bad_len(id, request, encoded_len, error),
    ensures
        is_too_long(id, request, encoded_len, error),
{
    let (pending, n) = choose|pending: PendingGrpcRequest, n: usize|
        #![trigger call_ensures(encoded_len, (&pending,), n)]
        super::transport::prepared_from(pending, id, request) && call_ensures(
            encoded_len,
            (&pending,),
            n,
        ) && super::transport::request_len_error(n as nat) == Some(error);
    assert(is_request_of(pending, id, request));
    assert(takes(id, request, encoded_len, n));
}

/// A request is brought into the form of the host as it is, with its encoded length, which is at most
/// four mebibytes. It is refused only if a header does not decode or it is longer, and the error tells
/// which.
pub proof fn law_requests_are_prepared<F: Fn(&PendingGrpcRequest) -> usize>(
    id: u64,
    request: GrpcRequest,
    encoded_len: &F,
    res: Result<(PendingGrpcRequest, usize), String>,
)
    requires
        call_ensures(prepare_pending_grpc_request::<F>, (id, request, encoded_len), res),
    ensures
        res matches Ok((pending, n)) ==> {
            &&& is_request_of(pending, id, request)
            &&& call_ensures(*encoded_len, (&pending,), n)
            &&& n <= 4 * 1024 * 1024
        },
        res matches Err(error) ==> has_undecodable_header(request, error@) || is_too_long(
            id,
            request,
            *encoded_len,
            error@,
        ),
{
    if let Err(error) = res {
        if super::transport::bad_metadata(header_contents(request.headers), error@) {
            lemma_undecodable(request, error@);
        } else {
            lemma_too_long(id, request, *encoded_len, error@);
        }
    }
}

/// A new transport is empty; resetting one forgets all requests and goes on with the ids; and what a
/// transport holds it tells.
pub proof fn law_transports_start_empty<R>(
    fresh: HostTransport<R>,
    default: HostTransport<R>,
    transport: &mut HostTransport<R>,
    asked: &HostTransport<R>,
    requests: usize,
    bytes: usize,
    in_flight: usize,
)
    requires
        call_ensures(HostTransport::<R>::new, (), fresh),
        call_ensures(<HostTransport<R> as Default>::default, (), default),
        call_ensures(HostTransport::<R>::reset, (transport,), ()),
        call_ensures(HostTransport::<R>::queued_requests, (asked,), requests),
        call_ensures(HostTransport::<R>::queued_bytes, (asked,), bytes),
        call_ensures(HostTransport::<R>::in_flight_requests, (asked,), in_flight),
    ensures
        fresh@.queue.len() == 0 && fresh@.queued_bytes == 0 && fresh@.next_id == 0,
        forall|id: u64| !#[trigger] fresh@.responders.contains_key(id),
        default@.queue.len() == 0 && default@.queued_bytes == 0 && default@.next_id == 0,
        forall|id: u64| !#[trigger] default@.responders.contains_key(id),
        final(transport)@.queue.len() == 0 && final(transport)@.queued_bytes == 0,
        final(transport)@.next_id == old(transport)@.next_id,
        forall|id: u64| !#[trigger] final(transport)@.responders.contains_key(id),
        requests == asked@.queue.len(),
        bytes == asked@.queued_bytes,
        in_flight == asked@.responders.len(),
{
}

/// A responder is registered under its id, beside the others, unless 1024 requests are in flight; then
/// nothing changes.
pub proof fn law_responders_are_registered<R>(
    transport: &mut HostTransport<R>,
    id: u64,
    responder: R,
    res: Result<(), String>,
)
    requires
        call_ensures(HostTransport::<R>::reserve_response_slot, (transport, id, responder), res),
    ensures
        res is Ok <==> old(transport)@.responders.len() < 1024,
        res is Ok ==> {
            &&& final(transport)@.responders.contains_key(id)
            &&& final(transport)@.responders[id] == responder
            &&& final(transport)@.responders.remove(id) =~= old(transport)@.responders.remove(id)
        },
        res is Err ==> final(transport)@.responders == old(transport)@.responders,
        res matches Err(error) ==> error@ == "host transport in-flight request limit of "@ + decimal(
            1024,
        ) + " reached"@,
        final(transport)@.queue == old(transport)@.queue,
        final(transport)@.queued_bytes == old(transport)@.queued_bytes,
        final(transport)@.next_id == old(transport)@.next_id,
{
}

/// A request is queued behind the others, and its bytes are counted, if it takes at most four mebibytes
/// and all queued ones together at most sixteen; otherwise nothing changes.
pub proof fn law_requests_are_queued_last<R>(
    transport: &mut HostTransport<R>,
    request: PendingGrpcRequest,
    bytes: usize,
    res: Result<(), String>,
)
    requires
        call_ensures(HostTransport::<R>::enqueue_request, (transport, request, bytes), res),
        0 <= old(transport)@.queued_bytes <= 16 * 1024 * 1024,
    ensures
        res is Ok <==> bytes <= 4 * 1024 * 1024 && old(transport)@.queued_bytes + bytes <= 16 * 1024
            * 1024,
        res is Ok ==> {
            &&& final(transport)@.queue.len() == old(transport)@.queue.len() + 1
            &&& final(transport)@.queue.last() == request
            &&& final(transport)@.queue.drop_last() =~= old(transport)@.queue
            &&& final(transport)@.queued_bytes == old(transport)@.queued_bytes + bytes
        },
        res is Err ==> final(transport)@.queue == old(transport)@.queue
            && final(transport)@.queued_bytes == old(transport)@.queued_bytes,
        final(transport)@.responders == old(transport)@.responders,
        final(transport)@.next_id == old(transport)@.next_id,
{
    let queue = old(transport)@.queue;
    assert(queue.push(request).drop_last() =~= queue);
}

/// A response goes to the responder that was registered under its id, once; no other is touched. An id
/// under which none is registered is told to be unknown.
pub proof fn law_responses_reach_their_responder<R>(
    transport: &mut HostTransport<R>,
    id: u64,
    res: Result<R, String>,
)
    requires
        call_ensures(HostTransport::<R>::complete, (transport, id), res),
    ensures
        res is Ok <==> old(transport)@.responders.contains_key(id),
        res matches Ok(responder) ==> responder == old(transport)@.responders[id]
            && final(transport)@.responders =~= old(transport)@.responders.remove(id),
        res matches Err(error) ==> error@ == "unknown host transport request id "@ + decimal(
            id as nat,
        ) && final(transport)@.responders == old(transport)@.responders,
        final(transport)@.queue == old(transport)@.queue,
        final(transport)@.queued_bytes == old(transport)@.queued_bytes,
        final(transport)@.next_id == old(transport)@.next_id,
{
}

/// The request was queued last under this id, with its responder, and takes this many bytes.
pub open spec fn is_queued<R>(
    before: TransportState<R>,
    after: TransportState<R>,
    pending: PendingGrpcRequest,
    n: usize,
    responder: R,
) -> bool {
    &&& after.queue.len() == before.queue.len() + 1
    &&& after.queue.last() == pending
    &&& after.queue.drop_last() =~= before.queue
    &&& after.queued_bytes == before.queued_bytes + n
    &&& n <= 4 * 1024 * 1024
    &&& after.queued_bytes <= 16 * 1024 * 1024
    &&& after.responders.contains_key(pending.id)
    &&& after.responders[pending.id] == responder
    &&& after.responders.remove(pending.id) =~= before.responders.remove(pending.id)
}

/// A call of the core takes the next id, which starts over behind the last one. If it is queued, it is
/// the last request, as the core made it, and its responder waits under that id. If not, it leaves no
/// trace but the id: the queue and the responders of other calls are as they were. It is refused only
/// if a header does not decode, it is too long by itself or with those queued, or 1024 are in flight.
pub proof fn law_calls_are_queued<R, F: Fn(&PendingGrpcRequest) -> usize>(
    transport: &mut HostTransport<R>,
    request: GrpcRequest,
    responder: R,
    encoded_len: &F,
    res: Result<u64, Status>,
)
    requires
        call_ensures(
            HostTransport::<R>::call::<F>,
            (transport, request, responder, encoded_len),
            res,
        ),
    ensures
        old(transport)@.next_id < u64::MAX ==> final(transport)@.next_id == old(transport)@.next_id
            + 1,
        old(transport)@.next_id == u64::MAX ==> final(transport)@.next_id == 0,
        res matches Ok(id) ==> {
            &&& id == old(transport)@.next_id
            &&& old(transport)@.responders.len() < 1024
            &&& exists|pending: PendingGrpcRequest, n: usize|
                #![trigger call_ensures(*encoded_len, (&pending,), n)]
                call_ensures(*encoded_len, (&pending,), n) && is_request_of(pending, id, request)
                    && is_queued(old(transport)@, final(transport)@, pending, n, responder)
        },
        res matches Err(status) ==> {
            &&& status.code == 8
            &&& final(transport)@.queue == old(transport)@.queue
            &&& final(transport)@.queued_bytes == old(transport)@.queued_bytes
            &&& final(transport)@.responders.remove(old(transport)@.next_id) =~= old(
                transport,
            )@.responders.remove(old(transport)@.next_id)
            &&& status.details@.len() == 0
            &&& {
                ||| has_undecodable_header(request, status.message@)
                ||| is_too_long(
                    old(transport)@.next_id,
                    request,
                    *encoded_len,
                    status.message@,
                )
                ||| {
                    &&& old(transport)@.responders.len() >= 1024
                    &&& fits_by_itself(old(transport)@.next_id, request, *encoded_len)
                    &&& status.message@ == "host transport in-flight request limit of "@ + decimal(
                        1024,
                    ) + " reached"@
                }
                ||| {
                    &&& old(transport)@.responders.len() < 1024
                    &&& overfills_queue(
                        old(transport)@.next_id,
                        request,
                        *encoded_len,
                        old(transport)@.queued_bytes,
                        status.message@,
                    )
                }
            }
        },
{
    let before = old(transport)@;
    let after = final(transport)@;
    if let Ok(id) = res {
        let (pending, n) = choose|pending: PendingGrpcRequest, n: usize|
            #![trigger call_ensures(*encoded_len, (&pending,), n)]
            super::transport::prepared_from(pending, before.next_id, request) && call_ensures(
                *encoded_len,
                (&pending,),
                n,
            ) && before.enqueue_error(n as int) is None && after == before.id_given().reserved(
                before.next_id,
                responder,
            ).enqueued(pending, n as int);
        assert(before.queue.push(pending).drop_last() =~= before.queue);
        assert(is_queued(before, after, pending, n, responder));
        assert(is_request_of(pending, id, request));
    }
    if let Err(status) = res {
        let error = status.message@;
        if super::transport::bad_metadata(header_contents(request.headers), error) {
            lemma_undecodable(request, error);
        } else if super::transport::bad_len(before.next_id, request, *encoded_len, error) {
            lemma_too_long(before.next_id, request, *encoded_len, error);
        } else if before.responders.len() < 1024 {
            let (pending, n) = choose|pending: PendingGrpcRequest, n: usize|
                #![trigger call_ensures(*encoded_len, (&pending,), n)]
                super::transport::prepared_from(pending, before.next_id, request) && call_ensures(
                    *encoded_len,
                    (&pending,),
                    n,
                ) && super::transport::request_len_error(n as nat) is None && before.enqueue_error(
                    n as int,
                ) == Some(error);
            assert(is_request_of(pending, before.next_id, request));
            assert(takes(before.next_id, request, *encoded_len, n));
        } else {
            let (pending, n) = choose|pending: PendingGrpcRequest, n: usize|
                #![trigger call_ensures(*encoded_len, (&pending,), n)]
                super::transport::prepared_from(pending, before.next_id, request) && call_ensures(
                    *encoded_len,
                    (&pending,),
                    n,
                ) && super::transport::request_len_error(n as nat) is None;
            assert(is_request_of(pending, before.next_id, request));
            assert(takes(before.next_id, request, *encoded_len, n));
        }
    }
}

/// A call whose responder was dropped without a response is cancelled; any response is passed on.
pub proof fn law_dropped_responses_are_cancelled<T>(
    response: Option<Result<T, Status>>,
    res: Result<T, Status>,
)
    requires
        call_ensures(response_or_cancelled::<T>, (response,), res),
    ensures
        response matches Some(received) ==> res == received,
        response is None ==> (res matches Err(status) && status.code == 1 && status.message@
            == "host transport response was dropped"@ && status.details@.len() == 0),
{
}

/// The first request, which encodes to these bytes, was offered to a buffer of this capacity. One that
/// fits is handed over whole, with its length as the word, and is the first no more; for one that does
/// not, the word tells how large the buffer has to be, and it stays first.
pub open spec fn is_offered<R>(
    before: TransportState<R>,
    after: TransportState<R>,
    encoded: Seq<u8>,
    capacity: usize,
    word: i64,
    bytes: Seq<u8>,
) -> bool {
    let n = encoded.len();
    &&& after.next_id == before.next_id
    &&& after.responders == before.responders
    &&& n <= capacity && n <= 0xffff_ffff && n <= before.queued_bytes ==> {
        &&& word == n
        &&& bytes == encoded
        &&& after.queue =~= before.queue.subrange(1, before.queue.len() as int)
        &&& after.queued_bytes == before.queued_bytes - n
    }
    &&& capacity < n <= 0xffff_ffff ==> {
        &&& word == 2 * 0x1_0000_0000 + n
        &&& bytes.len() == 0
        &&& after == before
    }
    &&& n <= capacity && n <= 0xffff_ffff && n > before.queued_bytes ==> {
        &&& tells_error(
            word,
            bytes,
            capacity as int,
            "host transport queued request bytes underflowed usize"@,
        )
        &&& after.queue =~= before.queue.subrange(1, before.queue.len() as int)
        &&& after.queued_bytes == before.queued_bytes
    }
    &&& n > 0xffff_ffff ==> after == before && tells_error(
        word,
        bytes,
        capacity as int,
        "gRPC request protobuf"@ + " is "@ + decimal(n)
            + " bytes, exceeds the bridge ABI u32 length limit"@,
    )
}

proof fn lemma_offered<R>(
    before: TransportState<R>,
    after: TransportState<R>,
    encoded: Seq<u8>,
    capacity: usize,
    answer: super::abi::Output,
)
    requires
        before.queue.len() > 0,
        answer == before.request_answer(encoded, capacity as int),
        after == before.request_taken(encoded.len() as int, capacity as int),
    ensures
        is_offered(before, after, encoded, capacity, answer.word, answer.bytes),
{
    let n = encoded.len();
    if n <= 0xffff_ffff {
        lemma_word(0i32, n as u32);
        lemma_word(2i32, n as u32);
    }
    lemma_tells_error(
        capacity as int,
        super::abi::over_abi_limit("gRPC request protobuf"@, n),
    );
    lemma_tells_error(
        capacity as int,
        "host transport queued request bytes underflowed usize"@,
    );
    assert(before.queue.skip(1) =~= before.queue.subrange(1, before.queue.len() as int));
}

/// Requests reach the host first come first, each in the form in which it is encoded. Without any, the
/// host is told to come again.
pub proof fn law_requests_are_handed_over<R, F: Fn(&PendingGrpcRequest) -> Vec<u8>>(
    transport: &mut HostTransport<R>,
    capacity: usize,
    encode: &F,
    res: BridgeOutput,
)
    requires
        call_ensures(take_next_grpc_request_output::<R, F>, (transport, capacity, encode), res),
    ensures
        old(transport)@.queue.len() == 0 ==> res.word == 0x1_0000_0000 && res.bytes@.len() == 0
            && final(transport)@ == old(transport)@,
        old(transport)@.queue.len() > 0 ==> exists|encoded: Vec<u8>|
            #![trigger call_ensures(*encode, (&old(transport)@.queue[0],), encoded)]
            call_ensures(*encode, (&old(transport)@.queue[0],), encoded) && is_offered(
                old(transport)@,
                final(transport)@,
                encoded@,
                capacity,
                res.word,
                res.bytes@,
            ),
{
    lemma_word(1i32, 0u32);
    assert(res@.word == res.word && res@.bytes == res.bytes@);
    let before = old(transport)@;
    if before.queue.len() > 0 {
        let encoded = choose|encoded: Vec<u8>|
            #[trigger] call_ensures(*encode, (&before.queue[0],), encoded) && res@
                == before.request_answer(encoded@, capacity as int) && final(transport)@
                == before.request_taken(encoded@.len() as int, capacity as int);
        lemma_offered(before, final(transport)@, encoded@, capacity, res@);
    }
}

/// The host takes the first queued request by a call of the bridge, which leaves the worker as it is.
pub proof fn law_take_grpc_request<T, W, C, K, R, F: Fn(&PendingGrpcRequest) -> Vec<u8>>(
    bridge: &mut Bridge<T, W, C, K, R>,
    capacity: usize,
    encode: &F,
    res: BridgeOutput,
)
    requires
        call_ensures(
            Bridge::<T, W, C, K, R>::temporal_core_take_grpc_request::<F>,
            (bridge, capacity, encode),
            res,
        ),
    ensures
        final(bridge).state == old(bridge).state,
        old(bridge).transport@.queue.len() == 0 ==> res.word == 0x1_0000_0000 && res.bytes@.len()
            == 0 && final(bridge).transport@ == old(bridge).transport@,
        old(bridge).transport@.queue.len() > 0 ==> exists|encoded: Vec<u8>|
            #![trigger call_ensures(*encode, (&old(bridge).transport@.queue[0],), encoded)]
            call_ensures(*encode, (&old(bridge).transport@.queue[0],), encoded) && is_offered(
                old(bridge).transport@,
                final(bridge).transport@,
                encoded@,
                capacity,
                res.word,
                res.bytes@,
            ),
{
    lemma_word(1i32, 0u32);
    assert(res@.word == res.word && res@.bytes == res.bytes@);
    let before = old(bridge).transport@;
    if before.queue.len() > 0 {
        let encoded = choose|encoded: Vec<u8>|
            #[trigger] call_ensures(*encode, (&before.queue[0],), encoded) && res@
                == before.request_answer(encoded@, capacity as int) && final(bridge).transport@
                == before.request_taken(encoded@.len() as int, capacity as int);
        lemma_offered(before, final(bridge).transport@, encoded@, capacity, res@);
    }
}

/// The response could not be decoded, and the answer tells why.
pub open spec fn is_undecoded<R, F: FnOnce(&[u8]) -> Result<BridgeGrpcResponse, String>>(
    response: &[u8],
    decode: F,
    capacity: usize,
    res: CompleteOutput<R>,
) -> bool {
    exists|error: String|
        #![trigger call_ensures(decode, (response,), Err(error))]
        call_ensures(decode, (response,), Err(error)) && tells_error(
            res.output.word,
            res.output.bytes@,
            capacity as int,
            "invalid host gRPC response protobuf: "@ + error@,
        )
}

/// The decoded response could not be converted, and the answer tells why.
pub open spec fn is_unconverted<R, F: FnOnce(&[u8]) -> Result<BridgeGrpcResponse, String>>(
    response: &[u8],
    decode: F,
    capacity: usize,
    res: CompleteOutput<R>,
) -> bool {
    exists|decoded: BridgeGrpcResponse, error: String|
        #![trigger call_ensures(decode, (response,), Ok(decoded)), converts_to(decoded, Err(error))]
        call_ensures(decode, (response,), Ok(decoded)) && converts_to(decoded, Err(error))
            && tells_error(res.output.word, res.output.bytes@, capacity as int, error@)
}

/// A response that the host returns is decoded and converted for the core, and goes to the responder
/// of its request, which waits no more. One that is too large, cannot be decoded or converted, or
/// belongs to no request that waits, is refused, and nothing changes.
pub proof fn law_complete_grpc_request<
    T,
    W,
    C,
    K,
    R,
    F: FnOnce(&[u8]) -> Result<BridgeGrpcResponse, String>,
>(
    bridge: &mut Bridge<T, W, C, K, R>,
    id: u64,
    response: &[u8],
    capacity: usize,
    decode: F,
    res: CompleteOutput<R>,
)
    requires
        call_ensures(
            Bridge::<T, W, C, K, R>::temporal_core_complete_grpc_request::<F>,
            (bridge, id, response, capacity, decode),
            res,
        ),
    ensures
        final(bridge).state == old(bridge).state,
        res.delivery is None ==> final(bridge).transport@ == old(bridge).transport@
            && res.output.word < 0,
        res.delivery matches Some((responder, delivered)) ==> {
            &&& tells_success(res.output.word, res.output.bytes@)
            &&& response@.len() <= 4 * 1024 * 1024
            &&& old(bridge).transport@.responders.contains_key(id)
            &&& responder == old(bridge).transport@.responders[id]
            &&& final(bridge).transport@.responders =~= old(bridge).transport@.responders.remove(id)
            &&& final(bridge).transport@.queue == old(bridge).transport@.queue
            &&& final(bridge).transport@.queued_bytes == old(bridge).transport@.queued_bytes
            &&& final(bridge).transport@.next_id == old(bridge).transport@.next_id
            &&& exists|decoded: BridgeGrpcResponse|
                #![trigger call_ensures(decode, (response,), Ok(decoded))]
                call_ensures(decode, (response,), Ok(decoded)) && converts_to(
                    decoded,
                    Ok(delivered),
                )
        },
        response@.len() > 4 * 1024 * 1024 ==> res.delivery is None,
        !old(bridge).transport@.responders.contains_key(id) ==> res.delivery is None,
        res.delivery is None && response@.len() <= 4 * 1024 * 1024
            && old(bridge).transport@.responders.contains_key(id) ==> is_undecoded(
            response,
            decode,
            capacity,
            res,
        ) || is_unconverted(response, decode, capacity, res),
{
    assert(res.output@.word == res.output.word && res.output@.bytes == res.output.bytes@);
    let before = old(bridge).transport@;
    lemma_tells(
        capacity,
        super::transport::over_message_limit("host transport response payload"@, response@.len()),
    );
    lemma_tells(capacity, "unknown host transport request id "@ + decimal(id as nat));
    if response@.len() <= 4 * 1024 * 1024 {
        let decoded = choose|decoded: Result<BridgeGrpcResponse, String>| #[trigger]
            call_ensures(decode, (response,), decoded) && super::state::response_taken_in(
                before,
                final(bridge).transport@,
                id,
                decoded,
                capacity,
                res,
            );
        match decoded {
            Err(error) => {
                lemma_tells(capacity, "invalid host gRPC response protobuf: "@ + error@);
                assert(call_ensures(decode, (response,), Err(error)));
            },
            Ok(bridged) => {
                assert(call_ensures(decode, (response,), Ok(bridged)));
                let converted = choose|converted: Result<HostGrpcResponse, String>| #[trigger]
                    converts_to(bridged, converted) && match converted {
                        Err(error) => {
                            &&& final(bridge).transport@ == before
                            &&& res.delivery is None
                            &&& res.output@ == super::state::failed(capacity, error@)
                        },
                        Ok(delivered) => if before.responders.contains_key(id) {
                            &&& final(bridge).transport@ == (TransportState {
                                responders: before.responders.remove(id),
                                ..before
                            })
                            &&& res.delivery == Some((before.responders[id], delivered))
                            &&& res.output@ == super::state::succeeded(capacity)
                        } else {
                            &&& final(bridge).transport@ == before
                            &&& res.delivery is None
                            &&& res.output@ == super::state::failed(
                                capacity,
                                "unknown host transport request id "@ + decimal(id as nat),
                            )
                        },
                    };
                if let Err(error) = converted {
                    lemma_tells(capacity, error@);
                    assert(converts_to(bridged, Err(error)));
                }
            },
        }
    }
}

} // verus!
