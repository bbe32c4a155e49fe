//! gRPC requests that the core queues and that the host serves.

use super::abi::{
    bare_output, buffer_too_small_result, error_output, over_abi_limit, pack_result, packed,
    write_error, BridgeOutput, Output, BRIDGE_ABI_U32_LIMIT, BRIDGE_BUFFER_TOO_SMALL,
    BRIDGE_PENDING,
};
use super::headers::header_contents;
use super::metadata::{
    entry_pairs, header_map_into_metadata_entries, lists_raw, raw_value, undecodable, MetadataEntry,
};
use crate::status::{Status, CODE_CANCELLED, CODE_RESOURCE_EXHAUSTED};
use crate::text::{decimal, decimal_string, join2, join3, join4, join5};
use http::header::{HeaderMap, HeaderValue};
use std::collections::{HashMap, VecDeque};
use vstd::prelude::*;

verus! {

broadcast use vstd::std_specs::hash::group_hash_axioms;

/// How many requests may wait for a response.
pub const MAX_HOST_TRANSPORT_IN_FLIGHT_REQUESTS: usize = 1024;

/// The size of the largest request or response.
pub const MAX_HOST_TRANSPORT_MESSAGE_BYTES: usize = 4_194_304;

/// How many bytes the queued requests may take together.
pub const MAX_HOST_TRANSPORT_QUEUED_BYTES: usize = 16_777_216;

/// A request as the core makes it.
#[derive(Debug)]
pub struct GrpcRequest {
    pub service: String,
    pub rpc: String,
    pub headers: HeaderMap<HeaderValue>,
    pub proto: Vec<u8>,
}

/// A request as the host takes it.
#[derive(Debug)]
pub struct PendingGrpcRequest {
    pub id: u64,
    pub service: String,
    pub rpc: String,
    pub metadata: Vec<MetadataEntry>,
    pub proto: Vec<u8>,
}

/// `{what} is {len} bytes, exceeds {limit} byte limit`
pub open spec fn over_message_limit(what: Seq<char>, len: nat) -> Seq<char> {
    what + " is "@ + decimal(len) + " bytes, exceeds "@ + decimal(
        MAX_HOST_TRANSPORT_MESSAGE_BYTES as nat,
    ) + " byte limit"@
}

fn message_limit_error(what: &str, len: usize) -> (res: String)
    ensures
        res@ == over_message_limit(what@, len as nat),
{
    join5(
        what,
        " is ",
        decimal_string(len as u64).as_str(),
        " bytes, exceeds ",
        decimal_string(MAX_HOST_TRANSPORT_MESSAGE_BYTES as u64).as_str(),
    ).concat(" byte limit")
}

/// Refuses responses over the size limit.
pub fn ensure_host_transport_response_size(response_len: usize) -> (res: Result<(), String>)
    ensures
        match res {
            Ok(_) => response_len <= MAX_HOST_TRANSPORT_MESSAGE_BYTES,
            Err(error) => response_len > MAX_HOST_TRANSPORT_MESSAGE_BYTES && error@
                == over_message_limit("host transport response payload"@, response_len as nat),
        },
{
    if response_len > MAX_HOST_TRANSPORT_MESSAGE_BYTES {
        return Err(message_limit_error("host transport response payload", response_len));
    }
    Ok(())
}

/// Refuses encoded lengths that no result word can carry.
pub fn encoded_grpc_request_len(encoded_len: usize) -> (res: Result<usize, String>)
    ensures
        match res {
            Ok(len) => len == encoded_len && encoded_len <= u32::MAX,
            Err(error) => encoded_len > u32::MAX && error@ == over_abi_limit(
                "gRPC request protobuf"@,
                encoded_len as nat,
            ),
        },
{
    if encoded_len > BRIDGE_ABI_U32_LIMIT {
        return Err(
            join4(
                "gRPC request protobuf",
                " is ",
                decimal_string(encoded_len as u64).as_str(),
                " bytes, exceeds the bridge ABI u32 length limit",
            ),
        );
    }
    Ok(encoded_len)
}

/// `pending` is `request` under `id`, with its metadata in the form of the host.
pub open spec fn prepared_from(pending: PendingGrpcRequest, id: u64, request: GrpcRequest) -> bool {
    &&& pending.id == id
    &&& pending.service == request.service
    &&& pending.rpc == request.rpc
    &&& pending.proto == request.proto
    &&& lists_raw(entry_pairs(pending.metadata@), header_contents(request.headers))
}

/// What is wrong with the encoded length of a request, if anything.
pub open spec fn request_len_error(len: nat) -> Option<Seq<char>> {
    if len > u32::MAX {
        Some(over_abi_limit("gRPC request protobuf"@, len))
    } else if len > MAX_HOST_TRANSPORT_MESSAGE_BYTES {
        Some(over_message_limit("host transport request protobuf"@, len))
    } else {
        None
    }
}

/// The metadata of a request holds a binary value that does not decode, and the error says so.
pub open spec fn bad_metadata(
    contents: Map<Seq<char>, Seq<Seq<u8>>>,
    error: Seq<char>,
) -> bool {
    exists|key: Seq<char>, j: int|
        contents.contains_key(key) && 0 <= j < contents[key].len() && raw_value(
            key,
            #[trigger] contents[key][j],
        ) is None && error == undecodable(key)
}

/// The prepared request is too long by what `encoded_len` says, and the error says so.
pub open spec fn bad_len<F: Fn(&PendingGrpcRequest) -> usize>(
    id: u64,
    request: GrpcRequest,
    encoded_len: F,
    error: Seq<char>,
) -> bool {
    exists|pending: PendingGrpcRequest, n: usize|
        #![trigger call_ensures(encoded_len, (&pending,), n)]
        prepared_from(pending, id, request) && call_ensures(encoded_len, (&pending,), n)
            && request_len_error(n as nat) == Some(error)
}

/// The request has a form for the host, and by what `encoded_len` says it is not too long.
pub open spec fn can_be_prepared<F: Fn(&PendingGrpcRequest) -> usize>(
    id: u64,
    request: GrpcRequest,
    encoded_len: F,
) -> bool {
    exists|pending: PendingGrpcRequest, n: usize|
        #![trigger call_ensures(encoded_len, (&pending,), n)]
        prepared_from(pending, id, request) && call_ensures(encoded_len, (&pending,), n)
            && request_len_error(n as nat) is None
}

/// Brings a request into the form of the host, and checks its size.
///
/// `encoded_len` gives the encoded length of a request.
pub fn prepare_pending_grpc_request<F: Fn(&PendingGrpcRequest) -> usize>(
    id: u64,
    request: GrpcRequest,
    encoded_len: &F,
) -> (res: Result<(PendingGrpcRequest, usize), String>)
    requires
        forall|pending: PendingGrpcRequest|
            prepared_from(pending, id, request) ==> #[trigger] call_requires(
                *encoded_len,
                (&pending,),
            ),
    ensures
        match res {
            Ok((pending, n)) => {
                &&& prepared_from(pending, id, request)
                &&& call_ensures(*encoded_len, (&pending,), n)
                &&& n <= MAX_HOST_TRANSPORT_MESSAGE_BYTES
            },
            Err(error) => bad_metadata(header_contents(request.headers), error@) || bad_len(
                id,
                request,
                *encoded_len,
                error@,
            ),
        },
{
    let metadata = match header_map_into_metadata_entries(request.headers) {
        Ok(metadata) => metadata,
        Err(error) => {
            return Err(error);
        },
    };
    let pending = PendingGrpcRequest {
        id,
        service: request.service,
        rpc: request.rpc,
        metadata,
        proto: request.proto,
    };
    let n: usize = encoded_len(&pending);
    let request_bytes: usize = match encoded_grpc_request_len(n) {
        Ok(len) => len,
        Err(error) => {
            assert(prepared_from(pending, id, request) && call_ensures(*encoded_len, (&pending,), n)
                && request_len_error(n as nat) == Some(error@));
            return Err(error);
        },
    };
    if request_bytes > MAX_HOST_TRANSPORT_MESSAGE_BYTES {
        let error = message_limit_error("host transport request protobuf", request_bytes);
        assert(prepared_from(pending, id, request) && call_ensures(*encoded_len, (&pending,), n)
            && request_len_error(n as nat) == Some(error@));
        return Err(error);
    }
    Ok((pending, request_bytes))
}

/// Queued requests, and the responders of those that were not answered.
///
/// `R` is the handle by which a response reaches the core.
#[derive(Debug)]
pub struct HostTransport<R> {
    next_id: u64,
    queue: VecDeque<PendingGrpcRequest>,
    queued_bytes: usize,
    responders: HashMap<u64, R>,
}

/// Mathematical counterpart of [`HostTransport`].
pub struct TransportState<R> {
    /// The id of the next request.
    pub next_id: u64,
    /// Requests that the host did not take, first come first.
    pub queue: Seq<PendingGrpcRequest>,
    /// How many bytes those requests take.
    pub queued_bytes: int,
    /// Responders of requests that were not answered.
    pub responders: Map<u64, R>,
}

impl<R> View for HostTransport<R> {
    type V = TransportState<R>;

    closed spec fn view(&self) -> TransportState<R> {
        TransportState {
            next_id: self.next_id,
            queue: self.queue@,
            queued_bytes: self.queued_bytes as int,
            responders: self.responders@,
        }
    }
}

/// The error text for too many requests in flight.
pub open spec fn in_flight_limit() -> Seq<char> {
    "host transport in-flight request limit of "@ + decimal(
        MAX_HOST_TRANSPORT_IN_FLIGHT_REQUESTS as nat,
    ) + " reached"@
}

/// The error text for a queue that would grow to `bytes` bytes.
pub open spec fn queue_limit(bytes: nat) -> Seq<char> {
    "host transport queued request bytes would grow to "@ + decimal(bytes) + ", exceeds "@
        + decimal(MAX_HOST_TRANSPORT_QUEUED_BYTES as nat) + " byte limit"@
}

/// The error text for a byte count that does not fit.
pub open spec fn queue_overflow() -> Seq<char> {
    "host transport queued request bytes overflowed usize"@
}

impl<R> TransportState<R> {
    /// The transport is within its limits.
    pub open spec fn wf(self) -> bool {
        &&& self.responders.dom().finite()
        &&& self.responders.len() <= MAX_HOST_TRANSPORT_IN_FLIGHT_REQUESTS
        &&& 0 <= self.queued_bytes <= MAX_HOST_TRANSPORT_QUEUED_BYTES
    }

    /// The transport with a responder for `id`.
    pub open spec fn reserved(self, id: u64, response_tx: R) -> TransportState<R> {
        TransportState { responders: self.responders.insert(id, response_tx), ..self }
    }

    /// Why a request of `bytes` bytes cannot be queued, if it cannot.
    pub open spec fn enqueue_error(self, bytes: int) -> Option<Seq<char>> {
        if bytes > MAX_HOST_TRANSPORT_MESSAGE_BYTES {
            Some(over_message_limit("host transport request protobuf"@, bytes as nat))
        } else if self.queued_bytes + bytes > usize::MAX {
            Some(queue_overflow())
        } else if self.queued_bytes + bytes > MAX_HOST_TRANSPORT_QUEUED_BYTES {
            Some(queue_limit((self.queued_bytes + bytes) as nat))
        } else {
            None
        }
    }

    /// The transport with `request` queued.
    pub open spec fn enqueued(self, request: PendingGrpcRequest, bytes: int) -> TransportState<R> {
        TransportState {
            queue: self.queue.push(request),
            queued_bytes: self.queued_bytes + bytes,
            ..self
        }
    }

    /// What taking the first request answers, if it encodes to `encoded`.
    pub open spec fn request_answer(self, encoded: Seq<u8>, capacity: int) -> Output {
        let n = encoded.len();
        if n > u32::MAX {
            error_output(capacity, over_abi_limit("gRPC request protobuf"@, n))
        } else if n > capacity {
            bare_output(packed(BRIDGE_BUFFER_TOO_SMALL, n as u32))
        } else if self.queued_bytes < n {
            error_output(capacity, "host transport queued request bytes underflowed usize"@)
        } else {
            Output { word: packed(0, n as u32), bytes: encoded }
        }
    }

    /// The transport after the first request was taken, if it encodes to `len` bytes.
    pub open spec fn request_taken(self, len: int, capacity: int) -> TransportState<R> {
        if len > u32::MAX || len > capacity {
            self
        } else {
            TransportState {
                queue: self.queue.skip(1),
                queued_bytes: if self.queued_bytes < len {
                    self.queued_bytes
                } else {
                    self.queued_bytes - len
                },
                ..self
            }
        }
    }
}

impl<R> HostTransport<R> {
    /// A transport without requests.
    pub fn new() -> (res: Self)
        ensures
            res@.next_id == 0,
            res@.queue.len() == 0,
            res@.queued_bytes == 0,
            res@.responders == Map::<u64, R>::empty(),
            res@.wf(),
    {
        HostTransport {
            next_id: 0,
            queue: VecDeque::new(),
            queued_bytes: 0,
            responders: HashMap::new(),
        }
    }

    /// How many requests the host did not take.
    pub fn queued_requests(&self) -> (res: usize)
        ensures
            res == self@.queue.len(),
    {
        self.queue.len()
    }

    /// How many bytes those requests take.
    pub fn queued_bytes(&self) -> (res: usize)
        ensures
            res == self@.queued_bytes,
    {
        self.queued_bytes
    }

    /// How many requests were not answered.
    pub fn in_flight_requests(&self) -> (res: usize)
        ensures
            res == self@.responders.len(),
    {
        self.responders.len()
    }

    /// Registers the responder of request `id`.
    pub fn reserve_response_slot(&mut self, id: u64, response_tx: R) -> (res: Result<(), String>)
        ensures
            match res {
                Ok(_) => old(self)@.responders.len() < MAX_HOST_TRANSPORT_IN_FLIGHT_REQUESTS
                    && final(self)@ == old(self)@.reserved(id, response_tx),
                Err(error) => old(self)@.responders.len() >= MAX_HOST_TRANSPORT_IN_FLIGHT_REQUESTS
                    && final(self)@ == old(self)@ && error@ == in_flight_limit(),
            },
            old(self)@.wf() ==> final(self)@.wf(),
    {
        if self.responders.len() >= MAX_HOST_TRANSPORT_IN_FLIGHT_REQUESTS {
            return Err(
                join3(
                    "host transport in-flight request limit of ",
                    decimal_string(MAX_HOST_TRANSPORT_IN_FLIGHT_REQUESTS as u64).as_str(),
                    " reached",
                ),
            );
        }
        self.responders.insert(id, response_tx);
        Ok(())
    }

    /// Queues a request that takes `request_bytes` bytes.
    pub fn enqueue_request(&mut self, request: PendingGrpcRequest, request_bytes: usize) -> (res:
        Result<(), String>)
        ensures
            match res {
                Ok(_) => old(self)@.enqueue_error(request_bytes as int) is None && final(self)@
                    == old(self)@.enqueued(request, request_bytes as int),
                Err(error) => old(self)@.enqueue_error(request_bytes as int) == Some(error@)
                    && final(self)@ == old(self)@,
            },
            old(self)@.wf() ==> final(self)@.wf(),
    {
        if request_bytes > MAX_HOST_TRANSPORT_MESSAGE_BYTES {
            return Err(message_limit_error("host transport request protobuf", request_bytes));
        }
        let next_queued_bytes: usize = match self.queued_bytes.checked_add(request_bytes) {
            Some(bytes) => bytes,
            None => {
                return Err("host transport queued request bytes overflowed usize".to_owned());
            },
        };
        if next_queued_bytes > MAX_HOST_TRANSPORT_QUEUED_BYTES {
            return Err(
                join5(
                    "host transport queued request bytes would grow to ",
                    decimal_string(next_queued_bytes as u64).as_str(),
                    ", exceeds ",
                    decimal_string(MAX_HOST_TRANSPORT_QUEUED_BYTES as u64).as_str(),
                    " byte limit",
                ),
            );
        }
        self.queued_bytes = next_queued_bytes;
        self.queue.push_back(request);
        Ok(())
    }

    /// Takes the responder of request `id`, to which the response goes.
    pub fn complete(&mut self, id: u64) -> (res: Result<R, String>)
        ensures
            match res {
                Ok(responder) => old(self)@.responders.contains_key(id) && responder
                    == old(self)@.responders[id] && final(self)@ == (TransportState {
                    responders: old(self)@.responders.remove(id),
                    ..old(self)@
                }),
                Err(error) => !old(self)@.responders.contains_key(id) && final(self)@ == old(self)@
                    && error@ == "unknown host transport request id "@ + decimal(id as nat),
            },
            old(self)@.wf() ==> final(self)@.wf(),
    {
        match self.responders.remove(&id) {
            Some(responder) => Ok(responder),
            None => {
                assert(self@.responders =~= old(self)@.responders);
                Err(join2("unknown host transport request id ", decimal_string(id).as_str()))
            },
        }
    }

    /// Forgets all requests and responders. The ids go on.
    pub fn reset(&mut self)
        ensures
            final(self)@.next_id == old(self)@.next_id,
            final(self)@.queue.len() == 0,
            final(self)@.queued_bytes == 0,
            final(self)@.responders == Map::<u64, R>::empty(),
            final(self)@.wf(),
    {
        self.queue.clear();
        self.queued_bytes = 0;
        self.responders.clear();
    }
}

impl<R> Default for HostTransport<R> {
    fn default() -> (res: Self)
        ensures
            res@.next_id == 0,
            res@.queue.len() == 0,
            res@.queued_bytes == 0,
            res@.responders == Map::<u64, R>::empty(),
            res@.wf(),
    {
        HostTransport::new()
    }
}

/// The id behind `id`. Ids start over behind the last one.
pub open spec fn following_id(id: u64) -> u64 {
    if id == u64::MAX {
        0
    } else {
        (id + 1) as u64
    }
}

impl<R> TransportState<R> {
    /// The transport once the next id is given out.
    pub open spec fn id_given(self) -> TransportState<R> {
        TransportState { next_id: following_id(self.next_id), ..self }
    }

    /// The call was queued under the next id.
    pub open spec fn call_queued<F: Fn(&PendingGrpcRequest) -> usize>(
        self,
        after: TransportState<R>,
        request: GrpcRequest,
        response_tx: R,
        encoded_len: F,
    ) -> bool {
        exists|pending: PendingGrpcRequest, n: usize|
            #![trigger call_ensures(encoded_len, (&pending,), n)]
            prepared_from(pending, self.next_id, request) && call_ensures(
                encoded_len,
                (&pending,),
                n,
            ) && self.enqueue_error(n as int) is None && after == self.id_given().reserved(
                self.next_id,
                response_tx,
            ).enqueued(pending, n as int)
    }

    /// The call was refused because its encoded form is not too long, but does not fit the queue.
    pub open spec fn call_overflows<F: Fn(&PendingGrpcRequest) -> usize>(
        self,
        request: GrpcRequest,
        encoded_len: F,
        error: Seq<char>,
    ) -> bool {
        exists|pending: PendingGrpcRequest, n: usize|
            #![trigger call_ensures(encoded_len, (&pending,), n)]
            prepared_from(pending, self.next_id, request) && call_ensures(
                encoded_len,
                (&pending,),
                n,
            ) && request_len_error(n as nat) is None && self.enqueue_error(n as int) == Some(error)
    }

    /// The call was refused, and the error says why.
    pub open spec fn call_refused<F: Fn(&PendingGrpcRequest) -> usize>(
        self,
        after: TransportState<R>,
        request: GrpcRequest,
        encoded_len: F,
        error: Seq<char>,
    ) -> bool {
        ||| {
            &&& after == self.id_given()
            &&& {
                ||| bad_metadata(header_contents(request.headers), error)
                ||| bad_len(self.next_id, request, encoded_len, error)
                ||| {
                    &&& self.responders.len() >= MAX_HOST_TRANSPORT_IN_FLIGHT_REQUESTS
                    &&& error == in_flight_limit()
                    &&& can_be_prepared(self.next_id, request, encoded_len)
                }
            }
        }
        ||| {
            &&& after == (TransportState {
                responders: self.responders.remove(self.next_id),
                ..self.id_given()
            })
            &&& self.responders.len() < MAX_HOST_TRANSPORT_IN_FLIGHT_REQUESTS
            &&& self.call_overflows(request, encoded_len, error)
        }
    }
}

impl<R> HostTransport<R> {
    /// Queues a call of the core and gives its id, under which the response will come.
    ///
    /// `encoded_len` gives the encoded length of a request.
    pub fn call<F: Fn(&PendingGrpcRequest) -> usize>(
        &mut self,
        request: GrpcRequest,
        response_tx: R,
        encoded_len: &F,
    ) -> (res: Result<u64, Status>)
        requires
            forall|pending: PendingGrpcRequest|
                prepared_from(pending, old(self)@.next_id, request) ==> #[trigger] call_requires(
                    *encoded_len,
                    (&pending,),
                ),
        ensures
            match res {
                Ok(id) => id == old(self)@.next_id && old(self)@.responders.len()
                    < MAX_HOST_TRANSPORT_IN_FLIGHT_REQUESTS && old(self)@.call_queued(
                    final(self)@,
                    request,
                    response_tx,
                    *encoded_len,
                ),
                Err(status) => status.is_plain(CODE_RESOURCE_EXHAUSTED, status.message@)
                    && old(self)@.call_refused(
                    final(self)@,
                    request,
                    *encoded_len,
                    status.message@,
                ),
            },
            old(self)@.wf() ==> final(self)@.wf(),
    {
        let ghost before = self@;
        let id: u64 = self.next_id;
        self.next_id = if id == u64::MAX {
            0
        } else {
            id + 1
        };
        assert(self@ == before.id_given());
        let (pending, request_bytes) = match prepare_pending_grpc_request(id, request, encoded_len) {
            Ok((pending, request_bytes)) => (pending, request_bytes),
            Err(error) => {
                return Err(Status::new(CODE_RESOURCE_EXHAUSTED, error));
            },
        };
        if let Err(error) = self.reserve_response_slot(id, response_tx) {
            return Err(Status::new(CODE_RESOURCE_EXHAUSTED, error));
        }
        assert(call_ensures(*encoded_len, (&pending,), request_bytes));
        if let Err(error) = self.enqueue_request(pending, request_bytes) {
            let _ = self.responders.remove(&id);
            assert(self@.responders =~= before.responders.remove(id));
            assert(before.call_overflows(request, *encoded_len, error@));
            return Err(Status::new(CODE_RESOURCE_EXHAUSTED, error));
        }
        Ok(id)
    }
}

/// The response that a call gets. `None` stands for a responder that was dropped without one.
pub fn response_or_cancelled<T>(response: Option<Result<T, Status>>) -> (res: Result<T, Status>)
    ensures
        match response {
            Some(received) => res == received,
            None => res matches Err(status) && status.is_plain(
                CODE_CANCELLED,
                "host transport response was dropped"@,
            ),
        },
{
    match response {
        Some(received) => received,
        None => Err(
            Status::new(CODE_CANCELLED, "host transport response was dropped".to_owned()),
        ),
    }
}

/// Takes the first queued request into a buffer of the host. `encode` encodes a request.
///
/// A buffer that is too small leaves the request queued.
pub fn take_next_grpc_request_output<R, F: Fn(&PendingGrpcRequest) -> Vec<u8>>(
    transport: &mut HostTransport<R>,
    output_capacity: usize,
    encode: &F,
) -> (res: BridgeOutput)
    requires
        old(transport)@.queue.len() > 0 ==> call_requires(
            *encode,
            (&old(transport)@.queue[0],),
        ),
    ensures
        if old(transport)@.queue.len() == 0 {
            res@ == bare_output(packed(BRIDGE_PENDING, 0)) && final(transport)@ == old(transport)@
        } else {
            request_handed_over(
                old(transport)@,
                final(transport)@,
                *encode,
                output_capacity as int,
                res@,
            )
        },
        old(transport)@.wf() ==> final(transport)@.wf(),
{
    if transport.queue.len() == 0 {
        return BridgeOutput { word: pack_result(BRIDGE_PENDING, 0), bytes: Vec::new() };
    }
    let ghost before = transport@;
    let encoded = encode(&transport.queue[0]);
    let ghost sent = encoded;
    assert(call_ensures(*encode, (&before.queue[0],), sent));
    let request_len: usize = encoded.len();
    if let Err(error) = encoded_grpc_request_len(request_len) {
        return write_error(output_capacity, error);
    }
    match buffer_too_small_result(request_len, output_capacity, "gRPC request protobuf") {
        Ok(None) => {},
        Ok(Some(too_small)) => {
            return BridgeOutput { word: too_small, bytes: Vec::new() };
        },
        Err(error) => {
            return write_error(output_capacity, error);
        },
    }
    let _ = transport.queue.pop_front();
    assert(transport.queue@ == before.queue.skip(1));
    match transport.queued_bytes.checked_sub(request_len) {
        Some(bytes) => {
            transport.queued_bytes = bytes;
        },
        None => {
            return write_error(
                output_capacity,
                "host transport queued request bytes underflowed usize".to_owned(),
            );
        },
    }
    BridgeOutput { word: pack_result(0, request_len as u32), bytes: encoded }
}

/// The first request was offered to the host in the form that `encode` gives it.
pub open spec fn request_handed_over<R, F: Fn(&PendingGrpcRequest) -> Vec<u8>>(
    before: TransportState<R>,
    after: TransportState<R>,
    encode: F,
    capacity: int,
    answer: Output,
) -> bool {
    exists|encoded: Vec<u8>|
        #[trigger] call_ensures(encode, (&before.queue[0],), encoded) && answer
            == before.request_answer(encoded@, capacity) && after == before.request_taken(
            encoded@.len() as int,
            capacity,
        )
}

/// What a queue of requests takes if `size` gives what each takes.
pub open spec fn total_size(queue: Seq<PendingGrpcRequest>, size: spec_fn(PendingGrpcRequest) -> nat) -> nat
    decreases queue.len(),
{
    if queue.len() == 0 {
        0
    } else {
        total_size(queue.drop_last(), size) + size(queue.last())
    }
}

proof fn lemma_total_size_front(
    queue: Seq<PendingGrpcRequest>,
    size: spec_fn(PendingGrpcRequest) -> nat,
)
    requires
        queue.len() > 0,
    ensures
        total_size(queue, size) == size(queue[0]) + total_size(queue.skip(1), size),
    decreases queue.len(),
{
    if queue.len() > 1 {
        lemma_total_size_front(queue.drop_last(), size);
        assert(queue.drop_last().skip(1) == queue.skip(1).drop_last());
        assert(queue.skip(1).last() == queue.last());
        assert(queue.drop_last()[0] == queue[0]);
    } else {
        assert(total_size(queue.skip(1), size) == 0);
        assert(total_size(queue.drop_last(), size) == 0);
    }
}

/// The byte count is that of the queued requests, as long as every request is queued with the length
/// that it later encodes to: queueing one keeps the count, and so does taking one, which then never
/// finds the count too low.
pub proof fn law_queued_bytes_count_the_queue<R>(
    state: TransportState<R>,
    size: spec_fn(PendingGrpcRequest) -> nat,
    request: PendingGrpcRequest,
    encoded: Seq<u8>,
    capacity: int,
)
    requires
        state.queued_bytes == total_size(state.queue, size),
    ensures
        state.enqueued(request, size(request) as int).queued_bytes == total_size(
            state.enqueued(request, size(request) as int).queue,
            size,
        ),
        state.queue.len() > 0 && encoded.len() == size(state.queue[0]) ==> {
            &&& state.queued_bytes >= encoded.len()
            &&& state.request_taken(encoded.len() as int, capacity).queued_bytes == total_size(
                state.request_taken(encoded.len() as int, capacity).queue,
                size,
            )
        },
{
    assert(state.queue.push(request).drop_last() == state.queue);
    if state.queue.len() > 0 {
        lemma_total_size_front(state.queue, size);
    }
}

/// Requests reach the host in the order in which they were queued: a request that is queued comes
/// last, and one that is taken was first.
pub proof fn law_requests_are_first_in_first_out<R>(
    state: TransportState<R>,
    request: PendingGrpcRequest,
    bytes: int,
    len: int,
    capacity: int,
)
    requires
        state.queue.len() > 0,
    ensures
        state.enqueued(request, bytes).queue == state.queue + seq![request],
        state.request_taken(len, capacity).queue == state.queue || seq![state.queue[0]]
            + state.request_taken(len, capacity).queue == state.queue,
{
    assert(state.queue.push(request) =~= state.queue + seq![request]);
    assert(seq![state.queue[0]] + state.queue.skip(1) =~= state.queue);
}

/// A request that does not fit the buffer stays queued, and the answer says how large the buffer has
/// to be: with one of that size the request is handed over.
pub proof fn law_request_can_be_retried<R>(
    state: TransportState<R>,
    encoded: Seq<u8>,
    small: int,
    large: int,
)
    requires
        state.queue.len() > 0,
        0 <= small < encoded.len() <= u32::MAX,
        encoded.len() <= large,
        encoded.len() <= state.queued_bytes,
    ensures
        state.request_taken(encoded.len() as int, small) == state,
        state.request_answer(encoded, small) == bare_output(
            packed(BRIDGE_BUFFER_TOO_SMALL, encoded.len() as u32),
        ),
        state.request_answer(encoded, large) == (Output {
            word: packed(0, encoded.len() as u32),
            bytes: encoded,
        }),
        state.request_taken(encoded.len() as int, large).queue == state.queue.skip(1),
{
}

/// Until the ids start over, every call gets an id of its own: if all requests in flight have ids
/// before the next one, so has every request once the next call is made.
pub proof fn law_call_ids_are_fresh<R>(state: TransportState<R>, response_tx: R)
    requires
        state.next_id < u64::MAX,
        forall|id: u64| #[trigger] state.responders.contains_key(id) ==> id < state.next_id,
    ensures
        !state.responders.contains_key(state.next_id),
        ({
            let after = state.id_given().reserved(state.next_id, response_tx);
            &&& after.next_id > state.next_id
            &&& forall|id: u64| #[trigger]
                after.responders.contains_key(id) ==> id < after.next_id
        }),
{
}

} // verus!
