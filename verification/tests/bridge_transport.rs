use http::header::{HeaderMap, HeaderValue};
use temporal_worker::bridge::abi::{
    unpack_result, BRIDGE_BUFFER_TOO_SMALL, BRIDGE_ERROR, BRIDGE_PENDING,
};
use temporal_worker::bridge::metadata::{
    append_metadata_entries, has_binary_suffix, header_map_into_metadata_entries,
    into_grpc_response, BridgeGrpcResponse, MetadataEntry,
};
use temporal_worker::bridge::transport::{
    encoded_grpc_request_len, ensure_host_transport_response_size, prepare_pending_grpc_request,
    response_or_cancelled, take_next_grpc_request_output, GrpcRequest, HostTransport,
    PendingGrpcRequest, MAX_HOST_TRANSPORT_IN_FLIGHT_REQUESTS, MAX_HOST_TRANSPORT_MESSAGE_BYTES,
    MAX_HOST_TRANSPORT_QUEUED_BYTES,
};
use temporal_worker::status::{Status, CODE_CANCELLED, CODE_RESOURCE_EXHAUSTED};
use tonic::metadata::MetadataMap;

fn entry(key: &str, value: &[u8]) -> MetadataEntry {
    MetadataEntry {
        key: key.to_owned(),
        value: value.to_vec(),
    }
}

/// A protobuf form of a request.
fn encode(request: &PendingGrpcRequest) -> Vec<u8> {
    let mut out = Vec::new();
    prost::encoding::uint64::encode(1, &request.id, &mut out);
    prost::encoding::string::encode(2, &request.service, &mut out);
    prost::encoding::string::encode(3, &request.rpc, &mut out);
    for entry in &request.metadata {
        let mut inner = Vec::new();
        prost::encoding::string::encode(1, &entry.key, &mut inner);
        prost::encoding::bytes::encode(2, &entry.value, &mut inner);
        prost::encoding::bytes::encode(4, &inner, &mut out);
    }
    prost::encoding::bytes::encode(5, &request.proto, &mut out);
    out
}

fn encoded_len(request: &PendingGrpcRequest) -> usize {
    encode(request).len()
}

fn request(id: u64, proto: Vec<u8>) -> PendingGrpcRequest {
    PendingGrpcRequest {
        id,
        service: "svc".to_owned(),
        rpc: "rpc".to_owned(),
        metadata: Vec::new(),
        proto,
    }
}

fn values<'a>(entries: &'a [MetadataEntry], key: &str) -> Vec<&'a [u8]> {
    entries
        .iter()
        .filter(|entry| entry.key == key)
        .map(|entry| entry.value.as_slice())
        .collect()
}

#[test]
fn grpc_request_encoding_uses_generated_proto_with_raw_binary_metadata() {
    let mut headers = HeaderMap::new();
    headers.append("initial", HeaderValue::from_static("one"));
    headers.append("initial", HeaderValue::from_static("again"));
    headers.append("initial-bin", HeaderValue::from_static("AQI"));
    let (pending, len) = prepare_pending_grpc_request(
        9,
        GrpcRequest {
            service: "service".to_owned(),
            rpc: "rpc".to_owned(),
            headers,
            proto: vec![3, 4, 5],
        },
        &encoded_len,
    )
    .expect("request preparation should succeed");
    let encoded = encode(&pending);

    assert_eq!(encoded.len(), len);
    assert_eq!(pending.id, 9);
    assert_eq!(pending.service, "service");
    assert_eq!(pending.rpc, "rpc");
    assert_eq!(pending.proto, [3, 4, 5]);
    assert_eq!(
        values(&pending.metadata, "initial"),
        vec![b"one".as_slice(), b"again".as_slice()]
    );
    assert_eq!(
        pending
            .metadata
            .iter()
            .find(|entry| entry.key == "initial-bin")
            .expect("binary metadata entry is present")
            .value,
        [1, 2]
    );
}

#[test]
fn grpc_error_response_preserves_metadata_and_structured_details() {
    let response = into_grpc_response(BridgeGrpcResponse {
        status_code: tonic::Code::ResourceExhausted as i32,
        status_message: "limited".to_owned(),
        headers: vec![entry("initial", b"one"), entry("binary-bin", &[1, 2])],
        trailers: vec![entry("trailing", b"two")],
        status_details: vec![9, 8],
        proto: Vec::new(),
    })
    .expect("response adaptation should succeed")
    .expect_err("non-OK status should be an error");

    assert_eq!(response.code, tonic::Code::ResourceExhausted as i32);
    assert_eq!(response.message, "limited");
    assert_eq!(response.details, [9, 8]);
    let metadata = MetadataMap::from_headers(response.metadata);
    assert_eq!(metadata.get("initial").unwrap(), "one");
    assert_eq!(metadata.get("trailing").unwrap(), "two");
    assert_eq!(
        metadata
            .get_bin("binary-bin")
            .unwrap()
            .to_bytes()
            .unwrap()
            .as_ref(),
        [1, 2]
    );
}

#[test]
fn grpc_success_response_preserves_metadata_and_proto() {
    let response = into_grpc_response(BridgeGrpcResponse {
        status_code: tonic::Code::Ok as i32,
        status_message: String::new(),
        headers: vec![entry("initial", b"one")],
        trailers: vec![entry("trailing", b"two")],
        status_details: Vec::new(),
        proto: vec![1, 2, 3],
    })
    .expect("response adaptation should succeed")
    .expect("OK status should be successful");

    assert_eq!(response.headers.get("initial").unwrap(), "one");
    assert_eq!(response.headers.get("trailing").unwrap(), "two");
    assert_eq!(response.proto, [1, 2, 3]);
}

#[test]
fn grpc_request_take_retries_after_undersized_buffer_without_dequeueing() {
    let mut transport: HostTransport<()> = HostTransport::default();
    let mut pending = request(5, vec![3, 4, 5]);
    pending.metadata.push(entry("x-host", b"ok"));
    let expected = encode(&pending);
    let encoded_len = encoded_grpc_request_len(expected.len()).expect("request size should fit");
    transport
        .enqueue_request(pending, encoded_len)
        .expect("request is queued");

    let short = take_next_grpc_request_output(&mut transport, 4, &encode);
    assert_eq!(
        unpack_result(short.word),
        (BRIDGE_BUFFER_TOO_SMALL, expected.len())
    );
    assert!(short.bytes.is_empty());
    assert_eq!(transport.queued_requests(), 1);
    assert_eq!(transport.queued_bytes(), encoded_len);

    let retry = take_next_grpc_request_output(&mut transport, expected.len(), &encode);
    assert_eq!(unpack_result(retry.word), (0, expected.len()));
    assert_eq!(retry.bytes, expected);
    assert_eq!(transport.queued_requests(), 0);
    assert_eq!(transport.queued_bytes(), 0);

    let empty = take_next_grpc_request_output(&mut transport, 100, &encode);
    assert_eq!(unpack_result(empty.word), (BRIDGE_PENDING, 0));
}

#[test]
fn host_transport_rejects_in_flight_limit() {
    let mut transport = HostTransport::default();
    for request_id in 0..MAX_HOST_TRANSPORT_IN_FLIGHT_REQUESTS as u64 {
        transport
            .reserve_response_slot(request_id, tokio::sync::oneshot::channel::<()>().0)
            .expect("request is within limit");
    }
    assert_eq!(
        transport.in_flight_requests(),
        MAX_HOST_TRANSPORT_IN_FLIGHT_REQUESTS
    );

    let error = transport
        .reserve_response_slot(99, tokio::sync::oneshot::channel().0)
        .expect_err("request should be rejected once in-flight limit is reached");
    assert!(error.contains(&MAX_HOST_TRANSPORT_IN_FLIGHT_REQUESTS.to_string()));
    assert_eq!(error, "host transport in-flight request limit of 1024 reached");
}

#[test]
fn host_transport_rejects_oversized_queued_request_bytes() {
    let mut transport: HostTransport<()> = HostTransport::default();
    let pending = request(3, vec![0_u8; MAX_HOST_TRANSPORT_MESSAGE_BYTES]);
    let request_bytes =
        encoded_grpc_request_len(encoded_len(&pending)).expect("encoded length should fit");
    let error = transport
        .enqueue_request(pending, request_bytes)
        .expect_err("oversized request should be rejected");
    assert!(error.contains(&MAX_HOST_TRANSPORT_MESSAGE_BYTES.to_string()));
    assert_eq!(transport.queued_requests(), 0);
}

#[test]
fn host_transport_rejects_total_queued_byte_limit() {
    let mut transport: HostTransport<()> = HostTransport::default();
    let pending = request(4, vec![0_u8; 32]);
    let request_bytes =
        encoded_grpc_request_len(encoded_len(&pending)).expect("encoded length should fit");
    for bytes in [
        MAX_HOST_TRANSPORT_MESSAGE_BYTES,
        MAX_HOST_TRANSPORT_MESSAGE_BYTES,
        MAX_HOST_TRANSPORT_MESSAGE_BYTES,
        MAX_HOST_TRANSPORT_MESSAGE_BYTES - request_bytes + 1,
    ] {
        transport
            .enqueue_request(request(0, Vec::new()), bytes)
            .expect("request is within limit");
    }
    assert_eq!(
        transport.queued_bytes(),
        MAX_HOST_TRANSPORT_QUEUED_BYTES - request_bytes + 1
    );

    let error = transport
        .enqueue_request(pending, request_bytes)
        .expect_err("queued byte limit should reject additional requests");
    assert!(error.contains(&MAX_HOST_TRANSPORT_QUEUED_BYTES.to_string()));
    assert_eq!(
        error,
        "host transport queued request bytes would grow to 16777217, exceeds 16777216 byte limit"
    );
}

#[test]
fn late_grpc_response_is_ignored_after_core_cancels_request() {
    let mut transport = HostTransport::default();
    let (sender, receiver) = tokio::sync::oneshot::channel::<Result<(), Status>>();
    transport
        .reserve_response_slot(7, sender)
        .expect("responder is registered");
    drop(receiver);

    let responder = transport.complete(7).expect("responder is there");
    let late = Status::new(CODE_CANCELLED, "late response".to_owned());
    assert!(responder.send(Err(late)).is_err());
    assert_eq!(
        transport.complete(7).unwrap_err(),
        "unknown host transport request id 7"
    );
}

#[test]
fn metadata_survives_both_directions() {
    let entries = vec![
        entry("a", b"1"),
        entry("raw-bin", &[0, 255, 7]),
        entry("a", b"2"),
        entry("raw-bin", &[]),
    ];
    let mut headers = HeaderMap::new();
    append_metadata_entries(&mut headers, &entries, "response header").expect("all are valid");
    assert_eq!(headers.get("raw-bin").unwrap(), "AP8H");
    let listed = header_map_into_metadata_entries(headers).expect("all values decode");
    assert_eq!(listed.len(), entries.len());
    assert_eq!(values(&listed, "a"), values(&entries, "a"));
    assert_eq!(values(&listed, "raw-bin"), values(&entries, "raw-bin"));
}

#[test]
fn metadata_names_come_in_lower_case() {
    let mut headers = HeaderMap::new();
    let entries = vec![entry("X-Mixed!", b"v"), entry("Upper-BIN", b"AQI")];
    append_metadata_entries(&mut headers, &entries, "response header").expect("all are valid");
    assert_eq!(headers.get("x-mixed!").unwrap(), "v");
    // Only a lower-case suffix marks a value that is to be encoded.
    assert_eq!(headers.get("upper-bin").unwrap(), "AQI");
    assert!(has_binary_suffix("upper-bin"));
    assert!(has_binary_suffix("-bin"));
    assert!(!has_binary_suffix("Upper-BIN"));
    assert!(!has_binary_suffix("bin"));
}

#[test]
fn bad_metadata_is_refused() {
    let mut headers = HeaderMap::new();
    let entries = vec![entry("good", b"1"), entry("bad name", b"2"), entry("b", b"3")];
    let error = append_metadata_entries(&mut headers, &entries, "response header").unwrap_err();
    assert_eq!(
        error,
        "invalid host gRPC response header metadata name: invalid HTTP header name"
    );
    assert_eq!(headers.get("good").unwrap(), "1");
    assert_eq!(headers.len(), 1);

    let long = "a".repeat(65536);
    assert!(append_metadata_entries(&mut headers, &[entry(&long, b"")], "x").is_err());
    assert!(append_metadata_entries(&mut headers, &[entry(&long[1..], b"")], "x").is_ok());
    assert!(append_metadata_entries(&mut headers, &[entry("", b"")], "x").is_err());

    let error =
        append_metadata_entries(&mut headers, &[entry("a", b"\n")], "response trailer").unwrap_err();
    assert_eq!(
        error,
        "invalid host gRPC response trailer metadata value: failed to parse header value"
    );

    let mut undecodable = HeaderMap::new();
    undecodable.append("x-bin", HeaderValue::from_static("A"));
    let error = header_map_into_metadata_entries(undecodable).unwrap_err();
    assert_eq!(
        error,
        "invalid gRPC binary metadata value for x-bin: failed to parse metadata value"
    );
}

#[test]
fn many_names_are_held_or_refused() {
    let entries: Vec<MetadataEntry> = (0..6553).map(|i| entry(&format!("k{i}"), b"")).collect();
    let mut headers = HeaderMap::new();
    assert!(append_metadata_entries(&mut headers, &entries, "x").is_ok());
    assert_eq!(headers.keys_len(), 6553);
    let entries: Vec<MetadataEntry> = (0..40000).map(|i| entry(&format!("k{i}"), b"")).collect();
    let mut headers = HeaderMap::new();
    assert_eq!(
        append_metadata_entries(&mut headers, &entries, "x").unwrap_err(),
        "invalid host gRPC x metadata: max size reached"
    );
    assert!(headers.keys_len() > 6553);
}

#[test]
fn unknown_status_codes_become_unknown() {
    for (code, expected) in [(1, 1), (16, 16), (17, 2), (-1, 2), (i32::MAX, 2)] {
        let status = into_grpc_response(BridgeGrpcResponse {
            status_code: code,
            status_message: String::new(),
            headers: Vec::new(),
            trailers: Vec::new(),
            status_details: Vec::new(),
            proto: Vec::new(),
        })
        .expect("response adaptation should succeed")
        .expect_err("non-OK status should be an error");
        assert_eq!(status.code, expected);
        assert!(status.metadata.is_empty());
    }
}

#[test]
fn sizes_are_limited() {
    assert_eq!(ensure_host_transport_response_size(4_194_304), Ok(()));
    assert_eq!(
        ensure_host_transport_response_size(4_194_305),
        Err(
            "host transport response payload is 4194305 bytes, exceeds 4194304 byte limit"
                .to_owned()
        )
    );
    assert_eq!(
        encoded_grpc_request_len(0x1_0000_0000),
        Err(
            "gRPC request protobuf is 4294967296 bytes, exceeds the bridge ABI u32 length limit"
                .to_owned()
        )
    );
    let callback = |proto: Vec<u8>| GrpcRequest {
        service: String::new(),
        rpc: String::new(),
        headers: HeaderMap::new(),
        proto,
    };
    let plain_len = |request: &PendingGrpcRequest| request.proto.len();
    assert!(prepare_pending_grpc_request(1, callback(vec![0; 4_194_304]), &plain_len).is_ok());
    assert_eq!(
        prepare_pending_grpc_request(1, callback(vec![0; 4_194_305]), &plain_len).unwrap_err(),
        "host transport request protobuf is 4194305 bytes, exceeds 4194304 byte limit"
    );
    let huge = |_: &PendingGrpcRequest| 0x1_0000_0000_usize;
    assert_eq!(
        prepare_pending_grpc_request(1, callback(vec![]), &huge).unwrap_err(),
        "gRPC request protobuf is 4294967296 bytes, exceeds the bridge ABI u32 length limit"
    );
}

#[test]
fn calls_are_queued_in_order_under_their_ids() {
    let mut transport: HostTransport<&str> = HostTransport::new();
    let call = |name: &str| GrpcRequest {
        service: name.to_owned(),
        rpc: "rpc".to_owned(),
        headers: HeaderMap::new(),
        proto: Vec::new(),
    };
    assert_eq!(transport.call(call("a"), "first", &encoded_len).unwrap(), 0);
    assert_eq!(transport.call(call("b"), "second", &encoded_len).unwrap(), 1);
    let first = take_next_grpc_request_output(&mut transport, 100, &encode);
    assert!(first.bytes.windows(3).any(|w| w == [18, 1, b'a']));
    let second = take_next_grpc_request_output(&mut transport, 100, &encode);
    assert!(second.bytes.windows(3).any(|w| w == [18, 1, b'b']));
    assert_eq!(transport.queued_bytes(), 0);
    assert_eq!(transport.complete(1), Ok("second"));
    assert_eq!(transport.complete(0), Ok("first"));

    // A refused call uses up its id and leaves nothing behind.
    let huge = |_: &PendingGrpcRequest| MAX_HOST_TRANSPORT_MESSAGE_BYTES + 1;
    let status = transport.call(call("c"), "third", &huge).unwrap_err();
    assert_eq!(status.code, CODE_RESOURCE_EXHAUSTED);
    assert_eq!(
        status.message,
        "host transport request protobuf is 4194305 bytes, exceeds 4194304 byte limit"
    );
    assert_eq!(transport.in_flight_requests(), 0);
    assert_eq!(transport.call(call("d"), "fourth", &encoded_len).unwrap(), 3);
    transport.reset();
    assert_eq!(transport.queued_requests(), 0);
    assert_eq!(transport.in_flight_requests(), 0);
    assert_eq!(transport.call(call("e"), "fifth", &encoded_len).unwrap(), 4);
}

#[test]
fn a_call_over_the_queue_limit_gives_up_its_slot() {
    let mut transport: HostTransport<()> = HostTransport::new();
    let call = || GrpcRequest {
        service: String::new(),
        rpc: String::new(),
        headers: HeaderMap::new(),
        proto: Vec::new(),
    };
    let large = |_: &PendingGrpcRequest| MAX_HOST_TRANSPORT_MESSAGE_BYTES;
    for _ in 0..4 {
        assert!(transport.call(call(), (), &large).is_ok());
    }
    let status = transport.call(call(), (), &large).unwrap_err();
    assert_eq!(
        status.message,
        "host transport queued request bytes would grow to 20971520, exceeds 16777216 byte limit"
    );
    assert_eq!(transport.in_flight_requests(), 4);
    assert_eq!(transport.queued_requests(), 4);
}

#[test]
fn a_request_of_its_own_fault_is_told_before_the_in_flight_limit() {
    let mut transport: HostTransport<()> = HostTransport::new();
    for id in 0..MAX_HOST_TRANSPORT_IN_FLIGHT_REQUESTS as u64 {
        transport.reserve_response_slot(id, ()).expect("request is within limit");
    }
    let call = || GrpcRequest {
        service: String::new(),
        rpc: String::new(),
        headers: HeaderMap::new(),
        proto: Vec::new(),
    };
    let huge = |_: &PendingGrpcRequest| MAX_HOST_TRANSPORT_MESSAGE_BYTES + 1;
    assert_eq!(
        transport.call(call(), (), &huge).unwrap_err().message,
        "host transport request protobuf is 4194305 bytes, exceeds 4194304 byte limit"
    );
    assert_eq!(
        transport.call(call(), (), &encoded_len).unwrap_err().message,
        "host transport in-flight request limit of 1024 reached"
    );
}

#[test]
fn a_byte_count_that_is_too_low_is_reported() {
    let mut transport: HostTransport<()> = HostTransport::new();
    transport
        .enqueue_request(request(1, vec![1, 2, 3]), 1)
        .expect("request is queued");
    let output = take_next_grpc_request_output(&mut transport, 100, &encode);
    assert_eq!(unpack_result(output.word).0, BRIDGE_ERROR);
    assert_eq!(
        output.bytes,
        b"host transport queued request bytes underflowed usize"
    );
    assert_eq!(transport.queued_requests(), 0);
    assert_eq!(transport.queued_bytes(), 1);
}

#[test]
fn dropped_responses_count_as_cancelled() {
    let status = response_or_cancelled::<()>(None).unwrap_err();
    assert_eq!(status.code, CODE_CANCELLED);
    assert_eq!(status.message, "host transport response was dropped");
    assert!(response_or_cancelled(Some(Ok(3))).is_ok_and(|n| n == 3));
}
