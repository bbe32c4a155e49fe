use temporal_worker::bridge::abi::{
    buffer_too_small_result, checked_result_len, pack_result, ready_result_len, unpack_result,
    unpack_result_code, write_error, write_result, BRIDGE_BUFFER_TOO_SMALL, BRIDGE_ERROR,
    BRIDGE_PENDING,
};
use temporal_worker::bridge::operations::{
    mark_operation_pending, mark_pending, operation_registry, operation_slot,
    reset_operation_registry, set_operation_ready, set_ready, take_operation_slot_result,
    take_registered_operation, take_registered_operation_output, OperationState,
    MAX_OPERATION_REGISTRY_ENTRIES,
};

#[test]
fn bridge_uses_independent_workflow_and_activity_slots() {
    let mut workflow_poll = operation_slot();
    let mut workflow_completion = operation_registry();
    let activity_poll = operation_slot();
    let activity_completion = operation_registry();
    assert_eq!(workflow_completion.len(), 0);
    mark_pending(&mut workflow_poll, "workflow activation poll").expect("poll starts");
    mark_operation_pending(&mut workflow_completion, 1, "workflow activation completion")
        .expect("operation starts");
    assert!(matches!(activity_poll, OperationState::Idle));
    assert!(activity_completion.is_empty());
}

#[test]
fn workflow_completion_registry_supports_out_of_order_ready_results() {
    let mut registry = operation_registry();
    mark_operation_pending(&mut registry, 1, "workflow activation completion")
        .expect("first operation starts");
    mark_operation_pending(&mut registry, 2, "workflow activation completion")
        .expect("second operation starts");

    set_operation_ready(&mut registry, 2, Ok(vec![2]));
    set_operation_ready(&mut registry, 1, Ok(vec![1]));

    assert_eq!(
        take_registered_operation(&mut registry, 2, "workflow activation completion")
            .expect("second result is available"),
        Some(vec![2])
    );
    assert_eq!(
        take_registered_operation(&mut registry, 1, "workflow activation completion")
            .expect("first result is available"),
        Some(vec![1])
    );
}

#[test]
fn workflow_completion_registry_rejects_duplicate_unknown_and_reused_ids() {
    let mut registry = operation_registry();
    mark_operation_pending(&mut registry, 9, "workflow activation completion")
        .expect("operation starts");

    let duplicate = mark_operation_pending(&mut registry, 9, "workflow activation completion")
        .expect_err("duplicate ID should fail");
    assert!(duplicate.contains("operation ID 9 is already in progress"));

    let unknown = take_registered_operation(&mut registry, 7, "workflow activation completion")
        .expect_err("unknown ID should fail");
    assert!(unknown.contains("operation ID 7 has not been started"));

    set_operation_ready(&mut registry, 9, Ok(Vec::new()));
    assert_eq!(
        take_registered_operation(&mut registry, 9, "workflow activation completion")
            .expect("result should be available"),
        Some(Vec::new())
    );

    let reused = take_registered_operation(&mut registry, 9, "workflow activation completion")
        .expect_err("reused ID should fail");
    assert!(reused.contains("operation ID 9 has not been started"));
}

#[test]
fn workflow_completion_registry_keeps_pending_entries_and_allows_second_take_error() {
    let mut registry = operation_registry();
    mark_operation_pending(&mut registry, 11, "workflow activation completion")
        .expect("operation starts");

    assert_eq!(
        take_registered_operation(&mut registry, 11, "workflow activation completion")
            .expect("pending result should not error"),
        None
    );
    assert!(registry.contains_key(11));

    set_operation_ready(&mut registry, 11, Ok(vec![1, 1]));
    assert_eq!(
        take_registered_operation(&mut registry, 11, "workflow activation completion")
            .expect("ready result should be returned"),
        Some(vec![1, 1])
    );

    let second_take =
        take_registered_operation(&mut registry, 11, "workflow activation completion")
            .expect_err("second take should fail");
    assert!(second_take.contains("operation ID 11 has not been started"));
}

#[test]
fn operation_slot_retains_ready_result_after_undersized_buffer_retry() {
    let mut slot = operation_slot();
    set_ready(&mut slot, Ok(vec![1, 2, 3]));

    let short = take_operation_slot_result(&mut slot, 2);
    assert_eq!(unpack_result(short.word), (BRIDGE_BUFFER_TOO_SMALL, 3));
    assert!(short.bytes.is_empty());
    assert!(matches!(slot, OperationState::Ready(Ok(_))));

    let retry = take_operation_slot_result(&mut slot, 3);
    assert_eq!(unpack_result(retry.word), (0, 3));
    assert_eq!(retry.bytes, [1, 2, 3]);
    assert!(matches!(slot, OperationState::Idle));
}

#[test]
fn workflow_completion_registry_cleanup_drops_pending_operations() {
    let mut registry = operation_registry();
    mark_operation_pending(&mut registry, 15, "workflow activation completion")
        .expect("operation starts");
    reset_operation_registry(&mut registry);
    assert!(registry.is_empty());
    set_operation_ready(&mut registry, 15, Ok(vec![9]));
    assert!(registry.is_empty());
}

#[test]
fn activity_completion_registry_supports_multiple_in_flight_operations() {
    let mut registry = operation_registry();
    mark_operation_pending(&mut registry, 21, "activity completion")
        .expect("first operation starts");
    mark_operation_pending(&mut registry, 22, "activity completion")
        .expect("second operation starts");

    assert_eq!(
        take_registered_operation(&mut registry, 21, "activity completion")
            .expect("pending result should not error"),
        None
    );
    set_operation_ready(&mut registry, 22, Ok(vec![2, 2]));
    set_operation_ready(&mut registry, 21, Ok(vec![1, 1]));

    assert_eq!(
        take_registered_operation(&mut registry, 22, "activity completion")
            .expect("second result is available"),
        Some(vec![2, 2])
    );
    assert_eq!(
        take_registered_operation(&mut registry, 21, "activity completion")
            .expect("first result is available"),
        Some(vec![1, 1])
    );
}

#[test]
fn activity_completion_registry_rejects_duplicate_ids_and_drops_reset_entries() {
    let mut registry = operation_registry();
    mark_operation_pending(&mut registry, 33, "activity completion").expect("operation starts");

    let duplicate = mark_operation_pending(&mut registry, 33, "activity completion")
        .expect_err("duplicate ID should fail");
    assert!(duplicate.contains("operation ID 33 is already in progress"));

    reset_operation_registry(&mut registry);
    assert!(
        take_registered_operation(&mut registry, 33, "activity completion")
            .expect_err("reset removes pending entries")
            .contains("operation ID 33 has not been started")
    );
}

#[test]
fn completion_registry_take_retries_after_undersized_buffer() {
    let mut registry = operation_registry();
    mark_operation_pending(&mut registry, 0, "activity completion").expect("operation starts");
    set_operation_ready(&mut registry, 0, Ok(vec![4, 5, 6]));

    let short = take_registered_operation_output(&mut registry, 0, 2, "activity completion");
    assert_eq!(unpack_result(short.word), (BRIDGE_BUFFER_TOO_SMALL, 3));
    assert!(registry.contains_key(0));

    let retry = take_registered_operation_output(&mut registry, 0, 3, "activity completion");
    assert_eq!(unpack_result(retry.word), (0, 3));
    assert_eq!(retry.bytes, [4, 5, 6]);
    assert!(!registry.contains_key(0));
}

#[test]
fn operation_registry_rejects_in_flight_limit() {
    let mut registry = operation_registry();
    for operation_id in 0..MAX_OPERATION_REGISTRY_ENTRIES as u64 {
        mark_operation_pending(&mut registry, operation_id, "workflow activation completion")
            .expect("operation starts within limit");
    }

    let limit_error = mark_operation_pending(
        &mut registry,
        MAX_OPERATION_REGISTRY_ENTRIES as u64,
        "workflow activation completion",
    )
    .expect_err("limit should reject additional operations");
    assert!(limit_error.contains(&MAX_OPERATION_REGISTRY_ENTRIES.to_string()));
    assert_eq!(
        limit_error,
        "workflow activation completion registry limit of 1024 in-flight operations reached"
    );

    // The limit is looked at before the id.
    let full = mark_operation_pending(&mut registry, 0, "activity completion").unwrap_err();
    assert_eq!(
        full,
        "activity completion registry limit of 1024 in-flight operations reached"
    );
}

#[test]
fn result_word_preserves_signed_code_and_length() {
    assert_eq!(unpack_result(pack_result(-1, 42)), (-1, 42));
    assert_eq!(
        unpack_result(pack_result(tonic::Code::Unavailable as i32, 7)),
        (14, 7)
    );
}

#[test]
fn result_words_have_known_values() {
    assert_eq!(pack_result(0, 3), 3);
    assert_eq!(pack_result(1, 0), 1 << 32);
    assert_eq!(pack_result(2, 7), (2 << 32) + 7);
    assert_eq!(pack_result(-1, 0), -(1 << 32));
    assert_eq!(pack_result(i32::MIN, u32::MAX), i64::MIN + 0xffff_ffff);
    assert_eq!(unpack_result_code(pack_result(-1, u32::MAX)), BRIDGE_ERROR);
    assert_eq!(unpack_result(-1), (-1, 0xffff_ffff));
}

#[test]
fn words_and_pairs_correspond() {
    for code in [i32::MIN, -1, 0, 1, 2, i32::MAX] {
        for len in [0, 1, 42, u32::MAX] {
            assert_eq!(unpack_result(pack_result(code, len)), (code, len as usize));
        }
    }
    for word in [i64::MIN, -1, 0, 1, i64::MAX, 0x1234_5678_9abc_def0] {
        let (code, len) = unpack_result(word);
        assert_eq!(pack_result(code, len as u32), word);
    }
}

#[test]
fn results_are_written_in_full_or_reported() {
    let fits = write_result(3, Ok(vec![7, 8, 9]));
    assert_eq!(unpack_result(fits.word), (0, 3));
    assert_eq!(fits.bytes, [7, 8, 9]);

    let too_large = write_result(60, Ok(vec![0; 61]));
    let text = "bridge output is 61 bytes but the host provided 60 bytes";
    assert_eq!(unpack_result(too_large.word), (BRIDGE_ERROR, text.len()));
    assert_eq!(too_large.bytes, text.as_bytes());

    let failed = write_result(100, Err("it broke".to_owned()));
    assert_eq!(unpack_result(failed.word), (BRIDGE_ERROR, 8));
    assert_eq!(failed.bytes, b"it broke");

    // An error text is cut to the buffer, even within a character.
    let cut = write_error(2, "a\u{e9}".to_owned());
    assert_eq!(unpack_result(cut.word), (BRIDGE_ERROR, 2));
    assert_eq!(cut.bytes, [b'a', 0xc3]);
    assert_eq!(unpack_result(write_error(0, "x".to_owned()).word), (BRIDGE_ERROR, 0));
}

#[test]
fn lengths_are_checked() {
    assert_eq!(checked_result_len(0, "bridge output"), Ok(0));
    assert_eq!(checked_result_len(0xffff_ffff, "bridge output"), Ok(0xffff_ffff));
    assert_eq!(
        checked_result_len(0x1_0000_0000, "bridge output"),
        Err(
            "bridge output is 4294967296 bytes, exceeds the bridge ABI u32 length limit".to_owned()
        )
    );
    assert_eq!(buffer_too_small_result(3, 3, "x"), Ok(None));
    assert_eq!(
        buffer_too_small_result(4, 3, "x"),
        Ok(Some(pack_result(BRIDGE_BUFFER_TOO_SMALL, 4)))
    );
    assert_eq!(
        buffer_too_small_result(0x1_0000_0000, 3, "x"),
        Err("x is 4294967296 bytes, exceeds the bridge ABI u32 length limit".to_owned())
    );
    assert_eq!(ready_result_len(&Ok(vec![1, 2])), 2);
    assert_eq!(ready_result_len(&Err("\u{e9}".to_owned())), 2);
}

#[test]
fn slots_go_from_idle_to_pending_to_ready() {
    let mut slot = operation_slot();
    let not_started = take_operation_slot_result(&mut slot, 100);
    assert_eq!(unpack_result_code(not_started.word), BRIDGE_ERROR);
    assert_eq!(not_started.bytes, b"operation has not been started");

    mark_pending(&mut slot, "activity poll").expect("poll starts");
    assert_eq!(
        mark_pending(&mut slot, "activity poll").unwrap_err(),
        "activity poll is already in progress"
    );
    let pending = take_operation_slot_result(&mut slot, 100);
    assert_eq!(unpack_result(pending.word), (BRIDGE_PENDING, 0));
    assert!(pending.bytes.is_empty());

    set_ready(&mut slot, Err("poll failed".to_owned()));
    assert!(mark_pending(&mut slot, "activity poll").is_err());
    let small = take_operation_slot_result(&mut slot, 10);
    assert_eq!(unpack_result(small.word), (BRIDGE_BUFFER_TOO_SMALL, 11));
    let taken = take_operation_slot_result(&mut slot, 11);
    assert_eq!(unpack_result(taken.word), (BRIDGE_ERROR, 11));
    assert_eq!(taken.bytes, b"poll failed");
    assert!(matches!(slot, OperationState::Idle));
    mark_pending(&mut slot, "activity poll").expect("poll starts again");
}

#[test]
fn a_registered_result_is_taken_once() {
    let mut registry = operation_registry();
    mark_operation_pending(&mut registry, 5, "activity completion").expect("operation starts");
    let pending = take_registered_operation_output(&mut registry, 5, 100, "activity completion");
    assert_eq!(unpack_result(pending.word), (BRIDGE_PENDING, 0));
    set_operation_ready(&mut registry, 5, Ok(vec![1]));
    let taken = take_registered_operation_output(&mut registry, 5, 100, "activity completion");
    assert_eq!(unpack_result(taken.word), (0, 1));
    let again = take_registered_operation_output(&mut registry, 5, 100, "activity completion");
    assert_eq!(unpack_result_code(again.word), BRIDGE_ERROR);
    assert_eq!(
        again.bytes,
        b"activity completion operation ID 5 has not been started"
    );
    let unknown =
        take_registered_operation_output(&mut registry, u64::MAX, 100, "activity completion");
    assert_eq!(
        unknown.bytes,
        b"activity completion operation ID 18446744073709551615 has not been started"
    );
    mark_operation_pending(&mut registry, 5, "activity completion").expect("id is free again");
}
