//! What becomes of the results of operations.

use super::abi::BridgeOutput;
use super::abi_laws::{lemma_tells_error, lemma_word, tells_error};
use super::operations::{
    mark_operation_pending, mark_pending, operation_registry, operation_slot,
    reset_operation_registry, set_operation_ready, set_ready, take_answer,
    take_operation_slot_result, take_registered_operation, take_registered_operation_output,
    OperationRegistry, OperationState,
};
use crate::text::decimal;
use vstd::prelude::*;
use vstd::utf8::encode_utf8;

verus! {

/// How many bytes a result takes.
pub open spec fn size_of_result(result: Result<Vec<u8>, String>) -> nat {
    match result {
        Ok(output) => output@.len(),
        Err(error) => encode_utf8(error@).len(),
    }
}

/// A result that fits the buffer is told whole: an output with its length as the word, an error as
/// such.
pub open spec fn tells_result(
    word: i64,
    bytes: Seq<u8>,
    capacity: int,
    result: Result<Vec<u8>, String>,
) -> bool {
    match result {
        Ok(output) => output@.len() <= 0xffff_ffff ==> word == output@.len() && bytes == output@,
        Err(error) => tells_error(word, bytes, capacity, error@) && (encode_utf8(error@).len()
            <= 0xffff_ffff ==> bytes == encode_utf8(error@)),
    }
}

/// The result of an operation in this state is told to a buffer of this capacity.
pub open spec fn tells_operation(
    word: i64,
    bytes: Seq<u8>,
    capacity: int,
    state: OperationState,
    idle: Seq<char>,
) -> bool {
    match state {
        OperationState::Idle => tells_error(word, bytes, capacity, idle),
        OperationState::Pending => word == 0x1_0000_0000 && bytes.len() == 0,
        OperationState::Ready(result) => {
            let n = size_of_result(result);
            &&& n <= capacity ==> tells_result(word, bytes, capacity, result)
            &&& capacity < n <= 0xffff_ffff ==> word == 2 * 0x1_0000_0000 + n && bytes.len() == 0
            &&& capacity < n && 0xffff_ffff < n ==> tells_error(
                word,
                bytes,
                capacity,
                "bridge output"@ + " is "@ + decimal(n)
                    + " bytes, exceeds the bridge ABI u32 length limit"@,
            )
        },
    }
}

/// The operation is over behind the take: its result was there and fitted the buffer.
pub open spec fn is_handed_over(state: OperationState, capacity: int) -> bool {
    state matches OperationState::Ready(result) && size_of_result(result) <= capacity
}

pub(crate) proof fn lemma_tells_operation(
    state: OperationState,
    capacity: int,
    not_started: Seq<char>,
    idle: Seq<char>,
)
    requires
        capacity >= 0,
    ensures
        tells_operation(
            take_answer(Some(state), capacity, not_started, idle).word,
            take_answer(Some(state), capacity, not_started, idle).bytes,
            capacity,
            state,
            idle,
        ),
        tells_error(
            take_answer(None, capacity, not_started, idle).word,
            take_answer(None, capacity, not_started, idle).bytes,
            capacity,
            not_started,
        ),
        is_handed_over(state, capacity) == super::operations::take_consumes(state, capacity),
{
    lemma_tells_error(capacity, not_started);
    lemma_tells_error(capacity, idle);
    lemma_word(1i32, 0u32);
    if let OperationState::Ready(result) = state {
        let n = size_of_result(result);
        if n <= 0xffff_ffff {
            lemma_word(2i32, n as u32);
            lemma_word(0i32, n as u32);
        }
        lemma_tells_error(capacity, super::abi::over_abi_limit("bridge output"@, n));
        if let Err(error) = result {
            lemma_tells_error(capacity, error@);
            let all = encode_utf8(error@);
            assert(all.subrange(0, all.len() as int) =~= all);
        }
    }
}

/// A slot starts idle, is pending once it is marked, and ready with exactly what was stored; a slot
/// that is not idle cannot be marked again, and stays as it is.
pub proof fn law_slots_go_round(
    fresh: OperationState,
    slot: &mut OperationState,
    name: &str,
    marked: Result<(), String>,
    other: &mut OperationState,
    value: Result<Vec<u8>, String>,
)
    requires
        call_ensures(operation_slot, (), fresh),
        call_ensures(mark_pending, (slot, name), marked),
        call_ensures(set_ready, (other, value), ()),
    ensures
        fresh is Idle,
        marked is Ok <==> *old(slot) is Idle,
        *old(slot) is Idle ==> *final(slot) is Pending,
        !(*old(slot) is Idle) ==> *final(slot) == *old(slot),
        marked matches Err(error) ==> error@ == name@ + " is already in progress"@,
        *final(other) == OperationState::Ready(value),
{
}

/// Taking a slot tells where its operation stands. Only a result that is told whole leaves the slot,
/// which is idle then.
pub proof fn law_slots_are_taken_once(slot: &mut OperationState, capacity: usize, res: BridgeOutput)
    requires
        call_ensures(take_operation_slot_result, (slot, capacity), res),
    ensures
        tells_operation(
            res.word,
            res.bytes@,
            capacity as int,
            *old(slot),
            "operation has not been started"@,
        ),
        is_handed_over(*old(slot), capacity as int) ==> *final(slot) is Idle,
        !is_handed_over(*old(slot), capacity as int) ==> *final(slot) == *old(slot),
{
    lemma_tells_operation(
        *old(slot),
        capacity as int,
        "operation has not been started"@,
        "operation has not been started"@,
    );
    assert(res@.word == res.word && res@.bytes == res.bytes@);
}

/// A new registry is empty, and so is one that was reset.
pub proof fn law_registries_start_empty(
    fresh: OperationRegistry,
    registry: &mut OperationRegistry,
    asked: &OperationRegistry,
    len: usize,
    empty: bool,
    id: u64,
    contains: bool,
)
    requires
        call_ensures(operation_registry, (), fresh),
        call_ensures(reset_operation_registry, (registry,), ()),
        call_ensures(OperationRegistry::len, (asked,), len),
        call_ensures(OperationRegistry::is_empty, (asked,), empty),
        call_ensures(OperationRegistry::contains_key, (asked, id), contains),
    ensures
        forall|i: u64| !#[trigger] fresh@.contains_key(i),
        forall|i: u64| !#[trigger] final(registry)@.contains_key(i),
        len == asked@.len(),
        empty <==> len == 0,
        contains == asked@.contains_key(id),
{
}

/// An operation is registered as pending, beside the others, unless 1024 are registered or it is
/// registered already; then nothing changes, and the error tells which.
pub proof fn law_operations_are_registered(
    registry: &mut OperationRegistry,
    id: u64,
    name: &str,
    res: Result<(), String>,
)
    requires
        call_ensures(mark_operation_pending, (registry, id, name), res),
    ensures
        res is Ok <==> old(registry)@.len() < 1024 && !old(registry)@.contains_key(id),
        res is Ok ==> {
            &&& final(registry)@.contains_key(id)
            &&& final(registry)@[id] is Pending
            &&& final(registry)@.remove(id) =~= old(registry)@
        },
        res is Err ==> final(registry)@ == old(registry)@,
        res matches Err(error) ==> old(registry)@.len() < 1024 ==> error@ == name@
            + " operation ID "@ + decimal(id as nat) + " is already in progress"@,
        res matches Err(error) ==> old(registry)@.len() >= 1024 ==> error@ == name@
            + " registry limit of "@ + decimal(1024) + " in-flight operations reached"@,
{
}

/// The result of a registered operation is stored as it is; one that is not registered is ignored, and
/// no other operation is touched.
pub proof fn law_results_are_stored(
    registry: &mut OperationRegistry,
    id: u64,
    value: Result<Vec<u8>, String>,
)
    requires
        call_ensures(set_operation_ready, (registry, id, value), ()),
    ensures
        final(registry)@.contains_key(id) == old(registry)@.contains_key(id),
        old(registry)@.contains_key(id) ==> final(registry)@[id] == OperationState::Ready(value),
        final(registry)@.remove(id) =~= old(registry)@.remove(id),
{
}

/// Taking a registered operation tells where it stands, or that it was not started. Only a result that
/// is told whole leaves the registry, and no other operation is touched.
pub proof fn law_registered_results_are_taken_once(
    registry: &mut OperationRegistry,
    id: u64,
    capacity: usize,
    name: &str,
    res: BridgeOutput,
)
    requires
        call_ensures(take_registered_operation_output, (registry, id, capacity, name), res),
    ensures
        !old(registry)@.contains_key(id) ==> tells_error(
            res.word,
            res.bytes@,
            capacity as int,
            name@ + " operation ID "@ + decimal(id as nat) + " has not been started"@,
        ) && final(registry)@ == old(registry)@,
        old(registry)@.contains_key(id) ==> {
            &&& tells_operation(
                res.word,
                res.bytes@,
                capacity as int,
                old(registry)@[id],
                name@ + " operation ID "@ + decimal(id as nat) + " is in an invalid state"@,
            )
            &&& is_handed_over(old(registry)@[id], capacity as int) ==> final(registry)@ =~= old(
                registry,
            )@.remove(id)
            &&& !is_handed_over(old(registry)@[id], capacity as int) ==> final(registry)@ == old(
                registry,
            )@
        },
{
    let state = if old(registry)@.contains_key(id) {
        old(registry)@[id]
    } else {
        OperationState::Idle
    };
    lemma_tells_operation(
        state,
        capacity as int,
        name@ + " operation ID "@ + decimal(id as nat) + " has not been started"@,
        name@ + " operation ID "@ + decimal(id as nat) + " is in an invalid state"@,
    );
    assert(res@.word == res.word && res@.bytes == res.bytes@);
}

/// Without a buffer, the result of a registered operation is given as it is and leaves the registry; a
/// pending operation stays, and one that was not started is told to be missing.
pub proof fn law_registered_results_are_given(
    registry: &mut OperationRegistry,
    id: u64,
    name: &str,
    res: Result<Option<Vec<u8>>, String>,
)
    requires
        call_ensures(take_registered_operation, (registry, id, name), res),
    ensures
        !old(registry)@.contains_key(id) ==> {
            &&& res matches Err(error)
            &&& error@ == name@ + " operation ID "@ + decimal(id as nat) + " has not been started"@
            &&& final(registry)@ == old(registry)@
        },
        old(registry)@.contains_key(id) && old(registry)@[id] is Pending ==> {
            &&& res matches Ok(None)
            &&& final(registry)@ == old(registry)@
        },
        old(registry)@.contains_key(id) && old(registry)@[id] is Ready ==> {
            &&& old(registry)@[id]->Ready_0 matches Ok(output) ==> (res matches Ok(Some(given))
                && given == output)
            &&& old(registry)@[id]->Ready_0 matches Err(text) ==> (res matches Err(error) && error
                == text)
            &&& final(registry)@ =~= old(registry)@.remove(id)
        },
{
}

} // verus!
