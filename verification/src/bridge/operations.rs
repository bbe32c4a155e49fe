//! Asynchronous operations that the host starts and whose results it takes later.

use super::abi::{
    bare_output, buffer_too_small_result, error_output, over_abi_limit, pack_result, packed,
    ready_result_len, result_bytes, result_output, result_view, write_error, write_result,
    BridgeOutput, Output, BRIDGE_BUFFER_TOO_SMALL, BRIDGE_PENDING,
};
use crate::text::{decimal, decimal_string, join2, join4};
use std::collections::HashMap;
use vstd::prelude::*;

verus! {

broadcast use vstd::std_specs::hash::group_hash_axioms;

/// How many operations a registry holds at most.
pub const MAX_OPERATION_REGISTRY_ENTRIES: usize = 1024;

/// Where an operation stands.
#[derive(Debug)]
pub enum OperationState {
    /// Not started.
    Idle,
    /// Started, without a result.
    Pending,
    /// Done, and the result not taken.
    Ready(Result<Vec<u8>, String>),
}

/// A slot for an operation that runs at most once at a time.
pub fn operation_slot() -> (res: OperationState)
    ensures
        res == OperationState::Idle,
{
    OperationState::Idle
}

/// Starts the operation of a slot.
pub fn mark_pending(slot: &mut OperationState, name: &str) -> (res: Result<(), String>)
    ensures
        match res {
            Ok(_) => *old(slot) is Idle && *final(slot) == OperationState::Pending,
            Err(error) => !(*old(slot) is Idle) && *final(slot) == *old(slot) && error@ == name@
                + " is already in progress"@,
        },
{
    match slot {
        OperationState::Idle => {
            *slot = OperationState::Pending;
            Ok(())
        },
        _ => Err(join2(name, " is already in progress")),
    }
}

/// Stores the result of the operation of a slot.
pub fn set_ready(slot: &mut OperationState, value: Result<Vec<u8>, String>)
    ensures
        *final(slot) == OperationState::Ready(value),
{
    *slot = OperationState::Ready(value);
}

/// What taking an operation answers. `not_started` and `invalid` are the error texts for an operation
/// that does not exist and for one that is registered but idle.
pub open spec fn take_answer(
    state: Option<OperationState>,
    capacity: int,
    not_started: Seq<char>,
    invalid: Seq<char>,
) -> Output {
    match state {
        None => error_output(capacity, not_started),
        Some(OperationState::Idle) => error_output(capacity, invalid),
        Some(OperationState::Pending) => bare_output(packed(BRIDGE_PENDING, 0)),
        Some(OperationState::Ready(result)) => {
            let n = result_bytes(result).len();
            if n <= capacity {
                result_output(capacity, result_view(result))
            } else if n <= u32::MAX {
                bare_output(packed(BRIDGE_BUFFER_TOO_SMALL, n as u32))
            } else {
                error_output(capacity, over_abi_limit("bridge output"@, n))
            }
        },
    }
}

/// Whether a take with this capacity hands the result over, and so ends the operation.
pub open spec fn take_consumes(state: OperationState, capacity: int) -> bool {
    state matches OperationState::Ready(result) && result_bytes(result).len() <= capacity
}

/// A slot behind a take with this capacity.
pub open spec fn slot_after_take(state: OperationState, capacity: int) -> OperationState {
    if take_consumes(state, capacity) {
        OperationState::Idle
    } else {
        state
    }
}

/// A registry behind a take of operation `id` with this capacity.
pub open spec fn entries_after_take(
    entries: Map<u64, OperationState>,
    id: u64,
    capacity: int,
) -> Map<u64, OperationState> {
    if entries.contains_key(id) && take_consumes(entries[id], capacity) {
        entries.remove(id)
    } else {
        entries
    }
}

/// What taking an idle slot reports.
pub open spec fn slot_not_started() -> Seq<char> {
    "operation has not been started"@
}

/// Takes the result of the operation of a slot.
///
/// A buffer that is too small leaves the result in place, to be taken with a larger one.
pub fn take_operation_slot_result(slot: &mut OperationState, output_capacity: usize) -> (res:
    BridgeOutput)
    ensures
        res@ == take_answer(
            Some(*old(slot)),
            output_capacity as int,
            slot_not_started(),
            slot_not_started(),
        ),
        *final(slot) == slot_after_take(*old(slot), output_capacity as int),
{
    match slot {
        OperationState::Pending => {
            return BridgeOutput { word: pack_result(BRIDGE_PENDING, 0), bytes: Vec::new() };
        },
        OperationState::Idle => {
            return write_error(output_capacity, "operation has not been started".to_owned());
        },
        OperationState::Ready(result) => {
            match buffer_too_small_result(ready_result_len(result), output_capacity, "bridge output") {
                Ok(None) => {},
                Ok(Some(too_small)) => {
                    return BridgeOutput { word: too_small, bytes: Vec::new() };
                },
                Err(error) => {
                    return write_error(output_capacity, error);
                },
            }
        },
    }
    let mut taken = OperationState::Idle;
    std::mem::swap(&mut taken, slot);
    match taken {
        OperationState::Ready(ready) => write_result(output_capacity, ready),
        // Both were answered above.
        OperationState::Pending | OperationState::Idle => write_error(
            output_capacity,
            "operation has not been started".to_owned(),
        ),
    }
}

/// Operations under ids that the host picks.
#[derive(Debug)]
pub struct OperationRegistry {
    entries: HashMap<u64, OperationState>,
}

impl View for OperationRegistry {
    type V = Map<u64, OperationState>;

    closed spec fn view(&self) -> Map<u64, OperationState> {
        self.entries@
    }
}

impl OperationRegistry {
    /// The registry is within its limit, and none of its operations is idle.
    pub open spec fn wf(&self) -> bool {
        &&& self@.dom().finite()
        &&& self@.len() <= MAX_OPERATION_REGISTRY_ENTRIES
        &&& forall|id: u64| #[trigger] self@.contains_key(id) ==> !(self@[id] is Idle)
    }

    /// How many operations are registered.
    pub fn len(&self) -> (res: usize)
        ensures
            res == self@.len(),
    {
        self.entries.len()
    }

    /// Whether no operation is registered.
    pub fn is_empty(&self) -> (res: bool)
        ensures
            res == (self@.len() == 0),
    {
        self.entries.len() == 0
    }

    /// Whether an operation is registered under this id.
    pub fn contains_key(&self, operation_id: u64) -> (res: bool)
        ensures
            res == self@.contains_key(operation_id),
    {
        self.entries.contains_key(&operation_id)
    }
}

/// What a registry says about operation `id`.
pub open spec fn registered(entries: Map<u64, OperationState>, id: u64) -> Option<OperationState> {
    if entries.contains_key(id) {
        Some(entries[id])
    } else {
        None
    }
}

/// `{name} operation ID {id}{rest}`
pub open spec fn operation_text(name: Seq<char>, id: u64, rest: Seq<char>) -> Seq<char> {
    name + " operation ID "@ + decimal(id as nat) + rest
}

/// The error text for a registry that is full.
pub open spec fn registry_full(name: Seq<char>) -> Seq<char> {
    name + " registry limit of "@ + decimal(MAX_OPERATION_REGISTRY_ENTRIES as nat)
        + " in-flight operations reached"@
}

fn operation_error(name: &str, operation_id: u64, rest: &str) -> (res: String)
    ensures
        res@ == operation_text(name@, operation_id, rest@),
{
    join4(name, " operation ID ", decimal_string(operation_id).as_str(), rest)
}

/// An empty registry.
pub fn operation_registry() -> (res: OperationRegistry)
    ensures
        res@ == Map::<u64, OperationState>::empty(),
        res.wf(),
{
    OperationRegistry { entries: HashMap::new() }
}

/// Registers a started operation.
pub fn mark_operation_pending(registry: &mut OperationRegistry, operation_id: u64, name: &str) -> (res:
    Result<(), String>)
    ensures
        match res {
            Ok(_) => {
                &&& old(registry)@.len() < MAX_OPERATION_REGISTRY_ENTRIES
                &&& !old(registry)@.contains_key(operation_id)
                &&& final(registry)@ == old(registry)@.insert(operation_id, OperationState::Pending)
            },
            Err(error) => {
                &&& final(registry)@ == old(registry)@
                &&& if old(registry)@.len() >= MAX_OPERATION_REGISTRY_ENTRIES {
                    error@ == registry_full(name@)
                } else {
                    &&& old(registry)@.contains_key(operation_id)
                    &&& error@ == operation_text(name@, operation_id, " is already in progress"@)
                }
            },
        },
        old(registry).wf() ==> final(registry).wf(),
{
    if registry.entries.len() >= MAX_OPERATION_REGISTRY_ENTRIES {
        return Err(
            join4(
                name,
                " registry limit of ",
                decimal_string(MAX_OPERATION_REGISTRY_ENTRIES as u64).as_str(),
                " in-flight operations reached",
            ),
        );
    }
    if registry.entries.contains_key(&operation_id) {
        return Err(operation_error(name, operation_id, " is already in progress"));
    }
    registry.entries.insert(operation_id, OperationState::Pending);
    Ok(())
}

/// Stores the result of a registered operation. An operation that is not registered any more is
/// ignored.
pub fn set_operation_ready(
    registry: &mut OperationRegistry,
    operation_id: u64,
    value: Result<Vec<u8>, String>,
)
    ensures
        final(registry)@ == (if old(registry)@.contains_key(operation_id) {
            old(registry)@.insert(operation_id, OperationState::Ready(value))
        } else {
            old(registry)@
        }),
        old(registry).wf() ==> final(registry).wf(),
{
    if registry.entries.contains_key(&operation_id) {
        registry.entries.insert(operation_id, OperationState::Ready(value));
    }
}

/// Takes the result of a registered operation: `None` while it is pending.
pub fn take_registered_operation(registry: &mut OperationRegistry, operation_id: u64, name: &str) -> (res:
    Result<Option<Vec<u8>>, String>)
    ensures
        match registered(old(registry)@, operation_id) {
            None => res matches Err(error) && error@ == operation_text(
                name@,
                operation_id,
                " has not been started"@,
            ),
            Some(OperationState::Idle) => res matches Err(error) && error@ == operation_text(
                name@,
                operation_id,
                " is in an invalid state"@,
            ),
            Some(OperationState::Pending) => res == Ok::<_, String>(None::<Vec<u8>>),
            Some(OperationState::Ready(Ok(output))) => res == Ok::<_, String>(Some(output)),
            Some(OperationState::Ready(Err(text))) => res == Err::<Option<Vec<u8>>, _>(text),
        },
        final(registry)@ == (if registered(old(registry)@, operation_id) is None || registered(
            old(registry)@,
            operation_id,
        ) == Some(OperationState::Pending) {
            old(registry)@
        } else {
            old(registry)@.remove(operation_id)
        }),
        old(registry).wf() ==> final(registry).wf(),
{
    match registry.entries.remove(&operation_id) {
        None => Err(operation_error(name, operation_id, " has not been started")),
        Some(OperationState::Ready(Ok(output))) => Ok(Some(output)),
        Some(OperationState::Ready(Err(error))) => Err(error),
        Some(OperationState::Pending) => {
            registry.entries.insert(operation_id, OperationState::Pending);
            assert(registry.entries@ == old(registry)@);
            Ok(None)
        },
        Some(OperationState::Idle) => Err(
            operation_error(name, operation_id, " is in an invalid state"),
        ),
    }
}

/// Drops all operations.
pub fn reset_operation_registry(registry: &mut OperationRegistry)
    ensures
        final(registry)@ == Map::<u64, OperationState>::empty(),
        final(registry).wf(),
{
    registry.entries.clear();
}

/// Takes the result of a registered operation into a buffer of the host.
///
/// A buffer that is too small leaves the operation registered.
pub fn take_registered_operation_output(
    registry: &mut OperationRegistry,
    operation_id: u64,
    output_capacity: usize,
    name: &str,
) -> (res: BridgeOutput)
    ensures
        res@ == take_answer(
            registered(old(registry)@, operation_id),
            output_capacity as int,
            operation_text(name@, operation_id, " has not been started"@),
            operation_text(name@, operation_id, " is in an invalid state"@),
        ),
        final(registry)@ == entries_after_take(
            old(registry)@,
            operation_id,
            output_capacity as int,
        ),
        old(registry).wf() ==> final(registry).wf(),
{
    match registry.entries.get(&operation_id) {
        None => {
            return write_error(
                output_capacity,
                operation_error(name, operation_id, " has not been started"),
            );
        },
        Some(OperationState::Pending) => {
            return BridgeOutput { word: pack_result(BRIDGE_PENDING, 0), bytes: Vec::new() };
        },
        Some(OperationState::Idle) => {
            return write_error(
                output_capacity,
                operation_error(name, operation_id, " is in an invalid state"),
            );
        },
        Some(OperationState::Ready(result)) => {
            match buffer_too_small_result(ready_result_len(result), output_capacity, "bridge output") {
                Ok(None) => {},
                Ok(Some(too_small)) => {
                    return BridgeOutput { word: too_small, bytes: Vec::new() };
                },
                Err(error) => {
                    return write_error(output_capacity, error);
                },
            }
        },
    }
    match registry.entries.remove(&operation_id) {
        Some(OperationState::Ready(ready)) => write_result(output_capacity, ready),
        // The others were answered above.
        _ => write_error(
            output_capacity,
            operation_error(name, operation_id, " has not been started"),
        ),
    }
}

/// A result is handed over once: behind the take that hands it over, a second take reports that the
/// operation was not started.
pub proof fn law_result_is_taken_once(
    entries: Map<u64, OperationState>,
    id: u64,
    capacity: int,
    later: int,
    not_started: Seq<char>,
    invalid: Seq<char>,
)
    requires
        entries.contains_key(id),
        take_consumes(entries[id], capacity),
    ensures
        take_answer(
            registered(entries_after_take(entries, id, capacity), id),
            later,
            not_started,
            invalid,
        ) == error_output(later, not_started),
        take_answer(
            Some(slot_after_take(entries[id], capacity)),
            later,
            slot_not_started(),
            slot_not_started(),
        ) == error_output(later, slot_not_started()),
{
}

/// A take with a buffer that is too small keeps the result and says how large the buffer has to be;
/// a take with a buffer of that size hands the whole result over.
pub proof fn law_take_can_be_retried(
    result: Result<Vec<u8>, String>,
    small: int,
    large: int,
    not_started: Seq<char>,
    invalid: Seq<char>,
)
    requires
        0 <= small < result_bytes(result).len() <= u32::MAX,
        result_bytes(result).len() <= large,
    ensures
        !take_consumes(OperationState::Ready(result), small),
        take_answer(Some(OperationState::Ready(result)), small, not_started, invalid)
            == bare_output(packed(BRIDGE_BUFFER_TOO_SMALL, result_bytes(result).len() as u32)),
        take_consumes(OperationState::Ready(result), large),
        take_answer(Some(OperationState::Ready(result)), large, not_started, invalid).bytes
            == result_bytes(result),
{
    let bytes = result_bytes(result);
    assert(bytes.take(bytes.len() as int) =~= bytes);
}

/// Operations do not interfere: starting, finishing or dropping one leaves every other as it is, so
/// results may come and be taken in any order.
pub proof fn law_operations_are_independent(
    entries: Map<u64, OperationState>,
    id: u64,
    state: OperationState,
    other: u64,
)
    requires
        id != other,
    ensures
        registered(entries.insert(id, state), other) == registered(entries, other),
        registered(entries.remove(id), other) == registered(entries, other),
        forall|capacity: int|
            registered(#[trigger] entries_after_take(entries, id, capacity), other) == registered(
                entries,
                other,
            ),
{
}

} // verus!
