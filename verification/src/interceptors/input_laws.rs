//! What goes into the inputs of interceptors comes out of them.

use super::types::{
    ExecuteInput, HandleQueryInput, HandleSignalInput, HandleUpdateInput, ScheduleActivityInput,
    ScheduleLocalActivityInput, SignalCommandTarget, SignalWorkflowInput, SignalWorkflowTarget,
    SleepInput, StartChildWorkflowExecutionInput, TimerOptions, ValidateUpdateInput,
    WorkflowInterceptorContext, WorkflowOperationContext,
};
use std::collections::HashMap;
use std::time::Duration;
use vstd::prelude::*;

verus! {

/// A context tells what it was made with.
pub proof fn law_contexts_tell_what_they_were_made_with<V>(
    workflow: V,
    is_replaying: bool,
    is_replaying_history_events: bool,
    operation: WorkflowOperationContext,
    res: WorkflowInterceptorContext<V>,
)
    requires
        call_ensures(
            WorkflowOperationContext::new,
            (is_replaying, is_replaying_history_events),
            operation,
        ),
        call_ensures(WorkflowInterceptorContext::<V>::new, (workflow, operation), res),
    ensures
        res.workflow == workflow,
        res.operation.is_replaying == is_replaying,
        res.operation.is_replaying_history_events == is_replaying_history_events,
{
}

/// An input tells what it was made with.
pub proof fn law_execute_input_tells_what_it_was_made_with<A, P, V>(
    workflow_type: String,
    args: A,
    headers: HashMap<String, P>,
    context: WorkflowInterceptorContext<V>,
    input: ExecuteInput<A, P, V>,
    told_workflow_type: &str,
    told_args: &A,
    told_headers: &HashMap<String, P>,
    told_context: &WorkflowInterceptorContext<V>,
)
    requires
        call_ensures(ExecuteInput::<A, P, V>::new, (workflow_type, args, headers, context), input),
        call_ensures(ExecuteInput::<A, P, V>::workflow_type, (&input,), told_workflow_type),
        call_ensures(ExecuteInput::<A, P, V>::args_ref, (&input,), told_args),
        call_ensures(ExecuteInput::<A, P, V>::headers, (&input,), told_headers),
        call_ensures(ExecuteInput::<A, P, V>::context, (&input,), told_context),
    ensures
        told_workflow_type@ == workflow_type@,
        *told_args == args,
        *told_headers == headers,
        *told_context == context,
{
}

/// Access to one part of the input reaches that part, and leaves the others as they are.
pub proof fn law_execute_input_args_mut_reaches_its_part<A, P, V>(
    input: &mut ExecuteInput<A, P, V>,
    res: &mut A,
)
    requires
        call_ensures(ExecuteInput::<A, P, V>::args_mut, (input,), res),
    ensures
        *old(res) == old(input).args,
        final(input).args == *final(res),
        final(input).workflow_type == old(input).workflow_type,
        final(input).headers == old(input).headers,
        final(input).context == old(input).context,
{
}

/// Access to one part of the input reaches that part, and leaves the others as they are.
pub proof fn law_execute_input_headers_mut_reaches_its_part<A, P, V>(
    input: &mut ExecuteInput<A, P, V>,
    res: &mut HashMap<String, P>,
)
    requires
        call_ensures(ExecuteInput::<A, P, V>::headers_mut, (input,), res),
    ensures
        *old(res) == old(input).headers,
        final(input).headers == *final(res),
        final(input).workflow_type == old(input).workflow_type,
        final(input).args == old(input).args,
        final(input).context == old(input).context,
{
}

/// An input comes apart with its arguments in their concrete type; if they are of another, it comes back
/// with the arguments that were given back.
pub proof fn law_execute_input_comes_apart_or_back<A, P, V, T, D: FnOnce(A) -> Result<T, A>>(
    input: ExecuteInput<A, P, V>,
    downcast: D,
    res: Result<T, Box<ExecuteInput<A, P, V>>>,
)
    requires
        call_ensures(ExecuteInput::<A, P, V>::into_args::<T, D>, (input, downcast), res),
    ensures
        res matches Ok(parts) ==> call_ensures(downcast, (input.args,), Ok(parts)),
        res matches Err(back) ==> {
            &&& call_ensures(downcast, (input.args,), Err(back.args))
            &&& back.workflow_type == input.workflow_type
            &&& back.headers == input.headers
            &&& back.context == input.context
        },
{
}

/// An input tells what it was made with.
pub proof fn law_handle_signal_input_tells_what_it_was_made_with<A, P, V>(
    signal_name: String,
    args: A,
    headers: HashMap<String, P>,
    context: WorkflowInterceptorContext<V>,
    input: HandleSignalInput<A, P, V>,
    told_signal_name: &str,
    told_args: &A,
    told_headers: &HashMap<String, P>,
    told_context: &WorkflowInterceptorContext<V>,
)
    requires
        call_ensures(HandleSignalInput::<A, P, V>::new, (signal_name, args, headers, context), input),
        call_ensures(HandleSignalInput::<A, P, V>::signal_name, (&input,), told_signal_name),
        call_ensures(HandleSignalInput::<A, P, V>::args_ref, (&input,), told_args),
        call_ensures(HandleSignalInput::<A, P, V>::headers, (&input,), told_headers),
        call_ensures(HandleSignalInput::<A, P, V>::context, (&input,), told_context),
    ensures
        told_signal_name@ == signal_name@,
        *told_args == args,
        *told_headers == headers,
        *told_context == context,
{
}

/// Access to one part of the input reaches that part, and leaves the others as they are.
pub proof fn law_handle_signal_input_args_mut_reaches_its_part<A, P, V>(
    input: &mut HandleSignalInput<A, P, V>,
    res: &mut A,
)
    requires
        call_ensures(HandleSignalInput::<A, P, V>::args_mut, (input,), res),
    ensures
        *old(res) == old(input).args,
        final(input).args == *final(res),
        final(input).signal_name == old(input).signal_name,
        final(input).headers == old(input).headers,
        final(input).context == old(input).context,
{
}

/// Access to one part of the input reaches that part, and leaves the others as they are.
pub proof fn law_handle_signal_input_headers_mut_reaches_its_part<A, P, V>(
    input: &mut HandleSignalInput<A, P, V>,
    res: &mut HashMap<String, P>,
)
    requires
        call_ensures(HandleSignalInput::<A, P, V>::headers_mut, (input,), res),
    ensures
        *old(res) == old(input).headers,
        final(input).headers == *final(res),
        final(input).signal_name == old(input).signal_name,
        final(input).args == old(input).args,
        final(input).context == old(input).context,
{
}

/// An input comes apart into its name, its arguments and its headers.
pub proof fn law_handle_signal_input_comes_apart<A, P, V>(
    input: HandleSignalInput<A, P, V>,
    parts: (String, A, HashMap<String, P>),
)
    requires
        call_ensures(HandleSignalInput::<A, P, V>::into_parts, (input,), parts),
    ensures
        parts.0 == input.signal_name,
        parts.1 == input.args,
        parts.2 == input.headers,
{
}

/// An input tells what it was made with.
pub proof fn law_handle_query_input_tells_what_it_was_made_with<A, P, V>(
    query_name: String,
    args: A,
    headers: HashMap<String, P>,
    context: WorkflowInterceptorContext<V>,
    input: HandleQueryInput<A, P, V>,
    told_query_name: &str,
    told_args: &A,
    told_headers: &HashMap<String, P>,
    told_context: &WorkflowInterceptorContext<V>,
)
    requires
        call_ensures(HandleQueryInput::<A, P, V>::new, (query_name, args, headers, context), input),
        call_ensures(HandleQueryInput::<A, P, V>::query_name, (&input,), told_query_name),
        call_ensures(HandleQueryInput::<A, P, V>::args_ref, (&input,), told_args),
        call_ensures(HandleQueryInput::<A, P, V>::headers, (&input,), told_headers),
        call_ensures(HandleQueryInput::<A, P, V>::context, (&input,), told_context),
    ensures
        told_query_name@ == query_name@,
        *told_args == args,
        *told_headers == headers,
        *told_context == context,
{
}

/// Access to one part of the input reaches that part, and leaves the others as they are.
pub proof fn law_handle_query_input_args_mut_reaches_its_part<A, P, V>(
    input: &mut HandleQueryInput<A, P, V>,
    res: &mut A,
)
    requires
        call_ensures(HandleQueryInput::<A, P, V>::args_mut, (input,), res),
    ensures
        *old(res) == old(input).args,
        final(input).args == *final(res),
        final(input).query_name == old(input).query_name,
        final(input).headers == old(input).headers,
        final(input).context == old(input).context,
{
}

/// Access to one part of the input reaches that part, and leaves the others as they are.
pub proof fn law_handle_query_input_headers_mut_reaches_its_part<A, P, V>(
    input: &mut HandleQueryInput<A, P, V>,
    res: &mut HashMap<String, P>,
)
    requires
        call_ensures(HandleQueryInput::<A, P, V>::headers_mut, (input,), res),
    ensures
        *old(res) == old(input).headers,
        final(input).headers == *final(res),
        final(input).query_name == old(input).query_name,
        final(input).args == old(input).args,
        final(input).context == old(input).context,
{
}

/// An input comes apart into its name, its arguments and its headers.
pub proof fn law_handle_query_input_comes_apart<A, P, V>(
    input: HandleQueryInput<A, P, V>,
    parts: (String, A, HashMap<String, P>),
)
    requires
        call_ensures(HandleQueryInput::<A, P, V>::into_parts, (input,), parts),
    ensures
        parts.0 == input.query_name,
        parts.1 == input.args,
        parts.2 == input.headers,
{
}

/// An input tells what it was made with.
pub proof fn law_validate_update_input_tells_what_it_was_made_with<A, P, V>(
    update_name: String,
    args: A,
    headers: HashMap<String, P>,
    context: WorkflowInterceptorContext<V>,
    input: ValidateUpdateInput<A, P, V>,
    told_update_name: &str,
    told_args: &A,
    told_headers: &HashMap<String, P>,
    told_context: &WorkflowInterceptorContext<V>,
)
    requires
        call_ensures(ValidateUpdateInput::<A, P, V>::new, (update_name, args, headers, context), input),
        call_ensures(ValidateUpdateInput::<A, P, V>::update_name, (&input,), told_update_name),
        call_ensures(ValidateUpdateInput::<A, P, V>::args_ref, (&input,), told_args),
        call_ensures(ValidateUpdateInput::<A, P, V>::headers, (&input,), told_headers),
        call_ensures(ValidateUpdateInput::<A, P, V>::context, (&input,), told_context),
    ensures
        told_update_name@ == update_name@,
        *told_args == args,
        *told_headers == headers,
        *told_context == context,
{
}

/// Access to one part of the input reaches that part, and leaves the others as they are.
pub proof fn law_validate_update_input_args_mut_reaches_its_part<A, P, V>(
    input: &mut ValidateUpdateInput<A, P, V>,
    res: &mut A,
)
    requires
        call_ensures(ValidateUpdateInput::<A, P, V>::args_mut, (input,), res),
    ensures
        *old(res) == old(input).args,
        final(input).args == *final(res),
        final(input).update_name == old(input).update_name,
        final(input).headers == old(input).headers,
        final(input).context == old(input).context,
{
}

/// Access to one part of the input reaches that part, and leaves the others as they are.
pub proof fn law_validate_update_input_headers_mut_reaches_its_part<A, P, V>(
    input: &mut ValidateUpdateInput<A, P, V>,
    res: &mut HashMap<String, P>,
)
    requires
        call_ensures(ValidateUpdateInput::<A, P, V>::headers_mut, (input,), res),
    ensures
        *old(res) == old(input).headers,
        final(input).headers == *final(res),
        final(input).update_name == old(input).update_name,
        final(input).args == old(input).args,
        final(input).context == old(input).context,
{
}

/// An input comes apart into its name, its arguments and its headers.
pub proof fn law_validate_update_input_comes_apart<A, P, V>(
    input: ValidateUpdateInput<A, P, V>,
    parts: (String, A, HashMap<String, P>),
)
    requires
        call_ensures(ValidateUpdateInput::<A, P, V>::into_parts, (input,), parts),
    ensures
        parts.0 == input.update_name,
        parts.1 == input.args,
        parts.2 == input.headers,
{
}

/// An input tells what it was made with.
pub proof fn law_handle_update_input_tells_what_it_was_made_with<A, P, V>(
    update_name: String,
    args: A,
    headers: HashMap<String, P>,
    context: WorkflowInterceptorContext<V>,
    input: HandleUpdateInput<A, P, V>,
    told_update_name: &str,
    told_args: &A,
    told_headers: &HashMap<String, P>,
    told_context: &WorkflowInterceptorContext<V>,
)
    requires
        call_ensures(HandleUpdateInput::<A, P, V>::new, (update_name, args, headers, context), input),
        call_ensures(HandleUpdateInput::<A, P, V>::update_name, (&input,), told_update_name),
        call_ensures(HandleUpdateInput::<A, P, V>::args_ref, (&input,), told_args),
        call_ensures(HandleUpdateInput::<A, P, V>::headers, (&input,), told_headers),
        call_ensures(HandleUpdateInput::<A, P, V>::context, (&input,), told_context),
    ensures
        told_update_name@ == update_name@,
        *told_args == args,
        *told_headers == headers,
        *told_context == context,
{
}

/// Access to one part of the input reaches that part, and leaves the others as they are.
pub proof fn law_handle_update_input_args_mut_reaches_its_part<A, P, V>(
    input: &mut HandleUpdateInput<A, P, V>,
    res: &mut A,
)
    requires
        call_ensures(HandleUpdateInput::<A, P, V>::args_mut, (input,), res),
    ensures
        *old(res) == old(input).args,
        final(input).args == *final(res),
        final(input).update_name == old(input).update_name,
        final(input).headers == old(input).headers,
        final(input).context == old(input).context,
{
}

/// Access to one part of the input reaches that part, and leaves the others as they are.
pub proof fn law_handle_update_input_headers_mut_reaches_its_part<A, P, V>(
    input: &mut HandleUpdateInput<A, P, V>,
    res: &mut HashMap<String, P>,
)
    requires
        call_ensures(HandleUpdateInput::<A, P, V>::headers_mut, (input,), res),
    ensures
        *old(res) == old(input).headers,
        final(input).headers == *final(res),
        final(input).update_name == old(input).update_name,
        final(input).args == old(input).args,
        final(input).context == old(input).context,
{
}

/// An input comes apart into its name, its arguments and its headers.
pub proof fn law_handle_update_input_comes_apart<A, P, V>(
    input: HandleUpdateInput<A, P, V>,
    parts: (String, A, HashMap<String, P>),
)
    requires
        call_ensures(HandleUpdateInput::<A, P, V>::into_parts, (input,), parts),
    ensures
        parts.0 == input.update_name,
        parts.1 == input.args,
        parts.2 == input.headers,
{
}

/// An input tells what it was made with.
pub proof fn law_schedule_activity_input_tells_what_it_was_made_with<A, X, V>(
    activity_type: String,
    args: A,
    options: X,
    context: WorkflowInterceptorContext<V>,
    input: ScheduleActivityInput<A, X, V>,
    told_activity_type: &str,
    told_args: &A,
    told_options: &X,
    told_context: &WorkflowInterceptorContext<V>,
)
    requires
        call_ensures(ScheduleActivityInput::<A, X, V>::new, (activity_type, args, options, context), input),
        call_ensures(ScheduleActivityInput::<A, X, V>::activity_type, (&input,), told_activity_type),
        call_ensures(ScheduleActivityInput::<A, X, V>::args_ref, (&input,), told_args),
        call_ensures(ScheduleActivityInput::<A, X, V>::options, (&input,), told_options),
        call_ensures(ScheduleActivityInput::<A, X, V>::context, (&input,), told_context),
    ensures
        told_activity_type@ == activity_type@,
        *told_args == args,
        *told_options == options,
        *told_context == context,
{
}

/// Access to one part of the input reaches that part, and leaves the others as they are.
pub proof fn law_schedule_activity_input_args_mut_reaches_its_part<A, X, V>(
    input: &mut ScheduleActivityInput<A, X, V>,
    res: &mut A,
)
    requires
        call_ensures(ScheduleActivityInput::<A, X, V>::args_mut, (input,), res),
    ensures
        *old(res) == old(input).args,
        final(input).args == *final(res),
        final(input).activity_type == old(input).activity_type,
        final(input).options == old(input).options,
        final(input).context == old(input).context,
{
}

/// Access to one part of the input reaches that part, and leaves the others as they are.
pub proof fn law_schedule_activity_input_options_mut_reaches_its_part<A, X, V>(
    input: &mut ScheduleActivityInput<A, X, V>,
    res: &mut X,
)
    requires
        call_ensures(ScheduleActivityInput::<A, X, V>::options_mut, (input,), res),
    ensures
        *old(res) == old(input).options,
        final(input).options == *final(res),
        final(input).activity_type == old(input).activity_type,
        final(input).args == old(input).args,
        final(input).context == old(input).context,
{
}

/// Access to one part of the input reaches that part, and leaves the others as they are.
pub proof fn law_schedule_activity_input_activity_type_mut_reaches_its_part<A, X, V>(
    input: &mut ScheduleActivityInput<A, X, V>,
    res: &mut String,
)
    requires
        call_ensures(ScheduleActivityInput::<A, X, V>::activity_type_mut, (input,), res),
    ensures
        *old(res) == old(input).activity_type,
        final(input).activity_type == *final(res),
        final(input).args == old(input).args,
        final(input).options == old(input).options,
        final(input).context == old(input).context,
{
}

/// An input comes apart with its arguments in their concrete type; if they are of another, it comes back
/// with the arguments that were given back.
pub proof fn law_schedule_activity_input_comes_apart_or_back<A, X, V, T, D: FnOnce(A) -> Result<T, A>>(
    input: ScheduleActivityInput<A, X, V>,
    downcast: D,
    res: Result<(String, T, X), Box<ScheduleActivityInput<A, X, V>>>,
)
    requires
        call_ensures(ScheduleActivityInput::<A, X, V>::into_parts::<T, D>, (input, downcast), res),
    ensures
        res matches Ok(parts) ==> call_ensures(downcast, (input.args,), Ok(parts.1)) && parts.0 == input.activity_type && parts.2 == input.options,
        res matches Err(back) ==> {
            &&& call_ensures(downcast, (input.args,), Err(back.args))
            &&& back.activity_type == input.activity_type
            &&& back.options == input.options
            &&& back.context == input.context
        },
{
}

/// An input tells what it was made with.
pub proof fn law_schedule_local_activity_input_tells_what_it_was_made_with<A, X, V>(
    activity_type: String,
    args: A,
    options: X,
    context: WorkflowInterceptorContext<V>,
    input: ScheduleLocalActivityInput<A, X, V>,
    told_activity_type: &str,
    told_args: &A,
    told_options: &X,
    told_context: &WorkflowInterceptorContext<V>,
)
    requires
        call_ensures(ScheduleLocalActivityInput::<A, X, V>::new, (activity_type, args, options, context), input),
        call_ensures(ScheduleLocalActivityInput::<A, X, V>::activity_type, (&input,), told_activity_type),
        call_ensures(ScheduleLocalActivityInput::<A, X, V>::args_ref, (&input,), told_args),
        call_ensures(ScheduleLocalActivityInput::<A, X, V>::options, (&input,), told_options),
        call_ensures(ScheduleLocalActivityInput::<A, X, V>::context, (&input,), told_context),
    ensures
        told_activity_type@ == activity_type@,
        *told_args == args,
        *told_options == options,
        *told_context == context,
{
}

/// Access to one part of the input reaches that part, and leaves the others as they are.
pub proof fn law_schedule_local_activity_input_args_mut_reaches_its_part<A, X, V>(
    input: &mut ScheduleLocalActivityInput<A, X, V>,
    res: &mut A,
)
    requires
        call_ensures(ScheduleLocalActivityInput::<A, X, V>::args_mut, (input,), res),
    ensures
        *old(res) == old(input).args,
        final(input).args == *final(res),
        final(input).activity_type == old(input).activity_type,
        final(input).options == old(input).options,
        final(input).context == old(input).context,
{
}

/// Access to one part of the input reaches that part, and leaves the others as they are.
pub proof fn law_schedule_local_activity_input_options_mut_reaches_its_part<A, X, V>(
    input: &mut ScheduleLocalActivityInput<A, X, V>,
    res: &mut X,
)
    requires
        call_ensures(ScheduleLocalActivityInput::<A, X, V>::options_mut, (input,), res),
    ensures
        *old(res) == old(input).options,
        final(input).options == *final(res),
        final(input).activity_type == old(input).activity_type,
        final(input).args == old(input).args,
        final(input).context == old(input).context,
{
}

/// Access to one part of the input reaches that part, and leaves the others as they are.
pub proof fn law_schedule_local_activity_input_activity_type_mut_reaches_its_part<A, X, V>(
    input: &mut ScheduleLocalActivityInput<A, X, V>,
    res: &mut String,
)
    requires
        call_ensures(ScheduleLocalActivityInput::<A, X, V>::activity_type_mut, (input,), res),
    ensures
        *old(res) == old(input).activity_type,
        final(input).activity_type == *final(res),
        final(input).args == old(input).args,
        final(input).options == old(input).options,
        final(input).context == old(input).context,
{
}

/// An input comes apart with its arguments in their concrete type; if they are of another, it comes back
/// with the arguments that were given back.
pub proof fn law_schedule_local_activity_input_comes_apart_or_back<A, X, V, T, D: FnOnce(A) -> Result<T, A>>(
    input: ScheduleLocalActivityInput<A, X, V>,
    downcast: D,
    res: Result<(String, T, X), Box<ScheduleLocalActivityInput<A, X, V>>>,
)
    requires
        call_ensures(ScheduleLocalActivityInput::<A, X, V>::into_parts::<T, D>, (input, downcast), res),
    ensures
        res matches Ok(parts) ==> call_ensures(downcast, (input.args,), Ok(parts.1)) && parts.0 == input.activity_type && parts.2 == input.options,
        res matches Err(back) ==> {
            &&& call_ensures(downcast, (input.args,), Err(back.args))
            &&& back.activity_type == input.activity_type
            &&& back.options == input.options
            &&& back.context == input.context
        },
{
}

/// An input tells what it was made with.
pub proof fn law_start_child_workflow_execution_input_tells_what_it_was_made_with<A, X, V>(
    workflow_type: String,
    args: A,
    options: X,
    context: WorkflowInterceptorContext<V>,
    input: StartChildWorkflowExecutionInput<A, X, V>,
    told_workflow_type: &str,
    told_args: &A,
    told_options: &X,
    told_context: &WorkflowInterceptorContext<V>,
)
    requires
        call_ensures(StartChildWorkflowExecutionInput::<A, X, V>::new, (workflow_type, args, options, context), input),
        call_ensures(StartChildWorkflowExecutionInput::<A, X, V>::workflow_type, (&input,), told_workflow_type),
        call_ensures(StartChildWorkflowExecutionInput::<A, X, V>::args_ref, (&input,), told_args),
        call_ensures(StartChildWorkflowExecutionInput::<A, X, V>::options, (&input,), told_options),
        call_ensures(StartChildWorkflowExecutionInput::<A, X, V>::context, (&input,), told_context),
    ensures
        told_workflow_type@ == workflow_type@,
        *told_args == args,
        *told_options == options,
        *told_context == context,
{
}

/// Access to one part of the input reaches that part, and leaves the others as they are.
pub proof fn law_start_child_workflow_execution_input_args_mut_reaches_its_part<A, X, V>(
    input: &mut StartChildWorkflowExecutionInput<A, X, V>,
    res: &mut A,
)
    requires
        call_ensures(StartChildWorkflowExecutionInput::<A, X, V>::args_mut, (input,), res),
    ensures
        *old(res) == old(input).args,
        final(input).args == *final(res),
        final(input).workflow_type == old(input).workflow_type,
        final(input).options == old(input).options,
        final(input).context == old(input).context,
{
}

/// Access to one part of the input reaches that part, and leaves the others as they are.
pub proof fn law_start_child_workflow_execution_input_options_mut_reaches_its_part<A, X, V>(
    input: &mut StartChildWorkflowExecutionInput<A, X, V>,
    res: &mut X,
)
    requires
        call_ensures(StartChildWorkflowExecutionInput::<A, X, V>::options_mut, (input,), res),
    ensures
        *old(res) == old(input).options,
        final(input).options == *final(res),
        final(input).workflow_type == old(input).workflow_type,
        final(input).args == old(input).args,
        final(input).context == old(input).context,
{
}

/// Access to one part of the input reaches that part, and leaves the others as they are.
pub proof fn law_start_child_workflow_execution_input_workflow_type_mut_reaches_its_part<A, X, V>(
    input: &mut StartChildWorkflowExecutionInput<A, X, V>,
    res: &mut String,
)
    requires
        call_ensures(StartChildWorkflowExecutionInput::<A, X, V>::workflow_type_mut, (input,), res),
    ensures
        *old(res) == old(input).workflow_type,
        final(input).workflow_type == *final(res),
        final(input).args == old(input).args,
        final(input).options == old(input).options,
        final(input).context == old(input).context,
{
}

/// An input comes apart with its arguments in their concrete type; if they are of another, it comes back
/// with the arguments that were given back.
pub proof fn law_start_child_workflow_execution_input_comes_apart_or_back<A, X, V, T, D: FnOnce(A) -> Result<T, A>>(
    input: StartChildWorkflowExecutionInput<A, X, V>,
    downcast: D,
    res: Result<(String, T, X), Box<StartChildWorkflowExecutionInput<A, X, V>>>,
)
    requires
        call_ensures(StartChildWorkflowExecutionInput::<A, X, V>::into_parts::<T, D>, (input, downcast), res),
    ensures
        res matches Ok(parts) ==> call_ensures(downcast, (input.args,), Ok(parts.1)) && parts.0 == input.workflow_type && parts.2 == input.options,
        res matches Err(back) ==> {
            &&& call_ensures(downcast, (input.args,), Err(back.args))
            &&& back.workflow_type == input.workflow_type
            &&& back.options == input.options
            &&& back.context == input.context
        },
{
}

/// An input tells what it was made with.
pub proof fn law_signal_workflow_input_tells_what_it_was_made_with<A, P, V>(
    target: SignalWorkflowTarget,
    signal_name: String,
    args: A,
    headers: HashMap<String, P>,
    context: WorkflowInterceptorContext<V>,
    input: SignalWorkflowInput<A, P, V>,
    told_signal_name: &str,
    told_args: &A,
    told_headers: &HashMap<String, P>,
    told_target: &SignalWorkflowTarget,
    told_context: &WorkflowInterceptorContext<V>,
)
    requires
        call_ensures(SignalWorkflowInput::<A, P, V>::new, (target, signal_name, args, headers, context), input),
        call_ensures(SignalWorkflowInput::<A, P, V>::signal_name, (&input,), told_signal_name),
        call_ensures(SignalWorkflowInput::<A, P, V>::args_ref, (&input,), told_args),
        call_ensures(SignalWorkflowInput::<A, P, V>::headers, (&input,), told_headers),
        call_ensures(SignalWorkflowInput::<A, P, V>::target, (&input,), told_target),
        call_ensures(SignalWorkflowInput::<A, P, V>::context, (&input,), told_context),
    ensures
        told_signal_name@ == signal_name@,
        *told_args == args,
        *told_headers == headers,
        *told_target == target,
        *told_context == context,
{
}

/// Access to one part of the input reaches that part, and leaves the others as they are.
pub proof fn law_signal_workflow_input_args_mut_reaches_its_part<A, P, V>(
    input: &mut SignalWorkflowInput<A, P, V>,
    res: &mut A,
)
    requires
        call_ensures(SignalWorkflowInput::<A, P, V>::args_mut, (input,), res),
    ensures
        *old(res) == old(input).args,
        final(input).args == *final(res),
        final(input).target == old(input).target,
        final(input).signal_name == old(input).signal_name,
        final(input).headers == old(input).headers,
        final(input).context == old(input).context,
{
}

/// Access to one part of the input reaches that part, and leaves the others as they are.
pub proof fn law_signal_workflow_input_headers_mut_reaches_its_part<A, P, V>(
    input: &mut SignalWorkflowInput<A, P, V>,
    res: &mut HashMap<String, P>,
)
    requires
        call_ensures(SignalWorkflowInput::<A, P, V>::headers_mut, (input,), res),
    ensures
        *old(res) == old(input).headers,
        final(input).headers == *final(res),
        final(input).target == old(input).target,
        final(input).signal_name == old(input).signal_name,
        final(input).args == old(input).args,
        final(input).context == old(input).context,
{
}

/// Access to one part of the input reaches that part, and leaves the others as they are.
pub proof fn law_signal_workflow_input_target_mut_reaches_its_part<A, P, V>(
    input: &mut SignalWorkflowInput<A, P, V>,
    res: &mut SignalWorkflowTarget,
)
    requires
        call_ensures(SignalWorkflowInput::<A, P, V>::target_mut, (input,), res),
    ensures
        *old(res) == old(input).target,
        final(input).target == *final(res),
        final(input).signal_name == old(input).signal_name,
        final(input).args == old(input).args,
        final(input).headers == old(input).headers,
        final(input).context == old(input).context,
{
}

/// Access to one part of the input reaches that part, and leaves the others as they are.
pub proof fn law_signal_workflow_input_signal_name_mut_reaches_its_part<A, P, V>(
    input: &mut SignalWorkflowInput<A, P, V>,
    res: &mut String,
)
    requires
        call_ensures(SignalWorkflowInput::<A, P, V>::signal_name_mut, (input,), res),
    ensures
        *old(res) == old(input).signal_name,
        final(input).signal_name == *final(res),
        final(input).target == old(input).target,
        final(input).args == old(input).args,
        final(input).headers == old(input).headers,
        final(input).context == old(input).context,
{
}

/// An input comes apart with its arguments in their concrete type; if they are of another, it comes back
/// with the arguments that were given back.
pub proof fn law_signal_workflow_input_comes_apart_or_back<A, P, V, T, D: FnOnce(A) -> Result<T, A>>(
    input: SignalWorkflowInput<A, P, V>,
    downcast: D,
    res: Result<(SignalWorkflowTarget, String, T, HashMap<String, P>), Box<SignalWorkflowInput<A, P, V>>>,
)
    requires
        call_ensures(SignalWorkflowInput::<A, P, V>::into_parts::<T, D>, (input, downcast), res),
    ensures
        res matches Ok(parts) ==> call_ensures(downcast, (input.args,), Ok(parts.2)) && parts.0 == input.target && parts.1 == input.signal_name && parts.3 == input.headers,
        res matches Err(back) ==> {
            &&& call_ensures(downcast, (input.args,), Err(back.args))
            &&& back.target == input.target
            &&& back.signal_name == input.signal_name
            &&& back.headers == input.headers
            &&& back.context == input.context
        },
{
}

/// A child workflow is signalled by its id, and an external one by its execution, without a run id for
/// the latest run.
pub proof fn law_targets_are_kept(target: SignalWorkflowTarget, res: SignalCommandTarget)
    requires
        call_ensures(SignalWorkflowTarget::into_proto, (target,), res),
    ensures
        match target {
            SignalWorkflowTarget::ChildWorkflow { workflow_id } => res matches SignalCommandTarget::ChildWorkflowId(
                id,
            ) && id == workflow_id,
            SignalWorkflowTarget::ExternalWorkflow { namespace, workflow_id, run_id } => {
                &&& res matches SignalCommandTarget::WorkflowExecution(execution)
                &&& execution.namespace == namespace
                &&& execution.workflow_id == workflow_id
                &&& run_id is Some ==> execution.run_id == run_id->Some_0
                &&& run_id is None ==> execution.run_id@.len() == 0
            },
        },
{
}

/// The input of a timer tells its options and its context, and gives the options back.
pub proof fn law_sleep_input_tells_what_it_was_made_with<V>(
    options: TimerOptions,
    context: WorkflowInterceptorContext<V>,
    input: SleepInput<V>,
    duration: Duration,
    summary: Option<&str>,
    told_context: &WorkflowInterceptorContext<V>,
    back: TimerOptions,
)
    requires
        call_ensures(SleepInput::<V>::new, (options, context), input),
        call_ensures(SleepInput::<V>::duration, (&input,), duration),
        call_ensures(SleepInput::<V>::summary, (&input,), summary),
        call_ensures(SleepInput::<V>::context, (&input,), told_context),
        call_ensures(SleepInput::<V>::into_options, (input,), back),
    ensures
        duration == options.duration,
        summary is Some <==> options.summary is Some,
        summary is Some ==> summary->Some_0@ == options.summary->Some_0@,
        *told_context == context,
        back == options,
{
}

/// The duration and the summary of a timer are changed by themselves.
pub proof fn law_timers_are_changed_in_part<V, S: Into<Option<String>>>(
    input: SleepInput<V>,
    duration: Duration,
    summary: S,
    longer: SleepInput<V>,
    named: SleepInput<V>,
)
    requires
        call_ensures(SleepInput::<V>::with_duration, (input, duration), longer),
        call_ensures(SleepInput::<V>::with_summary::<S>, (input, summary), named),
    ensures
        longer.options.duration == duration,
        longer.options.summary == input.options.summary,
        longer.context == input.context,
        call_ensures(S::into, (summary,), named.options.summary),
        named.options.duration == input.options.duration,
        named.context == input.context,
{
}

} // verus!
