//! What the limits of the host become in the settings of a worker.

use super::config::{
    activity_worker_config, combined_worker_config, config_built, decode_worker_init_options,
    worker_config_for_mode, workflow_worker_config, BridgeInitMode, PollerBehavior, WorkerConfig,
    WorkerInitOptions, WorkerTaskTypes,
};
use crate::text::decimal;
use vstd::prelude::*;

verus! {

/// The queue is polled by at most `n` pollers; zero leaves that to the core.
pub open spec fn polled_by(behavior: Option<PollerBehavior>, n: usize) -> bool {
    if n == 0 {
        behavior is None
    } else {
        behavior matches Some(PollerBehavior::SimpleMaximum(m)) && m == n
    }
}

/// The settings for workflows are the limits of the host for workflows, and no others.
pub open spec fn serves_workflows(config: WorkerConfig, options: WorkerInitOptions) -> bool {
    &&& config.task_types.enable_workflows
    &&& config.max_cached_workflows == Some(options.max_cached_workflows)
    &&& config.max_outstanding_workflow_tasks == Some(
        options.max_concurrent_workflow_task_executions,
    )
    &&& polled_by(
        config.workflow_task_poller_behavior,
        options.max_concurrent_workflow_task_pollers,
    )
}

/// The settings say nothing of workflows.
pub open spec fn serves_no_workflows(config: WorkerConfig) -> bool {
    &&& !config.task_types.enable_workflows
    &&& config.max_cached_workflows is None
    &&& config.max_outstanding_workflow_tasks is None
    &&& config.workflow_task_poller_behavior is None
}

/// The settings for activities are the limits of the host for activities, and no others.
pub open spec fn serves_activities(config: WorkerConfig, executions: usize, pollers: usize) -> bool {
    &&& config.task_types.enable_activities
    &&& config.max_outstanding_activities == Some(executions)
    &&& polled_by(config.activity_task_poller_behavior, pollers)
}

/// The settings say nothing of activities.
pub open spec fn serves_no_activities(config: WorkerConfig) -> bool {
    &&& !config.task_types.enable_activities
    &&& config.max_outstanding_activities is None
    &&& config.activity_task_poller_behavior is None
}

/// The worker is for this queue of this namespace.
pub open spec fn works_on(config: WorkerConfig, namespace: Seq<char>, task_queue: Seq<char>) -> bool {
    &&& config.namespace@ == namespace
    &&& config.task_queue@ == task_queue
    &&& config.build_id@ == "go-wasm-core-prototype"@
}

/// The core made this of the settings, or its error is told for this kind of worker.
pub open spec fn core_gave<K, F: FnOnce(WorkerConfig) -> Result<K, String>>(
    build: F,
    config: WorkerConfig,
    kind: Seq<char>,
    res: Result<K, String>,
) -> bool {
    ||| res is Ok && call_ensures(build, (config,), res)
    ||| exists|error: String|
        #![trigger call_ensures(build, (config,), Err(error))]
        call_ensures(build, (config,), Err(error)) && res is Err && res->Err_0@ == "invalid "@ + kind
            + " worker configuration: "@ + error@
}

/// Settings of this mode, by the limits of the host.
pub open spec fn is_set_up(
    config: WorkerConfig,
    mode: BridgeInitMode,
    options: WorkerInitOptions,
) -> bool {
    match mode {
        BridgeInitMode::ActivityOnly => {
            &&& serves_no_workflows(config)
            &&& serves_activities(
                config,
                options.max_concurrent_activity_executions,
                options.max_concurrent_activity_task_pollers,
            )
            &&& config.max_eager_activity_reservations_per_workflow_task is None
        },
        BridgeInitMode::WorkflowOnly => {
            &&& serves_workflows(config, options)
            &&& serves_no_activities(config)
            &&& config.max_eager_activity_reservations_per_workflow_task is None
        },
        BridgeInitMode::Combined => {
            &&& serves_workflows(config, options)
            &&& serves_activities(
                config,
                options.max_concurrent_activity_executions,
                options.max_concurrent_activity_task_pollers,
            )
            &&& config.max_eager_activity_reservations_per_workflow_task == Some(
                options.max_eager_activity_reservations_per_workflow_task,
            )
        },
    }
}

/// What a worker of this mode is called.
pub open spec fn kind_of(mode: BridgeInitMode) -> Seq<char> {
    match mode {
        BridgeInitMode::ActivityOnly => "activity"@,
        BridgeInitMode::WorkflowOnly => "workflow"@,
        BridgeInitMode::Combined => "combined"@,
    }
}

/// The core was handed settings of this mode, by the limits of the host, and what it said is told.
pub open spec fn configured<K, F: FnOnce(WorkerConfig) -> Result<K, String>>(
    mode: BridgeInitMode,
    namespace: Seq<char>,
    task_queue: Seq<char>,
    options: WorkerInitOptions,
    build: F,
    res: Result<K, String>,
) -> bool {
    exists|config: WorkerConfig|
        is_set_up(config, mode, options) && works_on(config, namespace, task_queue)
            && #[trigger] core_gave(build, config, kind_of(mode), res)
}

pub(crate) proof fn lemma_configured<K, F: FnOnce(WorkerConfig) -> Result<K, String>>(
    mode: BridgeInitMode,
    namespace: Seq<char>,
    task_queue: Seq<char>,
    options: WorkerInitOptions,
    build: F,
    res: Result<K, String>,
)
    requires
        config_built(mode, namespace, task_queue, options, build, res),
    ensures
        configured(mode, namespace, task_queue, options, build, res),
{
    let (config, verdict) = choose|config: WorkerConfig, verdict: Result<K, String>|
        config.is_for(mode, namespace, task_queue, options) && #[trigger] call_ensures(
            build,
            (config,),
            verdict,
        ) && match verdict {
            Ok(built) => res == Ok::<_, String>(built),
            Err(error) => res matches Err(text) && text@ == super::config::invalid_config(
                mode,
                error@,
            ),
        };
    assert(is_set_up(config, mode, options));
    assert(works_on(config, namespace, task_queue));
    match verdict {
        Ok(built) => {
            assert(res == verdict);
        },
        Err(error) => {
            assert(call_ensures(build, (config,), Err(error)));
        },
    }
    assert(core_gave(build, config, kind_of(mode), res));
}

/// In each mode a worker is set up by the limits of the host for what it serves. What it does for
/// workflows depends only on the limits for workflows, and what it does for activities only on those
/// for activities: in combined mode both are as they are by themselves.
pub proof fn law_limits_become_settings<K, F: FnOnce(WorkerConfig) -> Result<K, String>>(
    mode: BridgeInitMode,
    namespace: String,
    task_queue: String,
    options: WorkerInitOptions,
    build: F,
    res: Result<K, String>,
)
    requires
        call_ensures(
            worker_config_for_mode::<K, F>,
            (mode, namespace, task_queue, options, build),
            res,
        ),
    ensures
        configured(mode, namespace@, task_queue@, options, build, res),
{
    lemma_configured(mode, namespace@, task_queue@, options, build, res);
}

/// A worker for workflows is set up by the limits for workflows.
pub proof fn law_workflow_workers_are_set_up<K, F: FnOnce(WorkerConfig) -> Result<K, String>>(
    namespace: String,
    task_queue: String,
    options: WorkerInitOptions,
    build: F,
    res: Result<K, String>,
)
    requires
        call_ensures(
            workflow_worker_config::<K, F>,
            (namespace, task_queue, options, build),
            res,
        ),
    ensures
        configured(
            BridgeInitMode::WorkflowOnly,
            namespace@,
            task_queue@,
            options,
            build,
            res,
        ),
{
    lemma_configured(
        BridgeInitMode::WorkflowOnly,
        namespace@,
        task_queue@,
        options,
        build,
        res,
    );
}

/// A worker for workflows and activities is set up by the limits for both, each for its own.
pub proof fn law_combined_workers_are_set_up<K, F: FnOnce(WorkerConfig) -> Result<K, String>>(
    namespace: String,
    task_queue: String,
    options: WorkerInitOptions,
    build: F,
    res: Result<K, String>,
)
    requires
        call_ensures(
            combined_worker_config::<K, F>,
            (namespace, task_queue, options, build),
            res,
        ),
    ensures
        configured(BridgeInitMode::Combined, namespace@, task_queue@, options, build, res),
{
    lemma_configured(BridgeInitMode::Combined, namespace@, task_queue@, options, build, res);
}

/// A worker for activities is set up by the limits for activities.
pub proof fn law_activity_workers_are_set_up<K, F: FnOnce(WorkerConfig) -> Result<K, String>>(
    namespace: String,
    task_queue: String,
    executions: usize,
    pollers: usize,
    build: F,
    res: Result<K, String>,
    options: WorkerInitOptions,
)
    requires
        call_ensures(
            activity_worker_config::<K, F>,
            (namespace, task_queue, executions, pollers, build),
            res,
        ),
        options.max_concurrent_activity_executions == executions,
        options.max_concurrent_activity_task_pollers == pollers,
    ensures
        configured(
            BridgeInitMode::ActivityOnly,
            namespace@,
            task_queue@,
            options,
            build,
            res,
        ),
{
    assert(config_built(
        BridgeInitMode::ActivityOnly,
        namespace@,
        task_queue@,
        options,
        build,
        res,
    ));
    lemma_configured(
        BridgeInitMode::ActivityOnly,
        namespace@,
        task_queue@,
        options,
        build,
        res,
    );
}

/// Each limit of the host is taken over as it is. Only the eager limit is not: it counts where
/// workflows and activities are served together, and is three unless the host sets it there.
pub proof fn law_limits_are_taken_over(
    mode: BridgeInitMode,
    activities: usize,
    activity_pollers: usize,
    workflows: usize,
    workflow_pollers: usize,
    cached: usize,
    eager: usize,
    res: Result<WorkerInitOptions, String>,
)
    requires
        call_ensures(
            decode_worker_init_options,
            (mode, activities, activity_pollers, workflows, workflow_pollers, cached, eager),
            res,
        ),
    ensures
        res matches Ok(options) && {
            &&& options.max_concurrent_activity_executions == activities
            &&& options.max_concurrent_activity_task_pollers == activity_pollers
            &&& options.max_concurrent_workflow_task_executions == workflows
            &&& options.max_concurrent_workflow_task_pollers == workflow_pollers
            &&& options.max_cached_workflows == cached
            &&& mode == BridgeInitMode::Combined && eager > 0
                ==> options.max_eager_activity_reservations_per_workflow_task == eager
            &&& mode != BridgeInitMode::Combined || eager == 0
                ==> options.max_eager_activity_reservations_per_workflow_task == 3
        },
{
}

/// Hosts name the modes by the numbers from zero to two, and any other number is refused by its name.
pub proof fn law_modes_are_named(number: u32, res: Result<BridgeInitMode, String>)
    requires
        call_ensures(BridgeInitMode::try_from, (number,), res),
    ensures
        res is Ok <==> number <= 2,
        number == 0 ==> res == Ok::<_, String>(BridgeInitMode::ActivityOnly),
        number == 1 ==> res == Ok::<_, String>(BridgeInitMode::WorkflowOnly),
        number == 2 ==> res == Ok::<_, String>(BridgeInitMode::Combined),
        res matches Err(error) ==> error@ == "unsupported bridge init mode "@ + decimal(
            number as nat,
        ),
{
}

/// A mode is called by what it serves, and serves what it is called by.
pub proof fn law_modes_serve_what_they_say(
    mode: BridgeInitMode,
    kind: &'static str,
    activities: bool,
    workflows: bool,
)
    requires
        call_ensures(BridgeInitMode::worker_kind, (mode,), kind),
        call_ensures(BridgeInitMode::supports_activities, (mode,), activities),
        call_ensures(BridgeInitMode::supports_workflows, (mode,), workflows),
    ensures
        match mode {
            BridgeInitMode::ActivityOnly => kind@ == "activity"@ && activities && !workflows,
            BridgeInitMode::WorkflowOnly => kind@ == "workflow"@ && !activities && workflows,
            BridgeInitMode::Combined => kind@ == "combined"@ && activities && workflows,
        },
{
}

/// The named sets of task types are what their names say.
pub proof fn law_task_types_are_what_they_say(
    activity: WorkerTaskTypes,
    workflow: WorkerTaskTypes,
    all: WorkerTaskTypes,
)
    requires
        call_ensures(WorkerTaskTypes::activity_only, (), activity),
        call_ensures(WorkerTaskTypes::workflow_only, (), workflow),
        call_ensures(WorkerTaskTypes::all, (), all),
    ensures
        activity.enable_activities && !activity.enable_workflows,
        !workflow.enable_activities && workflow.enable_workflows,
        all.enable_activities && all.enable_workflows,
{
}

} // verus!
