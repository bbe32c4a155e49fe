//! Modes and settings of the worker behind the bridge.

use crate::text::{decimal, decimal_string, join2, join4};
use vstd::prelude::*;

verus! {

/// Which kinds of tasks the worker behind the bridge serves.
#[derive(Clone, Copy, Debug, PartialEq, Eq, Structural)]
pub enum BridgeInitMode {
    ActivityOnly,
    WorkflowOnly,
    Combined,
}

impl BridgeInitMode {
    /// The number by which hosts name the mode.
    pub open spec fn number(self) -> u32 {
        match self {
            BridgeInitMode::ActivityOnly => 0,
            BridgeInitMode::WorkflowOnly => 1,
            BridgeInitMode::Combined => 2,
        }
    }

    /// The mode that hosts name by a number.
    pub fn try_from(value: u32) -> (res: Result<Self, String>)
        ensures
            match res {
                Ok(mode) => mode.number() == value,
                Err(error) => value > 2 && error@ == "unsupported bridge init mode "@ + decimal(
                    value as nat,
                ),
            },
    {
        match value {
            0 => Ok(BridgeInitMode::ActivityOnly),
            1 => Ok(BridgeInitMode::WorkflowOnly),
            2 => Ok(BridgeInitMode::Combined),
            _ => Err(
                join2("unsupported bridge init mode ", decimal_string(value as u64).as_str()),
            ),
        }
    }

    /// What the worker is called in messages.
    pub open spec fn kind_name(self) -> Seq<char> {
        match self {
            BridgeInitMode::ActivityOnly => "activity"@,
            BridgeInitMode::WorkflowOnly => "workflow"@,
            BridgeInitMode::Combined => "combined"@,
        }
    }

    /// What the worker is called in messages.
    pub fn worker_kind(self) -> (res: &'static str)
        ensures
            res@ == self.kind_name(),
    {
        match self {
            BridgeInitMode::ActivityOnly => "activity",
            BridgeInitMode::WorkflowOnly => "workflow",
            BridgeInitMode::Combined => "combined",
        }
    }

    /// Whether the worker serves activity tasks.
    pub fn supports_activities(self) -> (res: bool)
        ensures
            res == (self != BridgeInitMode::WorkflowOnly),
    {
        matches!(self, BridgeInitMode::ActivityOnly | BridgeInitMode::Combined)
    }

    /// Whether the worker serves workflow tasks.
    pub fn supports_workflows(self) -> (res: bool)
        ensures
            res == (self != BridgeInitMode::ActivityOnly),
    {
        matches!(self, BridgeInitMode::WorkflowOnly | BridgeInitMode::Combined)
    }
}

/// Limits that the host sets for the worker.
#[derive(Clone, Copy, Debug, PartialEq, Eq, Structural)]
pub struct WorkerInitOptions {
    pub max_concurrent_activity_executions: usize,
    pub max_concurrent_activity_task_pollers: usize,
    pub max_concurrent_workflow_task_executions: usize,
    pub max_concurrent_workflow_task_pollers: usize,
    pub max_cached_workflows: usize,
    pub max_eager_activity_reservations_per_workflow_task: usize,
}

/// How many activities a workflow task may reserve eagerly, unless the host says otherwise.
pub const DEFAULT_MAX_EAGER_ACTIVITY_RESERVATIONS_PER_WORKFLOW_TASK: usize = 3;

/// Collects the limits that the host sets. The eager limit counts in combined mode only, and there
/// zero stands for the default.
pub fn decode_worker_init_options(
    mode: BridgeInitMode,
    max_concurrent_activity_executions: usize,
    max_concurrent_activity_task_pollers: usize,
    max_concurrent_workflow_task_executions: usize,
    max_concurrent_workflow_task_pollers: usize,
    max_cached_workflows: usize,
    max_eager_activity_reservations_per_workflow_task: usize,
) -> (res: Result<WorkerInitOptions, String>)
    ensures
        res == Ok::<_, String>(
            (WorkerInitOptions {
                max_concurrent_activity_executions,
                max_concurrent_activity_task_pollers,
                max_concurrent_workflow_task_executions,
                max_concurrent_workflow_task_pollers,
                max_cached_workflows,
                max_eager_activity_reservations_per_workflow_task: if mode
                    == BridgeInitMode::Combined && max_eager_activity_reservations_per_workflow_task
                    != 0 {
                    max_eager_activity_reservations_per_workflow_task
                } else {
                    DEFAULT_MAX_EAGER_ACTIVITY_RESERVATIONS_PER_WORKFLOW_TASK
                },
            }),
        ),
{
    Ok(
        WorkerInitOptions {
            max_concurrent_activity_executions,
            max_concurrent_activity_task_pollers,
            max_concurrent_workflow_task_executions,
            max_concurrent_workflow_task_pollers,
            max_cached_workflows,
            max_eager_activity_reservations_per_workflow_task: match mode {
                BridgeInitMode::Combined => {
                    if max_eager_activity_reservations_per_workflow_task == 0 {
                        DEFAULT_MAX_EAGER_ACTIVITY_RESERVATIONS_PER_WORKFLOW_TASK
                    } else {
                        max_eager_activity_reservations_per_workflow_task
                    }
                },
                BridgeInitMode::ActivityOnly
                | BridgeInitMode::WorkflowOnly => DEFAULT_MAX_EAGER_ACTIVITY_RESERVATIONS_PER_WORKFLOW_TASK,
            },
        },
    )
}

/// Which task queues a worker polls.
#[derive(Clone, Copy, Debug, PartialEq, Eq, Structural)]
pub struct WorkerTaskTypes {
    pub enable_workflows: bool,
    pub enable_activities: bool,
}

impl WorkerTaskTypes {
    /// Activity tasks only.
    pub fn activity_only() -> (res: Self)
        ensures
            res == (WorkerTaskTypes { enable_workflows: false, enable_activities: true }),
    {
        WorkerTaskTypes { enable_workflows: false, enable_activities: true }
    }

    /// Workflow tasks only.
    pub fn workflow_only() -> (res: Self)
        ensures
            res == (WorkerTaskTypes { enable_workflows: true, enable_activities: false }),
    {
        WorkerTaskTypes { enable_workflows: true, enable_activities: false }
    }

    /// Workflow and activity tasks.
    pub fn all() -> (res: Self)
        ensures
            res == (WorkerTaskTypes { enable_workflows: true, enable_activities: true }),
    {
        WorkerTaskTypes { enable_workflows: true, enable_activities: true }
    }
}

/// How a task queue is polled.
#[derive(Clone, Copy, Debug, PartialEq, Eq, Structural)]
pub enum PollerBehavior {
    /// By at most this many pollers at a time.
    SimpleMaximum(usize),
}

/// Settings of a worker. `None` leaves a setting to the core.
#[derive(Debug)]
pub struct WorkerConfig {
    pub namespace: String,
    pub task_queue: String,
    pub build_id: String,
    pub task_types: WorkerTaskTypes,
    pub max_cached_workflows: Option<usize>,
    pub max_outstanding_workflow_tasks: Option<usize>,
    pub workflow_task_poller_behavior: Option<PollerBehavior>,
    pub max_outstanding_activities: Option<usize>,
    pub activity_task_poller_behavior: Option<PollerBehavior>,
    pub max_eager_activity_reservations_per_workflow_task: Option<usize>,
}

/// The build id under which workers behind the bridge run.
pub open spec fn bridge_build_id() -> Seq<char> {
    "go-wasm-core-prototype"@
}

/// Polling by at most `pollers` pollers; zero leaves it to the core.
pub open spec fn pollers(n: usize) -> Option<PollerBehavior> {
    if n > 0 {
        Some(PollerBehavior::SimpleMaximum(n))
    } else {
        None
    }
}

fn simple_maximum(n: usize) -> (res: Option<PollerBehavior>)
    ensures
        res == pollers(n),
{
    if n > 0 {
        Some(PollerBehavior::SimpleMaximum(n))
    } else {
        None
    }
}

/// The error text for settings that the core refuses with an error of its own.
pub open spec fn invalid_config(mode: BridgeInitMode, error: Seq<char>) -> Seq<char> {
    "invalid "@ + mode.kind_name() + " worker configuration: "@ + error
}

/// The settings were handed to the core, and its verdict is reported.
pub open spec fn config_built<K, F: FnOnce(WorkerConfig) -> Result<K, String>>(
    mode: BridgeInitMode,
    namespace: Seq<char>,
    task_queue: Seq<char>,
    options: WorkerInitOptions,
    build: F,
    res: Result<K, String>,
) -> bool {
    exists|config: WorkerConfig, verdict: Result<K, String>|
        config.is_for(mode, namespace, task_queue, options) && #[trigger] call_ensures(
            build,
            (config,),
            verdict,
        ) && match verdict {
            Ok(built) => res == Ok::<_, String>(built),
            Err(error) => res matches Err(text) && text@ == invalid_config(mode, error@),
        }
}

/// The settings for activities were handed to the core, and its verdict is reported. The other limits
/// do not count.
pub open spec fn activity_config_built<K, F: FnOnce(WorkerConfig) -> Result<K, String>>(
    namespace: Seq<char>,
    task_queue: Seq<char>,
    executions: usize,
    task_pollers: usize,
    build: F,
    res: Result<K, String>,
) -> bool {
    forall|options: WorkerInitOptions|
        options.max_concurrent_activity_executions == executions
            && options.max_concurrent_activity_task_pollers == task_pollers ==> #[trigger]
            config_built(
                BridgeInitMode::ActivityOnly,
                namespace,
                task_queue,
                options,
                build,
                res,
            )
}

/// Hands settings to the core, and reports its verdict.
fn build_config<K, F: FnOnce(WorkerConfig) -> Result<K, String>>(
    mode: BridgeInitMode,
    config: WorkerConfig,
    build: F,
) -> (res: Result<K, String>)
    requires
        call_requires(build, (config,)),
    ensures
        exists|verdict: Result<K, String>| #[trigger]
            call_ensures(build, (config,), verdict) && match verdict {
                Ok(built) => res == Ok::<_, String>(built),
                Err(error) => res matches Err(text) && text@ == invalid_config(mode, error@),
            },
{
    match build(config) {
        Ok(built) => Ok(built),
        Err(error) => Err(
            join4("invalid ", mode.worker_kind(), " worker configuration: ", error.as_str()),
        ),
    }
}

impl WorkerConfig {
    /// The settings for a mode and the limits of the host.
    pub open spec fn is_for(
        self,
        mode: BridgeInitMode,
        namespace: Seq<char>,
        task_queue: Seq<char>,
        options: WorkerInitOptions,
    ) -> bool {
        let workflows = mode != BridgeInitMode::ActivityOnly;
        let activities = mode != BridgeInitMode::WorkflowOnly;
        &&& self.namespace@ == namespace
        &&& self.task_queue@ == task_queue
        &&& self.build_id@ == bridge_build_id()
        &&& self.task_types == (WorkerTaskTypes {
            enable_workflows: workflows,
            enable_activities: activities,
        })
        &&& self.max_cached_workflows == if workflows {
            Some(options.max_cached_workflows)
        } else {
            None
        }
        &&& self.max_outstanding_workflow_tasks == if workflows {
            Some(options.max_concurrent_workflow_task_executions)
        } else {
            None
        }
        &&& self.workflow_task_poller_behavior == if workflows {
            pollers(options.max_concurrent_workflow_task_pollers)
        } else {
            None
        }
        &&& self.max_outstanding_activities == if activities {
            Some(options.max_concurrent_activity_executions)
        } else {
            None
        }
        &&& self.activity_task_poller_behavior == if activities {
            pollers(options.max_concurrent_activity_task_pollers)
        } else {
            None
        }
        &&& self.max_eager_activity_reservations_per_workflow_task == if workflows && activities {
            Some(options.max_eager_activity_reservations_per_workflow_task)
        } else {
            None
        }
    }
}

/// A configuration of a worker for activities. `build` has the core make it from the settings, or
/// tell what is wrong with them.
pub fn activity_worker_config<K, F: FnOnce(WorkerConfig) -> Result<K, String>>(
    namespace: String,
    task_queue: String,
    max_concurrent_activity_executions: usize,
    max_concurrent_activity_task_pollers: usize,
    build: F,
) -> (res: Result<K, String>)
    requires
        forall|config: WorkerConfig| #[trigger] call_requires(build, (config,)),
    ensures
        activity_config_built(
            namespace@,
            task_queue@,
            max_concurrent_activity_executions,
            max_concurrent_activity_task_pollers,
            build,
            res,
        ),
{
    let config = WorkerConfig {
        namespace,
        task_queue,
        build_id: "go-wasm-core-prototype".to_owned(),
        task_types: WorkerTaskTypes::activity_only(),
        max_cached_workflows: None,
        max_outstanding_workflow_tasks: None,
        workflow_task_poller_behavior: None,
        max_outstanding_activities: Some(max_concurrent_activity_executions),
        activity_task_poller_behavior: simple_maximum(max_concurrent_activity_task_pollers),
        max_eager_activity_reservations_per_workflow_task: None,
    };
    build_config(BridgeInitMode::ActivityOnly, config, build)
}

/// A configuration of a worker for workflows. `build` has the core make it from the settings, or
/// tell what is wrong with them.
pub fn workflow_worker_config<K, F: FnOnce(WorkerConfig) -> Result<K, String>>(
    namespace: String,
    task_queue: String,
    options: WorkerInitOptions,
    build: F,
) -> (res: Result<K, String>)
    requires
        forall|config: WorkerConfig| #[trigger] call_requires(build, (config,)),
    ensures
        config_built(
            BridgeInitMode::WorkflowOnly,
            namespace@,
            task_queue@,
            options,
            build,
            res,
        ),
{
    let config = WorkerConfig {
        namespace,
        task_queue,
        build_id: "go-wasm-core-prototype".to_owned(),
        task_types: WorkerTaskTypes::workflow_only(),
        max_cached_workflows: Some(options.max_cached_workflows),
        max_outstanding_workflow_tasks: Some(options.max_concurrent_workflow_task_executions),
        workflow_task_poller_behavior: simple_maximum(options.max_concurrent_workflow_task_pollers),
        max_outstanding_activities: None,
        activity_task_poller_behavior: None,
        max_eager_activity_reservations_per_workflow_task: None,
    };
    build_config(BridgeInitMode::WorkflowOnly, config, build)
}

/// A configuration of a worker for workflows and activities. `build` has the core make it from the
/// settings, or tell what is wrong with them.
pub fn combined_worker_config<K, F: FnOnce(WorkerConfig) -> Result<K, String>>(
    namespace: String,
    task_queue: String,
    options: WorkerInitOptions,
    build: F,
) -> (res: Result<K, String>)
    requires
        forall|config: WorkerConfig| #[trigger] call_requires(build, (config,)),
    ensures
        config_built(BridgeInitMode::Combined, namespace@, task_queue@, options, build, res),
{
    let config = WorkerConfig {
        namespace,
        task_queue,
        build_id: "go-wasm-core-prototype".to_owned(),
        task_types: WorkerTaskTypes::all(),
        max_cached_workflows: Some(options.max_cached_workflows),
        max_outstanding_workflow_tasks: Some(options.max_concurrent_workflow_task_executions),
        workflow_task_poller_behavior: simple_maximum(options.max_concurrent_workflow_task_pollers),
        max_outstanding_activities: Some(options.max_concurrent_activity_executions),
        activity_task_poller_behavior: simple_maximum(options.max_concurrent_activity_task_pollers),
        max_eager_activity_reservations_per_workflow_task: Some(
            options.max_eager_activity_reservations_per_workflow_task,
        ),
    };
    build_config(BridgeInitMode::Combined, config, build)
}

/// A configuration of the worker for a mode. `build` has the core make it from the settings, or tell
/// what is wrong with them.
pub fn worker_config_for_mode<K, F: FnOnce(WorkerConfig) -> Result<K, String>>(
    mode: BridgeInitMode,
    namespace: String,
    task_queue: String,
    options: WorkerInitOptions,
    build: F,
) -> (res: Result<K, String>)
    requires
        forall|config: WorkerConfig| #[trigger] call_requires(build, (config,)),
    ensures
        config_built(mode, namespace@, task_queue@, options, build, res),
{
    match mode {
        BridgeInitMode::ActivityOnly => activity_worker_config(
            namespace,
            task_queue,
            options.max_concurrent_activity_executions,
            options.max_concurrent_activity_task_pollers,
            build,
        ),
        BridgeInitMode::WorkflowOnly => workflow_worker_config(
            namespace,
            task_queue,
            options,
            build,
        ),
        BridgeInitMode::Combined => combined_worker_config(namespace, task_queue, options, build),
    }
}

/// Hosts can tell all modes apart by their numbers.
pub proof fn law_mode_numbers_are_distinct(a: BridgeInitMode, b: BridgeInitMode)
    ensures
        a.number() == b.number() ==> a == b,
        a.number() <= 2,
{
}

} // verus!
