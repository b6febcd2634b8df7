//! The launched node: its handle, the tasks it runs and how their failures
//! are supervised.
use vstd::prelude::*;
use crate::context::{
    ChainSpec, Components, ContextModel, LaunchContext, NodeConfig, ProviderFactory, SETUP_STEPS, TaskKind,
};
use crate::exit::{EngineExit, ExitModel, ExitSignal, resolve_spec};

verus! {

/// How a background task is supervised.
#[derive(PartialEq, Eq, Structural, Clone, Copy, Debug)]
pub enum TaskPolicy {
    /// A failure of the task is fatal to the process.
    Critical,
    /// The task runs for the node's lifetime; its end is a result forwarded
    /// to the exit signal.
    CriticalBlocking,
}

/// What becomes of a failed background task.
#[derive(PartialEq, Eq, Structural, Clone, Copy, Debug)]
pub enum FailureDisposition {
    AbortProcess,
    ForwardToExit,
}

/// The consensus engine is the one task whose end is reported; every other
/// task is critical.
pub open spec fn task_policy_spec(t: TaskKind) -> TaskPolicy {
    if t == TaskKind::ConsensusEngine {
        TaskPolicy::CriticalBlocking
    } else {
        TaskPolicy::Critical
    }
}

/// The supervision policy of a task.
pub fn task_policy(t: TaskKind) -> (r: TaskPolicy)
    ensures
        r == task_policy_spec(t),
{
    match t {
        TaskKind::ConsensusEngine => TaskPolicy::CriticalBlocking,
        _ => TaskPolicy::Critical,
    }
}

/// What a failure under policy `p` leads to.
pub fn failure_disposition(p: TaskPolicy) -> (r: FailureDisposition)
    ensures
        r == (match p {
            TaskPolicy::Critical => FailureDisposition::AbortProcess,
            TaskPolicy::CriticalBlocking => FailureDisposition::ForwardToExit,
        }),
{
    match p {
        TaskPolicy::Critical => FailureDisposition::AbortProcess,
        TaskPolicy::CriticalBlocking => FailureDisposition::ForwardToExit,
    }
}

/// The tasks spawned once the components exist, in spawn order: the
/// extension manager only where extensions are installed, then the event
/// task, then the consensus engine, which alone drives the pipeline.
pub open spec fn spawn_plan_spec(n_exex: nat) -> Seq<TaskKind> {
    if n_exex > 0 {
        seq![TaskKind::ExExManager, TaskKind::Events, TaskKind::ConsensusEngine]
    } else {
        seq![TaskKind::Events, TaskKind::ConsensusEngine]
    }
}

/// The tasks spawned once the components exist.
pub fn spawn_plan(n_exex: usize) -> (r: Vec<TaskKind>)
    ensures
        r@ == spawn_plan_spec(n_exex as nat),
{
    let mut r: Vec<TaskKind> = Vec::new();
    if n_exex > 0 {
        r.push(TaskKind::ExExManager);
    }
    r.push(TaskKind::Events);
    r.push(TaskKind::ConsensusEngine);
    assert(r@ =~= spawn_plan_spec(n_exex as nat));
    r
}

/// The Ethereum node launcher: holds the launch context before any step.
pub struct EthNodeLauncher {
    /// The launch context.
    pub ctx: LaunchContext,
}

impl EthNodeLauncher {
    /// A launcher for a node of `chain` storing its data under `data_dir`.
    pub fn new(data_dir: String, chain: ChainSpec) -> (r: Self)
        ensures
            r.ctx@ == (ContextModel {
                done: 0,
                data_dir: data_dir@,
                chain,
                config: None,
                peers: None,
                store: None,
                provider_factory: None,
                genesis: None,
                tasks: Seq::empty(),
                components: None,
            }),
            r.ctx@.wf(),
    {
        EthNodeLauncher { ctx: LaunchContext::new(data_dir, chain) }
    }
}

/// What a node handle holds.
pub struct NodeModel {
    pub components: Components,
    pub provider: ProviderFactory,
    pub config: NodeConfig,
    pub data_dir: Seq<char>,
    pub exit: ExitModel,
}

/// The handles of a launched node and its exit signal. Built once, at the
/// end of a successful launch; only the exit signal changes afterwards.
pub struct NodeHandle {
    components: Components,
    provider: ProviderFactory,
    config: NodeConfig,
    data_dir: String,
    exit: ExitSignal,
}

impl View for NodeHandle {
    type V = NodeModel;

    closed spec fn view(&self) -> NodeModel {
        NodeModel {
            components: self.components,
            provider: self.provider,
            config: self.config,
            data_dir: self.data_dir@,
            exit: self.exit@,
        }
    }
}

/// Assembles the node handle once every setup step has run: the component
/// handles, the provider, the configuration and data directory, and an
/// unresolved exit signal that terminates the process if so configured.
pub fn finish_launch(ctx: &LaunchContext) -> (r: NodeHandle)
    requires
        ctx@.wf(),
        ctx@.done == SETUP_STEPS,
    ensures
        r@ == (NodeModel {
            components: ctx@.components.unwrap(),
            provider: ctx@.provider_factory.unwrap(),
            config: ctx@.config.unwrap(),
            data_dir: ctx@.data_dir,
            exit: ExitModel { outcome: None, terminate: ctx@.config.unwrap().terminate },
        }),
{
    let config = ctx.config().unwrap();
    NodeHandle {
        components: ctx.components().unwrap(),
        provider: ctx.provider_factory().unwrap(),
        config,
        data_dir: ctx.data_dir().clone(),
        exit: ExitSignal::new(config.terminate),
    }
}

impl NodeHandle {
    /// The transaction pool.
    pub fn pool(&self) -> (r: u64)
        ensures
            r == self@.components.pool,
    {
        self.components.pool
    }

    /// The network handle.
    pub fn network(&self) -> (r: u64)
        ensures
            r == self@.components.network,
    {
        self.components.network
    }

    /// The provider.
    pub fn provider(&self) -> (r: ProviderFactory)
        ensures
            r == self@.provider,
    {
        self.provider
    }

    /// All component handles.
    pub fn components(&self) -> (r: Components)
        ensures
            r == self@.components,
    {
        self.components
    }

    /// The node configuration.
    pub fn config(&self) -> (r: NodeConfig)
        ensures
            r == self@.config,
    {
        self.config
    }

    /// The data directory.
    pub fn data_dir(&self) -> (r: &String)
        ensures
            r@ == self@.data_dir,
    {
        &self.data_dir
    }

    /// The exit signal.
    pub fn exit(&self) -> (r: &ExitSignal)
        ensures
            r@ == self@.exit,
    {
        &self.exit
    }

    /// Forwards the consensus engine's terminal result to the exit signal;
    /// returns whether it was taken.
    pub fn engine_exited(&mut self, r: EngineExit) -> (accepted: bool)
        ensures
            accepted == (old(self)@.exit.outcome is None),
            final(self)@ == (NodeModel {
                exit: ExitModel {
                    outcome: resolve_spec(old(self)@.exit.outcome, r),
                    ..old(self)@.exit
                },
                ..old(self)@
            }),
    {
        self.exit.resolve(r)
    }

    /// Supervises a failed background task: the consensus engine's failure
    /// resolves the exit signal; any other failure aborts the process.
    pub fn task_failed(&mut self, t: TaskKind, code: u64) -> (r: FailureDisposition)
        ensures
            r == (if t == TaskKind::ConsensusEngine {
                FailureDisposition::ForwardToExit
            } else {
                FailureDisposition::AbortProcess
            }),
            t == TaskKind::ConsensusEngine ==> final(self)@.exit.outcome == resolve_spec(
                old(self)@.exit.outcome,
                EngineExit::Failed(code),
            ),
            t != TaskKind::ConsensusEngine ==> final(self)@ == old(self)@,
            final(self)@.components == old(self)@.components,
            final(self)@.exit.terminate == old(self)@.exit.terminate,
    {
        let d = failure_disposition(task_policy(t));
        if t == TaskKind::ConsensusEngine {
            self.exit.resolve(EngineExit::Failed(code));
        }
        d
    }
}

} // verus!
