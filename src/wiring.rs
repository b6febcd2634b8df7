//! The launch once components exist: collaborators are built and tasks
//! spawned in a fixed order; the first failure aborts the launch and leaves
//! the tasks already spawned to process teardown.
use vstd::prelude::*;
use crate::context::{LaunchError, TaskKind};
use crate::node::spawn_plan_spec;

verus! {

/// The steps after component construction, in launch order.
#[derive(PartialEq, Eq, Structural, Clone, Copy, Debug)]
pub enum WiringStep {
    /// Launch the execution-extension manager (a task only where extensions are installed).
    LaunchExEx,
    /// Obtain the block-source client from the network.
    FetchClient,
    /// Resolve the optional maximum-block ceiling.
    MaxBlock,
    /// Build the pipeline, the static-file producer hook and the pruner hook.
    BuildPipeline,
    /// Spawn the event task over the merged event streams.
    SpawnEvents,
    /// Build the engine API handler.
    BuildEngineApi,
    /// Read the authentication secret.
    AuthSecret,
    /// Start the RPC servers.
    RpcServers,
    /// Spawn the consensus engine, which alone drives the pipeline.
    SpawnConsensus,
    /// Tell the started-node observer.
    NodeStarted,
}

/// Number of wiring steps.
pub const WIRING_STEPS: u8 = 10;

/// The step at position `i` of the launch order.
pub open spec fn wiring_step_at(i: nat) -> WiringStep {
    if i == 0 {
        WiringStep::LaunchExEx
    } else if i == 1 {
        WiringStep::FetchClient
    } else if i == 2 {
        WiringStep::MaxBlock
    } else if i == 3 {
        WiringStep::BuildPipeline
    } else if i == 4 {
        WiringStep::SpawnEvents
    } else if i == 5 {
        WiringStep::BuildEngineApi
    } else if i == 6 {
        WiringStep::AuthSecret
    } else if i == 7 {
        WiringStep::RpcServers
    } else if i == 8 {
        WiringStep::SpawnConsensus
    } else {
        WiringStep::NodeStarted
    }
}

/// The task a successful step spawns, if any.
pub open spec fn spawned_by(step: WiringStep, n_exex: nat) -> Seq<TaskKind> {
    match step {
        WiringStep::LaunchExEx => if n_exex > 0 {
            seq![TaskKind::ExExManager]
        } else {
            Seq::empty()
        },
        WiringStep::SpawnEvents => seq![TaskKind::Events],
        WiringStep::SpawnConsensus => seq![TaskKind::ConsensusEngine],
        _ => Seq::empty(),
    }
}

/// What a wiring run holds.
pub struct WiringModel {
    /// Steps that succeeded.
    pub done: nat,
    /// Installed execution extensions.
    pub n_exex: nat,
    /// Tasks spawned by the steps that succeeded, in spawn order.
    pub tasks: Seq<TaskKind>,
    /// The error that aborted the launch, if one did.
    pub failed: Option<LaunchError>,
}

/// The model after the current step ended with `outcome`: a failure of the
/// started-node observer is reported as such, any other failure as a
/// collaborator's; a success spawns the step's task and moves on.
pub open spec fn wiring_transition(m: WiringModel, outcome: Result<(), u64>) -> WiringModel {
    let step = wiring_step_at(m.done);
    match outcome {
        Err(code) => WiringModel {
            failed: Some(
                if step == WiringStep::NodeStarted {
                    LaunchError::OnStarted(code)
                } else {
                    LaunchError::Collaborator(code)
                },
            ),
            ..m
        },
        Ok(_) => WiringModel {
            done: m.done + 1,
            tasks: m.tasks + spawned_by(step, m.n_exex),
            ..m
        },
    }
}

/// Drives the launch once components exist: says which step comes next and
/// takes each step's outcome.
pub struct Wiring {
    done: u8,
    n_exex: usize,
    tasks: Vec<TaskKind>,
    failed: Option<LaunchError>,
}

impl View for Wiring {
    type V = WiringModel;

    closed spec fn view(&self) -> WiringModel {
        WiringModel {
            done: self.done as nat,
            n_exex: self.n_exex as nat,
            tasks: self.tasks@,
            failed: self.failed,
        }
    }
}

impl WiringModel {
    /// No step is owed: the launch failed or every step succeeded.
    pub open spec fn finished(self) -> bool {
        self.failed is Some || self.done >= WIRING_STEPS
    }
}

impl Wiring {
    /// A run with `n_exex` installed extensions, before its first step.
    pub fn new(n_exex: usize) -> (r: Self)
        ensures
            r@ == (WiringModel { done: 0, n_exex: n_exex as nat, tasks: Seq::empty(), failed: None }),
    {
        Wiring { done: 0, n_exex, tasks: Vec::new(), failed: None }
    }

    /// The step to perform next, or `None` once the run is finished.
    pub fn next_step(&self) -> (r: Option<WiringStep>)
        ensures
            r == (if self@.finished() {
                None
            } else {
                Some(wiring_step_at(self@.done))
            }),
    {
        if self.failed.is_some() || self.done >= WIRING_STEPS {
            return None;
        }
        Some(Self::step_at(self.done))
    }

    fn step_at(i: u8) -> (r: WiringStep)
        ensures
            r == wiring_step_at(i as nat),
    {
        match i {
            0 => WiringStep::LaunchExEx,
            1 => WiringStep::FetchClient,
            2 => WiringStep::MaxBlock,
            3 => WiringStep::BuildPipeline,
            4 => WiringStep::SpawnEvents,
            5 => WiringStep::BuildEngineApi,
            6 => WiringStep::AuthSecret,
            7 => WiringStep::RpcServers,
            8 => WiringStep::SpawnConsensus,
            _ => WiringStep::NodeStarted,
        }
    }

    /// Takes the outcome of the step that `next_step` named.
    pub fn on_outcome(&mut self, outcome: Result<(), u64>)
        requires
            !old(self)@.finished(),
        ensures
            final(self)@ == wiring_transition(old(self)@, outcome),
    {
        let step = Self::step_at(self.done);
        match outcome {
            Err(code) => {
                let e = match step {
                    WiringStep::NodeStarted => LaunchError::OnStarted(code),
                    _ => LaunchError::Collaborator(code),
                };
                self.failed = Some(e);
            },
            Ok(_) => {
                match step {
                    WiringStep::LaunchExEx => {
                        if self.n_exex > 0 {
                            self.tasks.push(TaskKind::ExExManager);
                        }
                    },
                    WiringStep::SpawnEvents => {
                        self.tasks.push(TaskKind::Events);
                    },
                    WiringStep::SpawnConsensus => {
                        self.tasks.push(TaskKind::ConsensusEngine);
                    },
                    _ => {},
                }
                self.done = self.done + 1;
                assert(self@.tasks =~= wiring_transition(old(self)@, outcome).tasks);
            },
        }
    }

    /// The error that aborted the launch, if one did.
    pub fn failure(&self) -> (r: Option<LaunchError>)
        ensures
            r == self@.failed,
    {
        self.failed
    }

    /// Whether every step succeeded.
    pub fn is_complete(&self) -> (r: bool)
        ensures
            r == (self@.failed is None && self@.done >= WIRING_STEPS),
    {
        self.failed.is_none() && self.done >= WIRING_STEPS
    }

    /// Tasks spawned so far.
    pub fn tasks(&self) -> (r: &Vec<TaskKind>)
        ensures
            r@ == self@.tasks,
    {
        &self.tasks
    }
}

/// The run after `outcomes`, in order, as long as steps are owed.
pub open spec fn run_wiring(m: WiringModel, outcomes: Seq<Result<(), u64>>) -> WiringModel
    decreases outcomes.len(),
{
    if outcomes.len() == 0 || m.finished() {
        m
    } else {
        run_wiring(wiring_transition(m, outcomes[0]), outcomes.drop_first())
    }
}

/// The tasks spawned by the first `k` steps.
pub open spec fn spawned_before(k: nat, n_exex: nat) -> Seq<TaskKind>
    decreases k,
{
    if k == 0 {
        Seq::empty()
    } else {
        spawned_before((k - 1) as nat, n_exex) + spawned_by(wiring_step_at((k - 1) as nat), n_exex)
    }
}

proof fn lemma_run_wiring(m: WiringModel, outcomes: Seq<Result<(), u64>>)
    requires
        m.done <= WIRING_STEPS,
        m.tasks == spawned_before(m.done, m.n_exex),
    ensures
        run_wiring(m, outcomes).n_exex == m.n_exex,
        run_wiring(m, outcomes).done <= WIRING_STEPS,
        run_wiring(m, outcomes).tasks == spawned_before(run_wiring(m, outcomes).done, m.n_exex),
    decreases outcomes.len(),
{
    if outcomes.len() > 0 && !m.finished() {
        lemma_run_wiring(wiring_transition(m, outcomes[0]), outcomes.drop_first());
    }
}

/// Whatever the steps' outcomes, the tasks spawned are exactly those of the
/// steps that succeeded; a launch whose every step succeeds spawns the
/// extension manager (only with extensions installed), the event task and
/// the consensus engine, in that order.
pub proof fn lemma_wiring_spawns_by_plan(n_exex: nat, outcomes: Seq<Result<(), u64>>)
    ensures
        ({
            let r = run_wiring(
                WiringModel { done: 0, n_exex, tasks: Seq::empty(), failed: None },
                outcomes,
            );
            &&& r.tasks == spawned_before(r.done, n_exex)
            &&& (r.failed is None && r.done >= WIRING_STEPS ==> r.tasks == spawn_plan_spec(n_exex))
        }),
{
    let m = WiringModel { done: 0, n_exex, tasks: Seq::empty(), failed: None };
    lemma_run_wiring(m, outcomes);
    let r = run_wiring(m, outcomes);
    if r.failed is None && r.done >= WIRING_STEPS {
        assert(spawned_before(10, n_exex) =~= spawn_plan_spec(n_exex)) by {
            reveal_with_fuel(spawned_before, 11);
        }
    }
}

} // verus!
