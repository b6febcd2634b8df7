//! The launch context: an accumulator threaded through the setup steps in a
//! fixed order, each of which may fail and abort the launch.
use vstd::prelude::*;

verus! {

/// The setup steps, in the only order in which they may run.
#[derive(PartialEq, Eq, Structural, Clone, Copy, Debug)]
pub enum SetupStep {
    ConfigureGlobals,
    LoadConfig,
    ResolvePeers,
    AttachStore,
    AdjustConfigs,
    ProviderFactory,
    Genesis,
    MetricsTask,
    BlockchainDb,
    Components,
}

/// Number of setup steps.
pub const SETUP_STEPS: u8 = 10;

impl SetupStep {
    /// Position of the step in the launch order.
    pub open spec fn spec_index(self) -> nat {
        match self {
            SetupStep::ConfigureGlobals => 0,
            SetupStep::LoadConfig => 1,
            SetupStep::ResolvePeers => 2,
            SetupStep::AttachStore => 3,
            SetupStep::AdjustConfigs => 4,
            SetupStep::ProviderFactory => 5,
            SetupStep::Genesis => 6,
            SetupStep::MetricsTask => 7,
            SetupStep::BlockchainDb => 8,
            SetupStep::Components => 9,
        }
    }

    /// Position of the step in the launch order.
    pub fn index(&self) -> (r: u8)
        ensures
            r as nat == self.spec_index(),
    {
        match self {
            SetupStep::ConfigureGlobals => 0,
            SetupStep::LoadConfig => 1,
            SetupStep::ResolvePeers => 2,
            SetupStep::AttachStore => 3,
            SetupStep::AdjustConfigs => 4,
            SetupStep::ProviderFactory => 5,
            SetupStep::Genesis => 6,
            SetupStep::MetricsTask => 7,
            SetupStep::BlockchainDb => 8,
            SetupStep::Components => 9,
        }
    }
}

/// The chain a node is configured for.
#[derive(PartialEq, Eq, Structural, Clone, Copy, Debug)]
pub struct ChainSpec {
    pub chain_id: u64,
    /// Hash of the genesis block, as a digest identifier.
    pub genesis_hash: u64,
}

/// The parts of the node configuration that the launch reads.
#[derive(PartialEq, Eq, Structural, Clone, Copy, Debug)]
pub struct NodeConfig {
    /// Highest block to sync to, if any.
    pub max_block: Option<u64>,
    /// Manual sync target, set for debugging.
    pub debug_tip: Option<u64>,
    /// Stop the process once the node exits.
    pub terminate: bool,
    /// Development mode.
    pub dev: bool,
}

/// What an opened store already holds.
#[derive(PartialEq, Eq, Structural, Clone, Copy, Debug)]
pub struct StoreInfo {
    /// Handle of the opened store.
    pub handle: u64,
    /// Chain the store was written for, if it holds data.
    pub chain_id: Option<u64>,
    /// Genesis hash written in the store, if any.
    pub genesis_hash: Option<u64>,
}

/// A provider factory: read access over a store for one chain.
#[derive(PartialEq, Eq, Structural, Clone, Copy, Debug)]
pub struct ProviderFactory {
    pub store: u64,
    pub chain_id: u64,
}

/// Outcome of the genesis step.
#[derive(PartialEq, Eq, Structural, Clone, Copy, Debug)]
pub struct GenesisState {
    pub hash: u64,
    /// The store was empty and the genesis state was written.
    pub written: bool,
}

/// The capability groups every node supplies.
#[derive(PartialEq, Eq, Structural, Clone, Copy, Debug)]
pub enum ComponentKind {
    Pool,
    EvmConfig,
    Executor,
    Network,
    PayloadBuilder,
}

/// One constructor's outcome: a handle, or the constructor's error code.
#[derive(Clone, Copy, Debug)]
pub struct ComponentOutcome {
    pub kind: ComponentKind,
    pub result: Result<u64, u64>,
}

/// One handle per capability group.
#[derive(PartialEq, Eq, Structural, Clone, Copy, Debug)]
pub struct Components {
    pub pool: u64,
    pub evm_config: u64,
    pub executor: u64,
    pub network: u64,
    pub payload_builder: u64,
}

/// Components built so far, one slot per capability group.
#[derive(PartialEq, Eq, Structural, Clone, Copy, Debug)]
pub struct PartialComponents {
    pub pool: Option<u64>,
    pub evm_config: Option<u64>,
    pub executor: Option<u64>,
    pub network: Option<u64>,
    pub payload_builder: Option<u64>,
}

/// Background tasks that a launch spawns.
#[derive(PartialEq, Eq, Structural, Clone, Copy, Debug)]
pub enum TaskKind {
    Metrics,
    ExExManager,
    Events,
    ConsensusEngine,
}

/// Why a launch stopped.
#[derive(PartialEq, Eq, Structural, Clone, Copy, Debug)]
pub enum LaunchError {
    /// A step was asked for before the steps it depends on ran, or again.
    OutOfOrder { expected: u8, got: SetupStep },
    /// The on-disk configuration could not be loaded.
    InvalidConfig,
    /// The store was written for another chain.
    IncompatibleStore { stored: u64, configured: u64 },
    /// The store holds another genesis block than the configured chain.
    GenesisMismatch { stored: u64, configured: u64 },
    /// A component constructor failed.
    ComponentBuild { kind: ComponentKind, code: u64 },
    /// No constructor supplied this capability group.
    MissingComponent(ComponentKind),
    /// A collaborator built after the components failed, with its code.
    Collaborator(u64),
    /// The observer of a started node failed, with its code.
    OnStarted(u64),
}

/// How bootstrap peer resolution ended.
pub enum PeerResolution {
    Resolved(Vec<u64>),
    /// Resolution timed out; the launch goes on without peers.
    TimedOut,
}

/// The input of one setup step: what outside work produced for it.
pub enum SetupInput {
    ConfigureGlobals,
    /// The loaded configuration, or `None` where it was invalid.
    LoadConfig(Option<NodeConfig>),
    ResolvePeers(PeerResolution),
    AttachStore(StoreInfo),
    AdjustConfigs,
    ProviderFactory,
    Genesis,
    MetricsTask,
    BlockchainDb,
    /// Constructor outcomes, in the order in which they ran.
    Components(Vec<ComponentOutcome>),
}

impl SetupInput {
    /// The step this input is for.
    pub open spec fn spec_step(&self) -> SetupStep {
        match self {
            SetupInput::ConfigureGlobals => SetupStep::ConfigureGlobals,
            SetupInput::LoadConfig(_) => SetupStep::LoadConfig,
            SetupInput::ResolvePeers(_) => SetupStep::ResolvePeers,
            SetupInput::AttachStore(_) => SetupStep::AttachStore,
            SetupInput::AdjustConfigs => SetupStep::AdjustConfigs,
            SetupInput::ProviderFactory => SetupStep::ProviderFactory,
            SetupInput::Genesis => SetupStep::Genesis,
            SetupInput::MetricsTask => SetupStep::MetricsTask,
            SetupInput::BlockchainDb => SetupStep::BlockchainDb,
            SetupInput::Components(_) => SetupStep::Components,
        }
    }

    /// The step this input is for.
    pub fn step(&self) -> (r: SetupStep)
        ensures
            r == self.spec_step(),
    {
        match self {
            SetupInput::ConfigureGlobals => SetupStep::ConfigureGlobals,
            SetupInput::LoadConfig(_) => SetupStep::LoadConfig,
            SetupInput::ResolvePeers(_) => SetupStep::ResolvePeers,
            SetupInput::AttachStore(_) => SetupStep::AttachStore,
            SetupInput::AdjustConfigs => SetupStep::AdjustConfigs,
            SetupInput::ProviderFactory => SetupStep::ProviderFactory,
            SetupInput::Genesis => SetupStep::Genesis,
            SetupInput::MetricsTask => SetupStep::MetricsTask,
            SetupInput::BlockchainDb => SetupStep::BlockchainDb,
            SetupInput::Components(_) => SetupStep::Components,
        }
    }
}

/// No component built yet.
pub open spec fn no_components() -> PartialComponents {
    PartialComponents { pool: None, evm_config: None, executor: None, network: None, payload_builder: None }
}

/// `acc` with the slot of `kind` holding `h`.
pub open spec fn put_component(acc: PartialComponents, kind: ComponentKind, h: u64) -> PartialComponents {
    match kind {
        ComponentKind::Pool => PartialComponents { pool: Some(h), ..acc },
        ComponentKind::EvmConfig => PartialComponents { evm_config: Some(h), ..acc },
        ComponentKind::Executor => PartialComponents { executor: Some(h), ..acc },
        ComponentKind::Network => PartialComponents { network: Some(h), ..acc },
        ComponentKind::PayloadBuilder => PartialComponents { payload_builder: Some(h), ..acc },
    }
}

/// The full component set, or the first capability group left empty.
pub open spec fn finish_components(acc: PartialComponents) -> Result<Components, LaunchError> {
    if acc.pool is None {
        Err(LaunchError::MissingComponent(ComponentKind::Pool))
    } else if acc.evm_config is None {
        Err(LaunchError::MissingComponent(ComponentKind::EvmConfig))
    } else if acc.executor is None {
        Err(LaunchError::MissingComponent(ComponentKind::Executor))
    } else if acc.network is None {
        Err(LaunchError::MissingComponent(ComponentKind::Network))
    } else if acc.payload_builder is None {
        Err(LaunchError::MissingComponent(ComponentKind::PayloadBuilder))
    } else {
        Ok(
            Components {
                pool: acc.pool.unwrap(),
                evm_config: acc.evm_config.unwrap(),
                executor: acc.executor.unwrap(),
                network: acc.network.unwrap(),
                payload_builder: acc.payload_builder.unwrap(),
            },
        )
    }
}

/// Composition of the outcomes from position `i` on, with `acc` built before:
/// the first failure aborts; otherwise every group must have been supplied
/// (a later handle of the same group replaces an earlier one).
pub open spec fn compose_from(s: Seq<ComponentOutcome>, i: int, acc: PartialComponents) -> Result<
    Components,
    LaunchError,
>
    decreases s.len() - i,
{
    if 0 <= i < s.len() {
        match s[i].result {
            Err(code) => Err(LaunchError::ComponentBuild { kind: s[i].kind, code }),
            Ok(h) => compose_from(s, i + 1, put_component(acc, s[i].kind, h)),
        }
    } else {
        finish_components(acc)
    }
}

/// The component set that constructor outcomes give, in construction order.
pub open spec fn compose(s: Seq<ComponentOutcome>) -> Result<Components, LaunchError> {
    compose_from(s, 0, no_components())
}

fn put_component_exec(acc: PartialComponents, kind: ComponentKind, h: u64) -> (r: PartialComponents)
    ensures
        r == put_component(acc, kind, h),
{
    match kind {
        ComponentKind::Pool => PartialComponents { pool: Some(h), ..acc },
        ComponentKind::EvmConfig => PartialComponents { evm_config: Some(h), ..acc },
        ComponentKind::Executor => PartialComponents { executor: Some(h), ..acc },
        ComponentKind::Network => PartialComponents { network: Some(h), ..acc },
        ComponentKind::PayloadBuilder => PartialComponents { payload_builder: Some(h), ..acc },
    }
}

fn finish_components_exec(acc: PartialComponents) -> (r: Result<Components, LaunchError>)
    ensures
        r == finish_components(acc),
{
    match (acc.pool, acc.evm_config, acc.executor, acc.network, acc.payload_builder) {
        (None, _, _, _, _) => Err(LaunchError::MissingComponent(ComponentKind::Pool)),
        (_, None, _, _, _) => Err(LaunchError::MissingComponent(ComponentKind::EvmConfig)),
        (_, _, None, _, _) => Err(LaunchError::MissingComponent(ComponentKind::Executor)),
        (_, _, _, None, _) => Err(LaunchError::MissingComponent(ComponentKind::Network)),
        (_, _, _, _, None) => Err(LaunchError::MissingComponent(ComponentKind::PayloadBuilder)),
        (Some(pool), Some(evm_config), Some(executor), Some(network), Some(payload_builder)) => Ok(
            Components { pool, evm_config, executor, network, payload_builder },
        ),
    }
}

/// Builds the component set from constructor outcomes, atomically: the first
/// failed constructor aborts the build and nothing partial is returned.
pub fn compose_components(outcomes: &Vec<ComponentOutcome>) -> (r: Result<Components, LaunchError>)
    ensures
        r == compose(outcomes@),
{
    let mut acc = PartialComponents {
        pool: None,
        evm_config: None,
        executor: None,
        network: None,
        payload_builder: None,
    };
    let mut i: usize = 0;
    while i < outcomes.len()
        invariant
            0 <= i <= outcomes.len(),
            compose(outcomes@) == compose_from(outcomes@, i as int, acc),
        decreases outcomes.len() - i,
    {
        let o = outcomes[i];
        match o.result {
            Err(code) => {
                return Err(LaunchError::ComponentBuild { kind: o.kind, code });
            },
            Ok(h) => {
                acc = put_component_exec(acc, o.kind, h);
            },
        }
        i = i + 1;
    }
    finish_components_exec(acc)
}

/// Opening a provider factory: refused where the store holds another chain.
pub open spec fn provider_factory_outcome(store: StoreInfo, chain: ChainSpec) -> Result<
    ProviderFactory,
    LaunchError,
> {
    match store.chain_id {
        Some(c) => if c == chain.chain_id {
            Ok(ProviderFactory { store: store.handle, chain_id: chain.chain_id })
        } else {
            Err(LaunchError::IncompatibleStore { stored: c, configured: chain.chain_id })
        },
        None => Ok(ProviderFactory { store: store.handle, chain_id: chain.chain_id }),
    }
}

/// Opens a provider factory over `store` for `chain`.
pub fn open_provider_factory(store: &StoreInfo, chain: &ChainSpec) -> (r: Result<
    ProviderFactory,
    LaunchError,
>)
    ensures
        r == provider_factory_outcome(*store, *chain),
{
    match store.chain_id {
        Some(c) => if c == chain.chain_id {
            Ok(ProviderFactory { store: store.handle, chain_id: chain.chain_id })
        } else {
            Err(LaunchError::IncompatibleStore { stored: c, configured: chain.chain_id })
        },
        None => Ok(ProviderFactory { store: store.handle, chain_id: chain.chain_id }),
    }
}

/// The genesis step: an empty store gets the configured genesis written; a
/// store holding the same genesis is kept; any other genesis is a mismatch.
pub open spec fn genesis_outcome(stored: Option<u64>, configured: u64) -> Result<
    GenesisState,
    LaunchError,
> {
    match stored {
        None => Ok(GenesisState { hash: configured, written: true }),
        Some(g) => if g == configured {
            Ok(GenesisState { hash: g, written: false })
        } else {
            Err(LaunchError::GenesisMismatch { stored: g, configured })
        },
    }
}

/// Verifies the stored genesis against the configured one, or decides to write it.
pub fn check_genesis(stored: Option<u64>, configured: u64) -> (r: Result<GenesisState, LaunchError>)
    ensures
        r == genesis_outcome(stored, configured),
{
    match stored {
        None => Ok(GenesisState { hash: configured, written: true }),
        Some(g) => if g == configured {
            Ok(GenesisState { hash: g, written: false })
        } else {
            Err(LaunchError::GenesisMismatch { stored: g, configured })
        },
    }
}

/// What a launch context holds, field by field.
pub struct ContextModel {
    /// Number of setup steps that have run.
    pub done: nat,
    pub data_dir: Seq<char>,
    pub chain: ChainSpec,
    pub config: Option<NodeConfig>,
    pub peers: Option<Seq<u64>>,
    pub store: Option<StoreInfo>,
    pub provider_factory: Option<ProviderFactory>,
    pub genesis: Option<GenesisState>,
    /// Background tasks spawned so far, in spawn order.
    pub tasks: Seq<TaskKind>,
    pub components: Option<Components>,
}

impl ContextModel {
    /// Each field is present exactly when the step that produces it has run.
    pub open spec fn wf(self) -> bool {
        &&& self.done <= SETUP_STEPS
        &&& (self.config is Some <==> self.done > SetupStep::LoadConfig.spec_index())
        &&& (self.peers is Some <==> self.done > SetupStep::ResolvePeers.spec_index())
        &&& (self.store is Some <==> self.done > SetupStep::AttachStore.spec_index())
        &&& (self.provider_factory is Some <==> self.done > SetupStep::ProviderFactory.spec_index())
        &&& (self.genesis is Some <==> self.done > SetupStep::Genesis.spec_index())
        &&& self.tasks == (if self.done > SetupStep::MetricsTask.spec_index() {
            seq![TaskKind::Metrics]
        } else {
            Seq::<TaskKind>::empty()
        })
        &&& (self.components is Some <==> self.done > SetupStep::Components.spec_index())
    }

    /// The model after one setup step succeeded, without any other change.
    pub open spec fn bumped(self) -> ContextModel {
        ContextModel { done: self.done + 1, ..self }
    }
}

/// The result of feeding `input` to a context in state `m`: a step out of
/// order is refused; otherwise the step adds its artifact or fails.
pub open spec fn setup_transition(m: ContextModel, input: SetupInput) -> Result<
    ContextModel,
    LaunchError,
> {
    if input.spec_step().spec_index() != m.done {
        Err(LaunchError::OutOfOrder { expected: m.done as u8, got: input.spec_step() })
    } else {
        match input {
            SetupInput::LoadConfig(c) => match c {
                None => Err(LaunchError::InvalidConfig),
                Some(c) => Ok(ContextModel { config: Some(c), ..m.bumped() }),
            },
            SetupInput::ResolvePeers(p) => Ok(
                ContextModel {
                    peers: Some(
                        match p {
                            PeerResolution::Resolved(v) => v@,
                            PeerResolution::TimedOut => Seq::empty(),
                        },
                    ),
                    ..m.bumped()
                },
            ),
            SetupInput::AttachStore(st) => Ok(ContextModel { store: Some(st), ..m.bumped() }),
            SetupInput::ProviderFactory => match provider_factory_outcome(m.store.unwrap(), m.chain) {
                Err(e) => Err(e),
                Ok(pf) => Ok(ContextModel { provider_factory: Some(pf), ..m.bumped() }),
            },
            SetupInput::Genesis => match genesis_outcome(m.store.unwrap().genesis_hash, m.chain.genesis_hash) {
                Err(e) => Err(e),
                Ok(g) => Ok(ContextModel { genesis: Some(g), ..m.bumped() }),
            },
            SetupInput::MetricsTask => Ok(ContextModel { tasks: m.tasks.push(TaskKind::Metrics), ..m.bumped() }),
            SetupInput::Components(v) => match compose(v@) {
                Err(e) => Err(e),
                Ok(c) => Ok(ContextModel { components: Some(c), ..m.bumped() }),
            },
            _ => Ok(m.bumped()),
        }
    }
}

/// The accumulator threaded through the setup steps. A field can be read
/// only once the step that produces it has run.
pub struct LaunchContext {
    done: u8,
    data_dir: String,
    chain: ChainSpec,
    config: Option<NodeConfig>,
    peers: Option<Vec<u64>>,
    store: Option<StoreInfo>,
    provider_factory: Option<ProviderFactory>,
    genesis: Option<GenesisState>,
    tasks: Vec<TaskKind>,
    components: Option<Components>,
}

impl View for LaunchContext {
    type V = ContextModel;

    closed spec fn view(&self) -> ContextModel {
        ContextModel {
            done: self.done as nat,
            data_dir: self.data_dir@,
            chain: self.chain,
            config: self.config,
            peers: match self.peers {
                Some(v) => Some(v@),
                None => None,
            },
            store: self.store,
            provider_factory: self.provider_factory,
            genesis: self.genesis,
            tasks: self.tasks@,
            components: self.components,
        }
    }
}

impl LaunchContext {
    /// A context on which no step has run yet.
    pub fn new(data_dir: String, chain: ChainSpec) -> (r: Self)
        ensures
            r@ == (ContextModel {
                done: 0,
                data_dir: data_dir@,
                chain,
                config: None,
                peers: None,
                store: None,
                provider_factory: None,
                genesis: None,
                tasks: Seq::empty(),
                components: None,
            }),
            r@.wf(),
    {
        LaunchContext {
            done: 0,
            data_dir,
            chain,
            config: None,
            peers: None,
            store: None,
            provider_factory: None,
            genesis: None,
            tasks: Vec::new(),
            components: None,
        }
    }

    /// Runs one setup step on what outside work produced for it.
    pub fn advance(self, input: SetupInput) -> (r: Result<Self, LaunchError>)
        requires
            self@.wf(),
        ensures
            match r {
                Ok(c) => setup_transition(self@, input) == Ok::<ContextModel, LaunchError>(c@) && c@.wf(),
                Err(e) => setup_transition(self@, input) == Err::<ContextModel, LaunchError>(e),
            },
    {
        let step = input.step();
        if step.index() != self.done {
            return Err(LaunchError::OutOfOrder { expected: self.done, got: step });
        }
        let mut c = self;
        match input {
            SetupInput::LoadConfig(cfg) => match cfg {
                None => {
                    return Err(LaunchError::InvalidConfig);
                },
                Some(x) => {
                    c.config = Some(x);
                },
            },
            SetupInput::ResolvePeers(p) => match p {
                PeerResolution::Resolved(v) => {
                    c.peers = Some(v);
                },
                PeerResolution::TimedOut => {
                    c.peers = Some(Vec::new());
                },
            },
            SetupInput::AttachStore(st) => {
                c.store = Some(st);
            },
            SetupInput::ProviderFactory => {
                let st = c.store.unwrap();
                match open_provider_factory(&st, &c.chain) {
                    Err(e) => {
                        return Err(e);
                    },
                    Ok(pf) => {
                        c.provider_factory = Some(pf);
                    },
                }
            },
            SetupInput::Genesis => {
                let st = c.store.unwrap();
                match check_genesis(st.genesis_hash, c.chain.genesis_hash) {
                    Err(e) => {
                        return Err(e);
                    },
                    Ok(g) => {
                        c.genesis = Some(g);
                    },
                }
            },
            SetupInput::MetricsTask => {
                c.tasks.push(TaskKind::Metrics);
            },
            SetupInput::Components(v) => match compose_components(&v) {
                Err(e) => {
                    return Err(e);
                },
                Ok(comps) => {
                    c.components = Some(comps);
                },
            },
            _ => {},
        }
        c.done = c.done + 1;
        proof {
            assert(c@.tasks =~= setup_transition(self@, input).unwrap().tasks);
        }
        Ok(c)
    }

    /// Number of setup steps that have run.
    pub fn steps_done(&self) -> (r: u8)
        ensures
            r as nat == self@.done,
    {
        self.done
    }

    /// The data directory.
    pub fn data_dir(&self) -> (r: &String)
        ensures
            r@ == self@.data_dir,
    {
        &self.data_dir
    }

    /// The configured chain.
    pub fn chain_spec(&self) -> (r: ChainSpec)
        ensures
            r == self@.chain,
    {
        self.chain
    }

    /// The loaded configuration, once loaded.
    pub fn config(&self) -> (r: Option<NodeConfig>)
        ensures
            r == self@.config,
            self@.wf() ==> (r is Some <==> self@.done > SetupStep::LoadConfig.spec_index()),
    {
        self.config
    }

    /// The bootstrap peers, once resolved.
    pub fn peers(&self) -> (r: Option<&Vec<u64>>)
        ensures
            match r {
                Some(v) => self@.peers == Some(v@),
                None => self@.peers is None,
            },
            self@.wf() ==> (r is Some <==> self@.done > SetupStep::ResolvePeers.spec_index()),
    {
        match &self.peers {
            Some(v) => Some(v),
            None => None,
        }
    }

    /// The attached store, once attached.
    pub fn store(&self) -> (r: Option<StoreInfo>)
        ensures
            r == self@.store,
            self@.wf() ==> (r is Some <==> self@.done > SetupStep::AttachStore.spec_index()),
    {
        self.store
    }

    /// The provider factory, once opened.
    pub fn provider_factory(&self) -> (r: Option<ProviderFactory>)
        ensures
            r == self@.provider_factory,
            self@.wf() ==> (r is Some <==> self@.done > SetupStep::ProviderFactory.spec_index()),
    {
        self.provider_factory
    }

    /// The genesis state, once checked.
    pub fn genesis(&self) -> (r: Option<GenesisState>)
        ensures
            r == self@.genesis,
            self@.wf() ==> (r is Some <==> self@.done > SetupStep::Genesis.spec_index()),
    {
        self.genesis
    }

    /// Background tasks spawned so far.
    pub fn tasks(&self) -> (r: &Vec<TaskKind>)
        ensures
            r@ == self@.tasks,
    {
        &self.tasks
    }

    /// The component set, once built.
    pub fn components(&self) -> (r: Option<Components>)
        ensures
            r == self@.components,
            self@.wf() ==> (r is Some <==> self@.done > SetupStep::Components.spec_index()),
    {
        self.components
    }
}

/// The result of feeding `inputs` one after the other, stopping at the first error.
pub open spec fn run_setup(m: ContextModel, inputs: Seq<SetupInput>) -> Result<ContextModel, LaunchError>
    decreases inputs.len(),
{
    if inputs.len() == 0 {
        Ok(m)
    } else {
        match setup_transition(m, inputs[0]) {
            Err(e) => Err(e),
            Ok(n) => run_setup(n, inputs.drop_first()),
        }
    }
}

/// A step fed out of order is refused with the position that was expected,
/// whatever the context holds.
pub proof fn lemma_out_of_order_rejected(m: ContextModel, input: SetupInput)
    requires
        m.wf(),
        input.spec_step().spec_index() != m.done,
    ensures
        setup_transition(m, input) == Err::<ContextModel, LaunchError>(
            LaunchError::OutOfOrder { expected: m.done as u8, got: input.spec_step() },
        ),
{
}

/// A sequence of setup inputs succeeds only where each input is for the
/// next step in the launch order: every out-of-order sequence is refused.
pub proof fn lemma_only_ordered_sequences_succeed(m: ContextModel, inputs: Seq<SetupInput>)
    ensures
        run_setup(m, inputs) is Ok ==> forall|i: int|
            0 <= i < inputs.len() ==> (#[trigger] inputs[i]).spec_step().spec_index() == m.done + i,
    decreases inputs.len(),
{
    if inputs.len() > 0 {
        if let Ok(n) = setup_transition(m, inputs[0]) {
            lemma_only_ordered_sequences_succeed(n, inputs.drop_first());
            if run_setup(m, inputs) is Ok {
                assert forall|i: int| 0 <= i < inputs.len() implies (#[trigger] inputs[i]).spec_step().spec_index()
                    == m.done + i by {
                    if i > 0 {
                        assert(inputs[i] == inputs.drop_first()[i - 1]);
                    }
                }
            }
        }
    }
}

/// A store that holds another genesis than the configured chain fails the
/// genesis step with a mismatch, and no background task has been spawned.
pub proof fn lemma_genesis_mismatch_spawns_nothing(m: ContextModel, stored: u64)
    requires
        m.wf(),
        m.done == SetupStep::Genesis.spec_index(),
        m.store.unwrap().genesis_hash == Some(stored),
        stored != m.chain.genesis_hash,
    ensures
        setup_transition(m, SetupInput::Genesis) == Err::<ContextModel, LaunchError>(
            LaunchError::GenesisMismatch { stored, configured: m.chain.genesis_hash },
        ),
        m.tasks.len() == 0,
{
}

/// A successful setup step keeps the context well formed, moves it one step
/// on, and leaves the chain and an attached store as they were.
pub proof fn lemma_transition_wf(m: ContextModel, input: SetupInput)
    requires
        m.wf(),
    ensures
        setup_transition(m, input) is Ok ==> ({
            let n = setup_transition(m, input).unwrap();
            &&& n.wf()
            &&& n.done == m.done + 1
            &&& n.chain == m.chain
            &&& (m.store is Some ==> n.store == m.store)
        }),
{
    if setup_transition(m, input) is Ok && input.spec_step() == SetupStep::MetricsTask {
        assert(m.tasks.push(TaskKind::Metrics) =~= seq![TaskKind::Metrics]);
    }
}

/// Once a store holding another genesis than the configured chain is
/// attached, no sequence of further steps gets past the genesis check, and
/// every context it reaches has spawned no background task.
pub proof fn lemma_genesis_mismatch_never_passes(m: ContextModel, inputs: Seq<SetupInput>, stored: u64)
    requires
        m.wf(),
        m.store is Some,
        m.store.unwrap().genesis_hash == Some(stored),
        stored != m.chain.genesis_hash,
        m.done <= SetupStep::Genesis.spec_index(),
    ensures
        run_setup(m, inputs) is Ok ==> run_setup(m, inputs).unwrap().done <= SetupStep::Genesis.spec_index(),
        run_setup(m, inputs) is Ok ==> run_setup(m, inputs).unwrap().tasks.len() == 0,
    decreases inputs.len(),
{
    if inputs.len() > 0 {
        lemma_transition_wf(m, inputs[0]);
        if let Ok(n) = setup_transition(m, inputs[0]) {
            lemma_genesis_mismatch_never_passes(n, inputs.drop_first(), stored);
        }
    }
}

} // verus!
