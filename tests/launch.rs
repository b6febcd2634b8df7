use node_launch::context::{
    ChainSpec, ComponentKind, ComponentOutcome, Components, GenesisState, LaunchContext,
    LaunchError, NodeConfig, PeerResolution, ProviderFactory, SetupInput, SetupStep, StoreInfo,
    TaskKind, check_genesis, compose_components, open_provider_factory,
};
use node_launch::exit::EngineExit;
use node_launch::node::{
    EthNodeLauncher, FailureDisposition, TaskPolicy, failure_disposition, finish_launch, spawn_plan,
    task_policy,
};

const CHAIN: ChainSpec = ChainSpec { chain_id: 1, genesis_hash: 0xd4e5 };

fn config() -> NodeConfig {
    NodeConfig { max_block: None, debug_tip: None, terminate: false, dev: false }
}

fn all_ok() -> Vec<ComponentOutcome> {
    vec![
        ComponentOutcome { kind: ComponentKind::Pool, result: Ok(10) },
        ComponentOutcome { kind: ComponentKind::EvmConfig, result: Ok(11) },
        ComponentOutcome { kind: ComponentKind::Executor, result: Ok(12) },
        ComponentOutcome { kind: ComponentKind::Network, result: Ok(13) },
        ComponentOutcome { kind: ComponentKind::PayloadBuilder, result: Ok(14) },
    ]
}

fn inputs(store: StoreInfo, cfg: NodeConfig) -> Vec<SetupInput> {
    vec![
        SetupInput::ConfigureGlobals,
        SetupInput::LoadConfig(Some(cfg)),
        SetupInput::ResolvePeers(PeerResolution::Resolved(Vec::new())),
        SetupInput::AttachStore(store),
        SetupInput::AdjustConfigs,
        SetupInput::ProviderFactory,
        SetupInput::Genesis,
        SetupInput::MetricsTask,
        SetupInput::BlockchainDb,
        SetupInput::Components(all_ok()),
    ]
}

fn empty_store() -> StoreInfo {
    StoreInfo { handle: 7, chain_id: None, genesis_hash: None }
}

fn run(store: StoreInfo, cfg: NodeConfig) -> Result<LaunchContext, LaunchError> {
    let mut ctx = EthNodeLauncher::new(String::from("/data"), CHAIN).ctx;
    for input in inputs(store, cfg) {
        ctx = ctx.advance(input)?;
    }
    Ok(ctx)
}

#[test]
fn full_launch_on_empty_store() {
    let ctx = run(empty_store(), config()).unwrap();
    assert_eq!(ctx.steps_done(), 10);
    assert_eq!(ctx.genesis(), Some(GenesisState { hash: 0xd4e5, written: true }));
    assert_eq!(ctx.tasks(), &vec![TaskKind::Metrics]);
    let mut node = finish_launch(&ctx);
    assert_eq!(node.pool(), 10);
    assert_eq!(node.network(), 13);
    assert_eq!(node.provider(), ProviderFactory { store: 7, chain_id: 1 });
    assert_eq!(node.data_dir(), "/data");
    assert!(!node.exit().is_resolved());
    assert!(node.engine_exited(EngineExit::Finished));
    assert_eq!(node.exit().outcome(), Some(EngineExit::Finished));
    assert!(!node.exit().stop_process());
}

#[test]
fn exit_forwards_engine_error_and_terminates() {
    let mut cfg = config();
    cfg.terminate = true;
    let ctx = run(empty_store(), cfg).unwrap();
    let mut node = finish_launch(&ctx);
    assert!(!node.exit().stop_process());
    assert_eq!(node.task_failed(TaskKind::ConsensusEngine, 42), FailureDisposition::ForwardToExit);
    assert_eq!(node.exit().outcome(), Some(EngineExit::Failed(42)));
    assert!(node.exit().stop_process());
    assert!(!node.engine_exited(EngineExit::Finished));
    assert_eq!(node.exit().outcome(), Some(EngineExit::Failed(42)));
}

#[test]
fn other_task_failures_abort_the_process() {
    let ctx = run(empty_store(), config()).unwrap();
    let mut node = finish_launch(&ctx);
    assert_eq!(node.task_failed(TaskKind::Events, 1), FailureDisposition::AbortProcess);
    assert_eq!(node.task_failed(TaskKind::Metrics, 1), FailureDisposition::AbortProcess);
    assert!(!node.exit().is_resolved());
}

#[test]
fn genesis_mismatch_fails_before_any_task() {
    let store = StoreInfo { handle: 7, chain_id: Some(1), genesis_hash: Some(0xaaaa) };
    let mut ctx = LaunchContext::new(String::from("/data"), CHAIN);
    for input in inputs(store, config()).into_iter().take(6) {
        ctx = ctx.advance(input).unwrap();
    }
    assert!(ctx.tasks().is_empty());
    assert_eq!(ctx.steps_done(), 6);
    assert_eq!(
        ctx.advance(SetupInput::Genesis).err(),
        Some(LaunchError::GenesisMismatch { stored: 0xaaaa, configured: 0xd4e5 })
    );
    assert_eq!(
        run(store, config()).err(),
        Some(LaunchError::GenesisMismatch { stored: 0xaaaa, configured: 0xd4e5 })
    );
}

#[test]
fn matching_genesis_is_kept() {
    let store = StoreInfo { handle: 7, chain_id: Some(1), genesis_hash: Some(0xd4e5) };
    let ctx = run(store, config()).unwrap();
    assert_eq!(ctx.genesis(), Some(GenesisState { hash: 0xd4e5, written: false }));
}

#[test]
fn every_out_of_order_step_is_rejected() {
    let steps = [
        SetupStep::ConfigureGlobals,
        SetupStep::LoadConfig,
        SetupStep::ResolvePeers,
        SetupStep::AttachStore,
        SetupStep::AdjustConfigs,
        SetupStep::ProviderFactory,
        SetupStep::Genesis,
        SetupStep::MetricsTask,
        SetupStep::BlockchainDb,
        SetupStep::Components,
    ];
    for done in 0..=10usize {
        for (k, step) in steps.iter().enumerate() {
            if k == done {
                continue;
            }
            let mut ctx = LaunchContext::new(String::from("/d"), CHAIN);
            for input in inputs(empty_store(), config()).into_iter().take(done) {
                ctx = ctx.advance(input).unwrap();
            }
            let input = inputs(empty_store(), config()).into_iter().nth(k).unwrap();
            assert_eq!(
                ctx.advance(input).err(),
                Some(LaunchError::OutOfOrder { expected: done as u8, got: *step })
            );
        }
    }
}

#[test]
fn fields_absent_before_their_step() {
    let mut ctx = LaunchContext::new(String::from("/d"), CHAIN);
    assert!(ctx.config().is_none());
    assert!(ctx.peers().is_none());
    assert!(ctx.store().is_none());
    assert!(ctx.provider_factory().is_none());
    assert!(ctx.genesis().is_none());
    assert!(ctx.components().is_none());
    for input in inputs(empty_store(), config()).into_iter().take(4) {
        ctx = ctx.advance(input).unwrap();
    }
    assert_eq!(ctx.config(), Some(config()));
    assert_eq!(ctx.peers(), Some(&Vec::new()));
    assert_eq!(ctx.store(), Some(empty_store()));
    assert!(ctx.provider_factory().is_none());
    assert_eq!(ctx.chain_spec(), CHAIN);
}

#[test]
fn invalid_config_fails() {
    let ctx = LaunchContext::new(String::from("/d"), CHAIN);
    let ctx = ctx.advance(SetupInput::ConfigureGlobals).unwrap();
    assert_eq!(ctx.advance(SetupInput::LoadConfig(None)).err(), Some(LaunchError::InvalidConfig));
}

#[test]
fn peer_timeout_fails_open() {
    let ctx = LaunchContext::new(String::from("/d"), CHAIN);
    let ctx = ctx.advance(SetupInput::ConfigureGlobals).unwrap();
    let ctx = ctx.advance(SetupInput::LoadConfig(Some(config()))).unwrap();
    let ctx = ctx.advance(SetupInput::ResolvePeers(PeerResolution::TimedOut)).unwrap();
    assert_eq!(ctx.peers(), Some(&Vec::new()));
    let ctx2 = LaunchContext::new(String::from("/d"), CHAIN)
        .advance(SetupInput::ConfigureGlobals)
        .unwrap()
        .advance(SetupInput::LoadConfig(Some(config())))
        .unwrap()
        .advance(SetupInput::ResolvePeers(PeerResolution::Resolved(vec![3, 4])))
        .unwrap();
    assert_eq!(ctx2.peers(), Some(&vec![3, 4]));
}

#[test]
fn incompatible_store_fails() {
    let store = StoreInfo { handle: 7, chain_id: Some(5), genesis_hash: None };
    assert_eq!(run(store, config()).err(), Some(LaunchError::IncompatibleStore { stored: 5, configured: 1 }));
    assert_eq!(
        open_provider_factory(&StoreInfo { handle: 2, chain_id: Some(1), genesis_hash: None }, &CHAIN),
        Ok(ProviderFactory { store: 2, chain_id: 1 })
    );
}

#[test]
fn genesis_check_cases() {
    assert_eq!(check_genesis(None, 3), Ok(GenesisState { hash: 3, written: true }));
    assert_eq!(check_genesis(Some(3), 3), Ok(GenesisState { hash: 3, written: false }));
    assert_eq!(check_genesis(Some(4), 3), Err(LaunchError::GenesisMismatch { stored: 4, configured: 3 }));
}

#[test]
fn components_first_failure_aborts() {
    let mut v = all_ok();
    v[1].result = Err(5);
    v[3].result = Err(6);
    assert_eq!(
        compose_components(&v),
        Err(LaunchError::ComponentBuild { kind: ComponentKind::EvmConfig, code: 5 })
    );
    let ctx = LaunchContext::new(String::from("/d"), CHAIN);
    let mut ctx = ctx;
    for input in inputs(empty_store(), config()).into_iter().take(9) {
        ctx = ctx.advance(input).unwrap();
    }
    assert_eq!(
        ctx.advance(SetupInput::Components(v)).err(),
        Some(LaunchError::ComponentBuild { kind: ComponentKind::EvmConfig, code: 5 })
    );
}

#[test]
fn components_missing_and_replaced() {
    let mut v = all_ok();
    v.remove(2);
    assert_eq!(compose_components(&v), Err(LaunchError::MissingComponent(ComponentKind::Executor)));
    assert_eq!(compose_components(&Vec::new()), Err(LaunchError::MissingComponent(ComponentKind::Pool)));
    let mut w = all_ok();
    w.push(ComponentOutcome { kind: ComponentKind::Pool, result: Ok(99) });
    assert_eq!(
        compose_components(&w),
        Ok(Components { pool: 99, evm_config: 11, executor: 12, network: 13, payload_builder: 14 })
    );
}

#[test]
fn supervision_policies() {
    assert_eq!(task_policy(TaskKind::ConsensusEngine), TaskPolicy::CriticalBlocking);
    assert_eq!(task_policy(TaskKind::Events), TaskPolicy::Critical);
    assert_eq!(task_policy(TaskKind::ExExManager), TaskPolicy::Critical);
    assert_eq!(failure_disposition(TaskPolicy::Critical), FailureDisposition::AbortProcess);
    assert_eq!(failure_disposition(TaskPolicy::CriticalBlocking), FailureDisposition::ForwardToExit);
}

#[test]
fn spawn_plan_with_and_without_extensions() {
    assert_eq!(spawn_plan(0), vec![TaskKind::Events, TaskKind::ConsensusEngine]);
    assert_eq!(
        spawn_plan(2),
        vec![TaskKind::ExExManager, TaskKind::Events, TaskKind::ConsensusEngine]
    );
}
