use node_launch::events::{Arrival, EventAggregator, EventSource, NodeEvent, cl_health_active};
use node_launch::exex::{ExExProgress, finished_height, prune_limit};
use node_launch::exit::{EngineExit, ExitSignal};
use node_launch::node_types::{
    AnyNodeTypes, BuilderProvider, FullNodeComponents, FullNodeTypes, FullNodeTypesAdapter, NodeTypes,
    noop_builder,
};

#[test]
fn no_extensions_leave_pruning_unbounded() {
    let bound = finished_height(&Vec::new());
    assert_eq!(bound, None);
    assert_eq!(prune_limit(1000, bound), 1000);
}

#[test]
fn pruning_bounded_by_least_extension_height() {
    let heights = vec![50, 30, 70];
    let bound = finished_height(&heights);
    assert_eq!(bound, Some(30));
    assert_eq!(prune_limit(1000, bound), 30);
    assert_eq!(prune_limit(20, bound), 20);
    for h in &heights {
        assert!(prune_limit(1000, bound) <= *h);
    }
    assert_eq!(finished_height(&vec![u64::MAX]), Some(u64::MAX));
}

#[test]
fn extension_progress_never_goes_down() {
    let mut p = ExExProgress::new(3, 10);
    assert_eq!(p.len(), 3);
    assert_eq!(p.finished_height(), Some(10));
    p.report(0, 15);
    p.report(1, 12);
    assert_eq!(p.finished_height(), Some(10));
    p.report(2, 20);
    assert_eq!(p.finished_height(), Some(12));
    p.report(1, 5);
    assert_eq!(p.finished_height(), Some(12));
    assert_eq!(ExExProgress::new(0, 10).finished_height(), None);
}

#[test]
fn exit_resolves_once() {
    let mut s = ExitSignal::new(false);
    assert!(!s.is_resolved());
    assert_eq!(s.outcome(), None);
    assert!(s.resolve(EngineExit::Failed(3)));
    assert!(!s.resolve(EngineExit::Finished));
    assert_eq!(s.outcome(), Some(EngineExit::Failed(3)));
    assert!(!s.stop_process());
    let mut t = ExitSignal::new(true);
    assert!(!t.stop_process());
    assert!(t.resolve(EngineExit::Finished));
    assert!(t.stop_process());
}

#[test]
fn aggregator_delivers_one_event_from_each_service() {
    let mut agg = EventAggregator::new(false);
    let sources = [
        EventSource::Network,
        EventSource::Pipeline,
        EventSource::Pruner,
        EventSource::StaticFile,
    ];
    for (i, s) in sources.iter().enumerate() {
        agg.on_arrival(Arrival { source: *s, item: Some(i as u64) });
    }
    assert!(!agg.is_ended());
    for s in sources.iter().rev() {
        agg.on_arrival(Arrival { source: *s, item: None });
    }
    assert!(agg.is_ended());
    let got = agg.delivered();
    assert_eq!(got.len(), 4);
    for (i, s) in sources.iter().enumerate() {
        assert!(got.contains(&NodeEvent { source: *s, id: i as u64 }));
    }
}

#[test]
fn aggregator_drops_after_stream_end() {
    let mut agg = EventAggregator::new(true);
    agg.on_arrival(Arrival { source: EventSource::ConsensusLayer, item: Some(1) });
    agg.on_arrival(Arrival { source: EventSource::Pipeline, item: None });
    agg.on_arrival(Arrival { source: EventSource::Pipeline, item: Some(2) });
    assert_eq!(agg.delivered(), &vec![NodeEvent { source: EventSource::ConsensusLayer, id: 1 }]);
    assert!(!agg.is_ended());
    let mut quiet = EventAggregator::new(false);
    quiet.on_arrival(Arrival { source: EventSource::ConsensusLayer, item: Some(1) });
    assert!(quiet.delivered().is_empty());
}

#[test]
fn health_monitor_only_without_tip_and_outside_dev() {
    assert!(cl_health_active(None, false));
    assert!(!cl_health_active(Some(5), false));
    assert!(!cl_health_active(None, true));
}

#[test]
fn node_type_builders() {
    let t: AnyNodeTypes = AnyNodeTypes::default();
    let t: AnyNodeTypes<u8, ()> = t.primitives::<u8>();
    let _t: AnyNodeTypes<u8, u16> = t.engine::<u16>();
    let a: FullNodeTypesAdapter<(), u8, u16> = FullNodeTypesAdapter::new();
    let _b = a.clone();
    let _c: FullNodeTypesAdapter<(), u8, u16> = Default::default();
    noop_builder(());
    <() as BuilderProvider<TestNode>>::builder(());
    let n = TestNode { handles: [1, 2, 3, 4, 5, 6, 7] };
    assert_eq!(
        (*n.pool(), *n.evm_config(), *n.block_executor(), *n.provider(), *n.network(), *n.payload_builder(), *n.task_executor()),
        (1, 2, 3, 4, 5, 6, 7)
    );
}

struct TestNode {
    handles: [u64; 7],
}

impl NodeTypes for TestNode {
    type Primitives = ();
    type Engine = ();
}

impl FullNodeTypes for TestNode {
    type DB = ();
    type Provider = u64;
}

impl FullNodeComponents for TestNode {
    type Pool = u64;
    type Evm = u64;
    type Executor = u64;
    type Network = u64;
    type PayloadBuilder = u64;
    type Tasks = u64;

    fn pool(&self) -> &u64 {
        &self.handles[0]
    }

    fn evm_config(&self) -> &u64 {
        &self.handles[1]
    }

    fn block_executor(&self) -> &u64 {
        &self.handles[2]
    }

    fn provider(&self) -> &u64 {
        &self.handles[3]
    }

    fn network(&self) -> &u64 {
        &self.handles[4]
    }

    fn payload_builder(&self) -> &u64 {
        &self.handles[5]
    }

    fn task_executor(&self) -> &u64 {
        &self.handles[6]
    }
}
