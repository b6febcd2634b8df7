//! The event aggregator: merges the event streams of the node's services
//! into one stream, in arrival order.
use vstd::prelude::*;

verus! {

/// The services whose events are merged.
#[derive(PartialEq, Eq, Structural, Clone, Copy, Debug)]
pub enum EventSource {
    Network,
    Pipeline,
    ConsensusLayer,
    Pruner,
    StaticFile,
}

impl EventSource {
    /// Position of the source's stream.
    pub open spec fn spec_index(self) -> int {
        match self {
            EventSource::Network => 0,
            EventSource::Pipeline => 1,
            EventSource::ConsensusLayer => 2,
            EventSource::Pruner => 3,
            EventSource::StaticFile => 4,
        }
    }

    /// Position of the source's stream.
    pub fn index(&self) -> (r: usize)
        ensures
            r as int == self.spec_index(),
    {
        match self {
            EventSource::Network => 0,
            EventSource::Pipeline => 1,
            EventSource::ConsensusLayer => 2,
            EventSource::Pruner => 3,
            EventSource::StaticFile => 4,
        }
    }
}

/// Whether the consensus-layer health monitor joins the event stream: only
/// when no manual sync target is set and the node is not in development mode.
pub fn cl_health_active(debug_tip: Option<u64>, is_dev: bool) -> (r: bool)
    ensures
        r == (debug_tip.is_none() && !is_dev),
{
    debug_tip.is_none() && !is_dev
}

/// Number of merged streams.
pub const SOURCES: usize = 5;

/// One event of the merged stream.
#[derive(PartialEq, Eq, Structural, Clone, Copy, Debug)]
pub struct NodeEvent {
    pub source: EventSource,
    pub id: u64,
}

/// What one stream produced next: an event, or `None` at its end.
#[derive(PartialEq, Eq, Structural, Clone, Copy, Debug)]
pub struct Arrival {
    pub source: EventSource,
    pub item: Option<u64>,
}

/// The aggregator's state: which streams are still open, and the merged
/// stream delivered so far.
pub struct AggregatorModel {
    pub open: Seq<bool>,
    pub delivered: Seq<NodeEvent>,
}

/// One arrival: an event of an open stream is delivered; the end of an open
/// stream closes it; anything from a closed stream is dropped.
pub open spec fn aggregate_step(m: AggregatorModel, a: Arrival) -> AggregatorModel {
    let k = a.source.spec_index();
    if !m.open[k] {
        m
    } else {
        match a.item {
            Some(id) => AggregatorModel {
                delivered: m.delivered.push(NodeEvent { source: a.source, id }),
                ..m
            },
            None => AggregatorModel { open: m.open.update(k, false), ..m },
        }
    }
}

/// The state after `arrivals`, in order.
pub open spec fn aggregate(m: AggregatorModel, arrivals: Seq<Arrival>) -> AggregatorModel
    decreases arrivals.len(),
{
    if arrivals.len() == 0 {
        m
    } else {
        aggregate_step(aggregate(m, arrivals.drop_last()), arrivals.last())
    }
}

/// Every stream has ended.
pub open spec fn all_ended(m: AggregatorModel) -> bool {
    forall|k: int| 0 <= k < m.open.len() ==> !#[trigger] m.open[k]
}

/// Merges the streams of the node's services.
pub struct EventAggregator {
    open: Vec<bool>,
    delivered: Vec<NodeEvent>,
}

impl View for EventAggregator {
    type V = AggregatorModel;

    closed spec fn view(&self) -> AggregatorModel {
        AggregatorModel { open: self.open@, delivered: self.delivered@ }
    }
}

impl EventAggregator {
    /// All streams open, but the consensus-layer health stream, which is an
    /// empty stream unless `cl_active`.
    pub fn new(cl_active: bool) -> (r: Self)
        ensures
            r@.open == seq![true, true, cl_active, true, true],
            r@.delivered == Seq::<NodeEvent>::empty(),
    {
        let mut open: Vec<bool> = Vec::new();
        open.push(true);
        open.push(true);
        open.push(cl_active);
        open.push(true);
        open.push(true);
        let r = EventAggregator { open, delivered: Vec::new() };
        assert(r@.open =~= seq![true, true, cl_active, true, true]);
        r
    }

    /// Takes what one stream produced next.
    pub fn on_arrival(&mut self, a: Arrival)
        requires
            old(self)@.open.len() == SOURCES,
        ensures
            final(self)@ == aggregate_step(old(self)@, a),
            final(self)@.open.len() == SOURCES,
    {
        let k = a.source.index();
        if self.open[k] {
            match a.item {
                Some(id) => {
                    self.delivered.push(NodeEvent { source: a.source, id });
                },
                None => {
                    self.open.set(k, false);
                },
            }
        }
    }

    /// Whether every stream has ended.
    pub fn is_ended(&self) -> (r: bool)
        ensures
            r == all_ended(self@),
    {
        let mut i: usize = 0;
        while i < self.open.len()
            invariant
                i <= self.open.len(),
                forall|k: int| 0 <= k < i ==> !#[trigger] self.open@[k],
            decreases self.open.len() - i,
        {
            if self.open[i] {
                assert(self@.open[i as int]);
                return false;
            }
            i = i + 1;
        }
        true
    }

    /// The merged stream so far.
    pub fn delivered(&self) -> (r: &Vec<NodeEvent>)
        ensures
            r@ == self@.delivered,
    {
        &self.delivered
    }
}

/// A stream's end arrives at position `j`.
pub open spec fn closes(arrivals: Seq<Arrival>, j: int, k: int) -> bool {
    arrivals[j].source.spec_index() == k && arrivals[j].item is None
}

/// A stream stays open exactly until its end arrives.
proof fn lemma_open_until_end(m: AggregatorModel, arrivals: Seq<Arrival>, k: int)
    requires
        m.open.len() == SOURCES,
        0 <= k < SOURCES,
    ensures
        aggregate(m, arrivals).open.len() == SOURCES,
        aggregate(m, arrivals).open[k] == (m.open[k] && forall|j: int|
            0 <= j < arrivals.len() ==> !#[trigger] closes(arrivals, j, k)),
    decreases arrivals.len(),
{
    if arrivals.len() > 0 {
        let p = arrivals.drop_last();
        lemma_open_until_end(m, p, k);
        assert forall|j: int| 0 <= j < p.len() implies closes(p, j, k) == closes(arrivals, j, k) by {
            assert(p[j] == arrivals[j]);
        }
        let before = aggregate(m, p);
        let last = arrivals.last();
        if !before.open[k] {
            let j0 = choose|j: int| 0 <= j < p.len() && #[trigger] closes(p, j, k);
            if m.open[k] {
                assert(closes(arrivals, j0, k));
            }
        }
        if closes(arrivals, arrivals.len() - 1, k) {
        }
    }
}

/// The merged stream never loses an event already delivered.
proof fn lemma_delivered_kept(m: AggregatorModel, a: Arrival, e: NodeEvent)
    requires
        m.delivered.contains(e),
    ensures
        aggregate_step(m, a).delivered.contains(e),
{
    let i = choose|i: int| 0 <= i < m.delivered.len() && m.delivered[i] == e;
    if m.open[a.source.spec_index()] && a.item is Some {
        assert(aggregate_step(m, a).delivered[i] == e);
    }
}

/// Every event that arrives from a stream that was open and had not ended
/// is in the merged stream from then on, whatever the other streams did: an
/// event from each service is delivered before the merged stream ends.
pub proof fn lemma_events_of_open_streams_delivered(
    m: AggregatorModel,
    arrivals: Seq<Arrival>,
    k: int,
)
    requires
        m.open.len() == SOURCES,
        0 <= k < arrivals.len(),
        arrivals[k].item is Some,
        m.open[arrivals[k].source.spec_index()],
        forall|j: int| 0 <= j < k ==> !#[trigger] closes(arrivals, j, arrivals[k].source.spec_index()),
    ensures
        aggregate(m, arrivals).delivered.contains(
            NodeEvent { source: arrivals[k].source, id: arrivals[k].item.unwrap() },
        ),
    decreases arrivals.len(),
{
    let p = arrivals.drop_last();
    let e = NodeEvent { source: arrivals[k].source, id: arrivals[k].item.unwrap() };
    let s = arrivals[k].source.spec_index();
    if k == arrivals.len() - 1 {
        lemma_open_until_end(m, p, s);
        assert forall|j: int| 0 <= j < p.len() implies !#[trigger] closes(p, j, s) by {
            assert(p[j] == arrivals[j]);
            assert(!closes(arrivals, j, s));
        }
        let before = aggregate(m, p);
        assert(before.open[s]);
        let after = aggregate_step(before, arrivals.last());
        assert(after.delivered.last() == e);
        assert(after.delivered.contains(e));
    } else {
        assert(p[k] == arrivals[k]);
        assert forall|j: int| 0 <= j < k implies !#[trigger] closes(p, j, s) by {
            assert(p[j] == arrivals[j]);
            assert(!closes(arrivals, j, s));
        }
        lemma_events_of_open_streams_delivered(m, p, k);
        lemma_delivered_kept(aggregate(m, p), arrivals.last(), e);
    }
}

} // verus!
