//! The exit signal of a running node: resolved once, by the consensus
//! engine's terminal result.
use vstd::prelude::*;

verus! {

/// How the consensus-engine service ended.
#[derive(PartialEq, Eq, Structural, Clone, Copy, Debug)]
pub enum EngineExit {
    /// Clean shutdown.
    Finished,
    /// The service failed with this error code.
    Failed(u64),
}

/// The outcome held after forwarding `r` to a signal holding `o`: only the
/// first result is kept.
pub open spec fn resolve_spec(o: Option<EngineExit>, r: EngineExit) -> Option<EngineExit> {
    if o is None {
        Some(r)
    } else {
        o
    }
}

/// Single-resolution completion signal of a node.
pub struct ExitSignal {
    outcome: Option<EngineExit>,
    terminate: bool,
}

/// What an exit signal holds.
pub struct ExitModel {
    pub outcome: Option<EngineExit>,
    pub terminate: bool,
}

impl View for ExitSignal {
    type V = ExitModel;

    closed spec fn view(&self) -> ExitModel {
        ExitModel { outcome: self.outcome, terminate: self.terminate }
    }
}

impl ExitSignal {
    /// An unresolved signal; `terminate` asks the process driver to stop the
    /// process once it resolves.
    pub fn new(terminate: bool) -> (r: Self)
        ensures
            r@ == (ExitModel { outcome: None, terminate }),
    {
        ExitSignal { outcome: None, terminate }
    }

    /// Forwards the engine's terminal result. Returns whether it was taken:
    /// a second result is refused and changes nothing.
    pub fn resolve(&mut self, r: EngineExit) -> (accepted: bool)
        ensures
            accepted == (old(self)@.outcome is None),
            final(self)@.outcome == resolve_spec(old(self)@.outcome, r),
            final(self)@.terminate == old(self)@.terminate,
    {
        if self.outcome.is_none() {
            self.outcome = Some(r);
            true
        } else {
            false
        }
    }

    /// The engine's result, once resolved.
    pub fn outcome(&self) -> (r: Option<EngineExit>)
        ensures
            r == self@.outcome,
    {
        self.outcome
    }

    /// Whether the signal has resolved.
    pub fn is_resolved(&self) -> (r: bool)
        ensures
            r == (self@.outcome is Some),
    {
        self.outcome.is_some()
    }

    /// Whether the process driver stops the process now: the signal has
    /// resolved and termination on exit was configured.
    pub fn stop_process(&self) -> (r: bool)
        ensures
            r == (self@.outcome is Some && self@.terminate),
    {
        self.outcome.is_some() && self.terminate
    }
}

/// Forwarding two results to an unresolved signal keeps the first one: the
/// signal resolves exactly once.
pub proof fn lemma_resolves_once(first: EngineExit, second: EngineExit)
    ensures
        resolve_spec(resolve_spec(None, first), second) == Some(first),
{
}

} // verus!
