//! Finished heights of installed execution extensions, and the bound they
//! put on pruning.
use vstd::prelude::*;

verus! {

/// `m` is the least of the heights in `s`.
pub open spec fn is_min(s: Seq<u64>, m: u64) -> bool {
    &&& s.contains(m)
    &&& forall|i: int| 0 <= i < s.len() ==> m <= #[trigger] s[i]
}

/// The least of the heights, or `None` (no bound) when there are none.
pub open spec fn finished_height_spec(s: Seq<u64>) -> Option<u64> {
    if s.len() == 0 {
        None
    } else {
        Some(choose|m: u64| is_min(s, m))
    }
}

/// A sequence has at most one least element.
proof fn lemma_min_unique(s: Seq<u64>, a: u64, b: u64)
    requires
        is_min(s, a),
        is_min(s, b),
    ensures
        a == b,
{
    let i = choose|i: int| 0 <= i < s.len() && s[i] == a;
    let j = choose|j: int| 0 <= j < s.len() && s[j] == b;
    assert(a <= s[j] && b <= s[i]);
}

/// The height below which every installed extension has finished: the least
/// reported height, or `None` (no bound) when no extension is installed.
pub fn finished_height(heights: &Vec<u64>) -> (r: Option<u64>)
    ensures
        r == finished_height_spec(heights@),
        heights@.len() == 0 <==> r is None,
        match r {
            Some(m) => is_min(heights@, m),
            None => true,
        },
{
    if heights.len() == 0 {
        return None;
    }
    let mut m: u64 = heights[0];
    let mut at: usize = 0;
    let mut i: usize = 1;
    while i < heights.len()
        invariant
            1 <= i <= heights.len(),
            at < i,
            m == heights@[at as int],
            forall|j: int| 0 <= j < i ==> m <= #[trigger] heights@[j],
        decreases heights.len() - i,
    {
        if heights[i] < m {
            m = heights[i];
            at = i;
        }
        i = i + 1;
    }
    assert(heights@[at as int] == m);
    proof {
        let c = choose|c: u64| is_min(heights@, c);
        assert(is_min(heights@, m));
        lemma_min_unique(heights@, c, m);
    }
    Some(m)
}

/// The highest block the pruner may prune up to: the requested target,
/// lowered to the extensions' finished height where there is one.
pub open spec fn prune_limit_spec(target: u64, bound: Option<u64>) -> u64 {
    match bound {
        Some(b) => if b < target {
            b
        } else {
            target
        },
        None => target,
    }
}

/// The highest block the pruner may prune up to.
pub fn prune_limit(target: u64, bound: Option<u64>) -> (r: u64)
    ensures
        r == prune_limit_spec(target, bound),
{
    match bound {
        Some(b) => if b < target {
            b
        } else {
            target
        },
        None => target,
    }
}

/// Progress of the installed extensions: one finished height each, which
/// only ever rises.
pub struct ExExProgress {
    heights: Vec<u64>,
}

impl View for ExExProgress {
    type V = Seq<u64>;

    closed spec fn view(&self) -> Seq<u64> {
        self.heights@
    }
}

/// The heights after extension `i` reported `h`: a report below what it
/// already acknowledged is ignored.
pub open spec fn reported(s: Seq<u64>, i: int, h: u64) -> Seq<u64> {
    s.update(
        i,
        if h > s[i] {
            h
        } else {
            s[i]
        },
    )
}

impl ExExProgress {
    /// `n` extensions, each starting at the initial head `head`.
    pub fn new(n: usize, head: u64) -> (r: Self)
        ensures
            r@ == Seq::new(n as nat, |_i: int| head),
    {
        let mut heights: Vec<u64> = Vec::new();
        let mut i: usize = 0;
        while i < n
            invariant
                i <= n,
                heights@ == Seq::new(i as nat, |_i: int| head),
            decreases n - i,
        {
            heights.push(head);
            i = i + 1;
        }
        ExExProgress { heights }
    }

    /// Number of installed extensions.
    pub fn len(&self) -> (r: usize)
        ensures
            r == self@.len(),
    {
        self.heights.len()
    }

    /// Records that extension `i` has finished up to height `h`.
    pub fn report(&mut self, i: usize, h: u64)
        requires
            i < old(self)@.len(),
        ensures
            final(self)@ == reported(old(self)@, i as int, h),
    {
        if h > self.heights[i] {
            self.heights.set(i, h);
        }
        assert(self@ =~= reported(old(self)@, i as int, h));
    }

    /// The extensions' finished height: the least reported height.
    pub fn finished_height(&self) -> (r: Option<u64>)
        ensures
            r == finished_height_spec(self@),
            self@.len() == 0 <==> r is None,
            match r {
                Some(m) => is_min(self@, m),
                None => true,
            },
    {
        finished_height(&self.heights)
    }
}

/// With no extension installed, pruning is never held back: the limit is
/// the requested target.
pub proof fn lemma_no_extensions_never_bound(target: u64)
    ensures
        prune_limit_spec(target, finished_height_spec(Seq::empty())) == target,
{
}

/// With extensions installed, the pruning limit never exceeds the least
/// finished height any of them reported.
pub proof fn lemma_prune_limit_below_every_extension(target: u64, heights: Seq<u64>)
    requires
        heights.len() >= 1,
    ensures
        forall|i: int|
            0 <= i < heights.len() ==> prune_limit_spec(target, finished_height_spec(heights))
                <= #[trigger] heights[i],
{
    lemma_min_exists(heights);
}

/// A non-empty sequence has a least element.
proof fn lemma_min_exists(s: Seq<u64>)
    requires
        s.len() >= 1,
    ensures
        exists|m: u64| is_min(s, m),
    decreases s.len(),
{
    if s.len() == 1 {
        assert(is_min(s, s[0]));
    } else {
        let t = s.drop_last();
        lemma_min_exists(t);
        let m = choose|m: u64| is_min(t, m);
        let last = s[s.len() - 1];
        assert(t.contains(m));
        let k = choose|k: int| 0 <= k < t.len() && t[k] == m;
        assert(s[k] == m);
        if last < m {
            assert forall|i: int| 0 <= i < s.len() implies last <= #[trigger] s[i] by {
                if i < s.len() - 1 {
                    assert(s[i] == t[i]);
                }
            }
            assert(s[s.len() - 1] == last);
            assert(is_min(s, last));
        } else {
            assert forall|i: int| 0 <= i < s.len() implies m <= #[trigger] s[i] by {
                if i < s.len() - 1 {
                    assert(s[i] == t[i]);
                }
            }
            assert(is_min(s, m));
        }
    }
}

/// The finished height never goes down when an extension reports.
pub proof fn lemma_finished_height_monotone(s: Seq<u64>, i: int, h: u64, before: u64, after: u64)
    requires
        0 <= i < s.len(),
        is_min(s, before),
        is_min(reported(s, i, h), after),
    ensures
        before <= after,
{
    let t = reported(s, i, h);
    let j = choose|j: int| 0 <= j < t.len() && t[j] == after;
    assert(s[j] <= t[j]);
}

} // verus!
