use vstd::prelude::*;

verus! {

/// Where a light path stands while its colour is estimated: the bounces it
/// may still make and the diffuse bounces it has made so far.
#[derive(Clone, Copy, Debug, PartialEq, Eq, Structural)]
pub struct PathState {
    pub depth: u32,
    pub bounces: u32,
}

/// What becomes of a light path after one query of the scene.
#[derive(Clone, Copy, Debug, PartialEq, Eq, Structural)]
pub enum PathStep {
    /// The bounce budget is spent: the path contributes black.
    Absorbed,
    /// The ray missed every object after `bounces` diffuse bounces: the path
    /// contributes the background colour, halved once per bounce.
    Escaped { bounces: u32 },
    /// The ray hit a surface and scatters; tracing goes on from `next`.
    Scattered { next: PathState },
}

impl PathState {
    /// Budget and bounce count fit together in a `u32`.
    pub open spec fn wf(self) -> bool {
        self.depth + self.bounces <= u32::MAX
    }

    /// The outcome of one step: the budget is checked before the hit.
    pub open spec fn spec_step(self, hit: bool) -> PathStep {
        if self.depth == 0 {
            PathStep::Absorbed
        } else if hit {
            PathStep::Scattered {
                next: PathState { depth: (self.depth - 1) as u32, bounces: (self.bounces + 1) as u32 },
            }
        } else {
            PathStep::Escaped { bounces: self.bounces }
        }
    }

    /// A fresh path that may bounce `max_depth` times.
    pub fn new(max_depth: u32) -> (r: PathState)
        ensures
            r == (PathState { depth: max_depth, bounces: 0 }),
            r.wf(),
    {
        PathState { depth: max_depth, bounces: 0 }
    }

    /// Whether the budget is spent, so that the scene need not be queried.
    pub fn is_exhausted(&self) -> (r: bool)
        ensures
            r == (self.depth == 0),
    {
        self.depth == 0
    }

    /// The next step of the path, given whether the ray hit the scene. A
    /// spent budget absorbs the path whatever `hit` says.
    pub fn step(self, hit: bool) -> (r: PathStep)
        requires
            self.wf(),
        ensures
            r == self.spec_step(hit),
            r matches PathStep::Scattered { next } ==> next.wf(),
    {
        if self.depth == 0 {
            PathStep::Absorbed
        } else if hit {
            PathStep::Scattered {
                next: PathState { depth: self.depth - 1, bounces: self.bounces + 1 },
            }
        } else {
            PathStep::Escaped { bounces: self.bounces }
        }
    }
}

/// The step at which a path ends when the scene queries report `hits` in
/// order, or the state it has reached when `hits` runs out first.
pub open spec fn trace(s: PathState, hits: Seq<bool>) -> PathStep
    decreases hits.len(),
{
    if hits.len() == 0 {
        PathStep::Scattered { next: s }
    } else {
        match s.spec_step(hits[0]) {
            PathStep::Scattered { next } => trace(next, hits.drop_first()),
            other => other,
        }
    }
}

/// A path with `s.depth` bounces left ends within `s.depth + 1` queries,
/// whatever they report, and escapes after at most `s.bounces + s.depth`
/// bounces.
pub proof fn lemma_path_ends(s: PathState, hits: Seq<bool>)
    requires
        s.wf(),
        hits.len() > s.depth,
    ensures
        !(trace(s, hits) is Scattered),
        trace(s, hits) matches PathStep::Escaped { bounces } ==> bounces <= s.bounces + s.depth,
    decreases hits.len(),
{
    if s.depth > 0 && hits[0] {
        let next = PathState { depth: (s.depth - 1) as u32, bounces: (s.bounces + 1) as u32 };
        lemma_path_ends(next, hits.drop_first());
    }
}

/// Every path started with a budget of `max_depth` ends within
/// `max_depth + 1` scene queries, whatever the scene; with a budget of zero
/// it is absorbed at once and contributes black.
pub proof fn lemma_budget_ends_path(max_depth: u32, hits: Seq<bool>)
    requires
        hits.len() > max_depth,
    ensures
        !(trace(PathState { depth: max_depth, bounces: 0 }, hits) is Scattered),
        trace(PathState { depth: max_depth, bounces: 0 }, hits) matches PathStep::Escaped {
            bounces,
        } ==> bounces <= max_depth,
        max_depth == 0 ==> trace(PathState { depth: max_depth, bounces: 0 }, hits)
            == PathStep::Absorbed,
{
    lemma_path_ends(PathState { depth: max_depth, bounces: 0 }, hits);
}

} // verus!
