use vstd::prelude::*;

verus! {

/// The most distance evaluations that one ray is given before it counts as a miss.
pub const MAX_MARCH_STEPS: u32 = 128;

/// What the caller measured at one step of a sphere trace, after evaluating the
/// distance field at the current point.
#[derive(Clone, Copy, Debug, PartialEq, Eq, Structural)]
pub struct StepObservation {
    /// The step just measured exceeds the previous one by more than one unit
    /// (the previous one being the first measurement, on the first step).
    pub grew: bool,
    /// The step just measured is below the collision threshold.
    pub within_threshold: bool,
}

/// What a sphere trace does after a step has been observed.
#[derive(Clone, Copy, Debug, PartialEq, Eq, Structural)]
pub enum MarchAction {
    /// Move the point along the ray by the measured step and observe again.
    Advance,
    /// The current point is the intersection.
    Hit,
    /// Two steps in a row grew: the ray is leaving the scene; no hit.
    Diverged,
    /// The step budget is spent; no hit.
    Exhausted,
}

/// The decision state of one sphere trace.
#[derive(Clone, Copy, Debug, PartialEq, Eq, Structural)]
pub struct MarchState {
    /// Observations made so far.
    pub steps_taken: u32,
    /// Whether the latest observation had grown.
    pub last_grew: bool,
}

/// The state before any distance has been observed.
pub open spec fn start_state() -> MarchState {
    MarchState { steps_taken: 0, last_grew: false }
}

/// One decision: divergence is tested first, then the hit, then the budget.
pub open spec fn next_spec(s: MarchState, o: StepObservation) -> (MarchState, MarchAction) {
    let n = MarchState { steps_taken: (s.steps_taken + 1) as u32, last_grew: o.grew };
    let a = if o.grew && s.last_grew {
        MarchAction::Diverged
    } else if o.within_threshold {
        MarchAction::Hit
    } else if s.steps_taken + 1 >= MAX_MARCH_STEPS {
        MarchAction::Exhausted
    } else {
        MarchAction::Advance
    };
    (n, a)
}

/// The decisions made on `obs` from index `i` on, starting in `s`: the state and
/// action of the first decision that is not `Advance`, or `Advance` with the
/// state reached when the observations run out first.
pub open spec fn march(s: MarchState, obs: Seq<StepObservation>, i: nat) -> (MarchState, MarchAction)
    decreases obs.len() - i,
{
    if i >= obs.len() {
        (s, MarchAction::Advance)
    } else {
        let (n, a) = next_spec(s, obs[i as int]);
        if a is Advance {
            march(n, obs, i + 1)
        } else {
            (n, a)
        }
    }
}

/// `s` is the state that a trace has reached after advancing past the first `i`
/// observations of `obs`.
pub open spec fn reached(s: MarchState, obs: Seq<StepObservation>, i: nat) -> bool {
    &&& i <= obs.len()
    &&& i < MAX_MARCH_STEPS
    &&& s.steps_taken == i
    &&& s.last_grew == (i > 0 && obs[i - 1].grew)
}

impl MarchState {
    pub fn start() -> (s: MarchState)
        ensures
            s == start_state(),
    {
        MarchState { steps_taken: 0, last_grew: false }
    }

    /// Decides what a trace in this state does after observing `o`.
    pub fn observe(&self, o: StepObservation) -> (r: (MarchState, MarchAction))
        requires
            self.steps_taken < MAX_MARCH_STEPS,
        ensures
            r == next_spec(*self, o),
            r.1 is Advance ==> r.0.steps_taken < MAX_MARCH_STEPS,
    {
        let next = MarchState { steps_taken: self.steps_taken + 1, last_grew: o.grew };
        let action = if o.grew && self.last_grew {
            MarchAction::Diverged
        } else if o.within_threshold {
            MarchAction::Hit
        } else if self.steps_taken + 1 >= MAX_MARCH_STEPS {
            MarchAction::Exhausted
        } else {
            MarchAction::Advance
        };
        (next, action)
    }
}

proof fn lemma_march_stops_within_budget(s: MarchState, obs: Seq<StepObservation>, i: nat)
    requires
        reached(s, obs, i),
        obs.len() >= MAX_MARCH_STEPS,
    ensures
        !(march(s, obs, i).1 is Advance),
        march(s, obs, i).0.steps_taken <= MAX_MARCH_STEPS,
    decreases obs.len() - i,
{
    let (n, a) = next_spec(s, obs[i as int]);
    if a is Advance {
        lemma_march_stops_within_budget(n, obs, i + 1);
    }
}

/// A trace given observations for its whole budget always stops, with no more
/// than `MAX_MARCH_STEPS` distance evaluations.
pub proof fn lemma_trace_terminates(obs: Seq<StepObservation>)
    requires
        obs.len() >= MAX_MARCH_STEPS,
    ensures
        !(march(start_state(), obs, 0).1 is Advance),
        march(start_state(), obs, 0).0.steps_taken <= MAX_MARCH_STEPS,
{
    lemma_march_stops_within_budget(start_state(), obs, 0);
}

proof fn lemma_march_diverges_by(s: MarchState, obs: Seq<StepObservation>, i: nat, k: nat)
    requires
        reached(s, obs, i),
        i <= k,
        1 <= k < obs.len(),
        k < MAX_MARCH_STEPS,
        obs[k - 1].grew,
        obs[k as int].grew,
    ensures
        march(s, obs, i).1 is Hit || march(s, obs, i).1 is Diverged,
        march(s, obs, i).0.steps_taken <= k + 1,
        (forall|j: int| i <= j < k ==> !obs[j].within_threshold) ==> march(s, obs, i).1 is Diverged,
    decreases k - i,
{
    let (n, a) = next_spec(s, obs[i as int]);
    if a is Advance {
        lemma_march_diverges_by(n, obs, i + 1, k);
    }
}

/// Once two consecutive steps have grown by more than a unit each, the trace
/// stops right there (or earlier, on a hit), without spending the rest of its
/// budget; with no hit before that point, the result is a divergence.
pub proof fn lemma_growing_steps_stop_trace(obs: Seq<StepObservation>, k: nat)
    requires
        1 <= k < obs.len(),
        k < MAX_MARCH_STEPS,
        obs[k - 1].grew,
        obs[k as int].grew,
    ensures
        march(start_state(), obs, 0).1 is Hit || march(start_state(), obs, 0).1 is Diverged,
        march(start_state(), obs, 0).0.steps_taken <= k + 1,
        k + 1 < MAX_MARCH_STEPS ==> march(start_state(), obs, 0).0.steps_taken < MAX_MARCH_STEPS,
        (forall|j: int| 0 <= j < k ==> !obs[j].within_threshold)
            ==> march(start_state(), obs, 0).1 is Diverged,
{
    lemma_march_diverges_by(start_state(), obs, 0, k);
}

proof fn lemma_march_uses_prefix(s: MarchState, a: Seq<StepObservation>, b: Seq<StepObservation>, i: nat)
    requires
        reached(s, a, i),
        !(march(s, a, i).1 is Advance),
        march(s, a, i).0.steps_taken <= b.len(),
        forall|j: int| i <= j < march(s, a, i).0.steps_taken ==> a[j] == b[j],
    ensures
        march(s, b, i) == march(s, a, i),
        march(s, a, i).0.steps_taken > i,
    decreases a.len() - i,
{
    let (n, x) = next_spec(s, a[i as int]);
    if x is Advance {
        lemma_march_uses_prefix(n, a, b, i + 1);
    }
}

/// Tracing is repeatable: a trace that stopped after `n` observations ends the
/// same way on any observations that agree with those first `n`, whatever
/// follows them.
pub proof fn lemma_trace_repeatable(a: Seq<StepObservation>, b: Seq<StepObservation>)
    requires
        !(march(start_state(), a, 0).1 is Advance),
        march(start_state(), a, 0).0.steps_taken <= b.len(),
        forall|j: int| 0 <= j < march(start_state(), a, 0).0.steps_taken ==> a[j] == b[j],
    ensures
        march(start_state(), b, 0) == march(start_state(), a, 0),
{
    lemma_march_uses_prefix(start_state(), a, b, 0);
}

/// Runs the decisions of a trace over observations recorded in advance.
pub fn replay_march(obs: &Vec<StepObservation>) -> (r: (MarchState, MarchAction))
    ensures
        r == march(start_state(), obs@, 0),
{
    let mut s = MarchState::start();
    let mut i: usize = 0;
    while i < obs.len()
        invariant
            reached(s, obs@, i as nat),
            march(start_state(), obs@, 0) == march(s, obs@, i as nat),
        decreases obs.len() - i,
    {
        let (n, a) = s.observe(obs[i]);
        if let MarchAction::Advance = a {
            s = n;
            i = i + 1;
        } else {
            return (n, a);
        }
    }
    (s, MarchAction::Advance)
}

} // verus!
