use vstd::prelude::*;

use crate::status::{HealthState, TaskStatus};
use crate::time::Duration;

verus! {

/// Effect one task state has on an aggregate health verdict.
#[derive(Clone, Copy, Debug, PartialEq, Eq, Structural, Hash)]
pub enum HealthImpact {
    /// Exclude matching tasks from the aggregate verdict.
    Ignore,
    /// Treat matching tasks as operating normally.
    Nominal,
    /// Treat matching tasks as usable but not fully ready.
    Degraded,
    /// Treat matching tasks as unhealthy.
    Unhealthy,
}

/// Aggregate health verdict for the tasks considered by a [`HealthPolicy`].
#[derive(Clone, Copy, Debug, PartialEq, Eq, Structural, Hash)]
pub enum HealthVerdict {
    /// No retained task was considered by the policy.
    Empty,
    /// Every considered task had nominal impact.
    Nominal,
    /// At least one considered task was degraded and none were unhealthy.
    Degraded,
    /// At least one considered task was unhealthy.
    Unhealthy,
}

impl HealthVerdict {
    /// Returns whether this verdict is fully nominal.
    pub fn is_nominal(self) -> (b: bool)
        ensures
            b == (self == HealthVerdict::Nominal),
    {
        match self {
            HealthVerdict::Nominal => true,
            _ => false,
        }
    }
}

/// Explicit mapping from task states to aggregate health impacts.
#[derive(Clone, Copy, Debug, PartialEq, Eq, Structural, Hash)]
pub struct HealthPolicy {
    pub starting: HealthImpact,
    pub learning: HealthImpact,
    pub healthy: HealthImpact,
    pub late: HealthImpact,
    pub stopped: HealthImpact,
}

impl Default for HealthPolicy {
    fn default() -> (p: HealthPolicy)
        ensures
            p == HealthPolicy::readiness_spec(),
    {
        HealthPolicy::readiness()
    }
}

/// The five stable states in the order they are folded into a verdict.
pub open spec fn all_states() -> Seq<HealthState> {
    seq![
        HealthState::Starting,
        HealthState::Learning,
        HealthState::Healthy,
        HealthState::Late,
        HealthState::Stopped,
    ]
}

impl HealthPolicy {
    /// Starting and learning tasks are degraded, healthy tasks are nominal,
    /// late and stopped tasks are unhealthy.
    pub open spec fn readiness_spec() -> HealthPolicy {
        HealthPolicy {
            starting: HealthImpact::Degraded,
            learning: HealthImpact::Degraded,
            healthy: HealthImpact::Nominal,
            late: HealthImpact::Unhealthy,
            stopped: HealthImpact::Unhealthy,
        }
    }

    /// Starting, learning and healthy tasks are nominal, late tasks are
    /// unhealthy and stopped tasks are ignored.
    pub open spec fn liveness_spec() -> HealthPolicy {
        HealthPolicy {
            starting: HealthImpact::Nominal,
            learning: HealthImpact::Nominal,
            healthy: HealthImpact::Nominal,
            late: HealthImpact::Unhealthy,
            stopped: HealthImpact::Ignore,
        }
    }

    /// Only healthy tasks are nominal; every other state is unhealthy.
    pub open spec fn strict_spec() -> HealthPolicy {
        HealthPolicy {
            starting: HealthImpact::Unhealthy,
            learning: HealthImpact::Unhealthy,
            healthy: HealthImpact::Nominal,
            late: HealthImpact::Unhealthy,
            stopped: HealthImpact::Unhealthy,
        }
    }

    /// The impact this policy assigns to a state.
    pub open spec fn impact_of(self, state: HealthState) -> HealthImpact {
        match state {
            HealthState::Starting => self.starting,
            HealthState::Learning => self.learning,
            HealthState::Healthy => self.healthy,
            HealthState::Late => self.late,
            HealthState::Stopped => self.stopped,
        }
    }

    /// A readiness-oriented policy.
    pub fn readiness() -> (p: HealthPolicy)
        ensures
            p == HealthPolicy::readiness_spec(),
    {
        HealthPolicy {
            starting: HealthImpact::Degraded,
            learning: HealthImpact::Degraded,
            healthy: HealthImpact::Nominal,
            late: HealthImpact::Unhealthy,
            stopped: HealthImpact::Unhealthy,
        }
    }

    /// A liveness-oriented policy.
    pub fn liveness() -> (p: HealthPolicy)
        ensures
            p == HealthPolicy::liveness_spec(),
    {
        HealthPolicy {
            starting: HealthImpact::Nominal,
            learning: HealthImpact::Nominal,
            healthy: HealthImpact::Nominal,
            late: HealthImpact::Unhealthy,
            stopped: HealthImpact::Ignore,
        }
    }

    /// A strict policy that accepts only healthy tasks as nominal.
    pub fn strict() -> (p: HealthPolicy)
        ensures
            p == HealthPolicy::strict_spec(),
    {
        HealthPolicy {
            starting: HealthImpact::Unhealthy,
            learning: HealthImpact::Unhealthy,
            healthy: HealthImpact::Nominal,
            late: HealthImpact::Unhealthy,
            stopped: HealthImpact::Unhealthy,
        }
    }

    /// Overrides the impact assigned to one stable task state.
    pub fn with_impact(self, state: HealthState, impact: HealthImpact) -> (p: HealthPolicy)
        ensures
            p.impact_of(state) == impact,
            forall|other: HealthState| other != state ==> p.impact_of(other) == self.impact_of(
                other,
            ),
    {
        let mut policy = self;
        match state {
            HealthState::Starting => policy.starting = impact,
            HealthState::Learning => policy.learning = impact,
            HealthState::Healthy => policy.healthy = impact,
            HealthState::Late => policy.late = impact,
            HealthState::Stopped => policy.stopped = impact,
        }
        policy
    }

    /// Returns the impact assigned to a stable task state.
    pub fn impact(self, state: HealthState) -> (i: HealthImpact)
        ensures
            i == self.impact_of(state),
    {
        match state {
            HealthState::Starting => self.starting,
            HealthState::Learning => self.learning,
            HealthState::Healthy => self.healthy,
            HealthState::Late => self.late,
            HealthState::Stopped => self.stopped,
        }
    }

    /// Whether some counted state carries the given impact.
    pub open spec fn some_state_has(self, counts: HealthCounts, impact: HealthImpact) -> bool {
        exists|state: HealthState|
            counts.count_of(state) > 0 && #[trigger] self.impact_of(state) == impact
    }

    /// The aggregate verdict for the counts. Any unhealthy counted state
    /// makes it unhealthy; otherwise any degraded one makes it degraded;
    /// otherwise any nominal one makes it nominal; without a considered task
    /// it is empty.
    pub open spec fn verdict_spec(self, counts: HealthCounts) -> HealthVerdict {
        if self.some_state_has(counts, HealthImpact::Unhealthy) {
            HealthVerdict::Unhealthy
        } else if self.some_state_has(counts, HealthImpact::Degraded) {
            HealthVerdict::Degraded
        } else if self.some_state_has(counts, HealthImpact::Nominal) {
            HealthVerdict::Nominal
        } else {
            HealthVerdict::Empty
        }
    }

    /// The count of `state` when the policy ignores it (`ignored`) or
    /// considers it (`!ignored`), and zero otherwise.
    pub open spec fn share(self, counts: HealthCounts, state: HealthState, ignored: bool) -> nat {
        if (self.impact_of(state) == HealthImpact::Ignore) == ignored {
            counts.count_of(state) as nat
        } else {
            0
        }
    }

    /// The number of tasks whose state the policy does not ignore.
    pub open spec fn considered_spec(self, counts: HealthCounts) -> nat {
        self.share(counts, HealthState::Starting, false) + self.share(
            counts,
            HealthState::Learning,
            false,
        ) + self.share(counts, HealthState::Healthy, false) + self.share(
            counts,
            HealthState::Late,
            false,
        ) + self.share(counts, HealthState::Stopped, false)
    }

    /// The number of tasks whose state the policy ignores.
    pub open spec fn ignored_spec(self, counts: HealthCounts) -> nat {
        self.share(counts, HealthState::Starting, true) + self.share(
            counts,
            HealthState::Learning,
            true,
        ) + self.share(counts, HealthState::Healthy, true) + self.share(
            counts,
            HealthState::Late,
            true,
        ) + self.share(counts, HealthState::Stopped, true)
    }

    /// Folds the counts into a verdict and the considered and ignored task
    /// totals.
    pub fn evaluate(self, counts: HealthCounts) -> (r: (HealthVerdict, usize, usize))
        requires
            counts.total_spec() <= usize::MAX,
        ensures
            r.0 == self.verdict_spec(counts),
            r.1 == self.considered_spec(counts),
            r.2 == self.ignored_spec(counts),
    {
        let mut acc = (HealthVerdict::Empty, 0usize, 0usize);
        acc = self.fold_state(acc, counts, HealthState::Starting);
        acc = self.fold_state(acc, counts, HealthState::Learning);
        acc = self.fold_state(acc, counts, HealthState::Healthy);
        acc = self.fold_state(acc, counts, HealthState::Late);
        acc = self.fold_state(acc, counts, HealthState::Stopped);
        proof {
            self.lemma_verdict_cases(counts);
        }
        acc
    }

    /// Folds one state into a running verdict and totals.
    fn fold_state(
        self,
        acc: (HealthVerdict, usize, usize),
        counts: HealthCounts,
        state: HealthState,
    ) -> (r: (HealthVerdict, usize, usize))
        requires
            acc.1 + acc.2 + counts.count_of(state) <= usize::MAX,
        ensures
            r.1 == acc.1 + self.share(counts, state, false),
            r.2 == acc.2 + self.share(counts, state, true),
            r.0 == if counts.count_of(state) == 0 {
                acc.0
            } else {
                match self.impact_of(state) {
                    HealthImpact::Ignore => acc.0,
                    HealthImpact::Nominal => if acc.0 == HealthVerdict::Empty {
                        HealthVerdict::Nominal
                    } else {
                        acc.0
                    },
                    HealthImpact::Degraded => if acc.0 != HealthVerdict::Unhealthy {
                        HealthVerdict::Degraded
                    } else {
                        acc.0
                    },
                    HealthImpact::Unhealthy => HealthVerdict::Unhealthy,
                }
            },
    {
        let count = counts.count(state);
        let (mut verdict, mut considered, mut ignored) = acc;
        if count == 0 {
            return (verdict, considered, ignored);
        }
        match self.impact(state) {
            HealthImpact::Ignore => ignored = ignored + count,
            HealthImpact::Nominal => {
                considered = considered + count;
                if verdict == HealthVerdict::Empty {
                    verdict = HealthVerdict::Nominal;
                }
            },
            HealthImpact::Degraded => {
                considered = considered + count;
                if verdict != HealthVerdict::Unhealthy {
                    verdict = HealthVerdict::Degraded;
                }
            },
            HealthImpact::Unhealthy => {
                considered = considered + count;
                verdict = HealthVerdict::Unhealthy;
            },
        }
        (verdict, considered, ignored)
    }

    /// The verdict folded over the five states in order agrees with
    /// `verdict_spec`.
    proof fn lemma_verdict_cases(self, counts: HealthCounts)
        ensures
            ({
                let step = |v: HealthVerdict, s: HealthState|
                    if counts.count_of(s) == 0 {
                        v
                    } else {
                        match self.impact_of(s) {
                            HealthImpact::Ignore => v,
                            HealthImpact::Nominal => if v == HealthVerdict::Empty {
                                HealthVerdict::Nominal
                            } else {
                                v
                            },
                            HealthImpact::Degraded => if v != HealthVerdict::Unhealthy {
                                HealthVerdict::Degraded
                            } else {
                                v
                            },
                            HealthImpact::Unhealthy => HealthVerdict::Unhealthy,
                        }
                    };
                step(
                    step(
                        step(
                            step(step(HealthVerdict::Empty, HealthState::Starting), HealthState::Learning),
                            HealthState::Healthy,
                        ),
                        HealthState::Late,
                    ),
                    HealthState::Stopped,
                ) == self.verdict_spec(counts)
            }),
    {
        let witness = |s: HealthState| counts.count_of(s) > 0;
        if self.some_state_has(counts, HealthImpact::Unhealthy) {
            let s = choose|s: HealthState|
                counts.count_of(s) > 0 && #[trigger] self.impact_of(s) == HealthImpact::Unhealthy;
            assert(witness(s));
        } else if self.some_state_has(counts, HealthImpact::Degraded) {
            let s = choose|s: HealthState|
                counts.count_of(s) > 0 && #[trigger] self.impact_of(s) == HealthImpact::Degraded;
            assert(witness(s));
        } else if self.some_state_has(counts, HealthImpact::Nominal) {
            let s = choose|s: HealthState|
                counts.count_of(s) > 0 && #[trigger] self.impact_of(s) == HealthImpact::Nominal;
            assert(witness(s));
        }
        assert(self.impact_of(HealthState::Starting) == self.starting);
        assert(self.impact_of(HealthState::Learning) == self.learning);
        assert(self.impact_of(HealthState::Healthy) == self.healthy);
        assert(self.impact_of(HealthState::Late) == self.late);
        assert(self.impact_of(HealthState::Stopped) == self.stopped);
    }
}

/// Exact retained-task counts grouped by stable health state.
#[derive(Clone, Copy, Debug, PartialEq, Eq, Structural, Hash)]
pub struct HealthCounts {
    pub starting: usize,
    pub learning: usize,
    pub healthy: usize,
    pub late: usize,
    pub stopped: usize,
}

impl Default for HealthCounts {
    fn default() -> (c: HealthCounts)
        ensures
            c == HealthCounts::zero_spec(),
    {
        HealthCounts { starting: 0, learning: 0, healthy: 0, late: 0, stopped: 0 }
    }
}

impl HealthCounts {
    /// All counts zero.
    pub open spec fn zero_spec() -> HealthCounts {
        HealthCounts { starting: 0, learning: 0, healthy: 0, late: 0, stopped: 0 }
    }

    /// The count for one state.
    pub open spec fn count_of(self, state: HealthState) -> usize {
        match state {
            HealthState::Starting => self.starting,
            HealthState::Learning => self.learning,
            HealthState::Healthy => self.healthy,
            HealthState::Late => self.late,
            HealthState::Stopped => self.stopped,
        }
    }

    /// The sum of all counts.
    pub open spec fn total_spec(self) -> nat {
        (self.starting + self.learning + self.healthy + self.late + self.stopped) as nat
    }

    /// Returns the total number of retained task records represented.
    pub fn total(self) -> (n: usize)
        requires
            self.total_spec() <= usize::MAX,
        ensures
            n == self.total_spec(),
    {
        self.starting + self.learning + self.healthy + self.late + self.stopped
    }

    /// Returns the count for one stable health state.
    pub fn count(self, state: HealthState) -> (n: usize)
        ensures
            n == self.count_of(state),
    {
        match state {
            HealthState::Starting => self.starting,
            HealthState::Learning => self.learning,
            HealthState::Healthy => self.healthy,
            HealthState::Late => self.late,
            HealthState::Stopped => self.stopped,
        }
    }

    /// Counts one more task in `state`.
    pub fn observe(&mut self, state: HealthState)
        requires
            old(self).total_spec() < usize::MAX,
        ensures
            final(self).count_of(state) == old(self).count_of(state) + 1,
            forall|other: HealthState|
                other != state ==> #[trigger] final(self).count_of(other) == old(self).count_of(
                    other,
                ),
            final(self).total_spec() == old(self).total_spec() + 1,
    {
        match state {
            HealthState::Starting => self.starting = self.starting + 1,
            HealthState::Learning => self.learning = self.learning + 1,
            HealthState::Healthy => self.healthy = self.healthy + 1,
            HealthState::Late => self.late = self.late + 1,
            HealthState::Stopped => self.stopped = self.stopped + 1,
        }
    }
}

/// How many entries of `states` equal `state`.
pub open spec fn occurrences(states: Seq<HealthState>, state: HealthState) -> nat
    decreases states.len(),
{
    if states.len() == 0 {
        0
    } else {
        occurrences(states.drop_last(), state) + if states.last() == state {
            1nat
        } else {
            0nat
        }
    }
}

/// The stable states of a sequence of task snapshots.
pub open spec fn states_of(tasks: Seq<TaskStatus>) -> Seq<HealthState> {
    tasks.map_values(|t: TaskStatus| t.health.stable_state())
}

/// Counts tasks by stable state.
pub open spec fn counts_match(counts: HealthCounts, states: Seq<HealthState>) -> bool {
    forall|state: HealthState| #[trigger] counts.count_of(state) == occurrences(states, state)
}

/// The occurrences of the five states add up to the length of the sequence.
pub proof fn lemma_occurrences_total(states: Seq<HealthState>)
    ensures
        occurrences(states, HealthState::Starting) + occurrences(states, HealthState::Learning)
            + occurrences(states, HealthState::Healthy) + occurrences(states, HealthState::Late)
            + occurrences(states, HealthState::Stopped) == states.len(),
    decreases states.len(),
{
    if states.len() > 0 {
        lemma_occurrences_total(states.drop_last());
    }
}

/// Whether some counted task has a state that `policy` maps to `impact`,
/// written out state by state.
pub open spec fn counted_with(policy: HealthPolicy, counts: HealthCounts, impact: HealthImpact) -> bool {
    ||| counts.starting > 0 && policy.starting == impact
    ||| counts.learning > 0 && policy.learning == impact
    ||| counts.healthy > 0 && policy.healthy == impact
    ||| counts.late > 0 && policy.late == impact
    ||| counts.stopped > 0 && policy.stopped == impact
}

/// Under every policy the verdict is unhealthy when some task's state has
/// an unhealthy impact; failing that, degraded when some state has a
/// degraded impact; failing that, nominal when some state has a nominal
/// impact; and empty otherwise. The ignored tasks are those whose state the
/// policy ignores, and with the considered ones they are all the tasks.
pub proof fn lemma_policy_verdict(policy: HealthPolicy, observed_after: Duration, counts: HealthCounts)
    ensures
        ({
            let s = HealthSummary::of_counts(policy, observed_after, counts);
            &&& counted_with(policy, counts, HealthImpact::Unhealthy) ==> s.verdict
                == HealthVerdict::Unhealthy
            &&& !counted_with(policy, counts, HealthImpact::Unhealthy) && counted_with(
                policy,
                counts,
                HealthImpact::Degraded,
            ) ==> s.verdict == HealthVerdict::Degraded
            &&& !counted_with(policy, counts, HealthImpact::Unhealthy) && !counted_with(
                policy,
                counts,
                HealthImpact::Degraded,
            ) && counted_with(policy, counts, HealthImpact::Nominal) ==> s.verdict
                == HealthVerdict::Nominal
            &&& !counted_with(policy, counts, HealthImpact::Unhealthy) && !counted_with(
                policy,
                counts,
                HealthImpact::Degraded,
            ) && !counted_with(policy, counts, HealthImpact::Nominal) ==> s.verdict
                == HealthVerdict::Empty
            &&& policy.considered_spec(counts) + policy.ignored_spec(counts) == counts.starting
                + counts.learning + counts.healthy + counts.late + counts.stopped
            &&& policy.ignored_spec(counts) == (if policy.starting == HealthImpact::Ignore {
                counts.starting as int
            } else {
                0
            }) + (if policy.learning == HealthImpact::Ignore {
                counts.learning as int
            } else {
                0
            }) + (if policy.healthy == HealthImpact::Ignore {
                counts.healthy as int
            } else {
                0
            }) + (if policy.late == HealthImpact::Ignore {
                counts.late as int
            } else {
                0
            }) + (if policy.stopped == HealthImpact::Ignore {
                counts.stopped as int
            } else {
                0
            })
        }),
{
    lemma_counted_with(policy, counts, HealthImpact::Unhealthy);
    lemma_counted_with(policy, counts, HealthImpact::Degraded);
    lemma_counted_with(policy, counts, HealthImpact::Nominal);
}

/// `some_state_has` is the state-by-state disjunction.
proof fn lemma_counted_with(policy: HealthPolicy, counts: HealthCounts, impact: HealthImpact)
    ensures
        policy.some_state_has(counts, impact) == counted_with(policy, counts, impact),
{
    assert(policy.impact_of(HealthState::Starting) == policy.starting);
    assert(policy.impact_of(HealthState::Learning) == policy.learning);
    assert(policy.impact_of(HealthState::Healthy) == policy.healthy);
    assert(policy.impact_of(HealthState::Late) == policy.late);
    assert(policy.impact_of(HealthState::Stopped) == policy.stopped);
}

/// Under the readiness policy any late or stopped task makes the verdict
/// unhealthy; otherwise any starting or learning task makes it degraded;
/// otherwise healthy tasks make it nominal. No task is ignored.
pub proof fn lemma_readiness_verdict(observed_after: Duration, counts: HealthCounts)
    ensures
        ({
            let s = HealthSummary::of_counts(HealthPolicy::readiness_spec(), observed_after, counts);
            &&& counts.late > 0 || counts.stopped > 0 ==> s.verdict == HealthVerdict::Unhealthy
            &&& counts.late == 0 && counts.stopped == 0 && (counts.starting > 0 || counts.learning
                > 0) ==> s.verdict == HealthVerdict::Degraded
            &&& counts.late == 0 && counts.stopped == 0 && counts.starting == 0 && counts.learning
                == 0 && counts.healthy > 0 ==> s.verdict == HealthVerdict::Nominal
            &&& HealthPolicy::readiness_spec().ignored_spec(counts) == 0
        }),
{
    lemma_policy_verdict(HealthPolicy::readiness_spec(), observed_after, counts);
}

/// Under the liveness policy any late task makes the verdict unhealthy;
/// starting, learning and healthy tasks are nominal; stopped tasks are
/// ignored, neither counted in the verdict nor considered.
pub proof fn lemma_liveness_verdict(observed_after: Duration, counts: HealthCounts)
    ensures
        ({
            let s = HealthSummary::of_counts(HealthPolicy::liveness_spec(), observed_after, counts);
            &&& counts.late > 0 ==> s.verdict == HealthVerdict::Unhealthy
            &&& counts.late == 0 && (counts.starting > 0 || counts.learning > 0 || counts.healthy
                > 0) ==> s.verdict == HealthVerdict::Nominal
            &&& counts.late == 0 && counts.starting == 0 && counts.learning == 0 && counts.healthy
                == 0 ==> s.verdict == HealthVerdict::Empty
            &&& HealthPolicy::liveness_spec().ignored_spec(counts) == counts.stopped
        }),
{
    lemma_policy_verdict(HealthPolicy::liveness_spec(), observed_after, counts);
}

/// Under the strict policy any task that is not healthy makes the verdict
/// unhealthy; only healthy tasks are nominal. No task is ignored.
pub proof fn lemma_strict_verdict(observed_after: Duration, counts: HealthCounts)
    ensures
        ({
            let s = HealthSummary::of_counts(HealthPolicy::strict_spec(), observed_after, counts);
            &&& counts.starting > 0 || counts.learning > 0 || counts.late > 0 || counts.stopped
                > 0 ==> s.verdict == HealthVerdict::Unhealthy
            &&& counts.starting == 0 && counts.learning == 0 && counts.late == 0 && counts.stopped
                == 0 && counts.healthy > 0 ==> s.verdict == HealthVerdict::Nominal
            &&& HealthPolicy::strict_spec().ignored_spec(counts) == 0
        }),
{
    lemma_policy_verdict(HealthPolicy::strict_spec(), observed_after, counts);
}

/// Compact aggregate observation of a monitor.
#[derive(Clone, Copy, Debug, PartialEq, Eq, Structural)]
pub struct HealthSummary {
    /// Time since the monitor epoch when this summary was observed.
    pub observed_after: Duration,
    /// Policy used to calculate the verdict.
    pub policy: HealthPolicy,
    /// Aggregate result under the supplied policy.
    pub verdict: HealthVerdict,
    /// Exact counts of every retained task state, including ignored states.
    pub counts: HealthCounts,
    /// Number of retained tasks included in the verdict.
    pub considered_tasks: usize,
    /// Number of retained tasks excluded from the verdict by the policy.
    pub ignored_tasks: usize,
}

impl HealthSummary {
    /// The summary a policy gives for the given counts.
    pub open spec fn of_counts(
        policy: HealthPolicy,
        observed_after: Duration,
        counts: HealthCounts,
    ) -> HealthSummary {
        HealthSummary {
            observed_after,
            policy,
            verdict: policy.verdict_spec(counts),
            counts,
            considered_tasks: policy.considered_spec(counts) as usize,
            ignored_tasks: policy.ignored_spec(counts) as usize,
        }
    }

    /// Builds the summary a policy gives for the given counts.
    pub fn from_counts(policy: HealthPolicy, observed_after: Duration, counts: HealthCounts) -> (s:
        HealthSummary)
        requires
            counts.total_spec() <= usize::MAX,
        ensures
            s == HealthSummary::of_counts(policy, observed_after, counts),
            s.considered_tasks + s.ignored_tasks == counts.total_spec(),
    {
        let (verdict, considered_tasks, ignored_tasks) = policy.evaluate(counts);
        HealthSummary { observed_after, policy, verdict, counts, considered_tasks, ignored_tasks }
    }

    /// Returns whether the aggregate verdict is fully nominal.
    pub fn is_nominal(self) -> (b: bool)
        ensures
            b == (self.verdict == HealthVerdict::Nominal),
    {
        self.verdict.is_nominal()
    }
}

/// Aggregate summary plus the task snapshots used to build it.
#[derive(Clone, Debug, PartialEq, Eq)]
pub struct HealthReport {
    /// Compact aggregate result for this observation.
    pub summary: HealthSummary,
    /// Task snapshots captured at the same observation time.
    pub tasks: Vec<TaskStatus>,
}

impl HealthReport {
    /// Builds a report from task snapshots, counting them by state.
    pub fn from_statuses(
        policy: HealthPolicy,
        observed_after: Duration,
        statuses: Vec<TaskStatus>,
    ) -> (r: HealthReport)
        ensures
            r.tasks@ == statuses@,
            counts_match(r.summary.counts, states_of(statuses@)),
            r.summary.counts.total_spec() == statuses@.len(),
            r.summary == HealthSummary::of_counts(policy, observed_after, r.summary.counts),
    {
        let mut counts = HealthCounts::default();
        let n = statuses.len();
        let ghost states = states_of(statuses@);
        for i in 0..n
            invariant
                n == statuses@.len(),
                states == states_of(statuses@),
                counts_match(counts, states.take(i as int)),
                counts.total_spec() == i,
        {
            proof {
                assert(states.take(i + 1).drop_last() =~= states.take(i as int));
            }
            counts.observe(statuses[i].health.state());
        }
        proof {
            assert(states.take(n as int) =~= states);
        }
        HealthReport {
            summary: HealthSummary::from_counts(policy, observed_after, counts),
            tasks: statuses,
        }
    }

    /// Returns whether the aggregate verdict is fully nominal.
    pub fn is_nominal(&self) -> (b: bool)
        ensures
            b == (self.summary.verdict == HealthVerdict::Nominal),
    {
        self.summary.is_nominal()
    }
}

} // verus!
