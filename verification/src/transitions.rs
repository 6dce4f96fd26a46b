use vstd::prelude::*;

use crate::monitor::{
    has_task, ids_increasing, index_of, recorded_ticks_within, snapshot_is, Monitor, TaskEntry,
};
use crate::status::{HealthState, TaskId, TaskStatus};
use crate::time::{tick_duration, tick_span, Duration};

verus! {

/// One meaningful health-state change observed by a [`TransitionCursor`].
///
/// The first observation of a retained task has no previous state. Later
/// observations are reported only when the stable state changes.
#[derive(Clone, Debug, PartialEq, Eq)]
pub struct HealthTransition {
    /// Sequence number allocated by the cursor, starting at one.
    pub sequence: u64,
    /// Time since the monitor epoch when the change was observed.
    pub observed_after: Duration,
    /// State previously observed by this cursor, or `None` for first sight.
    pub previous: Option<HealthState>,
    /// Newly observed stable health state.
    pub current: HealthState,
    /// Full task snapshot captured by the same poll.
    pub status: TaskStatus,
}

/// An independent cursor over task health transitions.
///
/// The cursor keeps one stable state per task it has seen and nothing else:
/// no history and no shared queue. Several cursors may observe the same
/// monitor independently.
pub struct TransitionCursor {
    states: Vec<(TaskId, HealthState)>,
    next_sequence: u64,
}

/// The state recorded for `id`, if any.
pub open spec fn previous_of(states: Seq<(TaskId, HealthState)>, id: TaskId) -> Option<
    HealthState,
> {
    if exists|i: int| 0 <= i < states.len() && #[trigger] states[i].0 == id {
        Some(states[choose|i: int| 0 <= i < states.len() && #[trigger] states[i].0 == id].1)
    } else {
        None
    }
}

/// No identifier is recorded twice.
pub open spec fn ids_distinct(states: Seq<(TaskId, HealthState)>) -> bool {
    forall|i: int, j: int| 0 <= i < j < states.len() ==> states[i].0 != states[j].0
}

/// `next + k`, capped at `u64::MAX`.
pub open spec fn sequence_after(next: u64, k: nat) -> u64 {
    if next + k <= u64::MAX {
        (next + k) as u64
    } else {
        u64::MAX
    }
}

/// The transitions a poll reports for the snapshots `snapshot`, given the
/// states the cursor recorded before: one per task whose stable state
/// differs from the recorded one (or was never recorded), in snapshot
/// order, numbered consecutively from `next`.
pub open spec fn transitions_spec(
    recorded: Seq<(TaskId, HealthState)>,
    snapshot: Seq<TaskStatus>,
    next: u64,
    observed_after: Duration,
) -> Seq<HealthTransition>
    decreases snapshot.len(),
{
    if snapshot.len() == 0 {
        Seq::empty()
    } else {
        let prior = transitions_spec(recorded, snapshot.drop_last(), next, observed_after);
        let status = snapshot.last();
        let current = status.health.stable_state();
        let previous = previous_of(recorded, status.id);
        if previous == Some(current) {
            prior
        } else {
            prior.push(
                HealthTransition {
                    sequence: sequence_after(next, prior.len()),
                    observed_after,
                    previous,
                    current,
                    status,
                },
            )
        }
    }
}

/// The recorded states after observing every retained task at `now`.
pub open spec fn current_states(entries: Seq<TaskEntry>, now: u64) -> Seq<(TaskId, HealthState)> {
    entries.map_values(|e: TaskEntry| (e.id, e.state_at(now)))
}


/// What observing one task does: an unknown identifier is forgotten, so the
/// cursor tracks one state fewer if it had one, and reports nothing; a
/// retained task's state is recorded, one more tracked state on first sight,
/// and a change from the previously recorded state (or a first sight) is
/// reported with the next sequence number.
pub open spec fn poll_task_is(
    before: TransitionCursor,
    after: TransitionCursor,
    entries: Seq<TaskEntry>,
    id: TaskId,
    now: u64,
    r: Option<HealthTransition>,
) -> bool {
    &&& forall|other: TaskId|
        other != id ==> #[trigger] previous_of(after.recorded(), other) == previous_of(
            before.recorded(),
            other,
        )
    &&& if !has_task(entries, id) {
        &&& r is None
        &&& previous_of(after.recorded(), id) is None
        &&& after.next_sequence_spec() == before.next_sequence_spec()
        &&& if previous_of(before.recorded(), id) is Some {
            after.recorded().len() + 1 == before.recorded().len()
        } else {
            after.recorded().len() == before.recorded().len()
        }
    } else {
        let e = entries[index_of(entries, id)];
        let current = e.state_at(now);
        let previous = previous_of(before.recorded(), id);
        &&& previous_of(after.recorded(), id) == Some(current)
        &&& if previous is None {
            after.recorded().len() == before.recorded().len() + 1
        } else {
            after.recorded().len() == before.recorded().len()
        }
        &&& if previous == Some(current) {
            &&& r is None
            &&& after.next_sequence_spec() == before.next_sequence_spec()
        } else {
            &&& r matches Some(t) && t.sequence == before.next_sequence_spec() && t.observed_after
                == tick_span(now, 1) && t.previous == previous && t.current == current
                && e.status_is(now, t.status)
            &&& after.next_sequence_spec() == sequence_after(before.next_sequence_spec(), 1)
        }
    }
}

/// In a sequence without repeated identifiers, an identifier's recorded
/// state is the one stored beside it.
proof fn lemma_previous_at(states: Seq<(TaskId, HealthState)>, k: int)
    requires
        ids_distinct(states),
        0 <= k < states.len(),
    ensures
        previous_of(states, states[k].0) == Some(states[k].1),
{
    let id = states[k].0;
    assert(states[k].0 == id);
    let j = choose|j: int| 0 <= j < states.len() && #[trigger] states[j].0 == id;
    if j < k {
        assert(states[j].0 != states[k].0);
    } else if j > k {
        assert(states[k].0 != states[j].0);
    }
}

/// An identifier absent from a sequence has no recorded state.
proof fn lemma_previous_absent(states: Seq<(TaskId, HealthState)>, id: TaskId)
    requires
        forall|i: int| 0 <= i < states.len() ==> states[i].0 != id,
    ensures
        previous_of(states, id) is None,
{
}

/// Removing the entry of `id` forgets `id` and keeps every other state.
proof fn lemma_remove_keeps_others(states: Seq<(TaskId, HealthState)>, k: int, id: TaskId)
    requires
        ids_distinct(states),
        0 <= k < states.len(),
        states[k].0 == id,
    ensures
        ids_distinct(states.remove(k)),
        previous_of(states.remove(k), id) is None,
        forall|other: TaskId|
            other != id ==> #[trigger] previous_of(states.remove(k), other) == previous_of(
                states,
                other,
            ),
{
    let after = states.remove(k);
    assert forall|a: int, b: int| 0 <= a < b < after.len() implies after[a].0 != after[b].0 by {
        let a2 = if a < k { a } else { a + 1 };
        let b2 = if b < k { b } else { b + 1 };
        assert(after[a] == states[a2]);
        assert(after[b] == states[b2]);
    }
    assert forall|i: int| 0 <= i < after.len() implies after[i].0 != id by {
        let i2 = if i < k { i } else { i + 1 };
        assert(after[i] == states[i2]);
    }
    lemma_previous_absent(after, id);
    assert forall|other: TaskId| other != id implies #[trigger] previous_of(after, other)
        == previous_of(states, other) by {
        if exists|i: int| 0 <= i < states.len() && #[trigger] states[i].0 == other {
            let i = choose|i: int| 0 <= i < states.len() && #[trigger] states[i].0 == other;
            lemma_previous_at(states, i);
            let i2 = if i < k { i } else { i - 1 };
            assert(i != k);
            assert(after[i2] == states[i]);
            lemma_previous_at(after, i2);
        } else {
            assert forall|i: int| 0 <= i < after.len() implies after[i].0 != other by {
                let i2 = if i < k { i } else { i + 1 };
                assert(after[i] == states[i2]);
            }
            lemma_previous_absent(after, other);
        }
    }
}

/// Replacing the entry of `id` records `current` for it and keeps every
/// other state.
proof fn lemma_set_keeps_others(
    states: Seq<(TaskId, HealthState)>,
    k: int,
    id: TaskId,
    current: HealthState,
)
    requires
        ids_distinct(states),
        0 <= k < states.len(),
        states[k].0 == id,
    ensures
        ids_distinct(states.update(k, (id, current))),
        previous_of(states.update(k, (id, current)), id) == Some(current),
        forall|other: TaskId|
            other != id ==> #[trigger] previous_of(states.update(k, (id, current)), other)
                == previous_of(states, other),
{
    let after = states.update(k, (id, current));
    assert forall|a: int, b: int| 0 <= a < b < after.len() implies after[a].0 != after[b].0 by {
        assert(states[a].0 != states[b].0);
    }
    lemma_previous_at(after, k);
    assert forall|other: TaskId| other != id implies #[trigger] previous_of(after, other)
        == previous_of(states, other) by {
        if exists|i: int| 0 <= i < states.len() && #[trigger] states[i].0 == other {
            let i = choose|i: int| 0 <= i < states.len() && #[trigger] states[i].0 == other;
            lemma_previous_at(states, i);
            assert(i != k);
            lemma_previous_at(after, i);
        } else {
            assert forall|i: int| 0 <= i < after.len() implies after[i].0 != other by {
                if i != k {
                    assert(after[i] == states[i]);
                }
            }
            lemma_previous_absent(after, other);
        }
    }
}

/// Adding an entry for an unrecorded `id` records `current` for it and
/// keeps every other state.
proof fn lemma_push_keeps_others(states: Seq<(TaskId, HealthState)>, id: TaskId, current: HealthState)
    requires
        ids_distinct(states),
        previous_of(states, id) is None,
    ensures
        ids_distinct(states.push((id, current))),
        previous_of(states.push((id, current)), id) == Some(current),
        forall|other: TaskId|
            other != id ==> #[trigger] previous_of(states.push((id, current)), other)
                == previous_of(states, other),
{
    let after = states.push((id, current));
    assert forall|i: int| 0 <= i < states.len() implies states[i].0 != id by {
        if states[i].0 == id {
            assert(exists|j: int| 0 <= j < states.len() && #[trigger] states[j].0 == id);
        }
    }
    assert forall|a: int, b: int| 0 <= a < b < after.len() implies after[a].0 != after[b].0 by {
        if b < states.len() {
            assert(states[a].0 != states[b].0);
        }
    }
    lemma_previous_at(after, states.len() as int);
    assert forall|other: TaskId| other != id implies #[trigger] previous_of(after, other)
        == previous_of(states, other) by {
        if exists|i: int| 0 <= i < states.len() && #[trigger] states[i].0 == other {
            let i = choose|i: int| 0 <= i < states.len() && #[trigger] states[i].0 == other;
            lemma_previous_at(states, i);
            lemma_previous_at(after, i);
        } else {
            assert forall|i: int| 0 <= i < after.len() implies after[i].0 != other by {
                if i < states.len() {
                    assert(after[i] == states[i]);
                }
            }
            lemma_previous_absent(after, other);
        }
    }
}

/// Transitions carry consecutive sequence numbers, starting at the cursor's
/// next sequence number (and staying at the largest number once reached).
pub proof fn lemma_transition_sequences(
    recorded: Seq<(TaskId, HealthState)>,
    snapshot: Seq<TaskStatus>,
    next: u64,
    observed_after: Duration,
)
    ensures
        forall|k: int|
            0 <= k < transitions_spec(recorded, snapshot, next, observed_after).len() ==> (
            #[trigger] transitions_spec(recorded, snapshot, next, observed_after)[k]).sequence
                == sequence_after(next, k as nat),
        transitions_spec(recorded, snapshot, next, observed_after).len() <= snapshot.len(),
    decreases snapshot.len(),
{
    if snapshot.len() > 0 {
        lemma_transition_sequences(recorded, snapshot.drop_last(), next, observed_after);
    }
}

/// A cursor that has seen nothing reports every task, in snapshot order,
/// as a first observation.
pub proof fn lemma_first_poll_reports_every_task(
    snapshot: Seq<TaskStatus>,
    next: u64,
    observed_after: Duration,
)
    ensures
        ({
            let t = transitions_spec(Seq::empty(), snapshot, next, observed_after);
            &&& t.len() == snapshot.len()
            &&& forall|k: int|
                0 <= k < t.len() ==> (#[trigger] t[k]).previous is None && t[k].status
                    == snapshot[k] && t[k].current == snapshot[k].health.stable_state()
                    && t[k].sequence == sequence_after(next, k as nat)
        }),
    decreases snapshot.len(),
{
    if snapshot.len() > 0 {
        lemma_first_poll_reports_every_task(snapshot.drop_last(), next, observed_after);
        lemma_previous_absent(Seq::empty(), snapshot.last().id);
        let t = transitions_spec(Seq::empty(), snapshot, next, observed_after);
        let prior = transitions_spec(Seq::empty(), snapshot.drop_last(), next, observed_after);
        assert forall|k: int| 0 <= k < t.len() implies (#[trigger] t[k]).previous is None
            && t[k].status == snapshot[k] && t[k].current == snapshot[k].health.stable_state()
            && t[k].sequence == sequence_after(next, k as nat) by {
            if k < prior.len() {
                assert(t[k] == prior[k]);
                assert(snapshot.drop_last()[k] == snapshot[k]);
            }
        }
    }
}

/// Tasks whose recorded state equals their current state report nothing.
proof fn lemma_unchanged_reports_nothing(
    recorded: Seq<(TaskId, HealthState)>,
    snapshot: Seq<TaskStatus>,
    next: u64,
    observed_after: Duration,
)
    requires
        forall|i: int|
            0 <= i < snapshot.len() ==> previous_of(recorded, (#[trigger] snapshot[i]).id) == Some(
                snapshot[i].health.stable_state(),
            ),
    ensures
        transitions_spec(recorded, snapshot, next, observed_after) == Seq::<HealthTransition>::empty(),
    decreases snapshot.len(),
{
    if snapshot.len() > 0 {
        let shorter = snapshot.drop_last();
        assert forall|i: int| 0 <= i < shorter.len() implies previous_of(
            recorded,
            (#[trigger] shorter[i]).id,
        ) == Some(shorter[i].health.stable_state()) by {
            assert(shorter[i] == snapshot[i]);
        }
        lemma_unchanged_reports_nothing(recorded, shorter, next, observed_after);
        assert(previous_of(recorded, snapshot[snapshot.len() - 1].id) == Some(
            snapshot[snapshot.len() - 1].health.stable_state(),
        ));
    }
}

/// Polling again at the same tick, with nothing changed in between,
/// reports no transition: a cursor reports state changes, never the same
/// state twice.
pub proof fn lemma_poll_again_reports_nothing(
    entries: Seq<TaskEntry>,
    now: u64,
    snapshot: Seq<TaskStatus>,
    next: u64,
    observed_after: Duration,
)
    requires
        ids_increasing(entries),
        snapshot_is(entries, now, snapshot),
    ensures
        transitions_spec(current_states(entries, now), snapshot, next, observed_after)
            == Seq::<HealthTransition>::empty(),
{
    let recorded = current_states(entries, now);
    assert(ids_distinct(recorded)) by {
        assert forall|a: int, b: int| 0 <= a < b < recorded.len() implies recorded[a].0
            != recorded[b].0 by {
            assert(entries[a].id.0 < entries[b].id.0);
        }
    }
    assert forall|i: int| 0 <= i < snapshot.len() implies previous_of(
        recorded,
        (#[trigger] snapshot[i]).id,
    ) == Some(snapshot[i].health.stable_state()) by {
        assert(entries[i].status_is(now, snapshot[i]));
        lemma_previous_at(recorded, i);
    }
    lemma_unchanged_reports_nothing(recorded, snapshot, next, observed_after);
}

impl TransitionCursor {
    #[verifier::type_invariant]
    closed spec fn inv(self) -> bool {
        ids_distinct(self.states@)
    }

    /// The stable state recorded for each task the cursor has seen.
    pub closed spec fn recorded(self) -> Seq<(TaskId, HealthState)> {
        self.states@
    }

    /// The sequence number the next transition receives.
    pub closed spec fn next_sequence_spec(self) -> u64 {
        self.next_sequence
    }

    /// Creates a cursor that has seen nothing.
    pub fn new() -> (c: TransitionCursor)
        ensures
            c.recorded() == Seq::<(TaskId, HealthState)>::empty(),
            c.next_sequence_spec() == 1,
    {
        TransitionCursor { states: Vec::new(), next_sequence: 1 }
    }

    /// Observes every retained task at the monitor's current tick and
    /// returns the meaningful state changes, ordered by task identifier.
    pub fn poll(&mut self, monitor: &Monitor) -> (r: Vec<HealthTransition>)
        ensures
            exists|now: u64, snapshot: Seq<TaskStatus>|
                now >= 1 && recorded_ticks_within(monitor.entries(), now) && #[trigger] snapshot_is(
                    monitor.entries(),
                    now,
                    snapshot,
                ) && r@
                    == transitions_spec(
                    old(self).recorded(),
                    snapshot,
                    old(self).next_sequence_spec(),
                    tick_span(now, 1),
                ) && final(self).recorded() == current_states(monitor.entries(), now),
            final(self).next_sequence_spec() == sequence_after(
                old(self).next_sequence_spec(),
                r@.len(),
            ),
    {
        let now = monitor.now_tick();
        self.poll_at(monitor, now)
    }

    /// Observes every retained task at tick `now` and returns the
    /// meaningful state changes, ordered by task identifier.
    ///
    /// The first poll reports every retained task with no previous state;
    /// later polls report only tasks whose stable state changed. States of
    /// tasks no longer retained are forgotten.
    pub fn poll_at(&mut self, monitor: &Monitor, now: u64) -> (r: Vec<HealthTransition>)
        ensures
            exists|snapshot: Seq<TaskStatus>|
                #[trigger] snapshot_is(monitor.entries(), now, snapshot) && r@ == transitions_spec(
                    old(self).recorded(),
                    snapshot,
                    old(self).next_sequence_spec(),
                    tick_span(now, 1),
                ),
            final(self).recorded() == current_states(monitor.entries(), now),
            final(self).next_sequence_spec() == sequence_after(
                old(self).next_sequence_spec(),
                r@.len(),
            ),
    {
        proof {
            use_type_invariant(&*self);
        }
        let mut statuses = monitor.snapshot_at(now);
        let ghost snapshot = statuses@;
        let ghost recorded = self.states@;
        let ghost start = self.next_sequence;
        let observed_after = tick_duration(now, 1);
        let n = statuses.len();
        let mut states: Vec<(TaskId, HealthState)> = Vec::new();
        let mut result: Vec<HealthTransition> = Vec::new();
        let mut pending: Vec<TaskStatus> = Vec::new();
        // Reverse the snapshot so that statuses can be moved out in order.
        while statuses.len() > 0
            invariant
                snapshot.len() == n,
                statuses@ + pending@.reverse() == snapshot,
            decreases statuses@.len(),
        {
            let ghost before = statuses@;
            let s = statuses.pop().unwrap();
            proof {
                assert(statuses@.push(s) == before);
                assert(statuses@ + pending@.push(s).reverse() =~= before + pending@.reverse());
            }
            pending.push(s);
        }
        proof {
            assert(pending@.reverse() =~= snapshot);
            assert(pending@.reverse().len() == pending@.len());
        }
        let mut i: usize = 0;
        while i < n
            invariant
                n == snapshot.len(),
                i <= n,
                pending@.reverse() == snapshot.subrange(i as int, n as int),
                pending@.len() == n - i,
                snapshot_is(monitor.entries(), now, snapshot),
                ids_increasing(monitor.entries()),
                states@ == current_states(monitor.entries(), now).subrange(0, i as int),
                result@ == transitions_spec(recorded, snapshot.subrange(0, i as int), start, observed_after),
                self.next_sequence == sequence_after(start, result@.len()),
                self.states@ == recorded,
                ids_distinct(recorded),
                observed_after == tick_span(now, 1),
            decreases n - i,
        {
            let ghost before = pending@;
            let status = pending.pop().unwrap();
            proof {
                assert(pending@.push(status) == before);
                assert(status == snapshot[i as int]) by {
                    assert(before.reverse()[0] == before[before.len() - 1]);
                }
                assert(pending@.reverse() =~= snapshot.subrange(i + 1, n as int)) by {
                    assert forall|k: int| 0 <= k < pending@.len() implies pending@.reverse()[k]
                        == snapshot.subrange(i + 1, n as int)[k] by {
                        assert(before.reverse()[k + 1] == snapshot.subrange(i as int, n as int)[k
                            + 1]);
                    }
                }
            }
            let current = status.health.state();
            let id = status.id;
            let previous = self.recorded_state(id);
            proof {
                assert(monitor.entries()[i as int].status_is(now, snapshot[i as int]));
                assert(snapshot.subrange(0, i + 1).drop_last() =~= snapshot.subrange(0, i as int));
                assert(snapshot.subrange(0, i + 1).last() == status);
            }
            states.push((id, current));
            proof {
                assert(states@ =~= current_states(monitor.entries(), now).subrange(0, i + 1));
            }
            let same = match previous {
                Some(p) => p == current,
                None => false,
            };
            if !same {
                let sequence = self.next_sequence;
                self.next_sequence = self.next_sequence.saturating_add(1);
                result.push(
                    HealthTransition { sequence, observed_after, previous, current, status },
                );
            }
            i = i + 1;
        }
        proof {
            assert(snapshot.subrange(0, n as int) =~= snapshot);
            assert(current_states(monitor.entries(), now).subrange(0, n as int) =~= current_states(
                monitor.entries(),
                now,
            ));
            assert forall|a: int, b: int| 0 <= a < b < states@.len() implies states@[a].0
                != states@[b].0 by {
                assert(monitor.entries()[a].id.0 < monitor.entries()[b].id.0);
            }
        }
        self.states = states;
        result
    }


    /// Observes one task at the monitor's current tick and returns its
    /// state change, if any.
    pub fn poll_task(&mut self, monitor: &Monitor, id: TaskId) -> (r: Option<HealthTransition>)
        ensures
            exists|now: u64|
                now >= 1 && recorded_ticks_within(monitor.entries(), now) && #[trigger] poll_task_is(
                    *old(self),
                    *final(self),
                    monitor.entries(),
                    id,
                    now,
                    r,
                ),
    {
        let now = monitor.now_tick();
        self.poll_task_at(monitor, id, now)
    }

    /// Observes one task at tick `now` and returns its state change, if
    /// any.
    ///
    /// An unknown or purged identifier yields `None` and forgets any state
    /// recorded for it.
    pub fn poll_task_at(&mut self, monitor: &Monitor, id: TaskId, now: u64) -> (r: Option<
        HealthTransition,
    >)
        ensures
            poll_task_is(*old(self), *final(self), monitor.entries(), id, now, r),
    {
        proof {
            use_type_invariant(&*self);
        }
        let status = monitor.status_at(id, now);
        let position = self.position(id);
        match status {
            None => {
                if let Some(k) = position {
                    let mut states = Vec::new();
                    std::mem::swap(&mut states, &mut self.states);
                    let ghost before = states@;
                    states.remove(k);
                    proof {
                        lemma_remove_keeps_others(before, k as int, id);
                    }
                    self.states = states;
                }
                None
            },
            Some(status) => {
                let current = status.health.state();
                let previous = match position {
                    Some(k) => Some(self.states[k].1),
                    None => None,
                };
                let mut states = Vec::new();
                std::mem::swap(&mut states, &mut self.states);
                let ghost before = states@;
                match position {
                    Some(k) => {
                        states.set(k, (id, current));
                        proof {
                            lemma_set_keeps_others(before, k as int, id, current);
                        }
                    },
                    None => {
                        states.push((id, current));
                        proof {
                            lemma_push_keeps_others(before, id, current);
                        }
                    },
                }
                self.states = states;
                let same = match previous {
                    Some(p) => p == current,
                    None => false,
                };
                if same {
                    None
                } else {
                    let sequence = self.next_sequence;
                    self.next_sequence = self.next_sequence.saturating_add(1);
                    Some(
                        HealthTransition {
                            sequence,
                            observed_after: tick_duration(now, 1),
                            previous,
                            current,
                            status,
                        },
                    )
                }
            },
        }
    }

    /// Returns the position of the state recorded for `id`.
    fn position(&self, id: TaskId) -> (r: Option<usize>)
        ensures
            r is None ==> previous_of(self.recorded(), id) is None,
            r matches Some(k) ==> k < self.recorded().len() && self.recorded()[k as int].0 == id
                && previous_of(self.recorded(), id) == Some(self.recorded()[k as int].1),
    {
        proof {
            use_type_invariant(self);
        }
        let mut i: usize = 0;
        while i < self.states.len()
            invariant
                i <= self.states@.len(),
                ids_distinct(self.states@),
                forall|k: int| 0 <= k < i ==> self.states@[k].0 != id,
            decreases self.states@.len() - i,
        {
            if self.states[i].0.0 == id.0 {
                proof {
                    let j = choose|j: int| 0 <= j < self.states@.len() && #[trigger] self.states@[j].0 == id;
                    assert(self.states@[i as int].0 == id);
                    if j != i {
                        assert(j > i);
                    }
                }
                return Some(i);
            }
            i = i + 1;
        }
        None
    }

    /// Returns the state recorded for `id`, if any.
    fn recorded_state(&self, id: TaskId) -> (r: Option<HealthState>)
        ensures
            r == previous_of(self.recorded(), id),
    {
        proof {
            use_type_invariant(self);
        }
        let mut i: usize = 0;
        while i < self.states.len()
            invariant
                i <= self.states@.len(),
                ids_distinct(self.states@),
                forall|k: int| 0 <= k < i ==> self.states@[k].0 != id,
            decreases self.states@.len() - i,
        {
            if self.states[i].0.0 == id.0 {
                proof {
                    let j = choose|j: int| 0 <= j < self.states@.len() && #[trigger] self.states@[j].0 == id;
                    assert(self.states@[i as int].0 == id);
                    if j != i {
                        assert(j > i);
                    }
                }
                return Some(self.states[i].1);
            }
            i = i + 1;
        }
        None
    }

    /// Returns the number of task states the cursor records.
    pub fn tracked_len(&self) -> (n: usize)
        ensures
            n == self.recorded().len(),
    {
        self.states.len()
    }

    /// Returns whether the cursor records no task state.
    pub fn is_empty(&self) -> (b: bool)
        ensures
            b == (self.recorded().len() == 0),
    {
        self.states.len() == 0
    }

    /// Forgets all observations and restarts sequence numbering, so that
    /// the next poll reports every retained task as a first observation.
    pub fn reset(&mut self)
        ensures
            final(self).recorded() == Seq::<(TaskId, HealthState)>::empty(),
            final(self).next_sequence_spec() == 1,
    {
        self.states = Vec::new();
        self.next_sequence = 1;
    }
}

impl Monitor {
    /// Creates an independent transition cursor for this monitor.
    pub fn transition_cursor(&self) -> (c: TransitionCursor)
        ensures
            c.recorded() == Seq::<(TaskId, HealthState)>::empty(),
            c.next_sequence_spec() == 1,
    {
        TransitionCursor::new()
    }
}

} // verus!
