use vstd::prelude::*;

use crate::classification::{
    classify_health, classify_spec, learned_health, learned_health_spec, learned_timing_is,
    learned_timing_status,
};
use crate::clock::{instant_elapsed, instant_now, std_duration_micros};
use crate::config::{config_error, FixedTiming, LearnedTiming, TaskConfig, Timing};
use crate::errors::{RegisterError, RetrainError, StoppedError};
use crate::learning::LearnedEstimate;
use crate::report::{counts_match, HealthCounts, HealthPolicy, HealthReport, HealthSummary, states_of};
use crate::status::{Health, HealthState, StopReason, TaskId, TaskStatus, TimingStatus};
use crate::time::{tick_duration, tick_from_elapsed_micros, tick_span, Duration};

verus! {

broadcast use crate::time::Duration::lemma_of_nanos;

/// The timing policy of a registered task and, for learned timing, the
/// model's current estimate.
#[derive(Debug)]
pub enum TimingState {
    Fixed(FixedTiming),
    Learned { config: LearnedTiming, estimate: LearnedEstimate },
}

/// The record the monitor keeps for one registered task.
///
/// A tick is a monotonic microsecond count that starts at one; zero in
/// `last_tick` or `stopped_tick` means "never", so a task has stopped exactly
/// when its stop tick is set.
#[derive(Debug)]
pub struct TaskEntry {
    pub id: TaskId,
    pub name: String,
    pub created_tick: u64,
    pub startup_grace: Duration,
    pub timing: TimingState,
    pub last_tick: u64,
    pub stopped_tick: u64,
    pub heartbeat_count: u64,
    pub active_handles: usize,
    pub stop_reason: StopReason,
}

/// The initial timing state for a timing policy.
pub open spec fn initial_timing(timing: Timing) -> TimingState {
    match timing {
        Timing::Fixed(f) => TimingState::Fixed(f),
        Timing::Learned(l) => TimingState::Learned {
            config: l,
            estimate: LearnedEstimate::fresh_spec(l.model),
        },
    }
}

impl TaskEntry {
    /// Whether the task has stopped: a stop tick is recorded.
    pub open spec fn is_stopped(self) -> bool {
        self.stopped_tick != 0
    }

    /// Learned estimates are of the kind their model produces.
    pub open spec fn fits(self) -> bool {
        match self.timing {
            TimingState::Fixed(_) => true,
            TimingState::Learned { config, estimate } => estimate.fits(config.model),
        }
    }

    /// The record of a task just registered with `config` under `id` at
    /// `tick`.
    pub open spec fn is_fresh(self, config: TaskConfig, id: TaskId, tick: u64) -> bool {
        &&& self.id == id
        &&& self.name == config.name
        &&& self.created_tick == tick
        &&& self.startup_grace@ == config.effective_startup_grace_spec()
        &&& self.timing == initial_timing(config.timing)
        &&& self.last_tick == 0
        &&& self.stopped_tick == 0
        &&& self.heartbeat_count == 0
        &&& self.active_handles == 1
        &&& self.stop_reason == StopReason::LastHandleDropped
    }

    /// The task's health at tick `now`.
    ///
    /// A stopped task reports how long ago it stopped. Before the first beat
    /// a task is late once the startup grace has run out; within it, a fixed
    /// task is starting and a learned task is learning, with no samples yet.
    /// After a beat, fixed timing is judged against interval plus grace and
    /// learned timing against the model's estimate.
    pub open spec fn health_at(self, now: u64) -> Health {
        if self.is_stopped() {
            Health::Stopped {
                stopped_for: tick_span(now, self.stopped_tick),
                reason: self.stop_reason,
            }
        } else if self.last_tick == 0 {
            let elapsed = tick_span(now, self.created_tick);
            if elapsed@ <= self.startup_grace@ {
                match self.timing {
                    TimingState::Fixed(_) => Health::Starting {
                        elapsed,
                        startup_grace: self.startup_grace,
                    },
                    TimingState::Learned { config, .. } => Health::Learning {
                        samples: 0,
                        required: config.minimum_samples,
                        silent_for: elapsed,
                        estimated_interval: None,
                    },
                }
            } else {
                Health::Late {
                    silent_for: elapsed,
                    deadline: self.startup_grace,
                    overdue_by: Duration::of_nanos((elapsed@ - self.startup_grace@) as nat),
                    missed_intervals: 0,
                }
            }
        } else {
            let silent_for = tick_span(now, self.last_tick);
            match self.timing {
                TimingState::Fixed(f) => classify_spec(
                    silent_for,
                    Duration::of_nanos(f.deadline_spec()),
                    f.interval,
                ),
                TimingState::Learned { config, estimate } => learned_health_spec(
                    config,
                    estimate,
                    silent_for,
                    self.startup_grace,
                ),
            }
        }
    }

    /// The task's stable state at tick `now`.
    pub open spec fn state_at(self, now: u64) -> HealthState {
        self.health_at(now).stable_state()
    }

    /// Whether `t` is the public view of the task's timing policy.
    pub open spec fn timing_is(self, t: TimingStatus) -> bool {
        match self.timing {
            TimingState::Fixed(f) => t == TimingStatus::Fixed { interval: f.interval, grace: f.grace },
            TimingState::Learned { config, estimate } => learned_timing_is(config, estimate, t),
        }
    }

    /// Whether `s` is the task's snapshot at tick `now`.
    pub open spec fn status_is(self, now: u64, s: TaskStatus) -> bool {
        &&& s.id == self.id
        &&& s.name@ == self.name@
        &&& s.health == self.health_at(now)
        &&& self.timing_is(s.timing)
        &&& s.heartbeat_count == self.heartbeat_count
    }

    /// Returns the public view of the task's timing policy.
    fn timing_status(&self) -> (t: TimingStatus)
        requires
            self.fits(),
        ensures
            self.timing_is(t),
    {
        match &self.timing {
            TimingState::Fixed(fixed) => TimingStatus::Fixed {
                interval: fixed.interval,
                grace: fixed.grace,
            },
            TimingState::Learned { config, estimate } => learned_timing_status(*config, estimate),
        }
    }

    /// Returns the task's health at tick `now`.
    fn health(&self, now: u64) -> (h: Health)
        ensures
            h == self.health_at(now),
    {
        if self.stopped_tick != 0 {
            return Health::Stopped {
                stopped_for: tick_duration(now, self.stopped_tick),
                reason: self.stop_reason,
            };
        }
        if self.last_tick == 0 {
            let elapsed = tick_duration(now, self.created_tick);
            if elapsed.le(&self.startup_grace) {
                return match &self.timing {
                    TimingState::Fixed(_) => Health::Starting {
                        elapsed,
                        startup_grace: self.startup_grace,
                    },
                    TimingState::Learned { config, .. } => Health::Learning {
                        samples: 0,
                        required: config.minimum_samples,
                        silent_for: elapsed,
                        estimated_interval: None,
                    },
                };
            } else {
                return Health::Late {
                    silent_for: elapsed,
                    deadline: self.startup_grace,
                    overdue_by: elapsed.saturating_sub(self.startup_grace),
                    missed_intervals: 0,
                };
            }
        }
        let silent_for = tick_duration(now, self.last_tick);
        match &self.timing {
            TimingState::Fixed(fixed) => {
                let deadline = fixed.deadline();
                proof {
                    crate::time::Duration::lemma_of_view(deadline);
                }
                classify_health(silent_for, deadline, fixed.interval)
            },
            TimingState::Learned { config, estimate } => learned_health(
                *config,
                estimate,
                silent_for,
                self.startup_grace,
            ),
        }
    }

    /// Returns the task's snapshot at tick `now`.
    fn status(&self, now: u64) -> (s: TaskStatus)
        requires
            self.fits(),
        ensures
            self.status_is(now, s),
    {
        TaskStatus {
            id: self.id,
            name: self.name.clone(),
            health: self.health(now),
            timing: self.timing_status(),
            heartbeat_count: self.heartbeat_count,
        }
    }
}

/// A change a heartbeat handle makes to its task's record.
#[derive(Clone, Copy, Debug, PartialEq, Eq, Structural)]
pub enum EntryChange {
    /// A heartbeat arrives.
    Beat,
    /// The task stops for the given reason, unless it already has.
    Stop(StopReason),
    /// One more handle refers to the task.
    AddHandle,
    /// One handle is released; releasing the last one stops the task.
    ReleaseHandle,
}

/// `n + 1`, wrapping to zero past the largest value.
pub open spec fn wrapping_inc_u64(n: u64) -> u64 {
    if n < u64::MAX {
        (n + 1) as u64
    } else {
        0
    }
}

/// `n + 1`, wrapping to zero past the largest value.
pub open spec fn wrapping_inc_usize(n: usize) -> usize {
    if n < usize::MAX {
        (n + 1) as usize
    } else {
        0
    }
}

/// `n - 1`, wrapping to the largest value below zero.
pub open spec fn wrapping_dec_usize(n: usize) -> usize {
    if n > 0 {
        (n - 1) as usize
    } else {
        usize::MAX
    }
}

impl TaskEntry {
    /// The record stopped at `tick` for `reason`, unless a stop was already
    /// recorded.
    pub open spec fn stopped_at(self, reason: StopReason, tick: u64) -> TaskEntry {
        if self.stopped_tick == 0 {
            TaskEntry { stopped_tick: tick, stop_reason: reason, ..self }
        } else {
            self
        }
    }

    /// The record after `change` at `tick`.
    pub open spec fn changed(self, change: EntryChange, tick: u64) -> TaskEntry {
        match change {
            EntryChange::Beat => TaskEntry {
                last_tick: tick,
                heartbeat_count: wrapping_inc_u64(self.heartbeat_count),
                ..self
            },
            EntryChange::Stop(reason) => self.stopped_at(reason, tick),
            EntryChange::AddHandle => TaskEntry {
                active_handles: wrapping_inc_usize(self.active_handles),
                ..self
            },
            EntryChange::ReleaseHandle => {
                let released = TaskEntry {
                    active_handles: wrapping_dec_usize(self.active_handles),
                    ..self
                };
                if self.active_handles == 1 {
                    released.stopped_at(StopReason::LastHandleDropped, tick)
                } else {
                    released
                }
            },
        }
    }
}

/// The records that have not stopped, in order.
pub open spec fn purged(entries: Seq<TaskEntry>) -> Seq<TaskEntry> {
    entries.filter(|e: TaskEntry| !e.is_stopped())
}

/// Task identifiers increase strictly along the records.
pub open spec fn ids_increasing(entries: Seq<TaskEntry>) -> bool {
    forall|i: int, j: int| 0 <= i < j < entries.len() ==> entries[i].id.0 < entries[j].id.0
}

/// Whether some record has identifier `id`.
pub open spec fn has_task(entries: Seq<TaskEntry>, id: TaskId) -> bool {
    exists|i: int| 0 <= i < entries.len() && #[trigger] entries[i].id == id
}

/// The position of the record with identifier `id`.
pub open spec fn index_of(entries: Seq<TaskEntry>, id: TaskId) -> int {
    choose|i: int| 0 <= i < entries.len() && #[trigger] entries[i].id == id
}

/// Whether `statuses` are the snapshots of the records at tick `now`, in
/// record order.
pub open spec fn snapshot_is(entries: Seq<TaskEntry>, now: u64, statuses: Seq<TaskStatus>) -> bool {
    &&& statuses.len() == entries.len()
    &&& forall|i: int| 0 <= i < statuses.len() ==> #[trigger] entries[i].status_is(now, statuses[i])
}

/// The stable states of all records at tick `now`, in record order.
pub open spec fn states_at(entries: Seq<TaskEntry>, now: u64) -> Seq<HealthState> {
    entries.map_values(|e: TaskEntry| e.state_at(now))
}

/// What registering `config` at `tick` does: an invalid configuration is
/// refused with its first problem; a valid one is refused only when every
/// identifier is used up; otherwise the task gets the next identifier,
/// larger than every retained one, and a fresh record at the end.
pub open spec fn registered(
    before: Monitor,
    after: Monitor,
    config: TaskConfig,
    tick: u64,
    r: Result<Heartbeat, RegisterError>,
) -> bool {
    &&& match config_error(config) {
        Some(e) => r == Err::<Heartbeat, RegisterError>(RegisterError::InvalidConfig(e)),
        None => if before.next_id_spec() == u64::MAX {
            r == Err::<Heartbeat, RegisterError>(RegisterError::IdSpaceExhausted)
        } else {
            r is Ok
        },
    }
    &&& r is Err ==> after.entries() == before.entries() && after.next_id_spec()
        == before.next_id_spec()
    &&& r matches Ok(h) ==> {
        &&& h@ == TaskId(before.next_id_spec())
        &&& after.next_id_spec() == before.next_id_spec() + 1
        &&& after.entries().len() == before.entries().len() + 1
        &&& after.entries().drop_last() == before.entries()
        &&& after.entries().last().is_fresh(config, h@, tick)
        &&& forall|i: int|
            0 <= i < before.entries().len() ==> #[trigger] before.entries()[i].id.0 < h@.0
    }
}

/// Whether every tick `e` records (creation, last heartbeat, stop) is at
/// most `bound`.
pub open spec fn ticks_within(e: TaskEntry, bound: u64) -> bool {
    &&& e.created_tick <= bound
    &&& e.last_tick <= bound
    &&& e.stopped_tick <= bound
}

/// Whether every tick recorded in `entries` is at most `bound`.
pub open spec fn recorded_ticks_within(entries: Seq<TaskEntry>, bound: u64) -> bool {
    forall|i: int| 0 <= i < entries.len() ==> ticks_within(#[trigger] entries[i], bound)
}

/// Registry and observation point for monitored tasks.
///
/// The monitor keeps one record per registered task, in order of
/// registration, until stopped records are purged. Identifiers are
/// allocated monotonically and never reused. The monitor also keeps the
/// latest tick it has recorded, so that its clock never reads earlier.
pub struct Monitor {
    epoch: std::time::Instant,
    next_id: u64,
    tasks: Vec<TaskEntry>,
    latest_tick: u64,
}

/// A handle through which a monitored task reports progress.
///
/// Every handle counts toward the task's live handles; the task stops when
/// its last handle is released. A handle belongs to the monitor that issued
/// it.
pub struct Heartbeat {
    id: TaskId,
}

impl View for Heartbeat {
    type V = TaskId;

    /// The task this handle reports for.
    closed spec fn view(&self) -> TaskId {
        self.id
    }
}

impl Default for Monitor {
    fn default() -> (m: Monitor)
        ensures
            m.entries() == Seq::<TaskEntry>::empty(),
            m.next_id_spec() == 1,
    {
        Monitor::new()
    }
}

impl Monitor {
    #[verifier::type_invariant]
    closed spec fn inv(self) -> bool {
        &&& self.next_id >= 1
        &&& ids_increasing(self.tasks@)
        &&& forall|i: int|
            0 <= i < self.tasks@.len() ==> 1 <= #[trigger] self.tasks@[i].id.0 < self.next_id
                && self.tasks@[i].fits()
        &&& recorded_ticks_within(self.tasks@, self.latest_tick)
    }

    /// The retained task records, in order of registration.
    pub closed spec fn entries(self) -> Seq<TaskEntry> {
        self.tasks@
    }

    /// The identifier the next registration receives.
    pub closed spec fn next_id_spec(self) -> u64 {
        self.next_id
    }

    /// Facts every monitor satisfies.
    fn lemma_inv(&self)
        ensures
            ids_increasing(self.entries()),
            self.next_id_spec() >= 1,
            forall|i: int|
                0 <= i < self.entries().len() ==> 1 <= #[trigger] self.entries()[i].id.0
                    < self.next_id_spec(),
            forall|i: int| 0 <= i < self.entries().len() ==> #[trigger] self.entries()[i].fits(),
    {
        proof {
            use_type_invariant(self);
        }
    }

    /// Creates an empty monitor whose clock starts now.
    pub fn new() -> (m: Monitor)
        ensures
            m.entries() == Seq::<TaskEntry>::empty(),
            m.next_id_spec() == 1,
    {
        Monitor { epoch: instant_now(), next_id: 1, tasks: Vec::new(), latest_tick: 0 }
    }

    /// Reads the monitor's clock: microseconds since the monitor was created,
    /// plus one, so that a tick is never zero. The monotonic clock never
    /// reads earlier than a tick the monitor recorded; the reading is held at
    /// the latest recorded tick all the same, so that this is so whatever
    /// ticks were passed to the `_at` methods.
    pub fn now_tick(&self) -> (t: u64)
        ensures
            t >= 1,
            recorded_ticks_within(self.entries(), t),
    {
        proof {
            use_type_invariant(self);
        }
        let reading = tick_from_elapsed_micros(std_duration_micros(instant_elapsed(&self.epoch)));
        if reading < self.latest_tick {
            self.latest_tick
        } else {
            reading
        }
    }

    /// Moves the records out, leaving the monitor with none.
    fn take_tasks(&mut self) -> (tasks: Vec<TaskEntry>)
        ensures
            tasks@ == old(self).entries(),
            final(self).entries() == Seq::<TaskEntry>::empty(),
            final(self).next_id_spec() == old(self).next_id_spec(),
            ids_increasing(tasks@),
            old(self).next_id_spec() >= 1,
            forall|i: int|
                0 <= i < tasks@.len() ==> 1 <= #[trigger] tasks@[i].id.0 < old(
                    self,
                ).next_id_spec() && tasks@[i].fits(),
            recorded_ticks_within(tasks@, old(self).latest_tick),
            final(self).latest_tick == old(self).latest_tick,
    {
        proof {
            use_type_invariant(&*self);
        }
        let mut tasks: Vec<TaskEntry> = Vec::new();
        std::mem::swap(&mut tasks, &mut self.tasks);
        tasks
    }

    /// Returns the position of the record with identifier `id`.
    fn find(&self, id: TaskId) -> (r: Option<usize>)
        ensures
            r is None <==> !has_task(self.entries(), id),
            r matches Some(i) ==> i < self.entries().len() && self.entries()[i as int].id == id
                && index_of(self.entries(), id) == i,
    {
        proof {
            use_type_invariant(self);
        }
        let mut i: usize = 0;
        while i < self.tasks.len()
            invariant
                i <= self.tasks@.len(),
                ids_increasing(self.tasks@),
                forall|k: int| 0 <= k < i ==> self.tasks@[k].id != id,
            decreases self.tasks@.len() - i,
        {
            if self.tasks[i].id.0 == id.0 {
                proof {
                    let j = index_of(self.entries(), id);
                    assert(has_task(self.entries(), id));
                    if j < i {
                        assert(self.tasks@[j].id.0 < self.tasks@[i as int].id.0);
                    } else if j > i {
                        assert(self.tasks@[i as int].id.0 < self.tasks@[j].id.0);
                    }
                }
                return Some(i);
            }
            i = i + 1;
        }
        None
    }

    /// Registers a task at the current tick and returns its heartbeat
    /// handle.
    pub fn register(&mut self, config: TaskConfig) -> (r: Result<Heartbeat, RegisterError>)
        ensures
            exists|tick: u64|
                tick >= 1 && recorded_ticks_within(old(self).entries(), tick) && #[trigger] registered(
                    *old(self),
                    *final(self),
                    config,
                    tick,
                    r,
                ),
    {
        let tick = self.now_tick();
        self.register_at(config, tick)
    }

    /// Registers a task created at `tick` and returns its heartbeat handle.
    ///
    /// The configuration is checked first; then the next identifier is
    /// allocated, which fails only when every identifier is used up.
    pub fn register_at(&mut self, config: TaskConfig, tick: u64) -> (r: Result<
        Heartbeat,
        RegisterError,
    >)
        ensures
            registered(*old(self), *final(self), config, tick, r),
    {
        proof {
            use_type_invariant(&*self);
        }
        match config.validate() {
            Err(e) => return Err(RegisterError::InvalidConfig(e)),
            Ok(()) => {},
        }
        let raw_id = match self.next_id.checked_add(1) {
            None => return Err(RegisterError::IdSpaceExhausted),
            Some(next) => {
                let current = self.next_id;
                self.next_id = next;
                current
            },
        };
        let id = TaskId(raw_id);
        let startup_grace = config.effective_startup_grace();
        let timing = match config.timing {
            Timing::Fixed(fixed) => TimingState::Fixed(fixed),
            Timing::Learned(learned) => TimingState::Learned {
                config: learned,
                estimate: LearnedEstimate::fresh(learned.model),
            },
        };
        let entry = TaskEntry {
            id,
            name: config.name,
            created_tick: tick,
            startup_grace,
            timing,
            last_tick: 0,
            stopped_tick: 0,
            heartbeat_count: 0,
            active_handles: 1,
            stop_reason: StopReason::LastHandleDropped,
        };
        let ghost old_tasks = self.tasks@;
        let mut tasks = self.take_tasks();
        if self.latest_tick < tick {
            self.latest_tick = tick;
        }
        tasks.push(entry);
        proof {
            assert(tasks@.drop_last() =~= old_tasks);
            assert(forall|i: int| 0 <= i < old_tasks.len() ==> #[trigger] tasks@[i] == old_tasks[i]);
        }
        self.tasks = tasks;
        Ok(Heartbeat { id })
    }

    /// Returns a snapshot of one task at the current tick.
    pub fn status(&self, id: TaskId) -> (r: Option<TaskStatus>)
        ensures
            r is None <==> !has_task(self.entries(), id),
            r matches Some(s) ==> exists|now: u64|
                now >= 1 && recorded_ticks_within(self.entries(), now) && self.entries()[index_of(
                    self.entries(),
                    id,
                )].status_is(now, s),
    {
        let now = self.now_tick();
        self.status_at(id, now)
    }

    /// Returns a snapshot of one task at tick `now`; `None` when no record
    /// has identifier `id`.
    pub fn status_at(&self, id: TaskId, now: u64) -> (r: Option<TaskStatus>)
        ensures
            r is None <==> !has_task(self.entries(), id),
            r matches Some(s) ==> self.entries()[index_of(self.entries(), id)].status_is(now, s),
    {
        self.lemma_inv();
        match self.find(id) {
            None => None,
            Some(i) => Some(self.tasks[i].status(now)),
        }
    }

    /// Returns the creation tick of a task.
    pub fn created_tick(&self, id: TaskId) -> (r: Option<u64>)
        ensures
            r is None <==> !has_task(self.entries(), id),
            r matches Some(t) ==> t == self.entries()[index_of(self.entries(), id)].created_tick,
    {
        match self.find(id) {
            None => None,
            Some(i) => Some(self.tasks[i].created_tick),
        }
    }

    /// Returns the tick of a task's last heartbeat, zero before the first.
    pub fn last_tick(&self, id: TaskId) -> (r: Option<u64>)
        ensures
            r is None <==> !has_task(self.entries(), id),
            r matches Some(t) ==> t == self.entries()[index_of(self.entries(), id)].last_tick,
    {
        match self.find(id) {
            None => None,
            Some(i) => Some(self.tasks[i].last_tick),
        }
    }

    /// Returns snapshots of every retained task at the current tick, in
    /// identifier order.
    pub fn snapshot(&self) -> (r: Vec<TaskStatus>)
        ensures
            exists|now: u64|
                now >= 1 && recorded_ticks_within(self.entries(), now) && #[trigger] snapshot_is(
                    self.entries(),
                    now,
                    r@,
                ),
    {
        let now = self.now_tick();
        self.snapshot_at(now)
    }

    /// Returns snapshots of every retained task at tick `now`, in identifier
    /// order.
    pub fn snapshot_at(&self, now: u64) -> (r: Vec<TaskStatus>)
        ensures
            snapshot_is(self.entries(), now, r@),
            ids_increasing(self.entries()),
    {
        self.lemma_inv();
        let mut r: Vec<TaskStatus> = Vec::new();
        for i in 0..self.tasks.len()
            invariant
                ids_increasing(self.entries()),
                forall|k: int| 0 <= k < self.entries().len() ==> #[trigger] self.entries()[k].fits(),
                r@.len() == i,
                forall|k: int| 0 <= k < i ==> #[trigger] self.entries()[k].status_is(now, r@[k]),
        {
            r.push(self.tasks[i].status(now));
        }
        r
    }

    /// Returns the number of retained task records.
    pub fn len(&self) -> (n: usize)
        ensures
            n == self.entries().len(),
    {
        self.tasks.len()
    }

    /// Returns whether no task records are retained.
    pub fn is_empty(&self) -> (b: bool)
        ensures
            b == (self.entries().len() == 0),
    {
        self.tasks.len() == 0
    }

    /// Discards a learned baseline and returns the task to its learning
    /// phase.
    ///
    /// The learning arithmetic is reset by its owner. The result says
    /// whether the next interval is to be ignored, which it is once the task
    /// has beaten: the time between the reset and the next heartbeat must not
    /// contaminate the new model.
    pub fn retrain(&mut self, id: TaskId) -> (r: Result<bool, RetrainError>)
        ensures
            !has_task(old(self).entries(), id) ==> r == Err::<bool, RetrainError>(
                RetrainError::UnknownTask,
            ),
            has_task(old(self).entries(), id) ==> {
                let i = index_of(old(self).entries(), id);
                let e = old(self).entries()[i];
                &&& e.is_stopped() ==> r == Err::<bool, RetrainError>(RetrainError::Stopped)
                &&& !e.is_stopped() && e.timing is Fixed ==> r == Err::<bool, RetrainError>(
                    RetrainError::FixedTiming,
                )
                &&& !e.is_stopped() && e.timing is Learned ==> r == Ok::<bool, RetrainError>(
                    e.last_tick != 0,
                )
            },
            r is Err ==> final(self).entries() == old(self).entries(),
            r is Ok ==> {
                let i = index_of(old(self).entries(), id);
                let e = old(self).entries()[i];
                &&& final(self).entries() == old(self).entries().update(
                    i,
                    TaskEntry {
                        timing: TimingState::Learned {
                            config: e.timing->config,
                            estimate: LearnedEstimate::fresh_spec(e.timing->config.model),
                        },
                        ..e
                    },
                )
            },
            final(self).next_id_spec() == old(self).next_id_spec(),
    {
        let i = match self.find(id) {
            None => return Err(RetrainError::UnknownTask),
            Some(i) => i,
        };
        if self.tasks[i].stopped_tick != 0 {
            return Err(RetrainError::Stopped);
        }
        let config = match &self.tasks[i].timing {
            TimingState::Fixed(_) => return Err(RetrainError::FixedTiming),
            TimingState::Learned { config, .. } => *config,
        };
        let skip_next_interval = self.tasks[i].last_tick != 0;
        let ghost old_entries = self.tasks@;
        let mut tasks = self.take_tasks();
        tasks[i].timing = TimingState::Learned {
            config,
            estimate: LearnedEstimate::fresh(config.model),
        };
        self.tasks = tasks;
        proof {
            assert(self.tasks@ =~= old_entries.update(
                i as int,
                TaskEntry {
                    timing: TimingState::Learned {
                        config,
                        estimate: LearnedEstimate::fresh_spec(config.model),
                    },
                    ..old_entries[i as int]
                },
            ));
        }
        Ok(skip_next_interval)
    }


    /// Removes every stopped record and returns how many were removed.
    pub fn purge_stopped(&mut self) -> (n: usize)
        ensures
            final(self).entries() == purged(old(self).entries()),
            n == old(self).entries().len() - final(self).entries().len(),
            final(self).next_id_spec() == old(self).next_id_spec(),
    {
        let ghost initial = self.tasks@;
        let mut tasks = self.take_tasks();
        let previous_len = tasks.len();
        let mut kept: Vec<TaskEntry> = Vec::new();
        let ghost mut processed: Seq<TaskEntry> = Seq::empty();
        while tasks.len() > 0
            invariant
                initial == processed + tasks@,
                kept@ == processed.filter(|e: TaskEntry| !e.is_stopped()),
                ids_increasing(tasks@),
                ids_increasing(kept@),
                forall|a: int, b: int|
                    0 <= a < kept@.len() && 0 <= b < tasks@.len() ==> #[trigger] kept@[a].id.0
                        < #[trigger] tasks@[b].id.0,
                forall|i: int|
                    0 <= i < tasks@.len() ==> 1 <= #[trigger] tasks@[i].id.0 < self.next_id
                        && tasks@[i].fits(),
                forall|i: int|
                    0 <= i < kept@.len() ==> 1 <= #[trigger] kept@[i].id.0 < self.next_id
                        && kept@[i].fits(),
                recorded_ticks_within(tasks@, self.latest_tick),
                recorded_ticks_within(kept@, self.latest_tick),
                kept@.len() <= processed.len(),
                self.next_id == old(self).next_id_spec(),
                previous_len == initial.len(),
            decreases tasks@.len(),
        {
            let ghost before = tasks@;
            let entry = tasks.remove(0);
            proof {
                assert(before == seq![entry] + tasks@);
                assert((processed.push(entry)).drop_last() =~= processed);
                reveal_with_fuel(Seq::<_>::filter, 1);
                processed = processed.push(entry);
                assert(initial =~= processed + tasks@);
                assert forall|i: int, j: int| 0 <= i < j < tasks@.len() implies tasks@[i].id.0
                    < tasks@[j].id.0 by {
                    assert(tasks@[i] == before[i + 1]);
                    assert(tasks@[j] == before[j + 1]);
                }
                assert forall|b: int| 0 <= b < tasks@.len() implies entry.id.0
                    < #[trigger] tasks@[b].id.0 by {
                    assert(tasks@[b] == before[b + 1]);
                }
            }
            if entry.stopped_tick == 0 {
                let ghost old_kept = kept@;
                kept.push(entry);
                proof {
                    assert forall|a: int| 0 <= a < old_kept.len() implies old_kept[a].id.0
                        < entry.id.0 by {
                        assert(before[0] == entry);
                    }
                }
            }
            proof {
                lemma_filter_len_le(processed);
            }
        }
        proof {
            assert(processed =~= initial);
            lemma_filter_len_le(processed);
        }
        let removed = previous_len - kept.len();
        self.tasks = kept;
        removed
    }

    /// Counts the retained tasks by stable state at tick `now` and applies
    /// a policy.
    pub fn summary_at(&self, policy: HealthPolicy, now: u64) -> (s: HealthSummary)
        ensures
            counts_match(s.counts, states_at(self.entries(), now)),
            s == HealthSummary::of_counts(policy, tick_span(now, 1), s.counts),
            s.counts.total_spec() == self.entries().len(),
    {
        let mut counts = HealthCounts::default();
        let n = self.tasks.len();
        let ghost states = states_at(self.entries(), now);
        for i in 0..n
            invariant
                n == self.entries().len(),
                states == states_at(self.entries(), now),
                counts_match(counts, states.take(i as int)),
                counts.total_spec() == i,
        {
            proof {
                assert(states.take(i + 1).drop_last() =~= states.take(i as int));
            }
            counts.observe(self.tasks[i].health(now).state());
        }
        proof {
            assert(states.take(n as int) =~= states);
        }
        HealthSummary::from_counts(policy, tick_duration(now, 1), counts)
    }

    /// Counts the retained tasks by stable state at the current tick and
    /// applies a policy.
    pub fn summary(&self, policy: HealthPolicy) -> (s: HealthSummary)
        ensures
            exists|now: u64|
                now >= 1 && recorded_ticks_within(self.entries(), now) && #[trigger] counts_match(
                    s.counts,
                    states_at(self.entries(), now),
                )
                    && s == HealthSummary::of_counts(policy, tick_span(now, 1), s.counts),
            s.counts.total_spec() == self.entries().len(),
    {
        let now = self.now_tick();
        self.summary_at(policy, now)
    }

    /// Returns the policy summary and the snapshots behind it, all taken at
    /// tick `now` and ordered by identifier.
    pub fn report_at(&self, policy: HealthPolicy, now: u64) -> (r: HealthReport)
        ensures
            snapshot_is(self.entries(), now, r.tasks@),
            ids_increasing(self.entries()),
            counts_match(r.summary.counts, states_at(self.entries(), now)),
            r.summary == HealthSummary::of_counts(policy, tick_span(now, 1), r.summary.counts),
            r.summary.counts.total_spec() == r.tasks@.len(),
    {
        let statuses = self.snapshot_at(now);
        proof {
            assert(states_of(statuses@) =~= states_at(self.entries(), now)) by {
                assert forall|i: int| 0 <= i < statuses@.len() implies states_of(statuses@)[i]
                    == states_at(self.entries(), now)[i] by {
                    assert(self.entries()[i].status_is(now, statuses@[i]));
                }
            }
        }
        HealthReport::from_statuses(policy, tick_duration(now, 1), statuses)
    }

    /// Returns the policy summary and the snapshots behind it, all taken at
    /// the current tick and ordered by identifier.
    pub fn report(&self, policy: HealthPolicy) -> (r: HealthReport)
        ensures
            exists|now: u64|
                now >= 1 && recorded_ticks_within(self.entries(), now) && #[trigger] snapshot_is(
                    self.entries(),
                    now,
                    r.tasks@,
                ) && counts_match(
                    r.summary.counts,
                    states_at(self.entries(), now),
                ) && r.summary == HealthSummary::of_counts(
                    policy,
                    tick_span(now, 1),
                    r.summary.counts,
                ),
            ids_increasing(self.entries()),
    {
        let now = self.now_tick();
        self.report_at(policy, now)
    }

    /// Stores a learned task's new estimate; refused, with nothing changed,
    /// when no record has identifier `id`, the task has fixed timing, or
    /// the estimate is not of the kind its model produces.
    pub fn record_estimate(&mut self, id: TaskId, estimate: LearnedEstimate) -> (b: bool)
        ensures
            b == (has_task(old(self).entries(), id) && ({
                let e = old(self).entries()[index_of(old(self).entries(), id)];
                e.timing is Learned && estimate.fits(e.timing->config.model)
            })),
            !b ==> final(self).entries() == old(self).entries(),
            b ==> {
                let i = index_of(old(self).entries(), id);
                let e = old(self).entries()[i];
                final(self).entries() == old(self).entries().update(
                    i,
                    TaskEntry {
                        timing: TimingState::Learned { config: e.timing->config, estimate },
                        ..e
                    },
                )
            },
            final(self).next_id_spec() == old(self).next_id_spec(),
    {
        let i = match self.find(id) {
            None => return false,
            Some(i) => i,
        };
        let config = match &self.tasks[i].timing {
            TimingState::Fixed(_) => return false,
            TimingState::Learned { config, .. } => *config,
        };
        if !estimate.fits_model(config.model) {
            return false;
        }
        let ghost old_entries = self.tasks@;
        let ghost expected = estimate;
        let mut tasks = self.take_tasks();
        tasks[i].timing = TimingState::Learned { config, estimate };
        self.tasks = tasks;
        proof {
            assert(self.tasks@ =~= old_entries.update(
                i as int,
                TaskEntry {
                    timing: TimingState::Learned { config, estimate: expected },
                    ..old_entries[i as int]
                },
            ));
        }
        true
    }

    /// Applies `change` to the record at position `i`.
    fn update_entry(&mut self, i: usize, change: EntryChange, tick: u64)
        requires
            i < old(self).entries().len(),
        ensures
            final(self).entries() == old(self).entries().update(
                i as int,
                old(self).entries()[i as int].changed(change, tick),
            ),
            final(self).next_id_spec() == old(self).next_id_spec(),
    {
        let ghost old_entries = self.tasks@;
        let mut tasks = self.take_tasks();
        let ghost expected = tasks@[i as int].changed(change, tick);
        if self.latest_tick < tick {
            self.latest_tick = tick;
        }
        match change {
            EntryChange::Beat => {
                tasks[i].last_tick = tick;
                tasks[i].heartbeat_count = tasks[i].heartbeat_count.wrapping_add(1);
            },
            EntryChange::Stop(reason) => {
                if tasks[i].stopped_tick == 0 {
                    tasks[i].stopped_tick = tick;
                    tasks[i].stop_reason = reason;
                }
            },
            EntryChange::AddHandle => {
                tasks[i].active_handles = tasks[i].active_handles.wrapping_add(1);
            },
            EntryChange::ReleaseHandle => {
                let previous = tasks[i].active_handles;
                tasks[i].active_handles = previous.wrapping_sub(1);
                if previous == 1 && tasks[i].stopped_tick == 0 {
                    tasks[i].stopped_tick = tick;
                    tasks[i].stop_reason = StopReason::LastHandleDropped;
                }
            },
        }
        proof {
            assert(tasks@ =~= old_entries.update(i as int, expected));
        }
        self.tasks = tasks;
    }
} // impl Monitor


/// The interval a heartbeat at `tick` hands to the learning arithmetic: the
/// time since the previous heartbeat, for a learned task that has beaten
/// before at an earlier tick.
pub open spec fn learned_interval(e: TaskEntry, tick: u64) -> Option<Duration> {
    if e.last_tick != 0 && tick > e.last_tick && e.timing is Learned {
        Some(tick_span(tick, e.last_tick))
    } else {
        None
    }
}

/// The record a handle reaches in `entries`, if it is retained.
pub open spec fn handle_target(entries: Seq<TaskEntry>, id: TaskId) -> Option<int> {
    if has_task(entries, id) {
        Some(index_of(entries, id))
    } else {
        None
    }
}

/// The records after applying `change` at `tick` to the record of `id`, if
/// it is retained.
pub open spec fn apply_change(entries: Seq<TaskEntry>, id: TaskId, change: EntryChange, tick: u64) -> Seq<TaskEntry> {
    match handle_target(entries, id) {
        Some(i) => entries.update(i, entries[i].changed(change, tick)),
        None => entries,
    }
}

impl Heartbeat {
    /// Returns this heartbeat's task identifier.
    pub fn id(&self) -> (r: TaskId)
        ensures
            r == self@,
    {
        self.id
    }

    /// Applies `change` at `tick` to this handle's record, if it is retained.
    fn change(&self, monitor: &mut Monitor, change: EntryChange, tick: u64)
        ensures
            final(monitor).entries() == apply_change(old(monitor).entries(), self@, change, tick),
            final(monitor).next_id_spec() == old(monitor).next_id_spec(),
    {
        match monitor.find(self.id) {
            None => {},
            Some(i) => monitor.update_entry(i, change, tick),
        }
    }

    /// Records a heartbeat at the monitor's current tick.
    pub fn beat(&self, monitor: &mut Monitor) -> (r: Result<Option<Duration>, StoppedError>)
        ensures
            match handle_target(old(monitor).entries(), self@) {
                Some(i) if !old(monitor).entries()[i].is_stopped() => exists|tick: u64|
                    tick >= 1 && recorded_ticks_within(old(monitor).entries(), tick) && #[trigger] apply_change(
                        old(monitor).entries(),
                        self@,
                        EntryChange::Beat,
                        tick,
                    ) == final(monitor).entries() && r == Ok::<Option<Duration>, StoppedError>(
                        learned_interval(old(monitor).entries()[i], tick),
                    ),
                _ => r == Err::<Option<Duration>, StoppedError>(StoppedError)
                    && final(monitor).entries() == old(monitor).entries(),
            },
            final(monitor).next_id_spec() == old(monitor).next_id_spec(),
    {
        let tick = monitor.now_tick();
        self.beat_at(monitor, tick)
    }

    /// Records a heartbeat at `tick`.
    ///
    /// A stopped or purged task refuses the heartbeat. Otherwise the beat is
    /// counted and becomes the task's last heartbeat; for a learned task that
    /// had beaten at an earlier tick, the time since that beat is returned
    /// for the learning arithmetic.
    pub fn beat_at(&self, monitor: &mut Monitor, tick: u64) -> (r: Result<
        Option<Duration>,
        StoppedError,
    >)
        requires
            tick >= 1,
        ensures
            match handle_target(old(monitor).entries(), self@) {
                Some(i) if !old(monitor).entries()[i].is_stopped() => {
                    &&& final(monitor).entries() == apply_change(
                        old(monitor).entries(),
                        self@,
                        EntryChange::Beat,
                        tick,
                    )
                    &&& r == Ok::<Option<Duration>, StoppedError>(
                        learned_interval(old(monitor).entries()[i], tick),
                    )
                },
                _ => r == Err::<Option<Duration>, StoppedError>(StoppedError)
                    && final(monitor).entries() == old(monitor).entries(),
            },
            final(monitor).next_id_spec() == old(monitor).next_id_spec(),
    {
        let i = match monitor.find(self.id) {
            None => return Err(StoppedError),
            Some(i) => i,
        };
        if monitor.tasks[i].stopped_tick != 0 {
            return Err(StoppedError);
        }
        let previous = monitor.tasks[i].last_tick;
        let learned = match monitor.tasks[i].timing {
            TimingState::Learned { .. } => true,
            TimingState::Fixed(_) => false,
        };
        monitor.update_entry(i, EntryChange::Beat, tick);
        if previous != 0 && tick > previous && learned {
            Ok(Some(tick_duration(tick, previous)))
        } else {
            Ok(None)
        }
    }

    /// Marks the task stopped at `tick` for `reason`, unless a stop was
    /// already recorded.
    pub fn mark_stopped_at(&self, monitor: &mut Monitor, reason: StopReason, tick: u64)
        requires
            tick >= 1,
        ensures
            final(monitor).entries() == apply_change(
                old(monitor).entries(),
                self@,
                EntryChange::Stop(reason),
                tick,
            ),
            final(monitor).next_id_spec() == old(monitor).next_id_spec(),
    {
        self.change(monitor, EntryChange::Stop(reason), tick);
    }

    /// Explicitly stops the task at the monitor's current tick and releases
    /// this handle.
    pub fn stop(self, monitor: &mut Monitor)
        ensures
            exists|tick: u64|
                tick >= 1 && recorded_ticks_within(old(monitor).entries(), tick)
                    && final(monitor).entries() == #[trigger] apply_change(
                    apply_change(
                        old(monitor).entries(),
                        self@,
                        EntryChange::Stop(StopReason::Explicit),
                        tick,
                    ),
                    self@,
                    EntryChange::ReleaseHandle,
                    tick,
                ),
            final(monitor).next_id_spec() == old(monitor).next_id_spec(),
    {
        let tick = monitor.now_tick();
        self.stop_at(monitor, tick);
    }

    /// Explicitly stops the task at `tick` and releases this handle.
    pub fn stop_at(self, monitor: &mut Monitor, tick: u64)
        requires
            tick >= 1,
        ensures
            final(monitor).entries() == apply_change(
                apply_change(
                    old(monitor).entries(),
                    self@,
                    EntryChange::Stop(StopReason::Explicit),
                    tick,
                ),
                self@,
                EntryChange::ReleaseHandle,
                tick,
            ),
            final(monitor).next_id_spec() == old(monitor).next_id_spec(),
    {
        self.change(monitor, EntryChange::Stop(StopReason::Explicit), tick);
        self.release_at(monitor, tick);
    }

    /// Returns another handle for the same task.
    pub fn duplicate(&self, monitor: &mut Monitor) -> (h: Heartbeat)
        ensures
            h@ == self@,
            final(monitor).entries() == apply_change(
                old(monitor).entries(),
                self@,
                EntryChange::AddHandle,
                0,
            ),
            final(monitor).next_id_spec() == old(monitor).next_id_spec(),
    {
        self.change(monitor, EntryChange::AddHandle, 0);
        Heartbeat { id: self.id }
    }

    /// Releases this handle at the monitor's current tick; releasing the
    /// task's last handle stops it.
    pub fn release(self, monitor: &mut Monitor)
        ensures
            exists|tick: u64|
                tick >= 1 && recorded_ticks_within(old(monitor).entries(), tick)
                    && final(monitor).entries() == #[trigger] apply_change(
                    old(monitor).entries(),
                    self@,
                    EntryChange::ReleaseHandle,
                    tick,
                ),
            final(monitor).next_id_spec() == old(monitor).next_id_spec(),
    {
        let tick = monitor.now_tick();
        self.release_at(monitor, tick);
    }

    /// Releases this handle at `tick`; releasing the task's last handle
    /// stops it.
    pub fn release_at(self, monitor: &mut Monitor, tick: u64)
        requires
            tick >= 1,
        ensures
            final(monitor).entries() == apply_change(
                old(monitor).entries(),
                self@,
                EntryChange::ReleaseHandle,
                tick,
            ),
            final(monitor).next_id_spec() == old(monitor).next_id_spec(),
    {
        self.change(monitor, EntryChange::ReleaseHandle, tick);
    }
}


/// Whether `h` is healthy at `silent_for` against `deadline`, or late with
/// the overrun past `deadline` and the whole `interval`s in the silence,
/// whichever the silence calls for.
pub open spec fn judged_against(h: Health, silent_for: Duration, deadline: Duration, interval: Duration) -> bool {
    if silent_for@ <= deadline@ {
        h == (Health::Healthy { silent_for, deadline })
    } else {
        h matches Health::Late { silent_for: s, deadline: d, overdue_by, missed_intervals }
            && s == silent_for && d == deadline && overdue_by@ == silent_for@ - deadline@ && (
        interval@ == 0 ==> missed_intervals == 0) && (interval@ > 0 && silent_for@ / interval@
            <= u64::MAX ==> missed_intervals == silent_for@ / interval@)
    }
}

/// A fixed task that has beaten is judged against its interval plus grace:
/// healthy while its silence is within that deadline, late past it.
pub proof fn lemma_fixed_task_judged_by_interval_and_grace(e: TaskEntry, now: u64, fixed: FixedTiming)
    requires
        !e.is_stopped(),
        e.last_tick != 0,
        e.timing == TimingState::Fixed(fixed),
        fixed.interval@ + fixed.grace@ <= crate::time::MAX_NANOS,
    ensures
        Duration::of_nanos((fixed.interval@ + fixed.grace@) as nat)@ == fixed.interval@
            + fixed.grace@,
        judged_against(
            e.health_at(now),
            tick_span(now, e.last_tick),
            Duration::of_nanos((fixed.interval@ + fixed.grace@) as nat),
            fixed.interval,
        ),
{
}

/// A trained single-interval model is judged against the deadline of its
/// estimate, with the learned interval counting missed intervals.
pub proof fn lemma_trained_task_judged_by_its_deadline(
    e: TaskEntry,
    now: u64,
    interval: Duration,
    deadline: Duration,
)
    requires
        !e.is_stopped(),
        e.last_tick != 0,
        e.timing matches TimingState::Learned { estimate, .. } && estimate matches
            LearnedEstimate::Trained { interval: i, deadline: d, .. } && i == interval && d
            == deadline,
    ensures
        judged_against(e.health_at(now), tick_span(now, e.last_tick), deadline, interval),
{
}

/// A trained repeating pattern is judged against the deadline of its
/// estimate for the next phase, with that phase's expected interval
/// counting missed intervals.
pub proof fn lemma_trained_pattern_judged_by_its_deadline(
    e: TaskEntry,
    now: u64,
    expected_interval: Duration,
    deadline: Duration,
)
    requires
        !e.is_stopped(),
        e.last_tick != 0,
        e.timing matches TimingState::Learned { estimate, .. } && estimate matches
            LearnedEstimate::PatternTrained { expected_interval: i, deadline: d, .. } && i
            == expected_interval && d == deadline,
    ensures
        judged_against(e.health_at(now), tick_span(now, e.last_tick), deadline, expected_interval),
{
}

/// A single-interval model in training is learning while its silence is
/// within the provisional deadline (the startup grace until it has one),
/// reporting its samples, the required count and its interval estimate; it
/// is late past that deadline.
pub proof fn lemma_training_task_late_past_provisional_deadline(
    e: TaskEntry,
    now: u64,
    samples: u32,
    estimated_interval: Option<Duration>,
    provisional_deadline: Option<Duration>,
)
    requires
        !e.is_stopped(),
        e.last_tick != 0,
        e.timing matches TimingState::Learned { estimate, .. } && estimate matches
            LearnedEstimate::Training { samples: n, estimated_interval: i, provisional_deadline: p, .. }
            && n == samples && i == estimated_interval && p == provisional_deadline,
    ensures
        ({
            let silent_for = tick_span(now, e.last_tick);
            let deadline = match provisional_deadline {
                Some(d) => d,
                None => e.startup_grace,
            };
            &&& silent_for@ <= deadline@ ==> e.health_at(now) == (Health::Learning {
                samples,
                required: e.timing->config.minimum_samples,
                silent_for,
                estimated_interval,
            })
            &&& silent_for@ > deadline@ ==> judged_against(
                e.health_at(now),
                silent_for,
                deadline,
                match estimated_interval {
                    Some(i) => i,
                    None => deadline,
                },
            )
            &&& silent_for@ > deadline@ ==> e.state_at(now) == HealthState::Late
        }),
{
}

/// A repeating pattern still searching for its cycle is learning while
/// its silence is within the startup grace, and late past it, however many
/// samples it has seen.
pub proof fn lemma_searching_pattern_late_past_startup_grace(e: TaskEntry, now: u64, samples: u32)
    requires
        !e.is_stopped(),
        e.last_tick != 0,
        e.timing matches TimingState::Learned { estimate, .. } && estimate matches
            LearnedEstimate::PatternSearching { samples: n, .. } && n == samples,
    ensures
        ({
            let silent_for = tick_span(now, e.last_tick);
            &&& silent_for@ <= e.startup_grace@ ==> e.health_at(now) == (Health::Learning {
                samples,
                required: e.timing->config.minimum_samples,
                silent_for,
                estimated_interval: None,
            })
            &&& silent_for@ > e.startup_grace@ ==> judged_against(
                e.health_at(now),
                silent_for,
                e.startup_grace,
                e.startup_grace,
            )
            &&& silent_for@ > e.startup_grace@ ==> e.state_at(now) == HealthState::Late
        }),
{
}

/// A stopped task reports how long ago it stopped and why, whatever its
/// timing and heartbeats.
pub proof fn lemma_stopped_task_reports_its_stop(e: TaskEntry, now: u64)
    requires
        e.is_stopped(),
    ensures
        e.health_at(now) == (Health::Stopped {
            stopped_for: tick_span(now, e.stopped_tick),
            reason: e.stop_reason,
        }),
        now >= e.stopped_tick ==> tick_span(now, e.stopped_tick)@ == (now - e.stopped_tick) * 1000,
{
}

/// A fixed task that has not beaten yet is starting while the time since
/// its registration is within its startup grace, and late past it, with
/// the overrun past the grace and no missed intervals.
pub proof fn lemma_unbeaten_fixed_task(e: TaskEntry, now: u64)
    requires
        !e.is_stopped(),
        e.last_tick == 0,
        (e.timing is Fixed),
    ensures
        ({
            let elapsed = tick_span(now, e.created_tick);
            &&& elapsed@ <= e.startup_grace@ ==> e.health_at(now) == (Health::Starting {
                elapsed,
                startup_grace: e.startup_grace,
            })
            &&& elapsed@ > e.startup_grace@ ==> judged_against(
                e.health_at(now),
                elapsed,
                e.startup_grace,
                Duration::of_nanos(0),
            )
        }),
{
}

/// Identifiers are allocated monotonically and never reused: a task
/// registered later, after any operations that do not lower the next
/// identifier (none does), gets a larger identifier than every task
/// registered before, whether or not that task was purged in between.
pub proof fn lemma_identifiers_never_reused(
    first_before: Monitor,
    first_after: Monitor,
    first_config: TaskConfig,
    first_tick: u64,
    first: Result<Heartbeat, RegisterError>,
    second_before: Monitor,
    second_after: Monitor,
    second_config: TaskConfig,
    second_tick: u64,
    second: Result<Heartbeat, RegisterError>,
)
    requires
        registered(first_before, first_after, first_config, first_tick, first),
        registered(second_before, second_after, second_config, second_tick, second),
        first_after.next_id_spec() <= second_before.next_id_spec(),
        first is Ok,
        second is Ok,
    ensures
        first->Ok_0@.0 < second->Ok_0@.0,
{
}

/// A fixed task begins in `Starting` and a learned task begins in
/// `Learning`: at its creation tick no startup grace has run out.
pub proof fn lemma_registered_task_begins(
    e: TaskEntry,
    config: TaskConfig,
    id: TaskId,
    tick: u64,
)
    requires
        e.is_fresh(config, id, tick),
    ensures
        (config.timing is Fixed) ==> e.state_at(tick) == HealthState::Starting,
        (config.timing is Learned) ==> e.state_at(tick) == HealthState::Learning,
{
}

/// A learned task that has not beaten yet is learning, with no samples,
/// for as long as its startup grace lasts, and late after.
pub proof fn lemma_unbeaten_learned_task(e: TaskEntry, now: u64)
    requires
        !e.is_stopped(),
        e.last_tick == 0,
        (e.timing is Learned),
    ensures
        tick_span(now, e.created_tick)@ <= e.startup_grace@ ==> e.health_at(now) == (
        Health::Learning {
            samples: 0,
            required: e.timing->config.minimum_samples,
            silent_for: tick_span(now, e.created_tick),
            estimated_interval: None,
        }),
        tick_span(now, e.created_tick)@ > e.startup_grace@ ==> e.state_at(now)
            == HealthState::Late,
{
}

/// A fixed task that has just beaten is healthy.
pub proof fn lemma_fixed_beat_is_healthy(e: TaskEntry, tick: u64)
    requires
        !e.is_stopped(),
        e.timing is Fixed,
        tick != 0,
    ensures
        e.changed(EntryChange::Beat, tick).state_at(tick) == HealthState::Healthy,
{
}

/// A learned task whose model has seen no samples is learning, not
/// healthy, right after a heartbeat.
pub proof fn lemma_untrained_beat_is_learning(e: TaskEntry, tick: u64)
    requires
        !e.is_stopped(),
        e.timing matches TimingState::Learned { config, estimate } && estimate
            == LearnedEstimate::fresh_spec(config.model),
        tick != 0,
    ensures
        e.changed(EntryChange::Beat, tick).state_at(tick) == HealthState::Learning,
{
}

/// Once stopped, a record stays stopped, keeps the tick and reason of its
/// first stop, and reports `Stopped` at every tick, whatever later changes
/// its handles make.
pub proof fn lemma_stopped_is_terminal(e: TaskEntry, change: EntryChange, tick: u64, now: u64)
    requires
        e.is_stopped(),
    ensures
        e.changed(change, tick).is_stopped(),
        e.changed(change, tick).stopped_tick == e.stopped_tick,
        e.changed(change, tick).stop_reason == e.stop_reason,
        e.changed(change, tick).state_at(now) == HealthState::Stopped,
{
}

/// Releasing a task's only handle stops it, with the reason that its last
/// handle was dropped; releasing one of several handles leaves it running.
pub proof fn lemma_last_release_stops(e: TaskEntry, tick: u64)
    requires
        !e.is_stopped(),
        tick != 0,
    ensures
        e.active_handles == 1 ==> e.changed(EntryChange::ReleaseHandle, tick).is_stopped() && e.changed(
            EntryChange::ReleaseHandle,
            tick,
        ).stop_reason == StopReason::LastHandleDropped,
        e.active_handles > 1 ==> !e.changed(EntryChange::ReleaseHandle, tick).is_stopped(),
{
}

/// An explicit stop is recorded with its reason and reported as `Stopped`
/// from then on.
pub proof fn lemma_explicit_stop(e: TaskEntry, tick: u64, now: u64)
    requires
        !e.is_stopped(),
        tick != 0,
    ensures
        e.changed(EntryChange::Stop(StopReason::Explicit), tick).state_at(now)
            == HealthState::Stopped,
        e.changed(EntryChange::Stop(StopReason::Explicit), tick).stop_reason
            == StopReason::Explicit,
{
}

/// Purging keeps exactly the records that have not stopped, in their
/// order: no stopped record survives and no running record is lost.
pub proof fn lemma_purge_keeps_running(entries: Seq<TaskEntry>)
    ensures
        forall|i: int| 0 <= i < purged(entries).len() ==> !(#[trigger] purged(entries)[i]).is_stopped(),
        forall|i: int|
            0 <= i < entries.len() && !(#[trigger] entries[i]).is_stopped() ==> purged(entries).contains(
                entries[i],
            ),
{
    broadcast use vstd::seq_lib::group_filter_ensures;

}

/// Filtering never lengthens a sequence.
proof fn lemma_filter_len_le(s: Seq<TaskEntry>)
    ensures
        s.filter(|e: TaskEntry| !e.is_stopped()).len() <= s.len(),
{
    broadcast use vstd::seq_lib::group_filter_ensures;

}

} // verus!
