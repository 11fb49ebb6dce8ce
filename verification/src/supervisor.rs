//! Supervisor bookkeeping: the reaction of the host to the control-flow
//! outcome of one execution cycle.
//!
//! The supervisor keeps one entry per registered task: its name, its
//! scheduling phase, and two counters that pin down the lifecycle
//! guarantees — how many instances were constructed for the name and
//! how many times the teardown hook ran.  A live entry has exactly one
//! construction that was not yet torn down; a stopped or faulted entry
//! has been torn down once per construction.
//!
//! Cycles of one task are strictly sequential: a cycle can begin only
//! while the entry is idle, and the entry stays running until the
//! outcome of that cycle is delivered.  Stops and reloads are
//! cooperative: a task that is in the middle of a cycle when a
//! multi-task transition reaches it is only marked pending, and the
//! pending transition is consumed when its own cycle finishes.
use vstd::prelude::*;
use crate::control_flow::CycleError;
use crate::control_flow::TaskControlFlow;
use crate::control_flow::crates_contain;
use crate::control_flow::crate_set_has;
use crate::identity::CrateName;
use crate::identity::FullTaskName;

verus! {

/// Scheduling phase of one registered task.
#[derive(Clone, Copy, Debug, PartialEq, Eq, Structural)]
pub enum TaskPhase {
    /// Waiting for work; no cycle of the task is underway.
    Idle,
    /// A cycle of the task is in flight.
    Running,
    /// Deregistered for good; no further cycles.
    Stopped,
    /// A cycle failed; no further cycles until an explicit reload.
    Faulted,
}

/// A transition that reached a task while its cycle was in flight;
/// applied when that cycle finishes.
#[derive(Clone, Copy, Debug, PartialEq, Eq, Structural)]
pub enum Pending {
    Reload,
    Stop,
}

/// Why a supervisor operation was refused.
#[derive(Clone, Copy, Debug, PartialEq, Eq, Structural)]
pub enum SupervisorError {
    /// The execution subsystem has halted; it accepts nothing further.
    Halted,
    /// `register_task` found the name already taken.
    NameTaken,
    /// `reload_task` aimed at a task that is running or stopped.
    NotReloadable,
}

/// Book-keeping for one registered task.
pub struct TaskEntry {
    /// The preserved identity of the task.
    pub name: FullTaskName,
    pub phase: TaskPhase,
    /// How many instances were constructed for this name.
    pub starts: u32,
    /// How many times the teardown hook ran.  Every destruction path
    /// runs it exactly once.
    pub teardowns: u32,
    /// A transition waiting for the in-flight cycle to finish.
    pub pending: Option<Pending>,
}

/// The supervisor's view of the task-execution subsystem.
pub struct Supervisor {
    pub tasks: Vec<TaskEntry>,
    /// Set by `StopAll`; a halted subsystem accepts no further cycles
    /// and no further registrations.
    pub halted: bool,
    /// Errors of failed cycles, in the order they were recorded.
    pub errors: Vec<CycleError>,
}

/// Registered and eligible for further cycles (idle or mid-cycle).
pub open spec fn live_entry(e: TaskEntry) -> bool {
    e.phase is Idle || e.phase is Running
}

/// Per-entry invariant: a live entry has exactly one construction not
/// yet torn down, a dead one is torn down once per construction, and
/// only a running entry can hold a pending transition.
pub open spec fn entry_inv(e: TaskEntry) -> bool {
    &&& live_entry(e) ==> e.teardowns + 1 == e.starts
    &&& !live_entry(e) ==> e.teardowns == e.starts
    &&& !(e.phase is Running) ==> e.pending is None
}

/// Outcomes that deregister their targets.
pub open spec fn stop_class(outcome: TaskControlFlow) -> bool {
    outcome is StopThis || outcome is StopAll || outcome is Fail
}

/// Outcomes whose scope can reach beyond the originating task.
pub open spec fn multi_task(outcome: TaskControlFlow) -> bool {
    outcome is FullReload || outcome is PartialReload || outcome is StopAll
}

/// Whether the task at index `j` is in scope of the transition that the
/// task at index `i` produced.  For the multi-task outcomes the scope
/// is a computed closure: the triggering set plus every other task
/// whose broadcast answer (`responses[j]`) asked to join.
pub open spec fn in_scope(
    tasks: Seq<TaskEntry>,
    i: int,
    outcome: TaskControlFlow,
    responses: Seq<bool>,
    j: int,
) -> bool {
    match outcome {
        TaskControlFlow::Continue => false,
        TaskControlFlow::Reload => j == i,
        TaskControlFlow::FullReload => tasks[j].name.crate_name@ == tasks[i].name.crate_name@ || (j
            != i && responses[j]),
        TaskControlFlow::PartialReload { crates } => crates_contain(
            crates@,
            tasks[j].name.crate_name@,
        ) || (j != i && responses[j]),
        TaskControlFlow::StopThis => j == i,
        TaskControlFlow::StopAll => true,
        TaskControlFlow::Fail { .. } => j == i,
    }
}

/// The entry after its task was destroyed and a fresh instance was
/// constructed under the same name.
pub open spec fn reloaded_entry(e: TaskEntry) -> TaskEntry {
    TaskEntry {
        name: e.name,
        phase: TaskPhase::Idle,
        starts: (e.starts + 1) as u32,
        teardowns: (e.teardowns + 1) as u32,
        pending: None,
    }
}

/// The entry after its task was torn down and deregistered.
pub open spec fn stopped_entry(e: TaskEntry) -> TaskEntry {
    TaskEntry {
        name: e.name,
        phase: TaskPhase::Stopped,
        starts: e.starts,
        teardowns: (e.teardowns + 1) as u32,
        pending: None,
    }
}

/// The entry after its cycle failed: torn down, kept registered as
/// faulted, reloadable only explicitly.
pub open spec fn faulted_entry(e: TaskEntry) -> TaskEntry {
    TaskEntry {
        name: e.name,
        phase: TaskPhase::Faulted,
        starts: e.starts,
        teardowns: (e.teardowns + 1) as u32,
        pending: None,
    }
}

/// The entry after its cycle finished with no action on it.
pub open spec fn idled_entry(e: TaskEntry) -> TaskEntry {
    TaskEntry {
        name: e.name,
        phase: TaskPhase::Idle,
        starts: e.starts,
        teardowns: e.teardowns,
        pending: None,
    }
}

/// How a pending transition combines with one arriving now: a stop
/// always wins, and an arriving reload never downgrades a pending stop.
pub open spec fn merged_pending(p: Option<Pending>, stopping: bool) -> Option<Pending> {
    if stopping {
        Some(Pending::Stop)
    } else if p == Some(Pending::Stop) {
        Some(Pending::Stop)
    } else {
        Some(Pending::Reload)
    }
}

/// The entry of a task other than the originating one, after the
/// outcome is applied.  A dead or out-of-scope task is untouched; an
/// idle task in scope undergoes the transition now; a running task in
/// scope is only marked pending (cancellation is cooperative).
pub open spec fn sibling_after(e: TaskEntry, scoped: bool, stopping: bool) -> TaskEntry {
    if !scoped || !live_entry(e) {
        e
    } else if e.phase is Idle {
        if stopping {
            stopped_entry(e)
        } else {
            reloaded_entry(e)
        }
    } else {
        TaskEntry {
            name: e.name,
            phase: e.phase,
            starts: e.starts,
            teardowns: e.teardowns,
            pending: merged_pending(e.pending, stopping),
        }
    }
}

/// The entry of the originating task after its own outcome.  A pending
/// stop consumes the outcome; otherwise the outcome is applied, and a
/// pending reload fires afterwards unless the outcome already reloaded
/// or deregistered the task.
pub open spec fn origin_after(e: TaskEntry, outcome: TaskControlFlow, own_scoped: bool) -> TaskEntry {
    if e.pending == Some(Pending::Stop) {
        stopped_entry(e)
    } else {
        let base = match outcome {
            TaskControlFlow::Continue => idled_entry(e),
            TaskControlFlow::Reload => reloaded_entry(e),
            TaskControlFlow::FullReload => reloaded_entry(e),
            TaskControlFlow::PartialReload { .. } => if own_scoped {
                reloaded_entry(e)
            } else {
                idled_entry(e)
            },
            TaskControlFlow::StopThis => stopped_entry(e),
            TaskControlFlow::StopAll => stopped_entry(e),
            TaskControlFlow::Fail { .. } => faulted_entry(e),
        };
        if e.pending == Some(Pending::Reload) && base.phase is Idle && base.starts == e.starts {
            reloaded_entry(base)
        } else {
            base
        }
    }
}

/// The entry at index `j` after the task at index `i` finished a cycle
/// with `outcome`, the broadcast answers being `responses`.
pub open spec fn entry_after(
    tasks: Seq<TaskEntry>,
    i: int,
    outcome: TaskControlFlow,
    responses: Seq<bool>,
    j: int,
) -> TaskEntry {
    if j == i {
        origin_after(tasks[i], outcome, in_scope(tasks, i, outcome, responses, i))
    } else {
        sibling_after(
            tasks[j],
            in_scope(tasks, i, outcome, responses, j),
            stop_class(outcome),
        )
    }
}

impl Supervisor {
    /// Well-formed: task names are unique and every entry satisfies
    /// its lifecycle invariant.
    pub open spec fn wf(self) -> bool {
        &&& forall|i: int, j: int|
            0 <= i < self.tasks@.len() && 0 <= j < self.tasks@.len() && i != j
                ==> self.tasks@[i].name@ != self.tasks@[j].name@
        &&& forall|j: int| 0 <= j < self.tasks@.len() ==> entry_inv(#[trigger] self.tasks@[j])
    }

    /// Whether a cycle of the task at index `j` may begin: the
    /// subsystem accepts cycles and the task is idle.  In particular a
    /// task whose cycle is in flight can never begin another one.
    pub open spec fn can_begin_cycle(self, j: int) -> bool {
        !self.halted && self.tasks@[j].phase is Idle
    }

    pub fn new() -> (r: Self)
        ensures
            r.tasks@.len() == 0,
            !r.halted,
            r.errors@.len() == 0,
            r.wf(),
    {
        Supervisor { tasks: Vec::new(), halted: false, errors: Vec::new() }
    }

    /// Whether some task is registered under `n`.
    pub open spec fn contains(self, n: (Seq<char>, Seq<char>)) -> bool {
        exists|j: int| 0 <= j < self.tasks@.len() && self.tasks@[j].name@ == n
    }

    /// Index of the task registered under `name`, if any.
    pub fn find_task(&self, name: &FullTaskName) -> (r: Option<usize>)
        ensures
            match r {
                Some(j) => j < self.tasks@.len() && self.tasks@[j as int].name@ == name@,
                None => !self.contains(name@),
            },
    {
        let n = self.tasks.len();
        let mut j: usize = 0;
        while j < n
            invariant
                n == self.tasks@.len(),
                j <= n,
                forall|k: int| 0 <= k < j ==> self.tasks@[k].name@ != name@,
            decreases n - j,
        {
            if self.tasks[j].name.same(name) {
                return Some(j);
            }
            j = j + 1;
        }
        None
    }

    /// Registers a task under `name`: one fresh instance, idle, never
    /// torn down.  Refused when the subsystem has halted or the name
    /// is taken; the supervisor is then unchanged.
    pub fn register_task(&mut self, name: FullTaskName) -> (r: Result<(), SupervisorError>)
        requires
            old(self).wf(),
        ensures
            final(self).wf(),
            old(self).halted ==> r == Result::<(), SupervisorError>::Err(SupervisorError::Halted)
                && *final(self) == *old(self),
            !old(self).halted && old(self).contains(name@) ==> r == Result::<(
                ),
                SupervisorError,
            >::Err(SupervisorError::NameTaken) && *final(self) == *old(self),
            !old(self).halted && !old(self).contains(name@) ==> r == Result::<(
                ),
                SupervisorError,
            >::Ok(()) && final(self).tasks@ == old(self).tasks@.push(
                (TaskEntry {
                    name,
                    phase: TaskPhase::Idle,
                    starts: 1,
                    teardowns: 0,
                    pending: None,
                }),
            ) && final(self).halted == old(self).halted && final(self).errors@ == old(self).errors@,
    {
        if self.halted {
            return Err(SupervisorError::Halted);
        }
        if self.find_task(&name).is_some() {
            return Err(SupervisorError::NameTaken);
        }
        self.tasks.push(
            TaskEntry { name, phase: TaskPhase::Idle, starts: 1, teardowns: 0, pending: None },
        );
        Ok(())
    }

    /// Tries to begin a cycle of the task at index `j`.  Succeeds
    /// exactly when the subsystem accepts cycles and the task is idle;
    /// the entry is then marked running, so a second cycle of the same
    /// task cannot begin before the first one finishes.
    pub fn try_begin_cycle(&mut self, j: usize) -> (r: bool)
        requires
            old(self).wf(),
            j < old(self).tasks@.len(),
        ensures
            final(self).wf(),
            r == old(self).can_begin_cycle(j as int),
            r ==> final(self).tasks@ == old(self).tasks@.update(
                j as int,
                (TaskEntry {
                    name: old(self).tasks@[j as int].name,
                    phase: TaskPhase::Running,
                    starts: old(self).tasks@[j as int].starts,
                    teardowns: old(self).tasks@[j as int].teardowns,
                    pending: old(self).tasks@[j as int].pending,
                }),
            ),
            !r ==> final(self).tasks@ == old(self).tasks@,
            final(self).halted == old(self).halted,
            final(self).errors@ == old(self).errors@,
    {
        if self.halted {
            return false;
        }
        let ph = self.tasks[j].phase;
        match ph {
            TaskPhase::Idle => {
                let e = &mut self.tasks[j];
                e.phase = TaskPhase::Running;
                true
            },
            _ => false,
        }
    }

    /// Delivers the outcome of one finished cycle of the task at index
    /// `i` and applies the supervisory transition it asks for.
    ///
    /// `responses` holds, for each registered task, the answer its
    /// coordination hook gave when the originating transition was
    /// broadcast; the answers widen the scope of the multi-task
    /// outcomes and are not consulted for the single-task ones.
    ///
    /// Every entry moves to `entry_after` of the previous state; the
    /// subsystem halts exactly on `StopAll`; the error of a `Fail`
    /// outcome is recorded, and nothing else touches the error log.
    pub fn finish_cycle(&mut self, i: usize, outcome: TaskControlFlow, responses: &Vec<bool>)
        requires
            old(self).wf(),
            i < old(self).tasks@.len(),
            old(self).tasks@[i as int].phase is Running,
            responses@.len() == old(self).tasks@.len(),
            forall|j: int|
                0 <= j < old(self).tasks@.len() && live_entry(#[trigger] old(self).tasks@[j])
                    ==> old(self).tasks@[j].starts < u32::MAX,
        ensures
            final(self).wf(),
            final(self).tasks@.len() == old(self).tasks@.len(),
            forall|j: int|
                0 <= j < old(self).tasks@.len() ==> final(self).tasks@[j] == entry_after(
                    old(self).tasks@,
                    i as int,
                    outcome,
                    responses@,
                    j,
                ),
            forall|j: int|
                0 <= j < old(self).tasks@.len() ==> (#[trigger] final(self).tasks@[j]).name == old(self).tasks@[j].name,
            final(self).halted == (old(self).halted || outcome is StopAll),
            outcome matches TaskControlFlow::Fail { error } ==> final(self).errors@ == old(self).errors@.push(error),
            !(outcome is Fail) ==> final(self).errors@ == old(self).errors@,
    {
        let ghost pre = old(self).tasks@;
        let n = self.tasks.len();
        let origin_crate = self.tasks[i].name.crate_name.clone();
        let stopping = match &outcome {
            TaskControlFlow::StopThis => true,
            TaskControlFlow::StopAll => true,
            TaskControlFlow::Fail { .. } => true,
            _ => false,
        };
        let multi = match &outcome {
            TaskControlFlow::FullReload => true,
            TaskControlFlow::PartialReload { .. } => true,
            TaskControlFlow::StopAll => true,
            _ => false,
        };
        let mut j: usize = 0;
        while j < n
            invariant
                self.tasks@.len() == n,
                n == pre.len(),
                n == responses@.len(),
                i < n,
                j <= n,
                origin_crate@ == pre[i as int].name.crate_name@,
                stopping == stop_class(outcome),
                multi == multi_task(outcome),
                forall|k: int|
                    0 <= k < n && (k >= j || k == i) ==> #[trigger] self.tasks@[k] == pre[k],
                forall|k: int|
                    0 <= k < j && k != i ==> #[trigger] self.tasks@[k] == entry_after(
                        pre,
                        i as int,
                        outcome,
                        responses@,
                        k,
                    ),
                forall|k: int| 0 <= k < n && live_entry(pre[k]) ==> pre[k].starts < u32::MAX,
                forall|k: int| 0 <= k < n ==> entry_inv(pre[k]),
                self.halted == old(self).halted,
                self.errors@ == old(self).errors@,
            decreases n - j,
        {
            if j != i {
                let scoped_by_set = match &outcome {
                    TaskControlFlow::FullReload => self.tasks[j].name.crate_name.same(
                        &origin_crate,
                    ),
                    TaskControlFlow::PartialReload { crates } => crate_set_has(
                        crates,
                        &self.tasks[j].name.crate_name,
                    ),
                    TaskControlFlow::StopAll => true,
                    _ => false,
                };
                let scoped = scoped_by_set || (multi && responses[j]);
                proof {
                    assert(scoped == in_scope(pre, i as int, outcome, responses@, j as int));
                }
                if scoped {
                    let e = &mut self.tasks[j];
                    match e.phase {
                        TaskPhase::Idle => {
                            if stopping {
                                e.teardowns = e.teardowns + 1;
                                e.phase = TaskPhase::Stopped;
                                e.pending = None;
                            } else {
                                e.starts = e.starts + 1;
                                e.teardowns = e.teardowns + 1;
                                e.pending = None;
                            }
                        },
                        TaskPhase::Running => {
                            if stopping {
                                e.pending = Some(Pending::Stop);
                            } else {
                                match e.pending {
                                    Some(Pending::Stop) => {},
                                    _ => {
                                        e.pending = Some(Pending::Reload);
                                    },
                                }
                            }
                        },
                        _ => {},
                    }
                }
                proof {
                    assert(self.tasks@[j as int] == entry_after(
                        pre,
                        i as int,
                        outcome,
                        responses@,
                        j as int,
                    ));
                }
            }
            j = j + 1;
        }
        let own_scoped = match &outcome {
            TaskControlFlow::PartialReload { crates } => crate_set_has(crates, &origin_crate),
            _ => true,
        };
        proof {
            assert(outcome is PartialReload ==> own_scoped == in_scope(
                pre,
                i as int,
                outcome,
                responses@,
                i as int,
            ));
        }
        let e = &mut self.tasks[i];
        match e.pending {
            Some(Pending::Stop) => {
                e.teardowns = e.teardowns + 1;
                e.phase = TaskPhase::Stopped;
                e.pending = None;
            },
            _ => {
                let had_pending_reload = match e.pending {
                    Some(Pending::Reload) => true,
                    _ => false,
                };
                match &outcome {
                    TaskControlFlow::Continue => {
                        e.phase = TaskPhase::Idle;
                        e.pending = None;
                    },
                    TaskControlFlow::Reload | TaskControlFlow::FullReload => {
                        e.starts = e.starts + 1;
                        e.teardowns = e.teardowns + 1;
                        e.phase = TaskPhase::Idle;
                        e.pending = None;
                    },
                    TaskControlFlow::PartialReload { .. } => {
                        if own_scoped {
                            e.starts = e.starts + 1;
                            e.teardowns = e.teardowns + 1;
                        }
                        e.phase = TaskPhase::Idle;
                        e.pending = None;
                    },
                    TaskControlFlow::StopThis | TaskControlFlow::StopAll => {
                        e.teardowns = e.teardowns + 1;
                        e.phase = TaskPhase::Stopped;
                        e.pending = None;
                    },
                    TaskControlFlow::Fail { .. } => {
                        e.teardowns = e.teardowns + 1;
                        e.phase = TaskPhase::Faulted;
                        e.pending = None;
                    },
                }
                if had_pending_reload {
                    let again = match e.phase {
                        TaskPhase::Idle => true,
                        _ => false,
                    };
                    if again {
                        let not_reloaded_yet = match &outcome {
                            TaskControlFlow::Continue => true,
                            TaskControlFlow::PartialReload { .. } => !own_scoped,
                            _ => false,
                        };
                        if not_reloaded_yet {
                            e.starts = e.starts + 1;
                            e.teardowns = e.teardowns + 1;
                        }
                    }
                }
            },
        }
        proof {
            assert(self.tasks@[i as int] == entry_after(pre, i as int, outcome, responses@, i as int));
        }
        let stop_all = match &outcome {
            TaskControlFlow::StopAll => true,
            _ => false,
        };
        if stop_all {
            self.halted = true;
        }
        match outcome {
            TaskControlFlow::Fail { error } => {
                self.errors.push(error);
            },
            _ => {},
        }
        proof {
            assert forall|j2: int| 0 <= j2 < n implies entry_inv(#[trigger] final(self).tasks@[j2])
                && final(self).tasks@[j2].name == pre[j2].name by {
                assert(final(self).tasks@[j2] == entry_after(pre, i as int, outcome, responses@, j2));
            }
        }
    }

    /// Reports that the in-flight cycle of the task at index `i`
    /// terminated abnormally: the critical section never completed.
    /// The fault is an implicit fault-level outcome — the task is torn
    /// down, marked faulted and an error is recorded — and the lock
    /// discipline elsewhere stays untouched.
    pub fn abort_cycle(&mut self, i: usize)
        requires
            old(self).wf(),
            i < old(self).tasks@.len(),
            old(self).tasks@[i as int].phase is Running,
            forall|j: int|
                0 <= j < old(self).tasks@.len() && live_entry(#[trigger] old(self).tasks@[j])
                    ==> old(self).tasks@[j].starts < u32::MAX,
        ensures
            final(self).wf(),
            final(self).tasks@.len() == old(self).tasks@.len(),
            old(self).tasks@[i as int].pending != Some(Pending::Stop) ==> final(self).tasks@[i as int] == faulted_entry(old(self).tasks@[i as int]),
            old(self).tasks@[i as int].pending == Some(Pending::Stop) ==> final(self).tasks@[i as int] == stopped_entry(old(self).tasks@[i as int]),
            forall|j: int|
                0 <= j < old(self).tasks@.len() && j != i ==> final(self).tasks@[j] == old(self).tasks@[j],
            final(self).halted == old(self).halted,
            final(self).errors@.len() == old(self).errors@.len() + 1,
            final(self).errors@[old(self).errors@.len() as int] is AbnormalTermination,
            final(self).errors@[old(self).errors@.len() as int]->AbnormalTermination_offending_task@
                == old(self).tasks@[i as int].name@,
    {
        let name = self.tasks[i].name.clone();
        let ghost pre = self.tasks@;
        let n = self.tasks.len();
        let mut responses: Vec<bool> = Vec::new();
        let mut k: usize = 0;
        while k < n
            invariant
                responses@.len() == k,
                k <= n,
            decreases n - k,
        {
            responses.push(false);
            k = k + 1;
        }
        proof {
            assert(name@ == pre[i as int].name@);
        }
        let error = CycleError::AbnormalTermination { offending_task: name };
        proof {
            assert(error->AbnormalTermination_offending_task@ == pre[i as int].name@);
        }
        self.finish_cycle(i, TaskControlFlow::Fail { error }, &responses);
        proof {
            assert forall|j: int| 0 <= j < pre.len() && j != i implies final(self).tasks@[j]
                == pre[j] by {
                assert(final(self).tasks@[j] == entry_after(
                    pre,
                    i as int,
                    (TaskControlFlow::Fail { error }),
                    responses@,
                    j,
                ));
            }
        }
    }

    /// Explicitly reloads the task at index `j`: the one revival path
    /// for a faulted task, and a host-driven reconstruction for an
    /// idle one.  A running or stopped task is not reloadable, and a
    /// halted subsystem refuses reloads altogether.
    pub fn reload_task(&mut self, j: usize) -> (r: Result<(), SupervisorError>)
        requires
            old(self).wf(),
            j < old(self).tasks@.len(),
            old(self).tasks@[j as int].starts < u32::MAX,
        ensures
            final(self).wf(),
            old(self).halted ==> r == Result::<(), SupervisorError>::Err(SupervisorError::Halted)
                && *final(self) == *old(self),
            !old(self).halted && old(self).tasks@[j as int].phase is Idle ==> r == Result::<(
                ),
                SupervisorError,
            >::Ok(()) && final(self).tasks@ == old(self).tasks@.update(
                j as int,
                reloaded_entry(old(self).tasks@[j as int]),
            ),
            !old(self).halted && old(self).tasks@[j as int].phase is Faulted ==> r == Result::<(
                ),
                SupervisorError,
            >::Ok(()) && final(self).tasks@ == old(self).tasks@.update(
                j as int,
                (TaskEntry {
                    name: old(self).tasks@[j as int].name,
                    phase: TaskPhase::Idle,
                    starts: (old(self).tasks@[j as int].starts + 1) as u32,
                    teardowns: old(self).tasks@[j as int].teardowns,
                    pending: old(self).tasks@[j as int].pending,
                }),
            ),
            !old(self).halted && (old(self).tasks@[j as int].phase is Running || old(self).tasks@[j as int].phase is Stopped) ==> r == Result::<(), SupervisorError>::Err(
                SupervisorError::NotReloadable,
            ) && *final(self) == *old(self),
            final(self).halted == old(self).halted,
            final(self).errors@ == old(self).errors@,
    {
        if self.halted {
            return Err(SupervisorError::Halted);
        }
        let ph = self.tasks[j].phase;
        match ph {
            TaskPhase::Idle => {
                let e = &mut self.tasks[j];
                e.starts = e.starts + 1;
                e.teardowns = e.teardowns + 1;
                e.pending = None;
                Ok(())
            },
            TaskPhase::Faulted => {
                let e = &mut self.tasks[j];
                e.starts = e.starts + 1;
                e.phase = TaskPhase::Idle;
                Ok(())
            },
            _ => Err(SupervisorError::NotReloadable),
        }
    }
}

} // verus!
