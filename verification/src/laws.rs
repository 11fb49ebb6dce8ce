//! The guarantees of the supervision protocol, stated and proved as
//! laws over the transition relation of the supervisor (`entry_after`)
//! and over the lock discipline of the datachunk store.
use vstd::prelude::*;
use crate::control_flow::TaskControlFlow;
use crate::control_flow::crates_contain;
use crate::identity::CrateName;
use crate::store::DatachunkSlot;
use crate::store::DatachunkStore;
use crate::supervisor::Pending;
use crate::supervisor::Supervisor;
use crate::supervisor::TaskEntry;
use crate::supervisor::entry_after;
use crate::supervisor::entry_inv;
use crate::supervisor::idled_entry;
use crate::supervisor::live_entry;
use crate::supervisor::reloaded_entry;
use crate::supervisor::stopped_entry;

verus! {

/// Cycles of one task are strictly sequential: while a cycle of the
/// task at index `j` is in flight, no second cycle of it can begin.
pub proof fn lemma_no_concurrent_cycles(s: Supervisor, j: int)
    requires
        0 <= j < s.tasks@.len(),
        s.tasks@[j].phase is Running,
    ensures
        !s.can_begin_cycle(j),
{
}

/// A deregistered or faulted task is scheduled for no further cycles,
/// and a halted subsystem accepts no cycle of anything.
pub proof fn lemma_no_cycles_after_stop(s: Supervisor, j: int)
    requires
        0 <= j < s.tasks@.len(),
        s.tasks@[j].phase is Stopped || s.tasks@[j].phase is Faulted || s.halted,
    ensures
        !s.can_begin_cycle(j),
{
}

/// `PartialReload` with an empty crate set produces no reload action:
/// every other task is untouched, and the originating task only
/// returns to idle, with no teardown and no fresh instance.  (Holds
/// when no coordination hook asks to join; a `true` broadcast answer
/// widens the scope by design.)
pub proof fn lemma_partial_reload_empty(
    tasks: Seq<TaskEntry>,
    i: int,
    crates: Vec<CrateName>,
    responses: Seq<bool>,
    j: int,
)
    requires
        0 <= i < tasks.len(),
        0 <= j < tasks.len(),
        tasks[i].phase is Running,
        tasks[i].pending is None,
        crates@.len() == 0,
        responses.len() == tasks.len(),
        forall|k: int| 0 <= k < responses.len() ==> !responses[k],
    ensures
        j != i ==> entry_after(tasks, i, (TaskControlFlow::PartialReload { crates }), responses, j)
            == tasks[j],
        j == i ==> entry_after(tasks, i, (TaskControlFlow::PartialReload { crates }), responses, j)
            == idled_entry(tasks[i]),
{
}

/// `PartialReload` with crate set `crates` reloads exactly the live
/// tasks whose crate belongs to the set, and no others.  An idle task
/// in scope is destroyed and reconstructed at once; a task in scope
/// whose own cycle is in flight is marked pending instead; a task
/// outside the set is untouched.  (Holds when no coordination hook
/// asks to join.)
pub proof fn lemma_partial_reload_exact(
    tasks: Seq<TaskEntry>,
    i: int,
    crates: Vec<CrateName>,
    responses: Seq<bool>,
    j: int,
)
    requires
        0 <= i < tasks.len(),
        0 <= j < tasks.len(),
        tasks[i].phase is Running,
        tasks[i].pending is None,
        responses.len() == tasks.len(),
        forall|k: int| 0 <= k < responses.len() ==> !responses[k],
    ensures
        j != i && !crates_contain(crates@, tasks[j].name.crate_name@) ==> entry_after(
            tasks,
            i,
            (TaskControlFlow::PartialReload { crates }),
            responses,
            j,
        ) == tasks[j],
        j != i && crates_contain(crates@, tasks[j].name.crate_name@) && tasks[j].phase is Idle
            ==> entry_after(tasks, i, (TaskControlFlow::PartialReload { crates }), responses, j)
            == reloaded_entry(tasks[j]),
        j != i && crates_contain(crates@, tasks[j].name.crate_name@) && tasks[j].phase is Running
            ==> entry_after(tasks, i, (TaskControlFlow::PartialReload { crates }), responses, j)
            == (TaskEntry {
            name: tasks[j].name,
            phase: tasks[j].phase,
            starts: tasks[j].starts,
            teardowns: tasks[j].teardowns,
            pending: crate::supervisor::merged_pending(tasks[j].pending, false),
        }),
        j == i && crates_contain(crates@, tasks[i].name.crate_name@) ==> entry_after(
            tasks,
            i,
            (TaskControlFlow::PartialReload { crates }),
            responses,
            j,
        ) == reloaded_entry(tasks[i]),
        j == i && !crates_contain(crates@, tasks[i].name.crate_name@) ==> entry_after(
            tasks,
            i,
            (TaskControlFlow::PartialReload { crates }),
            responses,
            j,
        ) == idled_entry(tasks[i]),
{
}

/// `FullReload` from the task at index `i` reloads exactly the live
/// tasks of the originating crate: tasks of any other crate are
/// untouched, idle tasks of the crate are destroyed and reconstructed
/// with fresh state under their preserved names, and the originating
/// task itself is reloaded.  (Holds when no coordination hook asks to
/// join.)
pub proof fn lemma_full_reload_scope(tasks: Seq<TaskEntry>, i: int, responses: Seq<bool>, j: int)
    requires
        0 <= i < tasks.len(),
        0 <= j < tasks.len(),
        tasks[i].phase is Running,
        tasks[i].pending is None,
        responses.len() == tasks.len(),
        forall|k: int| 0 <= k < responses.len() ==> !responses[k],
    ensures
        j != i && tasks[j].name.crate_name@ != tasks[i].name.crate_name@ ==> entry_after(
            tasks,
            i,
            TaskControlFlow::FullReload,
            responses,
            j,
        ) == tasks[j],
        j != i && tasks[j].name.crate_name@ == tasks[i].name.crate_name@ && tasks[j].phase is Idle
            ==> entry_after(tasks, i, TaskControlFlow::FullReload, responses, j) == reloaded_entry(
            tasks[j],
        ),
        j == i ==> entry_after(tasks, i, TaskControlFlow::FullReload, responses, j)
            == reloaded_entry(tasks[i]),
{
}

/// After `StopThis`, the originating task has been torn down exactly
/// once — its teardown count rises by one and matches its construction
/// count — it is deregistered, and every other task is untouched.
pub proof fn lemma_stop_this(tasks: Seq<TaskEntry>, i: int, responses: Seq<bool>, j: int)
    requires
        0 <= i < tasks.len(),
        0 <= j < tasks.len(),
        tasks[i].phase is Running,
        tasks[i].pending is None,
        entry_inv(tasks[i]),
        responses.len() == tasks.len(),
    ensures
        j == i ==> entry_after(tasks, i, TaskControlFlow::StopThis, responses, j) == stopped_entry(
            tasks[i],
        ),
        j == i ==> stopped_entry(tasks[i]).teardowns == tasks[i].teardowns + 1,
        j == i ==> stopped_entry(tasks[i]).teardowns == stopped_entry(tasks[i]).starts,
        j != i ==> entry_after(tasks, i, TaskControlFlow::StopThis, responses, j) == tasks[j],
{
}

/// After `StopAll` delivered while no other cycle is in flight, every
/// previously registered live task has been torn down exactly once —
/// its teardown count now equals its construction count — and nothing
/// remains live; a task that was already deregistered or faulted is
/// not torn down a second time.
pub proof fn lemma_stop_all_teardown_once(
    tasks: Seq<TaskEntry>,
    i: int,
    responses: Seq<bool>,
    j: int,
)
    requires
        0 <= i < tasks.len(),
        0 <= j < tasks.len(),
        tasks[i].phase is Running,
        tasks[i].pending is None,
        forall|k: int| 0 <= k < tasks.len() ==> entry_inv(#[trigger] tasks[k]),
        forall|k: int| 0 <= k < tasks.len() && k != i ==> !((#[trigger] tasks[k]).phase is Running),
        responses.len() == tasks.len(),
    ensures
        !live_entry(entry_after(tasks, i, TaskControlFlow::StopAll, responses, j)),
        entry_after(tasks, i, TaskControlFlow::StopAll, responses, j).teardowns == entry_after(
            tasks,
            i,
            TaskControlFlow::StopAll,
            responses,
            j,
        ).starts,
        live_entry(tasks[j]) ==> entry_after(
            tasks,
            i,
            TaskControlFlow::StopAll,
            responses,
            j,
        ).teardowns == tasks[j].teardowns + 1,
        !live_entry(tasks[j]) ==> entry_after(tasks, i, TaskControlFlow::StopAll, responses, j)
            == tasks[j],
{
    assert(entry_inv(tasks[j]));
}

/// `StopAll` drains the subsystem at once: afterwards no task is idle,
/// and any task whose own cycle is still in flight is marked to stop
/// when that cycle finishes.
pub proof fn lemma_stop_all_drains(tasks: Seq<TaskEntry>, i: int, responses: Seq<bool>, j: int)
    requires
        0 <= i < tasks.len(),
        0 <= j < tasks.len(),
        tasks[i].phase is Running,
        responses.len() == tasks.len(),
    ensures
        !(entry_after(tasks, i, TaskControlFlow::StopAll, responses, j).phase is Idle),
        entry_after(tasks, i, TaskControlFlow::StopAll, responses, j).phase is Running
            ==> entry_after(tasks, i, TaskControlFlow::StopAll, responses, j).pending == Some(
            Pending::Stop,
        ),
{
}

/// A drained subsystem stays drained: when no task is idle and every
/// in-flight cycle is marked to stop, a finishing cycle only retires
/// its task — with exactly one teardown, whatever outcome it returns —
/// and wakes nothing up.
pub proof fn lemma_halted_subsystem_stays_drained(
    tasks: Seq<TaskEntry>,
    i: int,
    outcome: TaskControlFlow,
    responses: Seq<bool>,
    j: int,
)
    requires
        0 <= i < tasks.len(),
        0 <= j < tasks.len(),
        tasks[i].phase is Running,
        forall|k: int| 0 <= k < tasks.len() ==> !((#[trigger] tasks[k]).phase is Idle),
        forall|k: int|
            0 <= k < tasks.len() && (#[trigger] tasks[k]).phase is Running ==> tasks[k].pending
                == Some(Pending::Stop),
        responses.len() == tasks.len(),
    ensures
        entry_after(tasks, i, outcome, responses, i) == stopped_entry(tasks[i]),
        !(entry_after(tasks, i, outcome, responses, j).phase is Idle),
        entry_after(tasks, i, outcome, responses, j).phase is Running ==> entry_after(
            tasks,
            i,
            outcome,
            responses,
            j,
        ).pending == Some(Pending::Stop),
{
    assert(tasks[i].pending == Some(Pending::Stop));
    if j != i {
        assert(!(tasks[j].phase is Idle));
    }
}

/// Poison tolerance of the per-slot lock: after a critical section
/// over the slot named `n` ends abnormally and hands the value back,
/// the slot is immediately acquirable again under its declared type —
/// the poison mark blocks nobody — and every other slot is exactly as
/// acquirable as before.
pub proof fn lemma_poison_tolerance<V>(
    pre: DatachunkStore<V>,
    post: DatachunkStore<V>,
    n: (Seq<char>, Seq<char>),
    value: V,
)
    requires
        pre.wf(),
        pre.contains(n),
        pre.slot_at(n).value is None,
        post.slots@ == pre.slots@.update(
            pre.index_of(n),
            (DatachunkSlot {
                name: pre.slot_at(n).name,
                type_tag: pre.slot_at(n).type_tag,
                value: Some(value),
                poisoned: true,
            }),
        ),
    ensures
        post.can_acquire(n, pre.slot_at(n).type_tag),
        forall|m: (Seq<char>, Seq<char>), tag: u64|
            m != n ==> post.can_acquire(m, tag) == pre.can_acquire(m, tag),
{
    let i = pre.index_of(n);
    assert(forall|k: int|
        0 <= k < pre.slots@.len() ==> (#[trigger] post.slots@[k]).name@ == pre.slots@[k].name@);
    assert(post.slots@[i].name@ == n);
    assert(post.contains(n));
    let i2 = post.index_of(n);
    assert(post.slots@[i2].name@ == n);
    assert(pre.slots@[i2].name@ == n);
    assert(i2 == i);
    assert forall|m: (Seq<char>, Seq<char>), tag: u64| m != n implies post.can_acquire(m, tag)
        == pre.can_acquire(m, tag) by {
        assert(forall|k: int|
            0 <= k < pre.slots@.len() ==> (#[trigger] post.slots@[k]).name@
                == pre.slots@[k].name@);
        if pre.contains(m) {
            let k = pre.index_of(m);
            assert(pre.slots@[k].name@ == m);
            assert(post.slots@[k].name@ == m);
            assert(post.contains(m));
            let k2 = post.index_of(m);
            assert(post.slots@[k2].name@ == m);
            assert(pre.slots@[k2].name@ == m);
            assert(k2 == k);
            assert(k != i);
            assert(post.slots@[k] == pre.slots@[k]);
        } else {
            if post.contains(m) {
                let k2 = post.index_of(m);
                assert(post.slots@[k2].name@ == m);
                assert(pre.slots@[k2].name@ == m);
                assert(pre.contains(m));
            }
            assert(!post.contains(m));
        }
    }
}

} // verus!
