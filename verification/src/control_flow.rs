//! The control-flow outcome of one execution cycle: the closed set of
//! supervisory fates a task can ask for, and the structured error a
//! failed cycle carries.
use vstd::prelude::*;
use vstd::string::StringExecFns;
use crate::identity::CrateName;
use crate::identity::FullTaskName;

verus! {

/// Structured description of what a failed cycle reports upward.
pub enum CycleError {
    /// A task found itself outside the cycle it believed it belonged
    /// to.
    NotInCycle { offending_task: FullTaskName },
    /// A cycle terminated abnormally: its critical section ended
    /// without completing.
    AbnormalTermination { offending_task: FullTaskName },
}

impl CycleError {
    /// The task whose cycle produced this error.
    pub fn offending_task(&self) -> (r: &FullTaskName)
        ensures
            (self matches CycleError::NotInCycle { offending_task } ==> r == offending_task),
            (self matches CycleError::AbnormalTermination { offending_task } ==> r
                == offending_task),
    {
        match self {
            CycleError::NotInCycle { offending_task } => offending_task,
            CycleError::AbnormalTermination { offending_task } => offending_task,
        }
    }

    /// Human-readable form for diagnostics.
    pub fn render(&self) -> (r: String)
        ensures
            (self matches CycleError::NotInCycle { offending_task } ==> r@ == "not in cycle: "@
                + offending_task.crate_name@ + ":"@ + offending_task.task_name@),
            (self matches CycleError::AbnormalTermination { offending_task } ==> r@
                == "cycle terminated abnormally: "@ + offending_task.crate_name@ + ":"@
                + offending_task.task_name@),
    {
        let (prefix, name) = match self {
            CycleError::NotInCycle { offending_task } => ("not in cycle: ", offending_task),
            CycleError::AbnormalTermination { offending_task } => (
                "cycle terminated abnormally: ",
                offending_task,
            ),
        };
        let mut out = String::new();
        out.append(prefix);
        out.append(name.render().as_str());
        proof {
            assert(out@ =~= prefix@ + (name.crate_name@ + ":"@ + name.task_name@));
            assert(prefix@ + (name.crate_name@ + ":"@ + name.task_name@) =~= prefix@
                + name.crate_name@ + ":"@ + name.task_name@);
        }
        out
    }
}

/// What a finished cycle asks of the supervisor: the task's desired
/// fate, drawn from a small closed set.
pub enum TaskControlFlow {
    /// Nothing for the supervisor to do; the task simply runs again.
    Continue,
    /// Throw the originating task's own state away and build a fresh
    /// instance,
    /// while its registration and name survive.
    Reload,
    /// Apply `Reload` semantics to all tasks of the originating
    /// task's own crate.
    FullReload,
    /// Apply `Reload` semantics to all tasks of the crates listed
    /// here; listing nothing is legal and asks for nothing.
    PartialReload { crates: Vec<CrateName> },
    /// Retire only the originating task: teardown, then removal from
    /// scheduling.
    StopThis,
    /// Retire all registered tasks and halt the execution subsystem.
    StopAll,
    /// The cycle went wrong; the supervisor keeps the error and marks
    /// the task faulted rather than retrying.
    Fail { error: CycleError },
}

/// Whether the crate named `c` belongs to the set of crate names
/// `crates` (compared structurally, by character sequence).
pub open spec fn crates_contain(crates: Seq<CrateName>, c: Seq<char>) -> bool {
    exists|k: int| 0 <= k < crates.len() && crates[k]@ == c
}

/// Membership test backing `crates_contain` for a reload set held as a
/// vector of crate names.
pub fn crate_set_has(crates: &Vec<CrateName>, c: &CrateName) -> (r: bool)
    ensures
        r == crates_contain(crates@, c@),
{
    let n = crates.len();
    let mut i: usize = 0;
    while i < n
        invariant
            n == crates@.len(),
            i <= n,
            forall|k: int| 0 <= k < i ==> crates@[k]@ != c@,
        decreases n - i,
    {
        if crates[i].same(c) {
            return true;
        }
        i = i + 1;
    }
    false
}

} // verus!
