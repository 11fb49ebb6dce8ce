//! Core of a task-orchestration engine: how tasks and shared data are
//! named, a poison-tolerant locking discipline for shared typed state,
//! the fate a task can ask for when a cycle of it finishes, and the
//! supervisor bookkeeping that grants such wishes — together with the
//! pair of example plugins (a task and a datachunk) that exercise the
//! protocol.
use vstd::prelude::*;

mod control_flow;
mod identity;
mod laws;
mod store;
mod supervisor;

pub use laws::lemma_full_reload_scope;
pub use laws::lemma_halted_subsystem_stays_drained;
pub use laws::lemma_no_concurrent_cycles;
pub use laws::lemma_no_cycles_after_stop;
pub use laws::lemma_partial_reload_empty;
pub use laws::lemma_partial_reload_exact;
pub use laws::lemma_poison_tolerance;
pub use laws::lemma_stop_all_drains;
pub use laws::lemma_stop_all_teardown_once;
pub use laws::lemma_stop_this;
pub use control_flow::CycleError;
pub use control_flow::TaskControlFlow;
pub use control_flow::crates_contain;
pub use control_flow::crate_set_has;
pub use identity::CrateName;
pub use identity::TaskName;
pub use identity::DatachunkName;
pub use identity::FullTaskName;
pub use identity::FullDatachunkName;
pub use identity::char_seq_lt;
pub use identity::lemma_char_seq_lt_asymmetric;
pub use identity::lemma_char_seq_lt_irreflexive;
pub use identity::lemma_char_seq_lt_transitive;
pub use identity::lemma_char_seq_lt_trichotomy;
pub use identity::str_lt;
pub use store::DatachunkSlot;
pub use store::DatachunkStore;
pub use store::StoreError;
pub use supervisor::Pending;
pub use supervisor::Supervisor;
pub use supervisor::SupervisorError;
pub use supervisor::TaskEntry;
pub use supervisor::TaskPhase;
pub use supervisor::entry_after;
pub use supervisor::entry_inv;
pub use supervisor::faulted_entry;
pub use supervisor::idled_entry;
pub use supervisor::in_scope;
pub use supervisor::live_entry;
pub use supervisor::merged_pending;
pub use supervisor::multi_task;
pub use supervisor::origin_after;
pub use supervisor::reloaded_entry;
pub use supervisor::sibling_after;
pub use supervisor::stop_class;
pub use supervisor::stopped_entry;

verus! {

/// Type tag under which `TestDatachunkA` slots are registered in a
/// `DatachunkStore`; every access must present the same tag.
pub const TEST_DATACHUNK_A_TYPE_TAG: u64 = 1;

/// The example shared datachunk: a named, typed blob that tasks borrow
/// through the store, one cycle at a time.
#[derive(Debug)]
pub struct TestDatachunkA {
    pub field_a: bool,
    pub field_b: u32,
    pub field_c: String,
}

impl TestDatachunkA {
    /// Constructs the datachunk from its configuration record.
    pub fn new(field_a: bool, field_b: u32, field_c: String) -> (r: Self)
        ensures
            r.field_a == field_a,
            r.field_b == field_b,
            r.field_c@ == field_c@,
    {
        TestDatachunkA { field_a, field_b, field_c }
    }
}

/// The example task: a counter with a timestamp and a parting word,
/// whose cycle plays with the shared datachunk and picks its own fate
/// from one line of console input.
#[derive(Debug)]
pub struct TestTaskA {
    pub counter: u32,
    pub funny_string: String,
    /// Instant of the first cycle, as milliseconds of the host clock;
    /// the configuration defaults it to "now" at construction.
    pub time: u64,
}

/// The console command a cycle of `TestTaskA` answers to.
#[derive(Clone, Copy, Debug, PartialEq, Eq, Structural)]
pub enum CycleCommand {
    Continue,
    Fault,
    FullReload,
    PartialReload,
    StopAll,
    StopThis,
    Panic,
    Unknown,
}

/// The answer to the `PartialReload` follow-up prompt.
#[derive(Clone, Copy, Debug, PartialEq, Eq, Structural)]
pub enum ReloadAnswer {
    Yes,
    No,
    Invalid,
}

/// Command picked by one line of console input, already trimmed of
/// whitespace by the console collaborator.
pub open spec fn spec_parse_command(s: Seq<char>) -> CycleCommand {
    if s == "c"@ {
        CycleCommand::Continue
    } else if s == "e"@ {
        CycleCommand::Fault
    } else if s == "f"@ {
        CycleCommand::FullReload
    } else if s == "p"@ {
        CycleCommand::PartialReload
    } else if s == "a"@ {
        CycleCommand::StopAll
    } else if s == "s"@ {
        CycleCommand::StopThis
    } else if s == "!"@ {
        CycleCommand::Panic
    } else {
        CycleCommand::Unknown
    }
}

/// Answer read by the `PartialReload` follow-up prompt, already trimmed
/// and case-folded by the console collaborator.
pub open spec fn spec_parse_reload_answer(s: Seq<char>) -> ReloadAnswer {
    if s == "y"@ || s == "yes"@ || s == "1"@ {
        ReloadAnswer::Yes
    } else if s == "n"@ || s == "no"@ || s == "0"@ {
        ReloadAnswer::No
    } else {
        ReloadAnswer::Invalid
    }
}

impl TestTaskA {
    /// Constructs the task from its configuration record; a missing
    /// timestamp defaults to the host clock's "now".
    pub fn new(counter: u32, funny_string: String, now: u64) -> (r: Self)
        ensures
            r.counter == counter,
            r.funny_string@ == funny_string@,
            r.time == now,
    {
        TestTaskA { counter, funny_string, time: now }
    }

    /// Coordination hook consulted when a sibling produces a transition;
    /// the answer here is always no, whatever the update is.
    pub fn handle_control_flow_update(
        &mut self,
        this_name: &FullTaskName,
        other_name: &FullTaskName,
        control_flow: &TaskControlFlow,
    ) -> (r: bool)
        ensures
            r == false,
            *final(self) == *old(self),
    {
        false
    }

    /// Whether the task instance named `task_name` asked for the shared
    /// datachunk when its cycle closure was built: a question of
    /// identity, answered once when the closure is constructed and not
    /// again afterwards.
    pub fn wants_shared_datachunk(task_name: &FullTaskName) -> (r: bool)
        ensures
            r == (task_name@ == ("custard-basics-test-a"@, "test-task-c"@)),
    {
        let crate_part: bool = task_name.crate_name.name == "custard-basics-test-a".to_owned();
        let task_part: bool = task_name.task_name.name == "test-task-c".to_owned();
        crate_part && task_part
    }

    /// The name under which the shared datachunk is registered.
    pub fn shared_datachunk_name() -> (r: FullDatachunkName)
        ensures
            r@ == ("custard-basics-test-a"@, "test-datachunk-a"@),
    {
        FullDatachunkName::new("custard-basics-test-a".to_owned(), "test-datachunk-a".to_owned())
    }

    /// One cycle's play with the borrowed shared datachunk: flip
    /// `field_a`, double `field_b`, leave `field_c` alone.
    pub fn touch_shared(v: &mut TestDatachunkA)
        requires
            old(v).field_b <= u32::MAX / 2,
        ensures
            final(v).field_a == !old(v).field_a,
            final(v).field_b == 2 * old(v).field_b,
            final(v).field_c@ == old(v).field_c@,
    {
        v.field_a = !v.field_a;
        v.field_b = v.field_b * 2;
    }

    /// Parses the command line of one cycle.
    pub fn parse_command(line: &String) -> (r: CycleCommand)
        ensures
            r == spec_parse_command(line@),
    {
        if *line == "c".to_owned() {
            CycleCommand::Continue
        } else if *line == "e".to_owned() {
            CycleCommand::Fault
        } else if *line == "f".to_owned() {
            CycleCommand::FullReload
        } else if *line == "p".to_owned() {
            CycleCommand::PartialReload
        } else if *line == "a".to_owned() {
            CycleCommand::StopAll
        } else if *line == "s".to_owned() {
            CycleCommand::StopThis
        } else if *line == "!".to_owned() {
            CycleCommand::Panic
        } else {
            CycleCommand::Unknown
        }
    }

    /// Parses the answer to the `PartialReload` follow-up prompt.
    pub fn parse_reload_answer(line: &String) -> (r: ReloadAnswer)
        ensures
            r == spec_parse_reload_answer(line@),
    {
        if *line == "y".to_owned() || *line == "yes".to_owned() || *line == "1".to_owned() {
            ReloadAnswer::Yes
        } else if *line == "n".to_owned() || *line == "no".to_owned() || *line == "0".to_owned() {
            ReloadAnswer::No
        } else {
            ReloadAnswer::Invalid
        }
    }

    /// One execution cycle over the task's own (exclusively held)
    /// state: restarts the timestamp on the first cycle, counts the
    /// cycle, and picks the control-flow outcome that `command` asks
    /// for.  `reload_answer` is the answer to the follow-up prompt that
    /// the console collaborator reads only for the `PartialReload`
    /// command.  The panic command is outside this function's domain:
    /// the host panics on it instead of asking for an outcome.
    pub fn cycle(
        &mut self,
        task_name: &FullTaskName,
        now: u64,
        command: &String,
        reload_answer: &Option<String>,
    ) -> (r: TaskControlFlow)
        requires
            old(self).counter < u32::MAX,
            spec_parse_command(command@) != CycleCommand::Panic,
            spec_parse_command(command@) == CycleCommand::PartialReload ==> reload_answer is Some,
        ensures
            final(self).counter == old(self).counter + 1,
            final(self).funny_string@ == old(self).funny_string@,
            old(self).counter == 0 ==> final(self).time == now,
            old(self).counter != 0 ==> final(self).time == old(self).time,
            spec_parse_command(command@) == CycleCommand::Continue || spec_parse_command(command@)
                == CycleCommand::Unknown ==> r is Continue,
            spec_parse_command(command@) == CycleCommand::Fault ==> r is Fail
                && r->Fail_error is NotInCycle
                && r->Fail_error->NotInCycle_offending_task@ == task_name@,
            spec_parse_command(command@) == CycleCommand::FullReload ==> r is FullReload,
            spec_parse_command(command@) == CycleCommand::StopAll ==> r is StopAll,
            spec_parse_command(command@) == CycleCommand::StopThis ==> r is StopThis,
            spec_parse_command(command@) == CycleCommand::PartialReload && spec_parse_reload_answer(
                reload_answer->0@,
            ) == ReloadAnswer::Yes ==> r is PartialReload && r->PartialReload_crates@.len() == 1
                && r->PartialReload_crates@[0]@ == task_name.crate_name@,
            spec_parse_command(command@) == CycleCommand::PartialReload && spec_parse_reload_answer(
                reload_answer->0@,
            ) == ReloadAnswer::No ==> r is PartialReload && r->PartialReload_crates@.len() == 0,
            spec_parse_command(command@) == CycleCommand::PartialReload && spec_parse_reload_answer(
                reload_answer->0@,
            ) == ReloadAnswer::Invalid ==> r is Continue,
    {
        if self.counter == 0 {
            self.time = now;
        }
        self.counter = self.counter + 1;
        let cmd = Self::parse_command(command);
        match cmd {
            CycleCommand::Continue => TaskControlFlow::Continue,
            CycleCommand::Unknown => TaskControlFlow::Continue,
            CycleCommand::Fault => TaskControlFlow::Fail {
                error: CycleError::NotInCycle { offending_task: task_name.clone() },
            },
            CycleCommand::FullReload => TaskControlFlow::FullReload,
            CycleCommand::StopAll => TaskControlFlow::StopAll,
            CycleCommand::StopThis => TaskControlFlow::StopThis,
            CycleCommand::Panic => {
                proof {
                    assert(false);
                }
                TaskControlFlow::Continue
            },
            CycleCommand::PartialReload => {
                let answer = match reload_answer {
                    Some(a) => Self::parse_reload_answer(a),
                    None => {
                        proof {
                            assert(false);
                        }
                        ReloadAnswer::Invalid
                    },
                };
                match answer {
                    ReloadAnswer::Yes => {
                        let mut crates: Vec<CrateName> = Vec::new();
                        crates.push(task_name.crate_name.clone());
                        TaskControlFlow::PartialReload { crates }
                    },
                    ReloadAnswer::No => TaskControlFlow::PartialReload { crates: Vec::new() },
                    ReloadAnswer::Invalid => TaskControlFlow::Continue,
                }
            },
        }
    }

    /// The parting report of the teardown hook, handed to the
    /// diagnostic sink when the instance goes away.
    pub fn teardown_message(&self) -> (r: String)
        ensures
            r@ == "drop works: "@ + self.funny_string@,
    {
        let mut out = String::new();
        out.append("drop works: ");
        out.append(self.funny_string.as_str());
        proof {
            assert(out@ =~= "drop works: "@ + self.funny_string@);
        }
        out
    }
}

} // verus!
