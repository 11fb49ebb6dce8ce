use custard_core::CycleCommand;
use custard_core::CycleError;
use custard_core::FullTaskName;
use custard_core::ReloadAnswer;
use custard_core::TaskControlFlow;
use custard_core::TestDatachunkA;
use custard_core::TestTaskA;

fn own_name() -> FullTaskName {
    FullTaskName::new("custard-basics-test-a".to_string(), "test-task-c".to_string())
}

fn fresh_task() -> TestTaskA {
    TestTaskA::new(0, "so long".to_string(), 5)
}

#[test]
fn command_parsing() {
    assert_eq!(TestTaskA::parse_command(&"c".to_string()), CycleCommand::Continue);
    assert_eq!(TestTaskA::parse_command(&"e".to_string()), CycleCommand::Fault);
    assert_eq!(TestTaskA::parse_command(&"f".to_string()), CycleCommand::FullReload);
    assert_eq!(TestTaskA::parse_command(&"p".to_string()), CycleCommand::PartialReload);
    assert_eq!(TestTaskA::parse_command(&"a".to_string()), CycleCommand::StopAll);
    assert_eq!(TestTaskA::parse_command(&"s".to_string()), CycleCommand::StopThis);
    assert_eq!(TestTaskA::parse_command(&"!".to_string()), CycleCommand::Panic);
    assert_eq!(TestTaskA::parse_command(&"q".to_string()), CycleCommand::Unknown);
    assert_eq!(TestTaskA::parse_command(&"".to_string()), CycleCommand::Unknown);
    assert_eq!(TestTaskA::parse_command(&"cc".to_string()), CycleCommand::Unknown);
}

#[test]
fn reload_answer_parsing() {
    assert_eq!(TestTaskA::parse_reload_answer(&"y".to_string()), ReloadAnswer::Yes);
    assert_eq!(TestTaskA::parse_reload_answer(&"yes".to_string()), ReloadAnswer::Yes);
    assert_eq!(TestTaskA::parse_reload_answer(&"1".to_string()), ReloadAnswer::Yes);
    assert_eq!(TestTaskA::parse_reload_answer(&"n".to_string()), ReloadAnswer::No);
    assert_eq!(TestTaskA::parse_reload_answer(&"no".to_string()), ReloadAnswer::No);
    assert_eq!(TestTaskA::parse_reload_answer(&"0".to_string()), ReloadAnswer::No);
    assert_eq!(TestTaskA::parse_reload_answer(&"maybe".to_string()), ReloadAnswer::Invalid);
}

#[test]
fn cycle_counts_and_restarts_the_clock_once() {
    let mut t = fresh_task();
    assert_eq!(t.counter, 0);
    assert_eq!(t.time, 5);
    let r = t.cycle(&own_name(), 100, &"c".to_string(), &None);
    assert!(matches!(r, TaskControlFlow::Continue));
    assert_eq!(t.counter, 1);
    assert_eq!(t.time, 100);
    let r = t.cycle(&own_name(), 200, &"c".to_string(), &None);
    assert!(matches!(r, TaskControlFlow::Continue));
    assert_eq!(t.counter, 2);
    assert_eq!(t.time, 100);
    assert_eq!(t.funny_string, "so long".to_string());
}

// Cycle input "e" answers with an error outcome naming the task.
#[test]
fn error_command_reports_not_in_cycle() {
    let mut t = fresh_task();
    let r = t.cycle(&own_name(), 1, &"e".to_string(), &None);
    match r {
        TaskControlFlow::Fail { error } => {
            assert!(matches!(&error, CycleError::NotInCycle { .. }));
            assert!(error.offending_task().same(&own_name()));
            assert_eq!(
                error.render(),
                "not in cycle: custard-basics-test-a:test-task-c".to_string()
            );
        }
        _ => panic!("expected a failed cycle"),
    }
}

#[test]
fn stop_and_reload_commands_map_to_their_outcomes() {
    let mut t = fresh_task();
    assert!(matches!(t.cycle(&own_name(), 1, &"f".to_string(), &None), TaskControlFlow::FullReload));
    assert!(matches!(t.cycle(&own_name(), 1, &"a".to_string(), &None), TaskControlFlow::StopAll));
    assert!(matches!(t.cycle(&own_name(), 1, &"s".to_string(), &None), TaskControlFlow::StopThis));
    assert!(matches!(t.cycle(&own_name(), 1, &"nope".to_string(), &None), TaskControlFlow::Continue));
}

#[test]
fn partial_reload_command_follows_the_prompt_answer() {
    let mut t = fresh_task();
    let r = t.cycle(&own_name(), 1, &"p".to_string(), &Some("y".to_string()));
    match r {
        TaskControlFlow::PartialReload { crates } => {
            assert_eq!(crates.len(), 1);
            assert!(crates[0].same(&custard_core::CrateName::new(
                "custard-basics-test-a".to_string()
            )));
        }
        _ => panic!("expected a partial reload"),
    }
    let r = t.cycle(&own_name(), 1, &"p".to_string(), &Some("no".to_string()));
    match r {
        TaskControlFlow::PartialReload { crates } => assert_eq!(crates.len(), 0),
        _ => panic!("expected an empty partial reload"),
    }
    // An unreadable answer falls back to continuing.
    let r = t.cycle(&own_name(), 1, &"p".to_string(), &Some("dunno".to_string()));
    assert!(matches!(r, TaskControlFlow::Continue));
}

#[test]
fn shared_datachunk_access_is_opt_in_by_identity() {
    assert!(TestTaskA::wants_shared_datachunk(&own_name()));
    let other = FullTaskName::new("custard-basics-test-a".to_string(), "test-task-d".to_string());
    assert!(!TestTaskA::wants_shared_datachunk(&other));
    let other_crate = FullTaskName::new("another-crate".to_string(), "test-task-c".to_string());
    assert!(!TestTaskA::wants_shared_datachunk(&other_crate));
    let name = TestTaskA::shared_datachunk_name();
    assert_eq!(name.render(), "custard-basics-test-a:test-datachunk-a".to_string());
}

#[test]
fn touch_shared_flips_and_doubles() {
    let mut v = TestDatachunkA::new(false, 1, "x".to_string());
    TestTaskA::touch_shared(&mut v);
    assert_eq!(v.field_a, true);
    assert_eq!(v.field_b, 2);
    assert_eq!(v.field_c, "x".to_string());
    TestTaskA::touch_shared(&mut v);
    assert_eq!(v.field_a, false);
    assert_eq!(v.field_b, 4);
}

#[test]
fn coordination_hook_declines_every_update() {
    let mut t = fresh_task();
    let this = own_name();
    let other = FullTaskName::new("b".to_string(), "one".to_string());
    assert!(!t.handle_control_flow_update(&this, &other, &TaskControlFlow::StopAll));
    assert!(!t.handle_control_flow_update(&this, &other, &TaskControlFlow::FullReload));
    assert_eq!(t.counter, 0);
}

#[test]
fn teardown_message_names_the_parting_word() {
    let t = fresh_task();
    assert_eq!(t.teardown_message(), "drop works: so long".to_string());
}
