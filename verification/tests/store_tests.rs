use custard_core::DatachunkStore;
use custard_core::FullDatachunkName;
use custard_core::StoreError;
use custard_core::TestDatachunkA;
use custard_core::TestTaskA;
use custard_core::TEST_DATACHUNK_A_TYPE_TAG;

fn chunk_name(name: &str) -> FullDatachunkName {
    FullDatachunkName::new("custard-basics-test-a".to_string(), name.to_string())
}

#[test]
fn register_then_duplicate_refused() {
    let mut store: DatachunkStore<TestDatachunkA> = DatachunkStore::new();
    let name = chunk_name("test-datachunk-a");
    let first = store.register(
        name.clone(),
        TEST_DATACHUNK_A_TYPE_TAG,
        TestDatachunkA::new(false, 1, "x".to_string()),
    );
    assert_eq!(first, Ok(()));
    let second = store.register(
        name,
        TEST_DATACHUNK_A_TYPE_TAG,
        TestDatachunkA::new(true, 2, "y".to_string()),
    );
    assert_eq!(second, Err(StoreError::AlreadyRegistered));
    assert_eq!(store.slots.len(), 1);
}

#[test]
fn unknown_name_and_type_mismatch_are_fatal_errors() {
    let mut store: DatachunkStore<TestDatachunkA> = DatachunkStore::new();
    let name = chunk_name("test-datachunk-a");
    store
        .register(
            name.clone(),
            TEST_DATACHUNK_A_TYPE_TAG,
            TestDatachunkA::new(false, 1, "x".to_string()),
        )
        .unwrap();
    let absent = chunk_name("no-such-chunk");
    assert_eq!(
        store.acquire(&absent, TEST_DATACHUNK_A_TYPE_TAG).err(),
        Some(StoreError::NoSuchName)
    );
    let wrong_tag = TEST_DATACHUNK_A_TYPE_TAG + 1;
    assert_eq!(store.acquire(&name, wrong_tag).err(), Some(StoreError::TypeMismatch));
    assert!(matches!(store.read(&absent, TEST_DATACHUNK_A_TYPE_TAG), Err(StoreError::NoSuchName)));
    assert!(matches!(store.read(&name, wrong_tag), Err(StoreError::TypeMismatch)));
}

#[test]
fn lock_excludes_second_acquisition_until_release() {
    let mut store: DatachunkStore<TestDatachunkA> = DatachunkStore::new();
    let name = chunk_name("test-datachunk-a");
    store
        .register(
            name.clone(),
            TEST_DATACHUNK_A_TYPE_TAG,
            TestDatachunkA::new(false, 1, "x".to_string()),
        )
        .unwrap();
    let v = store.acquire(&name, TEST_DATACHUNK_A_TYPE_TAG).unwrap();
    assert_eq!(
        store.acquire(&name, TEST_DATACHUNK_A_TYPE_TAG).err(),
        Some(StoreError::WouldBlock)
    );
    assert!(matches!(store.read(&name, TEST_DATACHUNK_A_TYPE_TAG), Err(StoreError::WouldBlock)));
    store.release(&name, v);
    assert!(store.acquire(&name, TEST_DATACHUNK_A_TYPE_TAG).is_ok());
}

// Datachunk D starts as {field_a: false, field_b: 1, field_c: "x"}; one
// task obtains the mutable handle, flips field_a and doubles field_b;
// a subsequent read by another task observes {true, 2, "x"}.
#[test]
fn mutation_is_observed_by_next_reader() {
    let mut store: DatachunkStore<TestDatachunkA> = DatachunkStore::new();
    let name = TestTaskA::shared_datachunk_name();
    store
        .register(
            name.clone(),
            TEST_DATACHUNK_A_TYPE_TAG,
            TestDatachunkA::new(false, 1, "x".to_string()),
        )
        .unwrap();
    let mut v = store.acquire(&name, TEST_DATACHUNK_A_TYPE_TAG).unwrap();
    TestTaskA::touch_shared(&mut v);
    store.release(&name, v);
    let seen = store.read(&name, TEST_DATACHUNK_A_TYPE_TAG).unwrap();
    assert_eq!(seen.field_a, true);
    assert_eq!(seen.field_b, 2);
    assert_eq!(seen.field_c, "x".to_string());
}

// A fault inside one task's critical section does not block the slot:
// the value goes back poisoned and an unrelated task still acquires it.
#[test]
fn poisoned_slot_still_grants_access() {
    let mut store: DatachunkStore<TestDatachunkA> = DatachunkStore::new();
    let name = chunk_name("test-datachunk-a");
    let other = chunk_name("test-datachunk-b");
    store
        .register(
            name.clone(),
            TEST_DATACHUNK_A_TYPE_TAG,
            TestDatachunkA::new(false, 1, "x".to_string()),
        )
        .unwrap();
    store
        .register(
            other.clone(),
            TEST_DATACHUNK_A_TYPE_TAG,
            TestDatachunkA::new(true, 7, "y".to_string()),
        )
        .unwrap();
    // The critical section over `name` terminates abnormally mid-update.
    let mut v = store.acquire(&name, TEST_DATACHUNK_A_TYPE_TAG).unwrap();
    v.field_b = 999;
    store.release_poisoned(&name, v);
    assert!(store.slots[0].poisoned);
    // A different slot never contended in the first place.
    let w = store.acquire(&other, TEST_DATACHUNK_A_TYPE_TAG).unwrap();
    assert_eq!(w.field_b, 7);
    store.release(&other, w);
    // And the poisoned slot itself grants access like a clean one.
    let again = store.acquire(&name, TEST_DATACHUNK_A_TYPE_TAG).unwrap();
    assert_eq!(again.field_b, 999);
    store.release(&name, again);
    assert!(store.slots[0].poisoned);
}
