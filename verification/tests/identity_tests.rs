use custard_core::CrateName;
use custard_core::FullDatachunkName;
use custard_core::FullTaskName;
use custard_core::str_lt;

#[test]
fn full_task_name_structural_equality() {
    let a = FullTaskName::new("custard-basics-test-a".to_string(), "test-task-c".to_string());
    let b = FullTaskName::new("custard-basics-test-a".to_string(), "test-task-c".to_string());
    let c = FullTaskName::new("custard-basics-test-a".to_string(), "test-task-d".to_string());
    assert!(a.same(&b));
    assert!(b.same(&a));
    assert!(!a.same(&c));
}

#[test]
fn datachunk_name_independent_namespace() {
    let t = FullTaskName::new("crate-a".to_string(), "thing".to_string());
    let d = FullDatachunkName::new("crate-a".to_string(), "thing".to_string());
    // Same raw text, but distinct types and namespaces; each compares
    // only within its own kind.
    assert!(t.same(&FullTaskName::new("crate-a".to_string(), "thing".to_string())));
    assert!(d.same(&FullDatachunkName::new("crate-a".to_string(), "thing".to_string())));
}

#[test]
fn render_is_crate_colon_member() {
    let t = FullTaskName::new("crate-a".to_string(), "task-1".to_string());
    assert_eq!(t.render(), "crate-a:task-1".to_string());
    let d = FullDatachunkName::new("crate-a".to_string(), "chunk-1".to_string());
    assert_eq!(d.render(), "crate-a:chunk-1".to_string());
}

#[test]
fn lexicographic_order_on_names() {
    assert!(str_lt("abc", "abd"));
    assert!(!str_lt("abd", "abc"));
    assert!(str_lt("ab", "abc"));
    assert!(!str_lt("abc", "ab"));
    assert!(!str_lt("abc", "abc"));
    assert!(str_lt("", "a"));
    assert!(!str_lt("", ""));

    let a = CrateName::new("alpha".to_string());
    let b = CrateName::new("beta".to_string());
    assert!(a.lex_before(&b));
    assert!(!b.lex_before(&a));
    assert!(!a.lex_before(&a));

    let t1 = FullTaskName::new("same".to_string(), "one".to_string());
    let t2 = FullTaskName::new("same".to_string(), "two".to_string());
    assert!(t1.lex_before(&t2));
    assert!(!t2.lex_before(&t1));
}

#[test]
fn crate_name_clone_preserves_text() {
    let a = CrateName::new("crate-a".to_string());
    let b = a.clone();
    assert!(a.same(&b));
}
