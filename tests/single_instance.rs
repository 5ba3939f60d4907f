use host_bridge::instance::{ensure_single_instance, InstanceCheck, ProcessRecord, DUPLICATE_INSTANCE_EXIT_CODE};

fn record(pid: u32, name: &str) -> ProcessRecord {
    ProcessRecord { pid, name: name.to_string() }
}

#[test]
fn proceeds_without_namesakes() {
    let table = vec![record(1, "init"), record(42, "app"), record(77, "shell")];
    let check = ensure_single_instance(&table, 42, &"app".to_string());
    assert!(matches!(check, InstanceCheck::Proceed));
    assert!(!check.must_exit());
    assert_eq!(check.exit_code(), 0);
}

#[test]
fn proceeds_on_empty_table() {
    let check = ensure_single_instance(&Vec::new(), 42, &"app".to_string());
    assert!(matches!(check, InstanceCheck::Proceed));
}

#[test]
fn terminates_with_a_namesake() {
    let table = vec![record(10, "app"), record(42, "app"), record(77, "shell"), record(90, "app")];
    let check = ensure_single_instance(&table, 42, &"app".to_string());
    assert!(check.must_exit());
    assert_eq!(check.exit_code(), DUPLICATE_INSTANCE_EXIT_CODE);
    assert_ne!(check.exit_code(), 0);
    match check {
        InstanceCheck::Terminate { pids } => assert_eq!(pids, vec![10, 90]),
        InstanceCheck::Proceed => panic!("a namesake was missed"),
    }
}

#[test]
fn name_match_is_exact_and_case_sensitive() {
    let table = vec![record(5, "App"), record(6, "app "), record(7, "ap"), record(42, "app")];
    let check = ensure_single_instance(&table, 42, &"app".to_string());
    assert!(matches!(check, InstanceCheck::Proceed));
}

#[test]
fn own_entry_is_not_a_namesake() {
    let table = vec![record(42, "app")];
    let check = ensure_single_instance(&table, 42, &"app".to_string());
    assert!(matches!(check, InstanceCheck::Proceed));
}
