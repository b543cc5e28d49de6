use rustfs_launcher::registry::ChildHandle;
use rustfs_launcher::registry::Registry;
use rustfs_launcher::registry::StreamKind;

#[test]
fn new_registry_is_empty_and_idle() {
    let reg = Registry::new();
    assert!(reg.get_app_logs().is_empty());
    assert!(reg.get_rustfs_logs().is_empty());
}

#[test]
fn no_emission_without_ui_surface() {
    let mut reg = Registry::new();
    assert!(reg.add_app_log("quiet".to_string()).is_none());
    assert!(reg.emit_log("app-log", "entry".to_string()).is_none());
}

#[test]
fn emission_after_ui_surface_registered() {
    let mut reg = Registry::new();
    reg.set_app_handle();
    let em = reg.add_app_log("visible".to_string()).expect("emission expected");
    assert_eq!(em.channel, "app-log");
    assert!(em.entry.ends_with("visible"));
    assert_eq!(reg.get_app_logs(), vec![em.entry]);
}

#[test]
fn process_log_emissions_use_process_channel() {
    let mut reg = Registry::new();
    reg.set_app_handle();
    let em = reg.add_rustfs_log("server says hi".to_string()).expect("emission expected");
    assert_eq!(em.channel, "process-log");
    assert_eq!(reg.get_rustfs_logs(), vec![em.entry]);
    assert!(reg.get_app_logs().is_empty());
}

#[test]
fn output_lines_are_tagged_by_stream() {
    let mut reg = Registry::new();
    reg.record_output_line(StreamKind::Stdout, "hello");
    reg.record_output_line(StreamKind::Stderr, "oops");
    let logs = reg.get_rustfs_logs();
    assert_eq!(logs.len(), 2);
    assert!(logs[0].ends_with("[STDOUT] hello"));
    assert!(logs[1].ends_with("[STDERR] oops"));
}

#[test]
fn empty_output_lines_are_discarded() {
    let mut reg = Registry::new();
    assert!(reg.record_output_line(StreamKind::Stdout, "").is_none());
    assert!(reg.get_rustfs_logs().is_empty());
}

#[test]
fn output_lines_are_cleaned() {
    let mut reg = Registry::new();
    reg.record_output_line(StreamKind::Stdout, "\x1b[32mready\x1b[0m");
    let logs = reg.get_rustfs_logs();
    assert!(logs[0].ends_with("[STDOUT] ready"));
}

#[test]
fn registering_child_notes_pid_in_app_log() {
    let mut reg = Registry::new();
    reg.set_rustfs_process(ChildHandle { pid: 4242 });
    let logs = reg.get_app_logs();
    assert_eq!(logs.len(), 1);
    assert!(logs[0].ends_with("RustFS process registered with PID: 4242"));
}

#[test]
fn terminate_returns_tracked_handle_and_clears_slot() {
    let mut reg = Registry::new();
    reg.set_rustfs_process(ChildHandle { pid: 7 });
    let (taken, _em) = reg.terminate_rustfs_process();
    assert_eq!(taken, Some(ChildHandle { pid: 7 }));
    let logs = reg.get_app_logs();
    assert!(logs.last().unwrap().ends_with("Terminating RustFS process with PID: 7"));
    // The slot is cleared: a second request finds nothing.
    let (again, _em) = reg.terminate_rustfs_process();
    assert_eq!(again, None);
}

#[test]
fn second_registration_replaces_without_terminating_first() {
    let mut reg = Registry::new();
    reg.set_rustfs_process(ChildHandle { pid: 1 });
    // A second launch while one child is tracked replaces the handle; no
    // kill is requested for the first child.
    reg.set_rustfs_process(ChildHandle { pid: 2 });
    let (taken, _em) = reg.terminate_rustfs_process();
    assert_eq!(taken, Some(ChildHandle { pid: 2 }));
    for entry in reg.get_app_logs() {
        assert!(!entry.contains("Terminating RustFS process with PID: 1"));
    }
}

#[test]
fn terminate_on_idle_registry_is_logged_noop() {
    let mut reg = Registry::new();
    let before = reg.get_app_logs().len();
    let (taken, _em) = reg.terminate_rustfs_process();
    assert_eq!(taken, None);
    let logs = reg.get_app_logs();
    assert_eq!(logs.len(), before + 1);
    assert!(logs.last().unwrap().ends_with("No RustFS process to terminate"));
}

#[test]
fn termination_outcome_is_logged() {
    let mut reg = Registry::new();
    reg.record_termination_result(true, "");
    assert!(reg.get_app_logs().last().unwrap().ends_with(
        "RustFS process terminated successfully"
    ));
    reg.record_termination_result(false, "permission denied");
    assert!(reg.get_app_logs().last().unwrap().ends_with(
        "Failed to terminate RustFS process: permission denied"
    ));
}

#[test]
fn app_log_evicts_beyond_capacity() {
    let mut reg = Registry::new();
    for i in 0..150 {
        reg.add_app_log(format!("note {}", i));
    }
    let logs = reg.get_app_logs();
    assert_eq!(logs.len(), 100);
    assert!(logs[0].ends_with("note 50"));
    assert!(logs[99].ends_with("note 149"));
}
