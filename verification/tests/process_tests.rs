use rustfs_launcher::config::build_address;
use rustfs_launcher::config::build_launch_args;
use rustfs_launcher::config::RustFsConfig;
use rustfs_launcher::error::Error;
use rustfs_launcher::process::default_binary_path;
use rustfs_launcher::process::validate_config;
use rustfs_launcher::process::validate_config_with;
use rustfs_launcher::process::FileMeta;
use rustfs_launcher::process::HelpProbe;
use rustfs_launcher::process::Platform;
use rustfs_launcher::registry::Registry;

fn config_with_data_path(path: &str) -> RustFsConfig {
    let mut c = RustFsConfig::default();
    c.data_path = path.to_string();
    c
}

#[test]
fn default_config_values() {
    let c = RustFsConfig::default();
    assert_eq!(c.binary_path, None);
    assert_eq!(c.data_path, "");
    assert_eq!(c.port, Some(9000));
    assert_eq!(c.host.as_deref(), Some("127.0.0.1"));
    assert_eq!(c.access_key.as_deref(), Some("rustfsadmin"));
    assert_eq!(c.secret_key.as_deref(), Some("rustfsadmin"));
    assert!(!c.console_enable);
}

#[test]
fn validate_rejects_empty_data_path() {
    let c = config_with_data_path("");
    let err = validate_config(&c).unwrap_err();
    assert_eq!(err.message(), "Data path is required");
}

#[test]
fn validate_rejects_missing_data_path() {
    let c = config_with_data_path("/path/that/does/not/exist");
    let err = validate_config(&c).unwrap_err();
    assert_eq!(err.message(), "Data path does not exist: /path/that/does/not/exist");
}

#[test]
fn validate_accepts_existing_directory() {
    let c = config_with_data_path(".");
    assert_eq!(validate_config(&c).unwrap(), true);
}

#[test]
fn validate_with_reported_existence() {
    let c = config_with_data_path("/anywhere");
    assert_eq!(validate_config_with(&c, true).unwrap(), true);
    assert!(matches!(validate_config_with(&c, false), Err(Error::DataPathNotExist(_))));
}

#[test]
fn error_messages_render_every_variant() {
    assert_eq!(Error::Io("broken pipe".to_string()).message(), "broken pipe");
    assert_eq!(Error::DataPathRequired.message(), "Data path is required");
    assert_eq!(
        Error::BinaryNotFound("/bin/x".to_string()).message(),
        "RustFS binary not found at /bin/x"
    );
    assert_eq!(
        Error::Metadata("/bin/x".to_string(), "denied".to_string()).message(),
        "Failed to read metadata for /bin/x: denied"
    );
    assert_eq!(
        Error::BinaryExecution("spawn failed".to_string()).message(),
        "Failed to execute RustFS binary: spawn failed"
    );
    assert_eq!(
        Error::BinaryFailed("exit status: 1".to_string()).message(),
        "RustFS binary failed with exit code: exit status: 1"
    );
}

#[test]
fn address_uses_defaults_when_absent() {
    let mut c = RustFsConfig::default();
    assert_eq!(build_address(&c), "127.0.0.1:9000");
    c.host = None;
    c.port = None;
    assert_eq!(build_address(&c), "127.0.0.1:9000");
    c.host = Some("0.0.0.0".to_string());
    c.port = Some(7070);
    assert_eq!(build_address(&c), "0.0.0.0:7070");
}

#[test]
fn launch_args_follow_configuration() {
    let mut c = config_with_data_path("/data/store");
    assert_eq!(
        build_launch_args(&c),
        vec![
            "/data/store",
            "--address",
            "127.0.0.1:9000",
            "--access-key",
            "rustfsadmin",
            "--secret-key",
            "rustfsadmin",
        ]
    );
    c.access_key = None;
    c.secret_key = None;
    c.console_enable = true;
    assert_eq!(
        build_launch_args(&c),
        vec!["/data/store", "--address", "127.0.0.1:9000", "--console-enable"]
    );
}

#[test]
fn default_binary_locations_per_platform() {
    assert_eq!(
        default_binary_path("/opt/app", Platform::MacOs),
        "/opt/app/binaries/rustfs-macos-aarch64"
    );
    assert_eq!(
        default_binary_path("C:/app", Platform::Windows),
        "C:/app/binaries/rustfs-windows-x86_64.exe"
    );
    assert_eq!(default_binary_path("/opt/app", Platform::OtherUnix), "/opt/app/binaries/rustfs");
}

#[test]
fn launch_rejects_empty_data_path_before_any_work() {
    let mut reg = Registry::new();
    let c = config_with_data_path("");
    let (r, _ems) = reg.launch_begin(&c, &Ok("/opt/app".to_string()), Platform::OtherUnix);
    assert!(matches!(r, Err(Error::DataPathRequired)));
    // Nothing was registered: terminating still finds no child.
    let (taken, _em) = reg.terminate_rustfs_process();
    assert_eq!(taken, None);
}

#[test]
fn launch_uses_explicit_binary_path_unchecked() {
    let mut reg = Registry::new();
    let mut c = config_with_data_path("/data");
    c.binary_path = Some("/custom/rustfs".to_string());
    let (r, _ems) = reg.launch_begin(&c, &Ok("/opt/app".to_string()), Platform::OtherUnix);
    assert_eq!(r.unwrap(), "/custom/rustfs");
}

#[test]
fn launch_fails_when_default_binary_is_missing() {
    let mut reg = Registry::new();
    let c = config_with_data_path("/data");
    let (r, _ems) = reg.launch_begin(&c, &Ok("/surely/not/here".to_string()), Platform::OtherUnix);
    let err = r.unwrap_err();
    assert_eq!(
        err.message(),
        "RustFS binary not found at /surely/not/here/binaries/rustfs"
    );
    let logs = reg.get_app_logs();
    assert!(logs[0].ends_with("Launch command received"));
    assert!(logs[1].ends_with("Config: data_path=/data, port=9000, host=127.0.0.1"));
    assert!(logs[2].ends_with("Resolved binary path: /surely/not/here/binaries/rustfs"));
}

#[test]
fn launch_fails_with_io_error_when_exe_dir_unknown() {
    let mut reg = Registry::new();
    let c = config_with_data_path("/data");
    let (r, _ems) = reg.launch_begin(&c, &Err("no current exe".to_string()), Platform::OtherUnix);
    assert_eq!(r.unwrap_err().message(), "no current exe");
}

fn unix_meta(mode: u32) -> FileMeta {
    FileMeta { mode, size: 1024, readonly: false, is_file: true, extension: None }
}

#[test]
fn launch_plan_assembles_spawn_inputs() {
    let mut reg = Registry::new();
    let c = config_with_data_path("/srv/rustfs/data");
    let (r, _ems) = reg.launch_plan(
        &c,
        "/opt/app/binaries/rustfs",
        &Ok(unix_meta(0o755)),
        &Some("/srv/rustfs".to_string()),
        Platform::OtherUnix,
    );
    let plan = r.unwrap();
    assert_eq!(plan.binary_path, "/opt/app/binaries/rustfs");
    assert_eq!(plan.logs_dir, "/srv/rustfs/logs");
    assert_eq!(plan.env_key, "RUSTFS_OBS_LOG_DIRECTORY");
    assert_eq!(plan.args, build_launch_args(&c));
    let logs = reg.get_app_logs();
    assert!(logs[0].ends_with("File permissions for /opt/app/binaries/rustfs: 755"));
    assert!(logs[1].ends_with("Creating logs directory at: /srv/rustfs/logs"));
    assert!(logs[2].ends_with("Spawning command: /opt/app/binaries/rustfs"));
}

#[test]
fn launch_plan_defaults_to_local_logs_directory() {
    let mut reg = Registry::new();
    let c = config_with_data_path("data");
    let (r, _ems) =
        reg.launch_plan(&c, "/bin/rustfs", &Ok(unix_meta(0o755)), &None, Platform::OtherUnix);
    assert_eq!(r.unwrap().logs_dir, "logs");
}

#[test]
fn launch_plan_warns_on_non_executable_binary() {
    let mut reg = Registry::new();
    let c = config_with_data_path("/data");
    let (r, _ems) = reg.launch_plan(
        &c,
        "/bin/rustfs",
        &Ok(unix_meta(0o644)),
        &None,
        Platform::OtherUnix,
    );
    assert!(r.is_ok());
    let logs = reg.get_app_logs();
    assert!(logs[1].ends_with("WARNING: Binary is not executable"));
}

#[test]
fn launch_plan_fails_on_metadata_error() {
    let mut reg = Registry::new();
    let c = config_with_data_path("/data");
    let (r, _ems) = reg.launch_plan(
        &c,
        "/bin/rustfs",
        &Err("permission denied".to_string()),
        &None,
        Platform::OtherUnix,
    );
    assert_eq!(
        r.unwrap_err().message(),
        "Failed to read metadata for /bin/rustfs: permission denied"
    );
    assert!(reg.get_app_logs().is_empty());
}

#[test]
fn windows_check_rejects_non_regular_file() {
    let mut reg = Registry::new();
    let c = config_with_data_path("/data");
    let meta = FileMeta {
        mode: 0,
        size: 10,
        readonly: true,
        is_file: false,
        extension: Some("exe".to_string()),
    };
    let (r, _ems) = reg.launch_plan(&c, "C:/app/rustfs.exe", &Ok(meta), &None, Platform::Windows);
    assert_eq!(r.unwrap_err().message(), "Path is not a regular file");
    let logs = reg.get_app_logs();
    assert!(logs[0].ends_with("File size: 10 bytes"));
    assert!(logs[1].ends_with("WARNING: Binary file is read-only"));
}

#[test]
fn windows_check_warns_about_extensions() {
    let mut reg = Registry::new();
    let meta = FileMeta {
        mode: 0,
        size: 2048,
        readonly: false,
        is_file: true,
        extension: Some("bin".to_string()),
    };
    let (r, _ems) = reg.check_permissions("C:/app/rustfs.bin", &Ok(meta), Platform::Windows);
    assert!(r.is_ok());
    let logs = reg.get_app_logs();
    assert!(logs[0].ends_with("File size: 2048 bytes"));
    assert!(logs[1].ends_with("WARNING: File does not have .exe extension: bin"));
    assert!(logs[2].ends_with("Windows binary permissions check completed"));
}

#[test]
fn register_launch_tracks_child_and_reports_pid() {
    let mut reg = Registry::new();
    let (message, _ems) = reg.register_launch(7341);
    assert_eq!(message, "RustFS launched with PID: 7341");
    let app_logs = reg.get_app_logs();
    assert!(app_logs[0].ends_with("RustFS launched successfully with PID: 7341"));
    assert!(app_logs[1].ends_with("RustFS process registered with PID: 7341"));
    let proc_logs = reg.get_rustfs_logs();
    assert!(proc_logs[0].ends_with("RustFS process started, capturing output..."));
    let (taken, _em) = reg.terminate_rustfs_process();
    assert_eq!(taken.unwrap().pid, 7341);
}

#[test]
fn register_launch_emits_three_events_with_ui() {
    let mut reg = Registry::new();
    reg.set_app_handle();
    let (_message, ems) = reg.register_launch(9);
    assert_eq!(ems.len(), 3);
    assert_eq!(ems[0].channel, "app-log");
    assert_eq!(ems[1].channel, "process-log");
    assert_eq!(ems[2].channel, "app-log");
}

#[test]
fn diagnose_begin_resolves_default_binary() {
    let mut reg = Registry::new();
    let (r, _ems) = reg.diagnose_begin(&Ok("/nowhere".to_string()), Platform::MacOs);
    assert_eq!(
        r.unwrap_err().message(),
        "RustFS binary not found at /nowhere/binaries/rustfs-macos-aarch64"
    );
    let logs = reg.get_app_logs();
    assert!(logs[0].ends_with("Starting RustFS binary diagnosis..."));
}

#[test]
fn diagnose_verdict_follows_exit_status() {
    let mut reg = Registry::new();
    let ok_probe = HelpProbe {
        success: true,
        status: "exit status: 0".to_string(),
        stdout: "rustfs 1.0\nusage: rustfs ...".to_string(),
    };
    let (r, _ems) = reg.diagnose_verdict(&ok_probe);
    assert_eq!(r.unwrap(), "RustFS binary appears to be working");

    let bad_probe = HelpProbe {
        success: false,
        status: "exit status: 1".to_string(),
        stdout: String::new(),
    };
    let (r, _ems) = reg.diagnose_verdict(&bad_probe);
    assert_eq!(r.unwrap_err().message(), "RustFS binary failed with exit code: exit status: 1");
}

#[test]
fn diagnose_verdict_truncates_long_output() {
    let mut reg = Registry::new();
    let long: String = "x".repeat(300);
    let probe = HelpProbe { success: true, status: String::new(), stdout: long };
    reg.diagnose_verdict(&probe);
    let logs = reg.get_app_logs();
    let entry = logs.last().unwrap();
    let expected_tail: String = "x".repeat(200);
    assert!(entry.ends_with(&format!(
        "Binary --help stdout (first 200 chars): {}",
        expected_tail
    )));
    assert!(!entry.ends_with(&"x".repeat(201)));
}
