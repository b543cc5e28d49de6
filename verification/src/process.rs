//! The supervisor's control operations: validating a launch request,
//! resolving the server binary, checking its permissions, planning the
//! launch, registering the spawned child, and judging a diagnosis run.
//!
//! The filesystem reads, the spawn and the kill syscalls happen at the
//! caller's edge; every decision about their inputs and their outcomes is
//! made here, over plain values.

use vstd::prelude::*;

use crate::config::launch_args_seq;
use crate::config::RustFsConfig;
use crate::error::Error;
use crate::numfmt::dec_seq;
use crate::numfmt::lemma_dec_seq_digits;
use crate::numfmt::oct_seq;
use crate::numfmt::push_dec_u64;
use crate::registry::appended_list;
use crate::registry::registered_msg;
use crate::registry::ChildHandle;
use crate::registry::RUSTFS_LOG_CAPACITY;
use crate::registry::lemma_appended_list_concat;
use crate::registry::LogEmission;
use crate::registry::Registry;
use crate::registry::APP_LOG_CAPACITY;
use crate::sanitize::lemma_no_esc_escape_free;
use crate::sanitize::lemma_strip_escape_free_identity;
use crate::sanitize::strip_ansi;

verus! {

/// The platform family the launcher runs on; it decides the bundled
/// binary's name and which permission conventions apply.
#[derive(Clone, Copy, Debug, PartialEq, Eq, Structural)]
pub enum Platform {
    MacOs,
    Windows,
    OtherUnix,
}

impl Platform {
    /// Whether the platform uses Unix permission bits.
    pub open spec fn is_unix(self) -> bool {
        self != Platform::Windows
    }
}

/// The file metadata the permission checks read, gathered at the caller's
/// edge: Unix permission bits, size, the read-only flag, whether the path
/// is a regular file, and the lower-cased extension, if any.
pub struct FileMeta {
    /// The Unix permission bits of the file mode.
    pub mode: u32,
    /// The file size in bytes.
    pub size: u64,
    /// Whether the file is marked read-only.
    pub readonly: bool,
    /// Whether the path refers to a regular file.
    pub is_file: bool,
    /// The file name's extension, lower-cased; absent if it has none.
    pub extension: Option<String>,
}

/// Relies on `std::path::Path::exists`: whether the path refers to an
/// existing filesystem entity. The result depends on the state of the
/// filesystem, so nothing is promised of it.
#[verifier::external_body]
fn path_exists(p: &str) -> bool {
    std::path::Path::new(p).exists()
}

/// The bundled server binary's file name on each platform.
pub open spec fn binary_name_seq(p: Platform) -> Seq<char> {
    match p {
        Platform::MacOs => "rustfs-macos-aarch64"@,
        Platform::Windows => "rustfs-windows-x86_64.exe"@,
        Platform::OtherUnix => "rustfs"@,
    }
}

/// The default server binary location: the `binaries` directory beside
/// the running executable, holding the platform's binary name.
pub open spec fn default_binary_seq(exe_dir: Seq<char>, p: Platform) -> Seq<char> {
    exe_dir + "/binaries/"@ + binary_name_seq(p)
}

/// Builds the default server binary path for the given executable
/// directory.
pub fn default_binary_path(exe_dir: &str, platform: Platform) -> (r: String)
    ensures
        r@ == default_binary_seq(exe_dir@, platform),
{
    let mut r = exe_dir.to_owned();
    r.append("/binaries/");
    match platform {
        Platform::MacOs => r.append("rustfs-macos-aarch64"),
        Platform::Windows => r.append("rustfs-windows-x86_64.exe"),
        Platform::OtherUnix => r.append("rustfs"),
    }
    r
}

/// Checks a launch request against the inputs it must carry: rejects an
/// empty data path, and otherwise judges the data path by whether it
/// exists on the filesystem, as `data_path_exists` reports.
pub fn validate_config_with(config: &RustFsConfig, data_path_exists: bool) -> (r: Result<
    bool,
    Error,
>)
    ensures
        config.data_path@.len() == 0 ==> r == Err::<bool, Error>(Error::DataPathRequired),
        config.data_path@.len() > 0 && data_path_exists ==> r == Ok::<bool, Error>(true),
        config.data_path@.len() > 0 && !data_path_exists ==> (r matches Err(e) && e matches
            Error::DataPathNotExist(p) && p@ == config.data_path@),
{
    if config.data_path.as_str().unicode_len() == 0 {
        return Err(Error::DataPathRequired);
    }
    if !data_path_exists {
        return Err(Error::DataPathNotExist(config.data_path.clone()));
    }
    Ok(true)
}

/// Validates a launch request: fails with the required-path error on an
/// empty data path, with the does-not-exist error when the filesystem has
/// no such path, and succeeds otherwise.
pub fn validate_config(config: &RustFsConfig) -> (r: Result<bool, Error>)
    ensures
        config.data_path@.len() == 0 <==> r == Err::<bool, Error>(Error::DataPathRequired),
        config.data_path@.len() > 0 ==> r == Ok::<bool, Error>(true) || (r matches Err(e)
            && e matches Error::DataPathNotExist(p) && p@ == config.data_path@),
{
    let exists = path_exists(config.data_path.as_str());
    validate_config_with(config, exists)
}

/// The application-log note for a resolved default binary path.
pub open spec fn resolved_msg(path: Seq<char>) -> Seq<char> {
    "Resolved binary path: "@ + path
}

/// The application-log note for a file's Unix permission bits, in octal.
pub open spec fn mode_msg(path: Seq<char>, mode: int) -> Seq<char> {
    "File permissions for "@ + path + ": "@ + oct_seq(mode)
}

/// The warning for a binary without any execute bit.
pub open spec fn not_executable_msg() -> Seq<char> {
    "WARNING: Binary is not executable"@
}

/// The application-log note for a binary's size in bytes.
pub open spec fn size_msg(size: int) -> Seq<char> {
    "File size: "@ + dec_seq(size) + " bytes"@
}

/// The warning for a read-only binary file.
pub open spec fn readonly_msg() -> Seq<char> {
    "WARNING: Binary file is read-only"@
}

/// The warning for a binary whose extension is not `.exe`.
pub open spec fn bad_extension_msg(ext: Seq<char>) -> Seq<char> {
    "WARNING: File does not have .exe extension: "@ + ext
}

/// The warning for a binary file name without an extension.
pub open spec fn no_extension_msg() -> Seq<char> {
    "WARNING: File has no extension"@
}

/// The closing note of the non-Unix permission check.
pub open spec fn windows_check_done_msg() -> Seq<char> {
    "Windows binary permissions check completed"@
}

/// The error text for a binary path that is not a regular file.
pub open spec fn not_regular_file_text() -> Seq<char> {
    "Path is not a regular file"@
}

/// The application-log notes of the Unix permission check: the octal mode,
/// and a warning when no execute bit is set.
pub open spec fn unix_permission_msgs(path: Seq<char>, meta: FileMeta) -> Seq<Seq<char>> {
    seq![strip_ansi(mode_msg(path, meta.mode as int))] + (if meta.mode & 0o111 == 0 {
        seq![not_executable_msg()]
    } else {
        Seq::<Seq<char>>::empty()
    })
}

/// The opening application-log notes of the non-Unix permission check: the
/// file size, and a warning when the file is read-only.
pub open spec fn windows_prefix_msgs(meta: FileMeta) -> Seq<Seq<char>> {
    seq![size_msg(meta.size as int)] + (if meta.readonly {
        seq![readonly_msg()]
    } else {
        Seq::<Seq<char>>::empty()
    })
}

/// The extension notes of the non-Unix permission check.
pub open spec fn extension_msgs(meta: FileMeta) -> Seq<Seq<char>> {
    match meta.extension {
        Some(e) => if e@ == "exe"@ {
            Seq::<Seq<char>>::empty()
        } else {
            seq![strip_ansi(bad_extension_msg(e@))]
        },
        None => seq![no_extension_msg()],
    }
}

/// The full application-log notes of the non-Unix permission check on a
/// regular file.
pub open spec fn windows_permission_msgs(meta: FileMeta) -> Seq<Seq<char>> {
    windows_prefix_msgs(meta) + extension_msgs(meta) + seq![windows_check_done_msg()]
}

proof fn lemma_not_executable_msg_clean()
    ensures
        strip_ansi(not_executable_msg()) == not_executable_msg(),
{
    reveal_strlit("WARNING: Binary is not executable");
    lemma_no_esc_escape_free(not_executable_msg());
    lemma_strip_escape_free_identity(not_executable_msg());
}

proof fn lemma_size_msg_clean(size: int)
    requires
        size >= 0,
    ensures
        strip_ansi(size_msg(size)) == size_msg(size),
{
    reveal_strlit("File size: ");
    reveal_strlit(" bytes");
    lemma_dec_seq_digits(size);
    lemma_no_esc_escape_free(size_msg(size));
    lemma_strip_escape_free_identity(size_msg(size));
}

proof fn lemma_readonly_msg_clean()
    ensures
        strip_ansi(readonly_msg()) == readonly_msg(),
{
    reveal_strlit("WARNING: Binary file is read-only");
    lemma_no_esc_escape_free(readonly_msg());
    lemma_strip_escape_free_identity(readonly_msg());
}

proof fn lemma_no_extension_msg_clean()
    ensures
        strip_ansi(no_extension_msg()) == no_extension_msg(),
{
    reveal_strlit("WARNING: File has no extension");
    lemma_no_esc_escape_free(no_extension_msg());
    lemma_strip_escape_free_identity(no_extension_msg());
}

proof fn lemma_windows_check_done_msg_clean()
    ensures
        strip_ansi(windows_check_done_msg()) == windows_check_done_msg(),
{
    reveal_strlit("Windows binary permissions check completed");
    lemma_no_esc_escape_free(windows_check_done_msg());
    lemma_strip_escape_free_identity(windows_check_done_msg());
}

fn is_unix_exec(platform: Platform) -> (r: bool)
    ensures
        r == platform.is_unix(),
{
    match platform {
        Platform::Windows => false,
        _ => true,
    }
}

impl Registry {
    /// The permission check run on the server binary before it is used:
    /// on Unix platforms it notes the octal mode and warns when no execute
    /// bit is set; elsewhere it notes the size, warns about a read-only
    /// file or a missing or non-`.exe` extension, and rejects a path that
    /// is not a regular file. A failed metadata read fails the check.
    pub fn check_permissions(&mut self, path: &str, meta: &Result<FileMeta, String>, platform: Platform) -> (r: (
        Result<(), Error>,
        Vec<LogEmission>,
    ))
        requires
            old(self).wf(),
        ensures
            final(self).wf(),
            final(self).child() == old(self).child(),
            final(self).ui_ready() == old(self).ui_ready(),
            final(self).process_entries() == old(self).process_entries(),
            match meta {
                Err(e) => {
                    &&& r.0 matches Err(er) && er matches Error::Metadata(p, mm) && p@ == path@
                        && mm@ == e@
                    &&& final(self).app_entries() == old(self).app_entries()
                    &&& r.1@.len() == 0
                },
                Ok(m) => {
                    if platform.is_unix() {
                        &&& r.0 is Ok
                        &&& appended_list(
                            old(self).app_entries(),
                            final(self).app_entries(),
                            unix_permission_msgs(path@, *m),
                            APP_LOG_CAPACITY as nat,
                            old(self).ui_ready(),
                            "app-log"@,
                            r.1@,
                        )
                    } else if m.is_file {
                        &&& r.0 is Ok
                        &&& appended_list(
                            old(self).app_entries(),
                            final(self).app_entries(),
                            windows_permission_msgs(*m),
                            APP_LOG_CAPACITY as nat,
                            old(self).ui_ready(),
                            "app-log"@,
                            r.1@,
                        )
                    } else {
                        &&& r.0 matches Err(er) && er matches Error::Io(txt) && txt@
                            == not_regular_file_text()
                        &&& appended_list(
                            old(self).app_entries(),
                            final(self).app_entries(),
                            windows_prefix_msgs(*m),
                            APP_LOG_CAPACITY as nat,
                            old(self).ui_ready(),
                            "app-log"@,
                            r.1@,
                        )
                    }
                },
            },
    {
        let ghost ui = old(self).ui_ready();
        let ghost a0 = old(self).app_entries();
        let ghost ch = "app-log"@;
        let ghost cap = APP_LOG_CAPACITY as nat;
        let mut ems: Vec<LogEmission> = Vec::new();
        let m = match meta {
            Err(e) => {
                return (Err(Error::Metadata(path.to_owned(), e.clone())), ems);
            },
            Ok(m) => m,
        };
        if is_unix_exec(platform) {
            let mut msg = "File permissions for ".to_owned();
            msg.append(path);
            msg.append(": ");
            crate::numfmt::push_oct_u32(&mut msg, m.mode);
            proof {
                assert(msg@ == mode_msg(path@, m.mode as int));
            }
            self.add_app_log_into(msg, &mut ems);
            let ghost a1 = self.app_entries();
            let ghost e1 = ems@;
            proof {
                assert(e1.skip(0) =~= e1);
            }
            if m.mode & 0o111 == 0 {
                proof {
                    lemma_not_executable_msg_clean();
                }
                self.add_app_log_into("WARNING: Binary is not executable".to_owned(), &mut ems);
                proof {
                    let tail = ems@.skip(e1.len() as int);
                    lemma_appended_list_concat(a0, a1, self.app_entries(),
                        seq![strip_ansi(mode_msg(path@, m.mode as int))],
                        seq![not_executable_msg()], cap, ui, ch, e1, tail);
                    assert(e1 + tail =~= ems@);
                    assert(seq![strip_ansi(mode_msg(path@, m.mode as int))]
                        + seq![not_executable_msg()] =~= unix_permission_msgs(path@, *m));
                }
            } else {
                proof {
                    assert(seq![strip_ansi(mode_msg(path@, m.mode as int))] =~= unix_permission_msgs(
                        path@, *m));
                }
            }
            return (Ok(()), ems);
        }
        let mut msg = "File size: ".to_owned();
        push_dec_u64(&mut msg, m.size);
        msg.append(" bytes");
        proof {
            lemma_size_msg_clean(m.size as int);
            assert(msg@ == size_msg(m.size as int));
        }
        self.add_app_log_into(msg, &mut ems);
        let ghost mut msgs_done: Seq<Seq<char>> = seq![size_msg(m.size as int)];
        let ghost mut a_cur = self.app_entries();
        proof {
            assert(ems@.skip(0) =~= ems@);
            assert(appended_list(a0, a_cur, msgs_done, cap, ui, ch, ems@));
        }
        if m.readonly {
            let ghost eprev = ems@;
            let ghost aprev = a_cur;
            proof {
                lemma_readonly_msg_clean();
            }
            self.add_app_log_into("WARNING: Binary file is read-only".to_owned(), &mut ems);
            proof {
                let tail = ems@.skip(eprev.len() as int);
                lemma_appended_list_concat(a0, aprev, self.app_entries(), msgs_done,
                    seq![readonly_msg()], cap, ui, ch, eprev, tail);
                assert(eprev + tail =~= ems@);
                msgs_done = msgs_done + seq![readonly_msg()];
                a_cur = self.app_entries();
                assert(appended_list(a0, a_cur, msgs_done, cap, ui, ch, ems@));
            }
        }
        proof {
            assert(msgs_done =~= windows_prefix_msgs(*m));
        }
        if !m.is_file {
            return (Err(Error::Io("Path is not a regular file".to_owned())), ems);
        }
        let exe = "exe".to_owned();
        match &m.extension {
            Some(e) => {
                if !(*e == exe) {
                    let ghost eprev = ems@;
                    let ghost aprev = a_cur;
                    let mut warn = "WARNING: File does not have .exe extension: ".to_owned();
                    warn.append(e.as_str());
                    proof {
                        assert(warn@ == bad_extension_msg(e@));
                    }
                    self.add_app_log_into(warn, &mut ems);
                    proof {
                        let tail = ems@.skip(eprev.len() as int);
                        lemma_appended_list_concat(a0, aprev, self.app_entries(), msgs_done,
                            seq![strip_ansi(bad_extension_msg(e@))], cap, ui, ch, eprev, tail);
                        assert(eprev + tail =~= ems@);
                        msgs_done = msgs_done + seq![strip_ansi(bad_extension_msg(e@))];
                        a_cur = self.app_entries();
                        assert(appended_list(a0, a_cur, msgs_done, cap, ui, ch, ems@));
                    }
                }
            },
            None => {
                let ghost eprev = ems@;
                let ghost aprev = a_cur;
                proof {
                    lemma_no_extension_msg_clean();
                }
                self.add_app_log_into("WARNING: File has no extension".to_owned(), &mut ems);
                proof {
                    let tail = ems@.skip(eprev.len() as int);
                    lemma_appended_list_concat(a0, aprev, self.app_entries(), msgs_done,
                        seq![no_extension_msg()], cap, ui, ch, eprev, tail);
                    assert(eprev + tail =~= ems@);
                    msgs_done = msgs_done + seq![no_extension_msg()];
                    a_cur = self.app_entries();
                    assert(appended_list(a0, a_cur, msgs_done, cap, ui, ch, ems@));
                }
            },
        }
        proof {
            assert(msgs_done =~= windows_prefix_msgs(*m) + extension_msgs(*m));
        }
        let ghost eprev = ems@;
        let ghost aprev = a_cur;
        proof {
            lemma_windows_check_done_msg_clean();
        }
        self.add_app_log_into("Windows binary permissions check completed".to_owned(), &mut ems);
        proof {
            let tail = ems@.skip(eprev.len() as int);
            lemma_appended_list_concat(a0, aprev, self.app_entries(), msgs_done,
                seq![windows_check_done_msg()], cap, ui, ch, eprev, tail);
            assert(eprev + tail =~= ems@);
            assert(msgs_done + seq![windows_check_done_msg()] =~= windows_permission_msgs(*m));
        }
        (Ok(()), ems)
    }
}

/// The opening application-log note of a launch request.
pub open spec fn received_msg() -> Seq<char> {
    "Launch command received"@
}

/// The application-log summary of a launch request's inputs.
pub open spec fn config_summary_seq(c: &RustFsConfig) -> Seq<char> {
    "Config: data_path="@ + c.data_path@ + ", port="@ + (match c.port {
        Some(p) => dec_seq(p as int),
        None => "default"@,
    }) + ", host="@ + (match c.host {
        Some(h) => h@,
        None => "default"@,
    })
}

/// The two opening application-log notes of a launch request.
pub open spec fn begin_msgs(c: &RustFsConfig) -> Seq<Seq<char>> {
    seq![received_msg(), strip_ansi(config_summary_seq(c))]
}

/// The application-log note for the logs directory about to be created.
pub open spec fn creating_logs_msg(dir: Seq<char>) -> Seq<char> {
    "Creating logs directory at: "@ + dir
}

/// The application-log note for the command about to be spawned.
pub open spec fn spawning_msg(path: Seq<char>) -> Seq<char> {
    "Spawning command: "@ + path
}

/// The application-log note for a successful spawn.
pub open spec fn launched_msg(pid: int) -> Seq<char> {
    "RustFS launched successfully with PID: "@ + dec_seq(pid)
}

/// The child-process-log note that output capture begins.
pub open spec fn capture_msg() -> Seq<char> {
    "RustFS process started, capturing output..."@
}

/// The success message a launch returns to its caller.
pub open spec fn success_msg(pid: int) -> Seq<char> {
    "RustFS launched with PID: "@ + dec_seq(pid)
}

/// The opening application-log note of a diagnosis.
pub open spec fn diagnosis_start_msg() -> Seq<char> {
    "Starting RustFS binary diagnosis..."@
}

/// The application-log note before the binary is probed with `--help`.
pub open spec fn testing_msg(path: Seq<char>) -> Seq<char> {
    "Testing binary with --help: "@ + path
}

/// The application-log note carrying the probed binary's standard output,
/// cut to its first 200 characters.
pub open spec fn help_stdout_msg(prefix: Seq<char>) -> Seq<char> {
    "Binary --help stdout (first 200 chars): "@ + prefix
}

/// The first 200 characters of the probed binary's standard output.
pub open spec fn stdout_prefix(stdout: Seq<char>) -> Seq<char> {
    if stdout.len() <= 200 {
        stdout
    } else {
        stdout.take(200)
    }
}

/// The success message a diagnosis returns to its caller.
pub open spec fn diagnosis_ok_msg() -> Seq<char> {
    "RustFS binary appears to be working"@
}

/// The environment variable that points the child at its log directory.
pub open spec fn log_dir_env_key() -> Seq<char> {
    "RUSTFS_OBS_LOG_DIRECTORY"@
}

/// The logs directory created for the child: a `logs` directory beside
/// the data directory, or a local `logs` directory when the data path has
/// no parent.
pub open spec fn logs_dir_seq(data_parent: &Option<String>) -> Seq<char> {
    match data_parent {
        Some(p) => p@ + "/logs"@,
        None => "logs"@,
    }
}

/// The log notes of the permission check on the given platform.
pub open spec fn permission_msgs(path: Seq<char>, meta: FileMeta, platform: Platform) -> Seq<
    Seq<char>,
> {
    if platform.is_unix() {
        unix_permission_msgs(path, meta)
    } else if meta.is_file {
        windows_permission_msgs(meta)
    } else {
        windows_prefix_msgs(meta)
    }
}

/// The reply handed back over the command boundary for a completed
/// operation: whether it succeeded and its human-readable message.
#[derive(Debug)]
pub struct CommandResponse {
    /// Whether the operation succeeded.
    pub success: bool,
    /// The operation's human-readable message.
    pub message: String,
}

/// Everything a launch hands to the platform for the spawn: the resolved
/// binary, the logs directory to create, the environment variable that
/// names it, and the argument vector.
#[derive(Debug)]
pub struct LaunchPlan {
    /// The binary to spawn.
    pub binary_path: String,
    /// The logs directory to create before the spawn.
    pub logs_dir: String,
    /// The environment variable set to the logs directory.
    pub env_key: String,
    /// The arguments handed to the binary.
    pub args: Vec<String>,
}

/// The outcome of running the server binary with `--help` at the caller's
/// edge: whether it exited successfully, the rendered exit status, and the
/// captured standard output.
#[derive(Debug)]
pub struct HelpProbe {
    /// Whether the probed run exited with a success status.
    pub success: bool,
    /// The rendered exit status of the probed run.
    pub status: String,
    /// The probed run's captured standard output.
    pub stdout: String,
}

proof fn lemma_received_msg_clean()
    ensures
        strip_ansi(received_msg()) == received_msg(),
{
    reveal_strlit("Launch command received");
    lemma_no_esc_escape_free(received_msg());
    lemma_strip_escape_free_identity(received_msg());
}

proof fn lemma_launched_msg_clean(pid: int)
    requires
        pid >= 0,
    ensures
        strip_ansi(launched_msg(pid)) == launched_msg(pid),
{
    reveal_strlit("RustFS launched successfully with PID: ");
    lemma_dec_seq_digits(pid);
    lemma_no_esc_escape_free(launched_msg(pid));
    lemma_strip_escape_free_identity(launched_msg(pid));
}

proof fn lemma_capture_msg_clean()
    ensures
        strip_ansi(capture_msg()) == capture_msg(),
{
    reveal_strlit("RustFS process started, capturing output...");
    lemma_no_esc_escape_free(capture_msg());
    lemma_strip_escape_free_identity(capture_msg());
}

proof fn lemma_diagnosis_start_msg_clean()
    ensures
        strip_ansi(diagnosis_start_msg()) == diagnosis_start_msg(),
{
    reveal_strlit("Starting RustFS binary diagnosis...");
    lemma_no_esc_escape_free(diagnosis_start_msg());
    lemma_strip_escape_free_identity(diagnosis_start_msg());
}

/// Builds the application-log summary of a launch request's inputs.
fn build_config_summary(c: &RustFsConfig) -> (r: String)
    ensures
        r@ == config_summary_seq(c),
{
    let mut r = "Config: data_path=".to_owned();
    r.append(c.data_path.as_str());
    r.append(", port=");
    match c.port {
        Some(p) => push_dec_u64(&mut r, p as u64),
        None => r.append("default"),
    }
    r.append(", host=");
    match &c.host {
        Some(h) => r.append(h.as_str()),
        None => r.append("default"),
    }
    r
}

/// Builds the logs directory path for the given parent of the data path.
pub fn build_logs_dir(data_parent: &Option<String>) -> (r: String)
    ensures
        r@ == logs_dir_seq(data_parent),
{
    match data_parent {
        Some(p) => {
            let mut r = p.clone();
            r.append("/logs");
            r
        },
        None => "logs".to_owned(),
    }
}

impl Registry {
    /// The opening phase of a launch: notes the request and its inputs,
    /// re-rejects an empty data path before anything is spawned or
    /// created, and resolves the server binary: the explicit path when one
    /// is configured, else the platform's default location beside the
    /// running executable, which must exist on the filesystem.
    pub fn launch_begin(&mut self, config: &RustFsConfig, exe_dir: &Result<String, String>, platform: Platform) -> (r: (
        Result<String, Error>,
        Vec<LogEmission>,
    ))
        requires
            old(self).wf(),
        ensures
            final(self).wf(),
            final(self).child() == old(self).child(),
            final(self).ui_ready() == old(self).ui_ready(),
            final(self).process_entries() == old(self).process_entries(),
            config.data_path@.len() == 0 ==> r.0 == Err::<String, Error>(Error::DataPathRequired)
                && appended_list(
                old(self).app_entries(),
                final(self).app_entries(),
                begin_msgs(config),
                APP_LOG_CAPACITY as nat,
                old(self).ui_ready(),
                "app-log"@,
                r.1@,
            ),
            config.data_path@.len() > 0 ==> match config.binary_path {
                Some(p) => r.0 matches Ok(b) && b@ == p@ && appended_list(
                    old(self).app_entries(),
                    final(self).app_entries(),
                    begin_msgs(config),
                    APP_LOG_CAPACITY as nat,
                    old(self).ui_ready(),
                    "app-log"@,
                    r.1@,
                ),
                None => match exe_dir {
                    Ok(d) => {
                        &&& appended_list(
                            old(self).app_entries(),
                            final(self).app_entries(),
                            begin_msgs(config) + seq![
                                strip_ansi(resolved_msg(default_binary_seq(d@, platform))),
                            ],
                            APP_LOG_CAPACITY as nat,
                            old(self).ui_ready(),
                            "app-log"@,
                            r.1@,
                        )
                        &&& match r.0 {
                            Ok(b) => b@ == default_binary_seq(d@, platform),
                            Err(e) => e matches Error::BinaryNotFound(p2) && p2@
                                == default_binary_seq(d@, platform),
                        }
                    },
                    Err(e) => r.0 matches Err(er) && er matches Error::Io(m) && m@ == e@
                        && appended_list(
                        old(self).app_entries(),
                        final(self).app_entries(),
                        begin_msgs(config),
                        APP_LOG_CAPACITY as nat,
                        old(self).ui_ready(),
                        "app-log"@,
                        r.1@,
                    ),
                },
            },
    {
        let ghost ui = old(self).ui_ready();
        let ghost a0 = old(self).app_entries();
        let ghost ch = "app-log"@;
        let ghost cap = APP_LOG_CAPACITY as nat;
        let mut ems: Vec<LogEmission> = Vec::new();
        proof {
            lemma_received_msg_clean();
        }
        self.add_app_log_into("Launch command received".to_owned(), &mut ems);
        let ghost a1 = self.app_entries();
        let ghost e1 = ems@;
        proof {
            assert(e1.skip(0) =~= e1);
        }
        let summary = build_config_summary(config);
        self.add_app_log_into(summary, &mut ems);
        let ghost a2 = self.app_entries();
        let ghost e2 = ems@;
        proof {
            let tail = e2.skip(e1.len() as int);
            lemma_appended_list_concat(a0, a1, a2, seq![received_msg()],
                seq![strip_ansi(config_summary_seq(config))], cap, ui, ch, e1, tail);
            assert(e1 + tail =~= e2);
            assert(seq![received_msg()] + seq![strip_ansi(config_summary_seq(config))]
                =~= begin_msgs(config));
        }
        if config.data_path.as_str().unicode_len() == 0 {
            return (Err(Error::DataPathRequired), ems);
        }
        match &config.binary_path {
            Some(p) => (Ok(p.clone()), ems),
            None => match exe_dir {
                Ok(d) => {
                    let path = default_binary_path(d.as_str(), platform);
                    let mut msg = "Resolved binary path: ".to_owned();
                    msg.append(path.as_str());
                    proof {
                        assert(msg@ == resolved_msg(path@));
                    }
                    self.add_app_log_into(msg, &mut ems);
                    proof {
                        let tail = ems@.skip(e2.len() as int);
                        lemma_appended_list_concat(a0, a2, self.app_entries(),
                            begin_msgs(config), seq![strip_ansi(resolved_msg(path@))], cap, ui,
                            ch, e2, tail);
                        assert(e2 + tail =~= ems@);
                    }
                    if path_exists(path.as_str()) {
                        (Ok(path), ems)
                    } else {
                        (Err(Error::BinaryNotFound(path)), ems)
                    }
                },
                Err(e) => (Err(Error::Io(e.clone())), ems),
            },
        }
    }

    /// The planning phase of a launch, after the binary is resolved:
    /// checks the binary's permissions, decides the logs directory, and
    /// assembles everything the spawn needs: environment, arguments, and
    /// the paths involved.
    pub fn launch_plan(&mut self, config: &RustFsConfig, binary_path: &str, meta: &Result<FileMeta, String>, data_parent: &Option<String>, platform: Platform) -> (r: (
        Result<LaunchPlan, Error>,
        Vec<LogEmission>,
    ))
        requires
            old(self).wf(),
        ensures
            final(self).wf(),
            final(self).child() == old(self).child(),
            final(self).ui_ready() == old(self).ui_ready(),
            final(self).process_entries() == old(self).process_entries(),
            match meta {
                Err(e) => {
                    &&& r.0 matches Err(er) && er matches Error::Metadata(p, mm) && p@
                        == binary_path@ && mm@ == e@
                    &&& final(self).app_entries() == old(self).app_entries()
                    &&& r.1@.len() == 0
                },
                Ok(m) => {
                    if !platform.is_unix() && !m.is_file {
                        &&& r.0 matches Err(er) && er matches Error::Io(txt) && txt@
                            == not_regular_file_text()
                        &&& appended_list(
                            old(self).app_entries(),
                            final(self).app_entries(),
                            windows_prefix_msgs(*m),
                            APP_LOG_CAPACITY as nat,
                            old(self).ui_ready(),
                            "app-log"@,
                            r.1@,
                        )
                    } else {
                        &&& r.0 matches Ok(plan) && plan.binary_path@ == binary_path@
                            && plan.logs_dir@ == logs_dir_seq(data_parent) && plan.env_key@
                            == log_dir_env_key() && plan.args@.map_values(|s: String| s@)
                            == launch_args_seq(config)
                        &&& appended_list(
                            old(self).app_entries(),
                            final(self).app_entries(),
                            permission_msgs(binary_path@, *m, platform) + seq![
                                strip_ansi(creating_logs_msg(logs_dir_seq(data_parent))),
                                strip_ansi(spawning_msg(binary_path@)),
                            ],
                            APP_LOG_CAPACITY as nat,
                            old(self).ui_ready(),
                            "app-log"@,
                            r.1@,
                        )
                    }
                },
            },
    {
        let ghost ui = old(self).ui_ready();
        let ghost a0 = old(self).app_entries();
        let ghost ch = "app-log"@;
        let ghost cap = APP_LOG_CAPACITY as nat;
        let (perm, mut ems) = self.check_permissions(binary_path, meta, platform);
        let ghost a1 = self.app_entries();
        let ghost e1 = ems@;
        match perm {
            Err(er) => {
                return (Err(er), ems);
            },
            Ok(_) => {},
        }
        let logs_dir = build_logs_dir(data_parent);
        let mut msg = "Creating logs directory at: ".to_owned();
        msg.append(logs_dir.as_str());
        proof {
            assert(msg@ == creating_logs_msg(logs_dir@));
        }
        self.add_app_log_into(msg, &mut ems);
        let ghost a2 = self.app_entries();
        let ghost e2 = ems@;
        let ghost pmsgs = permission_msgs(binary_path@, meta->Ok_0, platform);
        proof {
            let tail = e2.skip(e1.len() as int);
            lemma_appended_list_concat(a0, a1, a2, pmsgs,
                seq![strip_ansi(creating_logs_msg(logs_dir@))], cap, ui, ch, e1, tail);
            assert(e1 + tail =~= e2);
        }
        let mut msg2 = "Spawning command: ".to_owned();
        msg2.append(binary_path);
        proof {
            assert(msg2@ == spawning_msg(binary_path@));
        }
        self.add_app_log_into(msg2, &mut ems);
        proof {
            let tail = ems@.skip(e2.len() as int);
            lemma_appended_list_concat(a0, a2, self.app_entries(),
                pmsgs + seq![strip_ansi(creating_logs_msg(logs_dir@))],
                seq![strip_ansi(spawning_msg(binary_path@))], cap, ui, ch, e2, tail);
            assert(e2 + tail =~= ems@);
            assert((pmsgs + seq![strip_ansi(creating_logs_msg(logs_dir@))]) + seq![
                strip_ansi(spawning_msg(binary_path@)),
            ] =~= pmsgs + seq![
                strip_ansi(creating_logs_msg(logs_dir_seq(data_parent))),
                strip_ansi(spawning_msg(binary_path@)),
            ]);
        }
        let plan = LaunchPlan {
            binary_path: binary_path.to_owned(),
            logs_dir,
            env_key: "RUSTFS_OBS_LOG_DIRECTORY".to_owned(),
            args: crate::config::build_launch_args(config),
        };
        (Ok(plan), ems)
    }

    /// The closing phase of a successful spawn: notes the launch in both
    /// logs, registers the child handle, and returns the success message
    /// carrying the process identifier.
    pub fn register_launch(&mut self, pid: u32) -> (r: (String, Vec<LogEmission>))
        requires
            old(self).wf(),
        ensures
            final(self).wf(),
            final(self).ui_ready() == old(self).ui_ready(),
            final(self).child() == (Some(ChildHandle { pid })),
            r.0@ == success_msg(pid as int),
            appended_list(
                old(self).process_entries(),
                final(self).process_entries(),
                seq![capture_msg()],
                RUSTFS_LOG_CAPACITY as nat,
                old(self).ui_ready(),
                "process-log"@,
                if old(self).ui_ready() {
                    seq![r.1@[1]]
                } else {
                    Seq::<LogEmission>::empty()
                },
            ),
            appended_list(
                old(self).app_entries(),
                final(self).app_entries(),
                seq![launched_msg(pid as int), registered_msg(pid as int)],
                APP_LOG_CAPACITY as nat,
                old(self).ui_ready(),
                "app-log"@,
                if old(self).ui_ready() {
                    seq![r.1@[0], r.1@[2]]
                } else {
                    Seq::<LogEmission>::empty()
                },
            ),
            old(self).ui_ready() ==> r.1@.len() == 3,
            !old(self).ui_ready() ==> r.1@.len() == 0,
    {
        let ghost ui = old(self).ui_ready();
        let ghost a0 = old(self).app_entries();
        let ghost p0 = old(self).process_entries();
        let ghost ch = "app-log"@;
        let ghost cap = APP_LOG_CAPACITY as nat;
        let mut ems: Vec<LogEmission> = Vec::new();
        let mut msg = "RustFS launched successfully with PID: ".to_owned();
        push_dec_u64(&mut msg, pid as u64);
        proof {
            lemma_launched_msg_clean(pid as int);
        }
        self.add_app_log_into(msg, &mut ems);
        let ghost a1 = self.app_entries();
        let ghost e1 = ems@;
        proof {
            assert(e1.skip(0) =~= e1);
            lemma_capture_msg_clean();
        }
        self.add_rustfs_log_into("RustFS process started, capturing output...".to_owned(),
            &mut ems);
        let ghost e2 = ems@;
        let ghost ptail = e2.skip(e1.len() as int);
        let em3 = self.set_rustfs_process(ChildHandle { pid });
        let ghost a3 = self.app_entries();
        match em3 {
            Some(em) => {
                ems.push(em);
            },
            None => {},
        }
        proof {
            crate::registry::lemma_appended_one_list(a1, a3, registered_msg(pid as int), cap, ui,
                ch, em3);
            let tail3 = ems@.skip(e2.len() as int);
            assert(tail3 =~= crate::registry::opt_emission_seq(em3));
            lemma_appended_list_concat(a0, a1, a3, seq![launched_msg(pid as int)],
                seq![registered_msg(pid as int)], cap, ui, ch, e1, tail3);
            assert(seq![launched_msg(pid as int)] + seq![registered_msg(pid as int)] =~= seq![
                launched_msg(pid as int),
                registered_msg(pid as int),
            ]);
            if ui {
                assert(e1 + tail3 =~= seq![ems@[0], ems@[2]]);
                assert(ptail =~= seq![ems@[1]]);
            } else {
                assert(e1 + tail3 =~= Seq::<LogEmission>::empty());
            }
        }
        let mut smsg = "RustFS launched with PID: ".to_owned();
        push_dec_u64(&mut smsg, pid as u64);
        (smsg, ems)
    }
}

impl Registry {
    /// The opening phase of a diagnosis: notes its start and resolves the
    /// platform's default server binary location beside the running
    /// executable, which must exist on the filesystem.
    pub fn diagnose_begin(&mut self, exe_dir: &Result<String, String>, platform: Platform) -> (r: (
        Result<String, Error>,
        Vec<LogEmission>,
    ))
        requires
            old(self).wf(),
        ensures
            final(self).wf(),
            final(self).child() == old(self).child(),
            final(self).ui_ready() == old(self).ui_ready(),
            final(self).process_entries() == old(self).process_entries(),
            match exe_dir {
                Ok(d) => {
                    &&& appended_list(
                        old(self).app_entries(),
                        final(self).app_entries(),
                        seq![
                            diagnosis_start_msg(),
                            strip_ansi(resolved_msg(default_binary_seq(d@, platform))),
                        ],
                        APP_LOG_CAPACITY as nat,
                        old(self).ui_ready(),
                        "app-log"@,
                        r.1@,
                    )
                    &&& match r.0 {
                        Ok(b) => b@ == default_binary_seq(d@, platform),
                        Err(e) => e matches Error::BinaryNotFound(p2) && p2@
                            == default_binary_seq(d@, platform),
                    }
                },
                Err(e) => r.0 matches Err(er) && er matches Error::Io(m) && m@ == e@
                    && appended_list(
                    old(self).app_entries(),
                    final(self).app_entries(),
                    seq![diagnosis_start_msg()],
                    APP_LOG_CAPACITY as nat,
                    old(self).ui_ready(),
                    "app-log"@,
                    r.1@,
                ),
            },
    {
        let ghost ui = old(self).ui_ready();
        let ghost a0 = old(self).app_entries();
        let ghost ch = "app-log"@;
        let ghost cap = APP_LOG_CAPACITY as nat;
        let mut ems: Vec<LogEmission> = Vec::new();
        proof {
            lemma_diagnosis_start_msg_clean();
        }
        self.add_app_log_into("Starting RustFS binary diagnosis...".to_owned(), &mut ems);
        let ghost a1 = self.app_entries();
        let ghost e1 = ems@;
        proof {
            assert(e1.skip(0) =~= e1);
        }
        match exe_dir {
            Ok(d) => {
                let path = default_binary_path(d.as_str(), platform);
                let mut msg = "Resolved binary path: ".to_owned();
                msg.append(path.as_str());
                proof {
                    assert(msg@ == resolved_msg(path@));
                }
                self.add_app_log_into(msg, &mut ems);
                proof {
                    let tail = ems@.skip(e1.len() as int);
                    lemma_appended_list_concat(a0, a1, self.app_entries(),
                        seq![diagnosis_start_msg()], seq![strip_ansi(resolved_msg(path@))], cap,
                        ui, ch, e1, tail);
                    assert(e1 + tail =~= ems@);
                    assert(seq![diagnosis_start_msg()] + seq![strip_ansi(resolved_msg(path@))]
                        =~= seq![
                        diagnosis_start_msg(),
                        strip_ansi(resolved_msg(default_binary_seq(d@, platform))),
                    ]);
                }
                if path_exists(path.as_str()) {
                    (Ok(path), ems)
                } else {
                    (Err(Error::BinaryNotFound(path)), ems)
                }
            },
            Err(e) => (Err(Error::Io(e.clone())), ems),
        }
    }

    /// The middle phase of a diagnosis: checks the binary's permissions
    /// and notes the `--help` probe about to run.
    pub fn diagnose_check(&mut self, binary_path: &str, meta: &Result<FileMeta, String>, platform: Platform) -> (r: (
        Result<(), Error>,
        Vec<LogEmission>,
    ))
        requires
            old(self).wf(),
        ensures
            final(self).wf(),
            final(self).child() == old(self).child(),
            final(self).ui_ready() == old(self).ui_ready(),
            final(self).process_entries() == old(self).process_entries(),
            match meta {
                Err(e) => {
                    &&& r.0 matches Err(er) && er matches Error::Metadata(p, mm) && p@
                        == binary_path@ && mm@ == e@
                    &&& final(self).app_entries() == old(self).app_entries()
                    &&& r.1@.len() == 0
                },
                Ok(m) => {
                    if !platform.is_unix() && !m.is_file {
                        &&& r.0 matches Err(er) && er matches Error::Io(txt) && txt@
                            == not_regular_file_text()
                        &&& appended_list(
                            old(self).app_entries(),
                            final(self).app_entries(),
                            windows_prefix_msgs(*m),
                            APP_LOG_CAPACITY as nat,
                            old(self).ui_ready(),
                            "app-log"@,
                            r.1@,
                        )
                    } else {
                        &&& r.0 is Ok
                        &&& appended_list(
                            old(self).app_entries(),
                            final(self).app_entries(),
                            permission_msgs(binary_path@, *m, platform) + seq![
                                strip_ansi(testing_msg(binary_path@)),
                            ],
                            APP_LOG_CAPACITY as nat,
                            old(self).ui_ready(),
                            "app-log"@,
                            r.1@,
                        )
                    }
                },
            },
    {
        let ghost ui = old(self).ui_ready();
        let ghost a0 = old(self).app_entries();
        let ghost ch = "app-log"@;
        let ghost cap = APP_LOG_CAPACITY as nat;
        let (perm, mut ems) = self.check_permissions(binary_path, meta, platform);
        let ghost a1 = self.app_entries();
        let ghost e1 = ems@;
        match perm {
            Err(er) => {
                return (Err(er), ems);
            },
            Ok(_) => {},
        }
        let mut msg = "Testing binary with --help: ".to_owned();
        msg.append(binary_path);
        proof {
            assert(msg@ == testing_msg(binary_path@));
        }
        self.add_app_log_into(msg, &mut ems);
        proof {
            let tail = ems@.skip(e1.len() as int);
            lemma_appended_list_concat(a0, a1, self.app_entries(),
                permission_msgs(binary_path@, meta->Ok_0, platform),
                seq![strip_ansi(testing_msg(binary_path@))], cap, ui, ch, e1, tail);
            assert(e1 + tail =~= ems@);
        }
        (Ok(()), ems)
    }

    /// The verdict of a diagnosis: notes the probe's captured standard
    /// output, cut to its first 200 characters, and succeeds exactly when
    /// the probed run exited successfully.
    pub fn diagnose_verdict(&mut self, probe: &HelpProbe) -> (r: (
        Result<String, Error>,
        Vec<LogEmission>,
    ))
        requires
            old(self).wf(),
        ensures
            final(self).wf(),
            final(self).child() == old(self).child(),
            final(self).ui_ready() == old(self).ui_ready(),
            final(self).process_entries() == old(self).process_entries(),
            appended_list(
                old(self).app_entries(),
                final(self).app_entries(),
                seq![strip_ansi(help_stdout_msg(stdout_prefix(probe.stdout@)))],
                APP_LOG_CAPACITY as nat,
                old(self).ui_ready(),
                "app-log"@,
                r.1@,
            ),
            probe.success ==> (r.0 matches Ok(s) && s@ == diagnosis_ok_msg()),
            !probe.success ==> (r.0 matches Err(e) && e matches Error::BinaryFailed(st) && st@
                == probe.status@),
    {
        let mut ems: Vec<LogEmission> = Vec::new();
        let mut msg = "Binary --help stdout (first 200 chars): ".to_owned();
        let prefix = crate::strutil::take_chars(probe.stdout.as_str(), 200);
        msg.append(prefix.as_str());
        proof {
            assert(msg@ == help_stdout_msg(stdout_prefix(probe.stdout@)));
        }
        self.add_app_log_into(msg, &mut ems);
        proof {
            assert(ems@.skip(0) =~= ems@);
        }
        if probe.success {
            (Ok("RustFS binary appears to be working".to_owned()), ems)
        } else {
            (Err(Error::BinaryFailed(probe.status.clone())), ems)
        }
    }
}

} // verus!
