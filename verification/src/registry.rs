//! The process-wide registry: the two log buffers, the tracked child
//! handle, and the UI surface availability, with the append-and-broadcast
//! and termination rules of the supervisor.
//!
//! The registry is an explicitly constructed object; the caller owning the
//! event loop keeps it behind its own synchronisation and performs the
//! platform effects (window events, kill signals) that the methods here
//! decide and hand back as plain values.

use vstd::prelude::*;

use crate::logbuf::push_evict;
use crate::logbuf::stamped_entry;
use crate::logbuf::LogBuffer;
use crate::numfmt::dec_seq;
use crate::numfmt::push_dec_u64;
use crate::sanitize::lemma_no_esc_escape_free;
use crate::sanitize::lemma_strip_escape_free_identity;
use crate::sanitize::strip_ansi;

verus! {

/// The maximum number of retained application-log entries.
pub const APP_LOG_CAPACITY: usize = 100;

/// The maximum number of retained child-process-log entries.
pub const RUSTFS_LOG_CAPACITY: usize = 1000;

/// The reference to a launched child process that the registry tracks:
/// its process identifier. The operating-system handle itself stays with
/// the caller that spawned the child and performs signals on it.
#[derive(Clone, Copy, Debug, PartialEq, Eq, Structural)]
pub struct ChildHandle {
    /// The child's process identifier.
    pub pid: u32,
}

/// One event to push to the UI surface: a channel name and the formatted
/// log entry it carries.
pub struct LogEmission {
    /// The event channel, named after the log that produced the entry.
    pub channel: String,
    /// The formatted log entry carried as the event payload.
    pub entry: String,
}

/// Which output stream of the child a captured line came from.
#[derive(Clone, Copy, Debug, PartialEq, Eq, Structural)]
pub enum StreamKind {
    Stdout,
    Stderr,
}

/// One log was extended by one stamped entry for the cleaned message
/// `msg`, and `r` is the matching broadcast: the entry itself on `channel`
/// when a UI surface is registered, and nothing otherwise.
pub open spec fn appended_one(
    pre: Seq<Seq<char>>,
    post: Seq<Seq<char>>,
    msg: Seq<char>,
    cap: nat,
    ui: bool,
    channel: Seq<char>,
    r: Option<LogEmission>,
) -> bool {
    exists|e: Seq<char>|
        {
            &&& #[trigger] stamped_entry(e, msg)
            &&& post == push_evict(pre, e, cap)
            &&& match r {
                Some(em) => ui && em.channel@ == channel && em.entry@ == e,
                None => !ui,
            }
        }
}

/// The stream tag and the line, as recorded in the child-process log.
pub open spec fn tagged_line(stream: StreamKind, line: Seq<char>) -> Seq<char> {
    (match stream {
        StreamKind::Stdout => "[STDOUT] "@,
        StreamKind::Stderr => "[STDERR] "@,
    }) + line
}

/// The application-log note for a newly registered child.
pub open spec fn registered_msg(pid: int) -> Seq<char> {
    "RustFS process registered with PID: "@ + dec_seq(pid)
}

/// The application-log note for the start of a termination.
pub open spec fn terminating_msg(pid: int) -> Seq<char> {
    "Terminating RustFS process with PID: "@ + dec_seq(pid)
}

/// The application-log note for a termination request with no child.
pub open spec fn no_process_msg() -> Seq<char> {
    "No RustFS process to terminate"@
}

/// The application-log note for an accepted kill signal.
pub open spec fn terminated_msg() -> Seq<char> {
    "RustFS process terminated successfully"@
}

/// The application-log note for a refused kill signal.
pub open spec fn terminate_failed_msg(err: Seq<char>) -> Seq<char> {
    "Failed to terminate RustFS process: "@ + err
}

/// Process-lifetime shared state: the application log, the child-process
/// log, the tracked child handle, and whether a live UI surface is
/// registered.
pub struct Registry {
    app_log: LogBuffer,
    process_log: LogBuffer,
    current_child: Option<ChildHandle>,
    ui_ready: bool,
}

impl Registry {
    /// The retained application-log entries, oldest first.
    pub closed spec fn app_entries(&self) -> Seq<Seq<char>> {
        self.app_log@
    }

    /// The retained child-process-log entries, oldest first.
    pub closed spec fn process_entries(&self) -> Seq<Seq<char>> {
        self.process_log@
    }

    /// The tracked child handle, if a child is tracked.
    pub closed spec fn child(&self) -> Option<ChildHandle> {
        self.current_child
    }

    /// Whether a live UI surface is registered.
    pub closed spec fn ui_ready(&self) -> bool {
        self.ui_ready
    }

    /// The capacity bounds both buffers maintain after every operation.
    pub closed spec fn wf(&self) -> bool {
        &&& self.app_log.wf()
        &&& self.app_log.cap() == APP_LOG_CAPACITY as nat
        &&& self.process_log.wf()
        &&& self.process_log.cap() == RUSTFS_LOG_CAPACITY as nat
    }

    /// A fresh registry: both logs empty, no child tracked, no UI surface.
    pub fn new() -> (r: Registry)
        ensures
            r.wf(),
            r.app_entries() == Seq::<Seq<char>>::empty(),
            r.process_entries() == Seq::<Seq<char>>::empty(),
            r.child() is None,
            !r.ui_ready(),
    {
        Registry {
            app_log: LogBuffer::new(APP_LOG_CAPACITY),
            process_log: LogBuffer::new(RUSTFS_LOG_CAPACITY),
            current_child: None,
            ui_ready: false,
        }
    }

    /// Records that the main UI window is available; entries appended from
    /// now on are broadcast to it.
    pub fn set_app_handle(&mut self)
        requires
            old(self).wf(),
        ensures
            final(self).wf(),
            final(self).ui_ready(),
            final(self).app_entries() == old(self).app_entries(),
            final(self).process_entries() == old(self).process_entries(),
            final(self).child() == old(self).child(),
    {
        self.ui_ready = true;
    }

    /// The broadcast for one entry: the entry on the named channel if a UI
    /// surface is registered, and nothing otherwise — never an error.
    pub fn emit_log(&self, event_name: &str, log_entry: String) -> (r: Option<LogEmission>)
        ensures
            r is Some <==> self.ui_ready(),
            r matches Some(em) ==> em.channel@ == event_name@ && em.entry@ == log_entry@,
    {
        if self.ui_ready {
            Some(LogEmission { channel: event_name.to_owned(), entry: log_entry })
        } else {
            None
        }
    }

    /// Cleans, stamps and appends one message to the application log and
    /// returns the matching broadcast.
    pub fn add_app_log(&mut self, message: String) -> (r: Option<LogEmission>)
        requires
            old(self).wf(),
        ensures
            final(self).wf(),
            final(self).child() == old(self).child(),
            final(self).ui_ready() == old(self).ui_ready(),
            final(self).process_entries() == old(self).process_entries(),
            appended_one(
                old(self).app_entries(),
                final(self).app_entries(),
                strip_ansi(message@),
                APP_LOG_CAPACITY as nat,
                old(self).ui_ready(),
                "app-log"@,
                r,
            ),
    {
        let entry = self.app_log.append(message.as_str());
        let ghost e = entry@;
        let r = self.emit_log("app-log", entry);
        proof {
            assert(stamped_entry(e, strip_ansi(message@)));
        }
        r
    }

    /// Cleans, stamps and appends one message to the child-process log and
    /// returns the matching broadcast.
    pub fn add_rustfs_log(&mut self, message: String) -> (r: Option<LogEmission>)
        requires
            old(self).wf(),
        ensures
            final(self).wf(),
            final(self).child() == old(self).child(),
            final(self).ui_ready() == old(self).ui_ready(),
            final(self).app_entries() == old(self).app_entries(),
            appended_one(
                old(self).process_entries(),
                final(self).process_entries(),
                strip_ansi(message@),
                RUSTFS_LOG_CAPACITY as nat,
                old(self).ui_ready(),
                "process-log"@,
                r,
            ),
    {
        let entry = self.process_log.append(message.as_str());
        let ghost e = entry@;
        let r = self.emit_log("process-log", entry);
        proof {
            assert(stamped_entry(e, strip_ansi(message@)));
        }
        r
    }

    /// A copy of the retained application-log entries, oldest first.
    pub fn get_app_logs(&self) -> (r: Vec<String>)
        ensures
            r@.map_values(|e: String| e@) == self.app_entries(),
    {
        self.app_log.snapshot()
    }

    /// A copy of the retained child-process-log entries, oldest first.
    pub fn get_rustfs_logs(&self) -> (r: Vec<String>)
        ensures
            r@.map_values(|e: String| e@) == self.process_entries(),
    {
        self.process_log.snapshot()
    }

    /// One captured line of the child's output: empty lines are discarded;
    /// others are tagged with their stream and appended to the
    /// child-process log.
    pub fn record_output_line(&mut self, stream: StreamKind, line: &str) -> (r: Option<
        LogEmission,
    >)
        requires
            old(self).wf(),
        ensures
            final(self).wf(),
            final(self).child() == old(self).child(),
            final(self).ui_ready() == old(self).ui_ready(),
            final(self).app_entries() == old(self).app_entries(),
            line@.len() == 0 ==> final(self).process_entries() == old(self).process_entries()
                && r is None,
            line@.len() > 0 ==> appended_one(
                old(self).process_entries(),
                final(self).process_entries(),
                strip_ansi(tagged_line(stream, line@)),
                RUSTFS_LOG_CAPACITY as nat,
                old(self).ui_ready(),
                "process-log"@,
                r,
            ),
    {
        if line.unicode_len() == 0 {
            return None;
        }
        let mut message: String = match stream {
            StreamKind::Stdout => "[STDOUT] ".to_owned(),
            StreamKind::Stderr => "[STDERR] ".to_owned(),
        };
        message.append(line);
        proof {
            assert(message@ == tagged_line(stream, line@));
        }
        self.add_rustfs_log(message)
    }

    /// Registers a launched child, replacing any previously tracked handle
    /// without terminating it, and notes the registration in the
    /// application log.
    pub fn set_rustfs_process(&mut self, process: ChildHandle) -> (r: Option<LogEmission>)
        requires
            old(self).wf(),
        ensures
            final(self).wf(),
            final(self).child() == Some(process),
            final(self).ui_ready() == old(self).ui_ready(),
            final(self).process_entries() == old(self).process_entries(),
            appended_one(
                old(self).app_entries(),
                final(self).app_entries(),
                registered_msg(process.pid as int),
                APP_LOG_CAPACITY as nat,
                old(self).ui_ready(),
                "app-log"@,
                r,
            ),
    {
        let pid = process.pid;
        self.current_child = Some(process);
        let mut message = "RustFS process registered with PID: ".to_owned();
        push_dec_u64(&mut message, pid as u64);
        proof {
            lemma_registered_msg_clean(pid as int);
        }
        self.add_app_log(message)
    }

    /// Takes the tracked child handle for termination. With a child
    /// tracked, clears the slot, notes the termination start, and returns
    /// the handle so the caller can signal it; with none, a no-op that
    /// appends exactly one entry noting so.
    pub fn terminate_rustfs_process(&mut self) -> (r: (Option<ChildHandle>, Option<LogEmission>))
        requires
            old(self).wf(),
        ensures
            final(self).wf(),
            final(self).child() is None,
            final(self).ui_ready() == old(self).ui_ready(),
            final(self).process_entries() == old(self).process_entries(),
            r.0 == old(self).child(),
            match old(self).child() {
                Some(h) => appended_one(
                    old(self).app_entries(),
                    final(self).app_entries(),
                    terminating_msg(h.pid as int),
                    APP_LOG_CAPACITY as nat,
                    old(self).ui_ready(),
                    "app-log"@,
                    r.1,
                ),
                None => appended_one(
                    old(self).app_entries(),
                    final(self).app_entries(),
                    no_process_msg(),
                    APP_LOG_CAPACITY as nat,
                    old(self).ui_ready(),
                    "app-log"@,
                    r.1,
                ),
            },
    {
        let taken = self.current_child;
        self.current_child = None;
        match taken {
            Some(h) => {
                let mut message = "Terminating RustFS process with PID: ".to_owned();
                push_dec_u64(&mut message, h.pid as u64);
                proof {
                    lemma_terminating_msg_clean(h.pid as int);
                }
                let em = self.add_app_log(message);
                (taken, em)
            },
            None => {
                proof {
                    reveal_strlit("No RustFS process to terminate");
                    lemma_no_esc_escape_free(no_process_msg());
                    lemma_strip_escape_free_identity(no_process_msg());
                }
                let em = self.add_app_log("No RustFS process to terminate".to_owned());
                (taken, em)
            },
        }
    }

    /// Appends one message to the application log and collects the
    /// broadcast, if one was produced, at the end of `ems`.
    pub fn add_app_log_into(&mut self, message: String, ems: &mut Vec<LogEmission>)
        requires
            old(self).wf(),
        ensures
            final(self).wf(),
            final(self).child() == old(self).child(),
            final(self).ui_ready() == old(self).ui_ready(),
            final(self).process_entries() == old(self).process_entries(),
            final(ems)@.len() >= old(ems)@.len(),
            final(ems)@.take(old(ems)@.len() as int) == old(ems)@,
            appended_list(
                old(self).app_entries(),
                final(self).app_entries(),
                seq![strip_ansi(message@)],
                APP_LOG_CAPACITY as nat,
                old(self).ui_ready(),
                "app-log"@,
                final(ems)@.skip(old(ems)@.len() as int),
            ),
    {
        let ghost pre_ems = ems@;
        let ghost app0 = self.app_entries();
        let ghost ui = self.ui_ready();
        let ghost msg = strip_ansi(message@);
        let r = self.add_app_log(message);
        match r {
            Some(em) => {
                ems.push(em);
            },
            None => {},
        }
        proof {
            lemma_appended_one_list(app0, self.app_entries(), msg, APP_LOG_CAPACITY as nat, ui,
                "app-log"@, r);
            assert(ems@.take(pre_ems.len() as int) =~= pre_ems);
            assert(ems@.skip(pre_ems.len() as int) =~= opt_emission_seq(r));
        }
    }

    /// Appends one message to the child-process log and collects the
    /// broadcast, if one was produced, at the end of `ems`.
    pub fn add_rustfs_log_into(&mut self, message: String, ems: &mut Vec<LogEmission>)
        requires
            old(self).wf(),
        ensures
            final(self).wf(),
            final(self).child() == old(self).child(),
            final(self).ui_ready() == old(self).ui_ready(),
            final(self).app_entries() == old(self).app_entries(),
            final(ems)@.len() >= old(ems)@.len(),
            final(ems)@.take(old(ems)@.len() as int) == old(ems)@,
            appended_list(
                old(self).process_entries(),
                final(self).process_entries(),
                seq![strip_ansi(message@)],
                RUSTFS_LOG_CAPACITY as nat,
                old(self).ui_ready(),
                "process-log"@,
                final(ems)@.skip(old(ems)@.len() as int),
            ),
    {
        let ghost pre_ems = ems@;
        let ghost proc0 = self.process_entries();
        let ghost ui = self.ui_ready();
        let ghost msg = strip_ansi(message@);
        let r = self.add_rustfs_log(message);
        match r {
            Some(em) => {
                ems.push(em);
            },
            None => {},
        }
        proof {
            lemma_appended_one_list(proc0, self.process_entries(), msg,
                RUSTFS_LOG_CAPACITY as nat, ui, "process-log"@, r);
            assert(ems@.take(pre_ems.len() as int) =~= pre_ems);
            assert(ems@.skip(pre_ems.len() as int) =~= opt_emission_seq(r));
        }
    }

    /// Notes the outcome of the kill signal sent to a taken child handle:
    /// the signal was accepted, or it failed with the given cause. Kill
    /// failure is logged, never escalated.
    pub fn record_termination_result(&mut self, success: bool, error_text: &str) -> (r: Option<
        LogEmission,
    >)
        requires
            old(self).wf(),
        ensures
            final(self).wf(),
            final(self).child() == old(self).child(),
            final(self).ui_ready() == old(self).ui_ready(),
            final(self).process_entries() == old(self).process_entries(),
            success ==> appended_one(
                old(self).app_entries(),
                final(self).app_entries(),
                terminated_msg(),
                APP_LOG_CAPACITY as nat,
                old(self).ui_ready(),
                "app-log"@,
                r,
            ),
            !success ==> appended_one(
                old(self).app_entries(),
                final(self).app_entries(),
                strip_ansi(terminate_failed_msg(error_text@)),
                APP_LOG_CAPACITY as nat,
                old(self).ui_ready(),
                "app-log"@,
                r,
            ),
    {
        if success {
            proof {
                reveal_strlit("RustFS process terminated successfully");
                lemma_no_esc_escape_free(terminated_msg());
                lemma_strip_escape_free_identity(terminated_msg());
            }
            self.add_app_log("RustFS process terminated successfully".to_owned())
        } else {
            let mut message = "Failed to terminate RustFS process: ".to_owned();
            message.append(error_text);
            proof {
                assert(message@ == terminate_failed_msg(error_text@));
            }
            self.add_app_log(message)
        }
    }
}

proof fn lemma_registered_msg_clean(pid: int)
    requires
        pid >= 0,
    ensures
        strip_ansi(registered_msg(pid)) == registered_msg(pid),
{
    reveal_strlit("RustFS process registered with PID: ");
    crate::numfmt::lemma_dec_seq_digits(pid);
    lemma_no_esc_escape_free(registered_msg(pid));
    lemma_strip_escape_free_identity(registered_msg(pid));
}

proof fn lemma_terminating_msg_clean(pid: int)
    requires
        pid >= 0,
    ensures
        strip_ansi(terminating_msg(pid)) == terminating_msg(pid),
{
    reveal_strlit("Terminating RustFS process with PID: ");
    crate::numfmt::lemma_dec_seq_digits(pid);
    lemma_no_esc_escape_free(terminating_msg(pid));
    lemma_strip_escape_free_identity(terminating_msg(pid));
}

/// The emissions of one append, as a sequence: one element when a
/// broadcast was produced, none otherwise.
pub open spec fn opt_emission_seq(r: Option<LogEmission>) -> Seq<LogEmission> {
    match r {
        Some(em) => seq![em],
        None => Seq::<LogEmission>::empty(),
    }
}

/// One log was extended by one stamped entry for each cleaned message of
/// `msgs`, in order, and `ems` is the matching broadcast for every entry
/// on `channel` when a UI surface is registered, and empty otherwise.
pub open spec fn appended_list(
    pre: Seq<Seq<char>>,
    post: Seq<Seq<char>>,
    msgs: Seq<Seq<char>>,
    cap: nat,
    ui: bool,
    channel: Seq<char>,
    ems: Seq<LogEmission>,
) -> bool
    decreases msgs.len(),
{
    if msgs.len() == 0 {
        post == pre && ems.len() == 0
    } else {
        exists|e: Seq<char>|
            {
                &&& #[trigger] stamped_entry(e, msgs[0])
                &&& if ui {
                    &&& ems.len() == msgs.len()
                    &&& ems[0].channel@ == channel
                    &&& ems[0].entry@ == e
                    &&& appended_list(
                        push_evict(pre, e, cap),
                        post,
                        msgs.skip(1),
                        cap,
                        ui,
                        channel,
                        ems.skip(1),
                    )
                } else {
                    &&& ems.len() == 0
                    &&& appended_list(
                        push_evict(pre, e, cap),
                        post,
                        msgs.skip(1),
                        cap,
                        ui,
                        channel,
                        ems,
                    )
                }
            }
    }
}

/// A single append is the one-message case of `appended_list`.
pub proof fn lemma_appended_one_list(
    pre: Seq<Seq<char>>,
    post: Seq<Seq<char>>,
    msg: Seq<char>,
    cap: nat,
    ui: bool,
    channel: Seq<char>,
    r: Option<LogEmission>,
)
    requires
        appended_one(pre, post, msg, cap, ui, channel, r),
    ensures
        appended_list(pre, post, seq![msg], cap, ui, channel, opt_emission_seq(r)),
{
    let e = choose|e: Seq<char>|
        {
            &&& #[trigger] stamped_entry(e, msg)
            &&& post == push_evict(pre, e, cap)
            &&& match r {
                Some(em) => ui && em.channel@ == channel && em.entry@ == e,
                None => !ui,
            }
        };
    let msgs = seq![msg];
    let ems = opt_emission_seq(r);
    assert(msgs.skip(1) =~= Seq::<Seq<char>>::empty());
    assert(stamped_entry(e, msgs[0]));
    if ui {
        assert(ems.skip(1) =~= Seq::<LogEmission>::empty());
        assert(appended_list(push_evict(pre, e, cap), post, msgs.skip(1), cap, ui, channel,
            ems.skip(1)));
    } else {
        assert(appended_list(push_evict(pre, e, cap), post, msgs.skip(1), cap, ui, channel, ems));
    }
}

/// Two extensions in a row extend by the two message lists in a row.
pub proof fn lemma_appended_list_concat(
    pre: Seq<Seq<char>>,
    mid: Seq<Seq<char>>,
    post: Seq<Seq<char>>,
    msgs1: Seq<Seq<char>>,
    msgs2: Seq<Seq<char>>,
    cap: nat,
    ui: bool,
    channel: Seq<char>,
    ems1: Seq<LogEmission>,
    ems2: Seq<LogEmission>,
)
    requires
        appended_list(pre, mid, msgs1, cap, ui, channel, ems1),
        appended_list(mid, post, msgs2, cap, ui, channel, ems2),
    ensures
        appended_list(pre, post, msgs1 + msgs2, cap, ui, channel, ems1 + ems2),
    decreases msgs1.len(),
{
    if msgs1.len() == 0 {
        assert(msgs1 + msgs2 =~= msgs2);
        assert(ems1 + ems2 =~= ems2);
    } else {
        let e = choose|e: Seq<char>|
            {
                &&& #[trigger] stamped_entry(e, msgs1[0])
                &&& if ui {
                    &&& ems1.len() == msgs1.len()
                    &&& ems1[0].channel@ == channel
                    &&& ems1[0].entry@ == e
                    &&& appended_list(
                        push_evict(pre, e, cap),
                        mid,
                        msgs1.skip(1),
                        cap,
                        ui,
                        channel,
                        ems1.skip(1),
                    )
                } else {
                    &&& ems1.len() == 0
                    &&& appended_list(
                        push_evict(pre, e, cap),
                        mid,
                        msgs1.skip(1),
                        cap,
                        ui,
                        channel,
                        ems1,
                    )
                }
            };
        let all = msgs1 + msgs2;
        assert(all[0] == msgs1[0]);
        assert(all.skip(1) =~= msgs1.skip(1) + msgs2);
        assert(stamped_entry(e, all[0]));
        if ui {
            lemma_appended_list_concat(push_evict(pre, e, cap), mid, post, msgs1.skip(1), msgs2,
                cap, ui, channel, ems1.skip(1), ems2);
            assert((ems1 + ems2).skip(1) =~= ems1.skip(1) + ems2);
        } else {
            lemma_appended_list_concat(push_evict(pre, e, cap), mid, post, msgs1.skip(1), msgs2,
                cap, ui, channel, ems1, ems2);
            assert(ems1 + ems2 =~= ems2);
        }
    }
}

} // verus!
