//! A bounded, append-only buffer of timestamped log entries.
//!
//! Each appended message is cleaned of colour control sequences and prefixed
//! with a `[HH:MM:SS]` local-time stamp. The buffer keeps at most its fixed
//! capacity of entries; appending beyond it evicts the oldest entry.
//!
//! Appends take the buffer exclusively, so an entry is never lost or torn;
//! callers that share a buffer across threads keep it behind a lock held
//! only for the in-memory mutation.

use vstd::prelude::*;

use crate::clock::local_time_hms;
use crate::numfmt::pad2_seq;
use crate::numfmt::push_pad2;
use crate::sanitize::clean_ansi_codes;
use crate::sanitize::strip_ansi;

verus! {

/// The formatted entry for a cleaned message stamped at `h`:`m`:`s`.
pub open spec fn entry_seq(h: int, m: int, s: int, msg: Seq<char>) -> Seq<char> {
    seq!['['] + pad2_seq(h) + seq![':'] + pad2_seq(m) + seq![':'] + pad2_seq(s) + seq![']', ' ']
        + msg
}

/// `entry` is `msg` prefixed with some valid `[HH:MM:SS]` time stamp.
pub open spec fn stamped_entry(entry: Seq<char>, msg: Seq<char>) -> bool {
    exists|h: int, m: int, s: int|
        0 <= h < 24 && 0 <= m < 60 && 0 <= s < 60 && entry == #[trigger] entry_seq(h, m, s, msg)
}

/// The buffer contents after appending one entry: the entry goes to the
/// back, and the oldest entry leaves if the buffer was full.
pub open spec fn push_evict(log: Seq<Seq<char>>, entry: Seq<char>, cap: nat) -> Seq<Seq<char>> {
    if log.len() < cap {
        log.push(entry)
    } else {
        log.skip(1).push(entry)
    }
}

/// Formats one log entry: the message cleaned of colour control sequences,
/// prefixed with the given time stamp.
pub fn format_log_entry(h: u32, m: u32, s: u32, message: &str) -> (r: String)
    requires
        h < 24,
        m < 60,
        s < 60,
    ensures
        r@ == entry_seq(h as int, m as int, s as int, strip_ansi(message@)),
{
    let cleaned = clean_ansi_codes(message);
    let mut out = String::new();
    out.push('[');
    push_pad2(&mut out, h);
    out.push(':');
    push_pad2(&mut out, m);
    out.push(':');
    push_pad2(&mut out, s);
    out.push(']');
    out.push(' ');
    out.append(cleaned.as_str());
    proof {
        assert(out@ =~= entry_seq(h as int, m as int, s as int, strip_ansi(message@)));
    }
    out
}

/// An ordered sequence of log entries with a fixed maximum size.
pub struct LogBuffer {
    entries: Vec<String>,
    capacity: usize,
}

impl View for LogBuffer {
    type V = Seq<Seq<char>>;

    closed spec fn view(&self) -> Seq<Seq<char>> {
        self.entries@.map_values(|e: String| e@)
    }
}

impl LogBuffer {
    /// The fixed maximum number of entries the buffer retains.
    pub closed spec fn cap(&self) -> nat {
        self.capacity as nat
    }

    /// The capacity bound the buffer maintains after every operation.
    pub open spec fn wf(&self) -> bool {
        1 <= self.cap() && self@.len() <= self.cap()
    }

    /// An empty buffer that will retain at most `capacity` entries.
    pub fn new(capacity: usize) -> (r: LogBuffer)
        requires
            capacity >= 1,
        ensures
            r.wf(),
            r.cap() == capacity,
            r@ == Seq::<Seq<char>>::empty(),
    {
        let r = LogBuffer { entries: Vec::new(), capacity };
        proof {
            assert(r@ =~= Seq::<Seq<char>>::empty());
        }
        r
    }

    /// Appends one already-formatted entry, evicting the oldest entry if
    /// the buffer is full.
    pub fn append_entry(&mut self, entry: String)
        requires
            old(self).wf(),
        ensures
            final(self).wf(),
            final(self).cap() == old(self).cap(),
            final(self)@ == push_evict(old(self)@, entry@, old(self).cap()),
    {
        let ghost pre = self.entries@;
        let ghost e = entry@;
        self.entries.push(entry);
        proof {
            assert(self.entries@.map_values(|x: String| x@) =~= pre.map_values(|x: String| x@)
                + seq![e]);
        }
        if self.entries.len() > self.capacity {
            let ghost mid = self.entries@;
            let _ = self.entries.remove(0);
            proof {
                assert(self.entries@ =~= mid.skip(1));
                assert(self.entries@.map_values(|x: String| x@) =~= mid.map_values(
                    |x: String| x@,
                ).skip(1));
            }
        }
        proof {
            assert(self@ =~= push_evict(old(self)@, e, old(self).cap()));
        }
    }

    /// Cleans `raw_message`, stamps it with the current local time, appends
    /// the entry (evicting the oldest if full), and returns the entry.
    pub fn append(&mut self, raw_message: &str) -> (entry: String)
        requires
            old(self).wf(),
        ensures
            final(self).wf(),
            final(self).cap() == old(self).cap(),
            stamped_entry(entry@, strip_ansi(raw_message@)),
            final(self)@ == push_evict(old(self)@, entry@, old(self).cap()),
    {
        let (h, m, s) = local_time_hms();
        let entry = format_log_entry(h, m, s, raw_message);
        let copy = entry.clone();
        proof {
            assert(copy@ == entry_seq(h as int, m as int, s as int, strip_ansi(raw_message@)));
        }
        self.append_entry(entry);
        copy
    }

    /// A copy of all retained entries, oldest first.
    pub fn snapshot(&self) -> (r: Vec<String>)
        ensures
            r@.map_values(|e: String| e@) == self@,
    {
        let mut r: Vec<String> = Vec::new();
        let n = self.entries.len();
        let mut i: usize = 0;
        proof {
            assert(r@.map_values(|e: String| e@) =~= self@.take(0));
        }
        while i < n
            invariant
                n == self.entries@.len(),
                i <= n,
                r@.map_values(|e: String| e@) == self@.take(i as int),
            decreases n - i,
        {
            let ghost rpre = r@;
            r.push(self.entries[i].clone());
            proof {
                assert(r@.map_values(|e: String| e@) =~= rpre.map_values(|e: String| e@)
                    + seq![self@[i as int]]);
                assert(self@.take(i + 1) =~= self@.take(i as int) + seq![self@[i as int]]);
            }
            i = i + 1;
        }
        proof {
            assert(self@.take(n as int) =~= self@);
        }
        r
    }

    /// The number of entries currently retained.
    pub fn len(&self) -> (n: usize)
        ensures
            n == self@.len(),
    {
        self.entries.len()
    }
}

/// The buffer contents after appending every message of `msgs`, in order,
/// to a buffer that held `init`.
pub open spec fn fold_appends(init: Seq<Seq<char>>, msgs: Seq<Seq<char>>, cap: nat) -> Seq<
    Seq<char>,
>
    decreases msgs.len(),
{
    if msgs.len() == 0 {
        init
    } else {
        fold_appends(push_evict(init, msgs[0], cap), msgs.skip(1), cap)
    }
}

/// How many of the oldest entries a total of `total` appends pushes out of
/// a buffer of capacity `cap`.
pub open spec fn evict_count(total: int, cap: int) -> int {
    if total <= cap {
        0
    } else {
        total - cap
    }
}

proof fn lemma_fold_appends(init: Seq<Seq<char>>, msgs: Seq<Seq<char>>, cap: nat)
    requires
        cap >= 1,
        init.len() <= cap,
    ensures
        fold_appends(init, msgs, cap) == (init + msgs).skip(
            evict_count(init.len() + msgs.len() as int, cap as int),
        ),
    decreases msgs.len(),
{
    if msgs.len() == 0 {
        assert((init + msgs).skip(0) =~= init);
    } else {
        let next = push_evict(init, msgs[0], cap);
        lemma_fold_appends(next, msgs.skip(1), cap);
        if init.len() < cap {
            assert(next + msgs.skip(1) =~= init + msgs);
        } else {
            assert(next + msgs.skip(1) =~= (init + msgs).skip(1));
            let c = evict_count(next.len() + msgs.len() as int - 1, cap as int);
            assert((init + msgs).skip(1).skip(c) =~= (init + msgs).skip(1 + c));
        }
    }
}

/// After any sequence of `N` appends into an empty buffer of capacity
/// `cap`, the buffer holds exactly the most recent `min(N, cap)` appended
/// entries, in their original order.
pub proof fn lemma_append_sequence(msgs: Seq<Seq<char>>, cap: nat)
    requires
        cap >= 1,
    ensures
        msgs.len() <= cap ==> fold_appends(Seq::empty(), msgs, cap) == msgs,
        msgs.len() > cap ==> fold_appends(Seq::empty(), msgs, cap) == msgs.skip(
            msgs.len() - cap,
        ),
        fold_appends(Seq::empty(), msgs, cap).len() == if msgs.len() <= cap {
            msgs.len()
        } else {
            cap
        },
{
    lemma_fold_appends(Seq::empty(), msgs, cap);
    assert(Seq::empty() + msgs =~= msgs);
    if msgs.len() <= cap {
        assert(msgs.skip(0) =~= msgs);
    }
}

} // verus!
