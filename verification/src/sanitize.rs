//! Removal of ANSI colour/style control sequences from a line of text.
//!
//! A colour control sequence is the escape character, `[`, zero or more
//! parameter characters (decimal digits and `;`), and a terminating `m`.
//! Cleaning a line removes every such sequence, scanning left to right;
//! all other characters, including malformed or unterminated escapes,
//! pass through unchanged.

use vstd::prelude::*;

verus! {

/// The escape character that begins a terminal control sequence.
pub open spec fn esc_char() -> char {
    '\x1b'
}

/// A character allowed in the parameter body of a colour control sequence:
/// a decimal digit or the `;` separator.
pub open spec fn is_param_char(c: char) -> bool {
    c == ';' || ('0' <= c && c <= '9')
}

/// The first position at or after `j` whose character is not a parameter
/// character, or `s.len()` if the run of parameter characters reaches the end.
pub open spec fn param_run_end(s: Seq<char>, j: int) -> int
    recommends
        0 <= j <= s.len(),
    decreases s.len() - j,
{
    if j < 0 || j >= s.len() {
        s.len() as int
    } else if is_param_char(s[j]) {
        param_run_end(s, j + 1)
    } else {
        j
    }
}

pub proof fn lemma_param_run_end(s: Seq<char>, j: int)
    requires
        0 <= j <= s.len(),
    ensures
        j <= param_run_end(s, j) <= s.len(),
        forall|k: int| j <= k < param_run_end(s, j) ==> is_param_char(s[k]),
        param_run_end(s, j) < s.len() ==> !is_param_char(s[param_run_end(s, j)]),
    decreases s.len() - j,
{
    if j < s.len() && is_param_char(s[j]) {
        lemma_param_run_end(s, j + 1);
    }
}

/// A complete colour control sequence begins at index `i` of `s`.
pub open spec fn match_at(s: Seq<char>, i: int) -> bool {
    &&& 0 <= i
    &&& i + 1 < s.len()
    &&& s[i] == esc_char()
    &&& s[i + 1] == '['
    &&& param_run_end(s, i + 2) < s.len()
    &&& s[param_run_end(s, i + 2)] == 'm'
}

/// The index just past the colour control sequence that begins at `i`.
pub open spec fn match_end(s: Seq<char>, i: int) -> int {
    param_run_end(s, i + 2) + 1
}

/// The suffix of `s` from index `i` with every colour control sequence
/// removed, scanning left to right.
pub open spec fn strip_from(s: Seq<char>, i: int) -> Seq<char>
    recommends
        0 <= i <= s.len(),
    decreases s.len() - i,
    via strip_from_decreases
{
    if i < 0 || i >= s.len() {
        Seq::empty()
    } else if match_at(s, i) {
        strip_from(s, match_end(s, i))
    } else {
        seq![s[i]] + strip_from(s, i + 1)
    }
}

#[via_fn]
proof fn strip_from_decreases(s: Seq<char>, i: int) {
    if 0 <= i && i < s.len() && match_at(s, i) {
        lemma_param_run_end(s, i + 2);
    }
}

/// `s` with every colour control sequence removed.
pub open spec fn strip_ansi(s: Seq<char>) -> Seq<char> {
    strip_from(s, 0)
}

/// No colour control sequence occurs anywhere in `s`.
pub open spec fn escape_free(s: Seq<char>) -> bool {
    forall|i: int| !match_at(s, i)
}

/// Cleaning a line that holds no colour control sequence returns it
/// unchanged.
pub proof fn lemma_strip_escape_free_identity(s: Seq<char>)
    requires
        escape_free(s),
    ensures
        strip_ansi(s) == s,
{
    lemma_strip_from_escape_free(s, 0);
    assert(s.skip(0) =~= s);
}

proof fn lemma_strip_from_escape_free(s: Seq<char>, i: int)
    requires
        0 <= i <= s.len(),
        escape_free(s),
    ensures
        strip_from(s, i) == s.skip(i),
    decreases s.len() - i,
{
    if i < s.len() {
        assert(!match_at(s, i));
        lemma_strip_from_escape_free(s, i + 1);
        assert(strip_from(s, i) =~= s.skip(i));
    } else {
        assert(strip_from(s, i) =~= s.skip(i));
    }
}

/// A line without the escape character holds no colour control sequence.
pub proof fn lemma_no_esc_escape_free(s: Seq<char>)
    requires
        forall|i: int| 0 <= i < s.len() ==> s[i] != esc_char(),
    ensures
        escape_free(s),
{
    assert forall|i: int| !match_at(s, i) by {
        if 0 <= i && i + 1 < s.len() {
            assert(s[i] != esc_char());
        }
    }
}

/// Cleaning is idempotent on every line whose cleaned form holds no residual
/// colour control sequence. (Removing a sequence can splice its surroundings
/// into a new sequence; when one survives the first pass, a second pass
/// removes it and the two results differ, so these are exactly the lines on
/// which two passes agree with one.)
pub proof fn lemma_strip_idempotent(s: Seq<char>)
    requires
        escape_free(strip_ansi(s)),
    ensures
        strip_ansi(strip_ansi(s)) == strip_ansi(s),
{
    lemma_strip_escape_free_identity(strip_ansi(s));
}

proof fn lemma_param_run_end_is(s: Seq<char>, j: int, e: int)
    requires
        0 <= j <= e <= s.len(),
        forall|k: int| j <= k < e ==> is_param_char(s[k]),
        e < s.len() ==> !is_param_char(s[e]),
    ensures
        param_run_end(s, j) == e,
    decreases e - j,
{
    if j < e {
        lemma_param_run_end_is(s, j + 1, e);
    }
}

fn is_param_char_exec(c: char) -> (r: bool)
    ensures
        r == is_param_char(c),
{
    c == ';' || ('0' <= c && c <= '9')
}

/// The first position at or after `j0` whose character is not a parameter
/// character.
fn param_run_end_exec(s: &str, n: usize, j0: usize) -> (e: usize)
    requires
        n == s@.len(),
        j0 <= n,
    ensures
        e == param_run_end(s@, j0 as int),
        j0 <= e <= n,
{
    let mut j: usize = j0;
    while j < n
        invariant
            n == s@.len(),
            j0 <= j <= n,
            forall|k: int| j0 <= k < j ==> is_param_char(s@[k]),
        decreases n - j,
    {
        if !is_param_char_exec(s.get_char(j)) {
            proof {
                lemma_param_run_end_is(s@, j0 as int, j as int);
            }
            return j;
        }
        j = j + 1;
    }
    proof {
        lemma_param_run_end_is(s@, j0 as int, n as int);
    }
    n
}

/// Returns the index just past the colour control sequence beginning at `i`,
/// or `None` if no such sequence begins there.
fn find_match_end(s: &str, n: usize, i: usize) -> (r: Option<usize>)
    requires
        n == s@.len(),
        i < n,
    ensures
        match r {
            Some(e) => match_at(s@, i as int) && e == match_end(s@, i as int) && i < e <= n,
            None => !match_at(s@, i as int),
        },
{
    if s.get_char(i) != '\x1b' {
        return None;
    }
    if i + 1 >= n {
        return None;
    }
    if s.get_char(i + 1) != '[' {
        return None;
    }
    let e = param_run_end_exec(s, n, i + 2);
    proof {
        lemma_param_run_end(s@, i + 2);
    }
    if e < n && s.get_char(e) == 'm' {
        Some(e + 1)
    } else {
        None
    }
}

/// Returns a copy of `s` with every ANSI colour control sequence removed;
/// all other characters pass through unchanged.
pub fn clean_ansi_codes(s: &str) -> (r: String)
    ensures
        r@ == strip_ansi(s@),
{
    let n: usize = s.unicode_len();
    let mut out = String::new();
    let mut i: usize = 0;
    while i < n
        invariant
            n == s@.len(),
            0 <= i <= n,
            out@ + strip_from(s@, i as int) == strip_from(s@, 0),
        decreases n - i,
    {
        match find_match_end(s, n, i) {
            Some(e) => {
                i = e;
            },
            None => {
                let ghost out0 = out@;
                let c = s.get_char(i);
                out.push(c);
                proof {
                    assert(out@ + strip_from(s@, i + 1) =~= out0 + strip_from(s@, i as int));
                }
                i = i + 1;
            },
        }
    }
    proof {
        assert(out@ =~= out@ + strip_from(s@, n as int));
    }
    out
}

} // verus!
