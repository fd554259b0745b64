use vstd::prelude::*;
use crate::git_clone::{trim_start_ws, scan_trim_start_ws};
use crate::proto::git_clone::{run_end, run_value, lemma_run_value_nonneg};
use crate::text::{is_digit_spec, is_ascii_digit_char, str_chars};

verus! {

// ---------------------------------------------------------------------------
// The progress reporter's two channels. Both are advisory: nothing about a
// sync's correctness depends on what a sink does with the events. The
// decisions — which stage a transfer event shows, and what a sideband text
// line means — are pure and verified here; rendering is the caller's part.
// ---------------------------------------------------------------------------

/// The consumer of the progress events of one sync call.
pub trait ProgressSink {
    /// A sync run starts for the repository of the given local name; the
    /// display for that run is created here.
    fn on_sync_start(&mut self, name: &str);

    /// A structured transfer event: objects received of total, deltas
    /// indexed of total.
    fn on_transfer(&mut self, received: u64, total: u64, indexed: u64, total_deltas: u64);

    /// A raw sideband text line from the remote.
    fn on_sideband(&mut self, line: &[u8]);

    /// The transfer sub-operation of the current sync run is over, whether
    /// it succeeded or not; the display is finalized here.
    fn on_transfer_done(&mut self);
}

/// A sink that ignores all progress events.
pub struct SilentProgress;

impl ProgressSink for SilentProgress {
    fn on_sync_start(&mut self, _name: &str) {
    }

    fn on_transfer(&mut self, _received: u64, _total: u64, _indexed: u64, _total_deltas: u64) {
    }

    fn on_sideband(&mut self, _line: &[u8]) {
    }

    fn on_transfer_done(&mut self) {
    }
}

/// The two stages the structured transfer channel reports.
#[derive(Debug, Clone, Copy, PartialEq, Eq, Structural)]
pub enum TransferStage {
    Receiving,
    Resolving,
}

/// One display update: a stage label and a position of a length.
#[derive(Debug, Clone, Copy, PartialEq, Eq, Structural)]
pub struct TransferUpdate {
    pub stage: TransferStage,
    pub position: u64,
    pub length: u64,
}

/// While objects remain to receive the display shows the receiving counts;
/// once all objects are received it switches, one way, to delta resolution.
pub open spec fn transfer_update_spec(
    received: u64,
    total: u64,
    indexed: u64,
    total_deltas: u64,
) -> TransferUpdate {
    if received != total {
        TransferUpdate { stage: TransferStage::Receiving, position: received, length: total }
    } else {
        TransferUpdate { stage: TransferStage::Resolving, position: indexed, length: total_deltas }
    }
}

/// The display update for one transfer-progress event.
pub fn transfer_update(received: u64, total: u64, indexed: u64, total_deltas: u64) -> (u:
    TransferUpdate)
    ensures
        u == transfer_update_spec(received, total, indexed, total_deltas),
{
    if received != total {
        TransferUpdate { stage: TransferStage::Receiving, position: received, length: total }
    } else {
        TransferUpdate { stage: TransferStage::Resolving, position: indexed, length: total_deltas }
    }
}

/// The stage words the sideband parser recognizes.
#[derive(Debug, Clone, Copy, PartialEq, Eq, Structural)]
pub enum SidebandStage {
    Counting,
    Compressing,
}

/// One parsed sideband progress line: a stage and a current/total pair.
#[derive(Debug, Clone, Copy, PartialEq, Eq, Structural)]
pub struct SidebandUpdate {
    pub stage: SidebandStage,
    pub current: u64,
    pub total: u64,
}

/// Whether the pattern p occurs in s at position `at`.
pub open spec fn lit_at(s: Seq<char>, at: int, p: Seq<char>) -> bool {
    0 <= at && at + p.len() <= s.len() && s.subrange(at, at + p.len()) == p
}

/// The tail of a sideband line after its stage prefix:
/// white space, a percentage, then " (current/total)". A number too large
/// for u64 makes the line non-matching.
pub open spec fn sideband_tail_spec(s: Seq<char>, at: int, stage: SidebandStage) -> Option<
    SidebandUpdate,
> {
    let w = trim_start_ws(s, at, s.len() as int);
    let a = run_end(s, w);
    if w == at || a == w || !(a + 2 < s.len() && s[a] == '%' && s[a + 1] == ' ' && s[a + 2] == '(') {
        None
    } else {
        let b = run_end(s, a + 3);
        if b == a + 3 || run_value(s, a + 3, b) > u64::MAX || !(b < s.len() && s[b] == '/') {
            None
        } else {
            let c = run_end(s, b + 1);
            if c == b + 1 || run_value(s, b + 1, c) > u64::MAX || !(c < s.len() && s[c] == ')') {
                None
            } else {
                Some(
                    SidebandUpdate {
                        stage,
                        current: run_value(s, a + 3, b) as u64,
                        total: run_value(s, b + 1, c) as u64,
                    },
                )
            }
        }
    }
}

/// What a sideband text line means: lines of the shape
/// "<Stage> objects: <percent>% (<current>/<total>)" with stage Counting or
/// Compressing are progress reports; every other line is ignored.
pub open spec fn sideband_spec(s: Seq<char>) -> Option<SidebandUpdate> {
    if lit_at(s, 0, "Counting objects:"@) {
        sideband_tail_spec(s, "Counting objects:"@.len() as int, SidebandStage::Counting)
    } else if lit_at(s, 0, "Compressing objects:"@) {
        sideband_tail_spec(s, "Compressing objects:"@.len() as int, SidebandStage::Compressing)
    } else {
        None
    }
}

fn lit_match(v: &Vec<char>, at: usize, p: &Vec<char>) -> (r: bool)
    requires
        at <= v@.len(),
    ensures
        r == lit_at(v@, at as int, p@),
{
    let n = v.len();
    if p.len() > n - at {
        return false;
    }
    let mut i: usize = 0;
    while i < p.len()
        invariant
            i <= p@.len(),
            n == v@.len(),
            at + p@.len() <= n,
            forall|j: int| 0 <= j < i ==> v@[at + j] == p@[j],
        decreases p@.len() - i,
    {
        if v[at + i] != p[i] {
            proof {
                assert(v@.subrange(at as int, at + p@.len())[i as int] != p@[i as int]);
            }
            return false;
        }
        i = i + 1;
    }
    proof {
        assert(v@.subrange(at as int, at + p@.len()) =~= p@);
    }
    true
}

fn scan_run_end(v: &Vec<char>, i: usize) -> (j: usize)
    requires
        i <= v@.len(),
    ensures
        i <= j <= v@.len(),
        j == run_end(v@, i as int),
        forall|k: int| i <= k < j ==> is_digit_spec(v@[k]),
{
    let mut j: usize = i;
    while j < v.len() && is_ascii_digit_char(v[j])
        invariant
            i <= j <= v@.len(),
            run_end(v@, i as int) == run_end(v@, j as int),
            forall|k: int| i <= k < j ==> is_digit_spec(v@[k]),
        decreases v@.len() - j,
    {
        j = j + 1;
    }
    j
}

fn parse_run_u64(v: &Vec<char>, i: usize, j: usize) -> (r: Option<u64>)
    requires
        i <= j <= v@.len(),
        forall|k: int| i <= k < j ==> is_digit_spec(v@[k]),
    ensures
        match r {
            Some(x) => x == run_value(v@, i as int, j as int),
            None => run_value(v@, i as int, j as int) > u64::MAX,
        },
{
    let mut val: u64 = 0;
    let mut over: bool = false;
    let mut k: usize = i;
    while k < j
        invariant
            i <= k <= j <= v@.len(),
            forall|m: int| i <= m < j ==> is_digit_spec(v@[m]),
            !over ==> val == run_value(v@, i as int, k as int),
            over ==> run_value(v@, i as int, k as int) > u64::MAX,
        decreases j - k,
    {
        let d: u64 = (v[k] as u32 - 0x30) as u64;
        proof {
            lemma_run_value_nonneg(v@, i as int, k as int);
        }
        if !over {
            if val > u64::MAX / 10 || (val == u64::MAX / 10 && d > u64::MAX % 10) {
                over = true;
            } else {
                val = val * 10 + d;
            }
        }
        k = k + 1;
    }
    if over {
        None
    } else {
        Some(val)
    }
}

/// Parses one sideband text line. Returns the stage and the current/total
/// pair of a matching line, and None on anything else: the channel is
/// best-effort and malformed lines are ignored.
pub fn parse_sideband(line: &str) -> (r: Option<SidebandUpdate>)
    ensures
        r == sideband_spec(line@),
{
    let v = str_chars(line);
    let counting = str_chars("Counting objects:");
    let compressing = str_chars("Compressing objects:");
    if lit_match(&v, 0, &counting) {
        parse_sideband_tail(&v, counting.len(), SidebandStage::Counting)
    } else if lit_match(&v, 0, &compressing) {
        parse_sideband_tail(&v, compressing.len(), SidebandStage::Compressing)
    } else {
        None
    }
}

fn parse_sideband_tail(v: &Vec<char>, at: usize, stage: SidebandStage) -> (r: Option<
    SidebandUpdate,
>)
    requires
        at <= v@.len(),
    ensures
        r == sideband_tail_spec(v@, at as int, stage),
{
    let w = scan_trim_start_ws(v, at, v.len());
    if w == at {
        return None;
    }
    let a = scan_run_end(v, w);
    if a == w {
        return None;
    }
    if !(v.len() >= 3 && a < v.len() - 2 && v[a] == '%' && v[a + 1] == ' ' && v[a + 2] == '(') {
        return None;
    }
    let b = scan_run_end(v, a + 3);
    if b == a + 3 {
        return None;
    }
    let current = match parse_run_u64(v, a + 3, b) {
        Some(x) => x,
        None => {
            return None;
        },
    };
    if !(b < v.len() && v[b] == '/') {
        return None;
    }
    let c = scan_run_end(v, b + 1);
    if c == b + 1 {
        return None;
    }
    let total = match parse_run_u64(v, b + 1, c) {
        Some(x) => x,
        None => {
            return None;
        },
    };
    if !(c < v.len() && v[c] == ')') {
        return None;
    }
    Some(SidebandUpdate { stage, current, total })
}

} // verus!
