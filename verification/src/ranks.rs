//! Multi-rank discovery and orchestration.
//!
//! A directory listing is filtered down to per-rank log files by their
//! name; the rank number is parsed out of the name.  Ranks are processed
//! sequentially in ascending rank order, fail-fast: the first failure
//! aborts the run and no landing page is owed.  Display order likewise
//! never depends on discovery order.

use vstd::prelude::*;

use crate::text::all_dec_digits;
use crate::text::chars_end_with;
use crate::text::chars_of;
use crate::text::chars_range;
use crate::text::chars_start_with;
use crate::text::dec_str;
use crate::text::dec_val;
use crate::text::digit_val;
use crate::text::string_of;
use crate::text::u32_dec_chars;

verus! {

/// Why discovery failed.
#[derive(Debug, Clone, Copy, PartialEq, Eq, Structural)]
pub enum DiscoveryError {
    NoRankLogFiles,
}

/// One discovered per-rank log: the position of its name in the listing,
/// and the rank number parsed from the name.
#[derive(Debug, Clone, Copy, PartialEq, Eq, Structural)]
pub struct RankLog {
    pub file_index: usize,
    pub rank: u32,
}

/// The characters of `s` before its first `_`, or all of `s`.
pub open spec fn before_underscore(s: Seq<char>) -> Seq<char>
    decreases s.len(),
{
    if s.len() == 0 {
        s
    } else if s.first() == '_' {
        Seq::empty()
    } else {
        seq![s.first()] + before_underscore(s.drop_first())
    }
}

/// How a rank token parses: an optional `+` sign, then at least one
/// decimal digit, with a value that fits in `u32`.
pub open spec fn spec_parse_u32(s: Seq<char>) -> Option<u32> {
    let digits = if s.len() > 0 && s[0] == '+' {
        s.drop_first()
    } else {
        s
    };
    if digits.len() > 0 && all_dec_digits(digits) && dec_val(digits) <= u32::MAX {
        Some(dec_val(digits) as u32)
    } else {
        None
    }
}

/// The rank number encoded in a file name, when the name qualifies: a
/// fixed prefix, a fixed suffix, and a rank token that parses as a
/// non-negative integer.
pub open spec fn spec_rank_of(name: Seq<char>) -> Option<u32> {
    let prefix = "dedicated_log_torch_trace_rank_"@;
    let suffix = ".log"@;
    if prefix.is_prefix_of(name) && suffix.is_suffix_of(name) && name.len() >= prefix.len()
        + suffix.len() {
        spec_parse_u32(
            before_underscore(name.subrange(prefix.len() as int, name.len() - suffix.len())),
        )
    } else {
        None
    }
}

/// The qualifying names of a listing, in listing order, with their ranks.
pub open spec fn spec_discovered(names: Seq<String>) -> Seq<RankLog>
    decreases names.len(),
{
    if names.len() == 0 {
        Seq::empty()
    } else {
        spec_discovered(names.drop_last()) + (match spec_rank_of(names.last()@) {
            Some(rk) => seq![RankLog { file_index: (names.len() - 1) as usize, rank: rk }],
            None => Seq::<RankLog>::empty(),
        })
    }
}

/// A value is at least the value of any of its digit prefixes.
proof fn lemma_dec_val_prefix(s: Seq<char>, k: int)
    requires
        0 <= k <= s.len(),
    ensures
        dec_val(s) >= dec_val(s.take(k)),
    decreases s.len() - k,
{
    if k < s.len() {
        lemma_dec_val_prefix(s.drop_last(), k);
        assert(s.drop_last().take(k) =~= s.take(k));
        assert(dec_val(s) == dec_val(s.drop_last()) * 10 + digit_val(s.last()));
        assert(dec_val(s.drop_last()) * 10 >= dec_val(s.drop_last()));
    } else {
        assert(s.take(k) =~= s);
    }
}

/// Parses a rank token: an optional `+`, then decimal digits fitting in
/// `u32`.
#[verifier::rlimit(50)]
pub fn parse_u32_chars(s: &Vec<char>) -> (r: Option<u32>)
    ensures
        r == spec_parse_u32(s@),
{
    let start: usize = if s.len() > 0 && s[0] == '+' {
        1
    } else {
        0
    };
    let ghost digits = if s@.len() > 0 && s@[0] == '+' {
        s@.drop_first()
    } else {
        s@
    };
    proof {
        assert(digits =~= s@.subrange(start as int, s@.len() as int));
    }
    if s.len() == start {
        return None;
    }
    let mut acc: u64 = 0;
    let mut i: usize = start;
    while i < s.len()
        invariant
            start <= i <= s@.len(),
            s@.len() <= usize::MAX,
            digits == (if s@.len() > 0 && s@[0] == '+' {
                s@.drop_first()
            } else {
                s@
            }),
            digits == s@.subrange(start as int, s@.len() as int),
            acc == dec_val(s@.subrange(start as int, i as int)),
            acc <= u32::MAX,
            all_dec_digits(s@.subrange(start as int, i as int)),
        decreases s@.len() - i,
    {
        let c = s[i];
        let cu = c as u32;
        if cu < '0' as u32 || cu > '9' as u32 {
            proof {
                assert(digits[i - start] == c);
                assert(!all_dec_digits(digits));
            }
            return None;
        }
        let d: u64 = (cu - '0' as u32) as u64;
        let next: u64 = acc * 10 + d;
        proof {
            assert(s@.subrange(start as int, i as int + 1).drop_last() =~= s@.subrange(
                start as int,
                i as int,
            ));
            assert(s@.subrange(start as int, i as int + 1).last() == c);
            assert(next == dec_val(s@.subrange(start as int, i as int + 1)));
        }
        if next > u32::MAX as u64 {
            proof {
                if all_dec_digits(digits) {
                    lemma_dec_val_prefix(digits, i + 1 - start);
                    assert(digits.take(i + 1 - start) =~= s@.subrange(start as int, i as int + 1));
                }
            }
            return None;
        }
        acc = next;
        i = i + 1;
    }
    proof {
        assert(s@.subrange(start as int, s@.len() as int) =~= digits);
    }
    Some(acc as u32)
}

/// The rank number encoded in a file name, when the name qualifies.
pub fn rank_of_filename(name: &str) -> (r: Option<u32>)
    ensures
        r == spec_rank_of(name@),
{
    let cs = chars_of(name);
    let prefix = chars_of("dedicated_log_torch_trace_rank_");
    let suffix = chars_of(".log");
    if !chars_start_with(&cs, &prefix) || !chars_end_with(&cs, &suffix) {
        return None;
    }
    if cs.len() - prefix.len() < suffix.len() {
        return None;
    }
    let middle = chars_range(&cs, prefix.len(), cs.len() - suffix.len());
    // The rank token ends at the first `_` of the middle part.
    let mut t: usize = 0;
    while t < middle.len() && middle[t] != '_'
        invariant
            t <= middle@.len(),
            forall|j: int| 0 <= j < t ==> middle@[j] != '_',
        decreases middle@.len() - t,
    {
        t = t + 1;
    }
    let token = chars_range(&middle, 0, t);
    proof {
        lemma_before_underscore(middle@, t as int);
    }
    parse_u32_chars(&token)
}

/// When no `_` stands before position `t` and `t` is the end or an `_`,
/// the token before the first `_` is exactly the first `t` characters.
proof fn lemma_before_underscore(s: Seq<char>, t: int)
    requires
        0 <= t <= s.len(),
        forall|j: int| 0 <= j < t ==> s[j] != '_',
        t < s.len() ==> s[t] == '_',
    ensures
        before_underscore(s) == s.take(t),
    decreases t,
{
    if s.len() == 0 {
        assert(s.take(t) =~= s);
    } else if t == 0 {
        if s.first() == '_' {
            assert(s.take(0) =~= Seq::<char>::empty());
        } else {
            assert(s.take(0) =~= s);
        }
    } else {
        lemma_before_underscore(s.drop_first(), t - 1);
        assert(seq![s.first()] + s.drop_first().take(t - 1) =~= s.take(t));
    }
}

/// Filters a directory listing down to the qualifying per-rank logs, in
/// listing order.  A listing with no qualifying name is a hard failure.
pub fn discover_rank_logs(filenames: &Vec<String>) -> (r: Result<Vec<RankLog>, DiscoveryError>)
    ensures
        r matches Ok(v) ==> v@ == spec_discovered(filenames@) && v@.len() > 0,
        r matches Err(e) ==> e == DiscoveryError::NoRankLogFiles && spec_discovered(
            filenames@,
        ).len() == 0,
{
    let mut found: Vec<RankLog> = Vec::new();
    let mut i: usize = 0;
    while i < filenames.len()
        invariant
            i <= filenames@.len(),
            found@ == spec_discovered(filenames@.take(i as int)),
        decreases filenames@.len() - i,
    {
        proof {
            assert(filenames@.take(i as int + 1).drop_last() =~= filenames@.take(i as int));
            assert(filenames@.take(i as int + 1).last() == filenames@[i as int]);
        }
        match rank_of_filename(filenames[i].as_str()) {
            Some(rk) => {
                found.push(RankLog { file_index: i, rank: rk });
                proof {
                    assert(found@ =~= spec_discovered(filenames@.take(i as int)) + seq![
                        RankLog { file_index: i, rank: rk },
                    ]);
                }
            },
            None => {
                proof {
                    assert(found@ =~= spec_discovered(filenames@.take(i as int)) + Seq::<
                        RankLog,
                    >::empty());
                }
            },
        }
        i = i + 1;
    }
    proof {
        assert(filenames@.take(filenames@.len() as int) =~= filenames@);
    }
    if found.len() == 0 {
        Err(DiscoveryError::NoRankLogFiles)
    } else {
        Ok(found)
    }
}

/// The rank numbers of the discovered logs, in discovery order.
pub open spec fn spec_rank_numbers(logs: Seq<RankLog>) -> Seq<u32> {
    logs.map_values(|l: RankLog| l.rank)
}

/// The rank numbers sorted ascending, numerically: the same numbers, each
/// kept as often as it was discovered.  Display order never depends on
/// discovery order.
pub fn sorted_ranks(logs: &Vec<RankLog>) -> (r: Vec<u32>)
    ensures
        r@.len() == logs@.len(),
        forall|i: int, j: int| 0 <= i <= j < r@.len() ==> r@[i] <= r@[j],
        r@.to_multiset() == spec_rank_numbers(logs@).to_multiset(),
{
    let mut out: Vec<u32> = Vec::new();
    let mut i: usize = 0;
    proof {
        assert(logs@.take(0) =~= Seq::<RankLog>::empty());
        assert(spec_rank_numbers(logs@.take(0)) =~= Seq::<u32>::empty());
        assert(out@ =~= Seq::<u32>::empty());
    }
    while i < logs.len()
        invariant
            i <= logs@.len(),
            out@.len() == i,
            forall|a: int, b: int| 0 <= a <= b < out@.len() ==> out@[a] <= out@[b],
            out@.to_multiset() == spec_rank_numbers(logs@.take(i as int)).to_multiset(),
        decreases logs@.len() - i,
    {
        let x = logs[i].rank;
        let mut pos: usize = 0;
        while pos < out.len() && out[pos] <= x
            invariant
                pos <= out@.len(),
                forall|a: int| 0 <= a < pos ==> out@[a] <= x,
            decreases out@.len() - pos,
        {
            pos = pos + 1;
        }
        let ghost before = out@;
        out.insert(pos, x);
        proof {
            broadcast use vstd::seq_lib::group_to_multiset_ensures;

            // The inserted view removes back to the old one, so the new
            // multiset is the old one with `x` added.
            before.insert_ensures(pos as int, x);
            assert(out@ == before.insert(pos as int, x));
            assert(before.insert(pos as int, x).to_multiset() == before.to_multiset().insert(x));
            assert(spec_rank_numbers(logs@.take(i as int + 1)) =~= spec_rank_numbers(
                logs@.take(i as int),
            ).push(x));
            assert(spec_rank_numbers(logs@.take(i as int + 1)).to_multiset() =~= spec_rank_numbers(
                logs@.take(i as int),
            ).to_multiset().insert(x));
            // Sortedness: everything before `pos` is at most `x`, and
            // `x` is below whatever it displaced.
            assert forall|a: int, b: int|
                0 <= a <= b < out@.len() implies out@[a] <= out@[b] by {
                if a < pos && b == pos {
                } else if a == pos && b > pos {
                    assert(out@[b] == before[b - 1]);
                } else if a < pos && b > pos {
                    assert(out@[a] == before[a]);
                    assert(out@[b] == before[b - 1]);
                } else if a > pos && b > pos {
                    assert(out@[a] == before[a - 1]);
                    assert(out@[b] == before[b - 1]);
                } else if a < pos && b < pos {
                    assert(out@[a] == before[a]);
                    assert(out@[b] == before[b]);
                }
            }
        }
        i = i + 1;
    }
    proof {
        assert(logs@.take(logs@.len() as int) =~= logs@);
    }
    out
}

/// The jobs in processing order: ascending by rank number, never by
/// discovery order, since directory iteration order is not guaranteed;
/// jobs of one rank keep their discovery order among themselves.
pub fn processing_order(logs: &Vec<RankLog>) -> (r: Vec<RankLog>)
    ensures
        r@.len() == logs@.len(),
        forall|i: int, j: int| 0 <= i <= j < r@.len() ==> r@[i].rank <= r@[j].rank,
        r@.to_multiset() == logs@.to_multiset(),
{
    let mut out: Vec<RankLog> = Vec::new();
    let mut i: usize = 0;
    proof {
        assert(logs@.take(0) =~= Seq::<RankLog>::empty());
        assert(out@ =~= Seq::<RankLog>::empty());
    }
    while i < logs.len()
        invariant
            i <= logs@.len(),
            out@.len() == i,
            forall|a: int, b: int| 0 <= a <= b < out@.len() ==> out@[a].rank <= out@[b].rank,
            out@.to_multiset() == logs@.take(i as int).to_multiset(),
        decreases logs@.len() - i,
    {
        let x = logs[i];
        let mut pos: usize = 0;
        while pos < out.len() && out[pos].rank <= x.rank
            invariant
                pos <= out@.len(),
                forall|a: int| 0 <= a < pos ==> out@[a].rank <= x.rank,
            decreases out@.len() - pos,
        {
            pos = pos + 1;
        }
        let ghost before = out@;
        out.insert(pos, x);
        proof {
            broadcast use vstd::seq_lib::group_to_multiset_ensures;

            before.insert_ensures(pos as int, x);
            assert(out@ == before.insert(pos as int, x));
            assert(before.insert(pos as int, x).to_multiset() == before.to_multiset().insert(x));
            assert(logs@.take(i as int + 1) =~= logs@.take(i as int).push(x));
            assert(logs@.take(i as int).push(x).to_multiset() =~= logs@.take(
                i as int,
            ).to_multiset().insert(x));
            assert forall|a: int, b: int|
                0 <= a <= b < out@.len() implies out@[a].rank <= out@[b].rank by {
                if a < pos && b == pos {
                } else if a == pos && b > pos {
                    assert(out@[b] == before[b - 1]);
                } else if a < pos && b > pos {
                    assert(out@[a] == before[a]);
                    assert(out@[b] == before[b - 1]);
                } else if a > pos && b > pos {
                    assert(out@[a] == before[a - 1]);
                    assert(out@[b] == before[b - 1]);
                } else if a < pos && b < pos {
                    assert(out@[a] == before[a]);
                    assert(out@[b] == before[b]);
                }
            }
        }
        i = i + 1;
    }
    proof {
        assert(logs@.take(logs@.len() as int) =~= logs@);
    }
    out
}

/// The decimal labels of the sorted ranks, for display.
pub fn rank_labels(sorted: &Vec<u32>) -> (r: Vec<String>)
    ensures
        r@.len() == sorted@.len(),
        forall|i: int| 0 <= i < r@.len() ==> r@[i]@ == dec_str(sorted@[i] as nat),
{
    let mut r: Vec<String> = Vec::new();
    let mut i: usize = 0;
    while i < sorted.len()
        invariant
            i <= sorted@.len(),
            r@.len() == i,
            forall|j: int| 0 <= j < i ==> r@[j]@ == dec_str(sorted@[j] as nat),
        decreases sorted@.len() - i,
    {
        let cs = u32_dec_chars(sorted[i]);
        r.push(string_of(&cs));
        i = i + 1;
    }
    r
}

/// The isolated output subdirectory of one rank: `rank_<n>`.
pub fn rank_subdir(rank: u32) -> (r: String)
    ensures
        r@ == "rank_"@ + dec_str(rank as nat),
{
    let mut cs = chars_of("rank_");
    let ds = u32_dec_chars(rank);
    crate::text::push_chars(&mut cs, &ds);
    string_of(&cs)
}

/// Where a multi-rank run stands: which job is next, or where it failed,
/// or that every job succeeded.
#[derive(Debug, Clone, Copy, PartialEq, Eq, Structural)]
pub enum RunPhase {
    InProgress { next: usize },
    Failed { at: usize },
    Complete,
}

/// One step of the fail-fast run: a failure ends the run where it stands,
/// a success moves to the next job or completes the run.
pub open spec fn spec_step(total: int, ph: RunPhase, ok: bool) -> RunPhase {
    match ph {
        RunPhase::InProgress { next } => {
            if !ok {
                RunPhase::Failed { at: next }
            } else if next + 1 < total {
                RunPhase::InProgress { next: (next + 1) as usize }
            } else {
                RunPhase::Complete
            }
        },
        RunPhase::Failed { at } => RunPhase::Failed { at },
        RunPhase::Complete => RunPhase::Complete,
    }
}

/// The phase after reporting the given per-job results, in order.
pub open spec fn spec_run_phase(total: int, results: Seq<bool>) -> RunPhase
    decreases results.len(),
{
    if results.len() == 0 {
        if total == 0 {
            RunPhase::Complete
        } else {
            RunPhase::InProgress { next: 0 }
        }
    } else {
        spec_step(total, spec_run_phase(total, results.drop_last()), results.last())
    }
}

/// The phase before any job has been processed.
pub fn begin_processing(jobs: &Vec<RankLog>) -> (r: RunPhase)
    ensures
        r == spec_run_phase(jobs@.len() as int, Seq::<bool>::empty()),
{
    if jobs.len() == 0 {
        RunPhase::Complete
    } else {
        RunPhase::InProgress { next: 0 }
    }
}

/// The job to process next, when one is owed.
pub fn current_job(jobs: &Vec<RankLog>, ph: &RunPhase) -> (r: Option<RankLog>)
    ensures
        r == (match *ph {
            RunPhase::InProgress { next } => {
                if next < jobs@.len() {
                    Some(jobs@[next as int])
                } else {
                    None
                }
            },
            _ => None,
        }),
{
    match ph {
        RunPhase::InProgress { next } => {
            if *next < jobs.len() {
                Some(jobs[*next])
            } else {
                None
            }
        },
        _ => None,
    }
}

/// Reports the outcome of the job just processed and moves the run on.
pub fn advance(jobs: &Vec<RankLog>, ph: RunPhase, ok: bool) -> (r: RunPhase)
    requires
        ph matches RunPhase::InProgress { next } && next < jobs@.len(),
    ensures
        r == spec_step(jobs@.len() as int, ph, ok),
{
    let total = jobs.len();
    match ph {
        RunPhase::InProgress { next } => {
            if !ok {
                RunPhase::Failed { at: next }
            } else if next + 1 < total {
                RunPhase::InProgress { next: next + 1 }
            } else {
                RunPhase::Complete
            }
        },
        _ => ph,
    }
}

/// The landing page is owed only when every job succeeded.
pub fn should_emit_landing(ph: &RunPhase) -> (r: bool)
    ensures
        r == (*ph is Complete),
{
    match ph {
        RunPhase::Complete => true,
        _ => false,
    }
}

/// Fail-fast: when the results are successes up to the first failure,
/// the run ends in the failed phase — every job before the failing one,
/// earlier in rank order, was processed and has its output, and the
/// landing page is never owed.
pub proof fn lemma_fail_fast(total: int, results: Seq<bool>, k: int)
    requires
        0 <= k < results.len() <= total <= usize::MAX,
        !results[k],
        forall|j: int| 0 <= j < k ==> results[j],
        results.len() == k + 1,
    ensures
        spec_run_phase(total, results) == (RunPhase::Failed { at: k as usize }),
        !(spec_run_phase(total, results) is Complete),
    decreases results.len(),
{
    if k == 0 {
        assert(results.drop_last().len() == 0);
    } else {
        lemma_steady_progress(total, results.drop_last());
    }
}

/// While every reported result is a success and jobs remain, the run
/// stands at the job after the last reported one.
pub proof fn lemma_steady_progress(total: int, results: Seq<bool>)
    requires
        results.len() < total <= usize::MAX,
        forall|j: int| 0 <= j < results.len() ==> results[j],
    ensures
        spec_run_phase(total, results) == (RunPhase::InProgress { next: results.len() as usize }),
    decreases results.len(),
{
    if results.len() > 0 {
        lemma_steady_progress(total, results.drop_last());
    }
}

/// A run whose every job succeeded is complete, and owes the landing
/// page.
pub proof fn lemma_all_ok_completes(total: int, results: Seq<bool>)
    requires
        0 <= total <= usize::MAX,
        results.len() == total,
        forall|j: int| 0 <= j < results.len() ==> results[j],
    ensures
        spec_run_phase(total, results) is Complete,
    decreases results.len(),
{
    if results.len() > 0 {
        if results.len() - 1 < total {
            lemma_steady_progress(total, results.drop_last());
        }
    }
}

/// The cross-rank landing context: sorted rank labels, their count, and
/// the cross-rank diagnostic flags, absent signals defaulting to off.
#[derive(Debug, Clone)]
pub struct MultiRankContext {
    pub css: String,
    pub custom_header_html: String,
    pub num_ranks: usize,
    pub ranks: Vec<String>,
    pub qps: String,
    pub has_chromium_events: bool,
    pub show_desync_warning: bool,
    pub compile_id_divergence: bool,
}

/// Builds the landing context from the sorted rank numbers: one decimal
/// label per rank in ascending order, the rank count, and every
/// diagnostic flag off, since absent signals default to false.
pub fn build_multi_rank_context(sorted: &Vec<u32>, custom_header_html: &String) -> (r:
    MultiRankContext)
    ensures
        r.ranks@.len() == sorted@.len(),
        forall|i: int| 0 <= i < sorted@.len() ==> r.ranks@[i]@ == dec_str(sorted@[i] as nat),
        r.num_ranks == sorted@.len(),
        r.custom_header_html@ == custom_header_html@,
        r.css@ == Seq::<char>::empty(),
        r.qps@ == Seq::<char>::empty(),
        !r.has_chromium_events,
        !r.show_desync_warning,
        !r.compile_id_divergence,
{
    let labels = rank_labels(sorted);
    MultiRankContext {
        css: String::new(),
        custom_header_html: custom_header_html.clone(),
        num_ranks: labels.len(),
        ranks: labels,
        qps: String::new(),
        has_chromium_events: false,
        show_desync_warning: false,
        compile_id_divergence: false,
    }
}

} // verus!
