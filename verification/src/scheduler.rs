//! The weighted corpus scheduler: stamps per-testcase statistics at
//! insertion, rebuilds the alias sampling tables from performance scores
//! when the corpus has grown, and answers "which index to fuzz next" in
//! constant time.

use vstd::prelude::*;

use crate::Error;
use crate::alias::{build_alias_table, column_mass, sum_prefix, lemma_sum_prefix_agree,
    lemma_sum_prefix_bounds};
use crate::corpus::CORPUS_LIMIT;
use crate::metadata::{MetadataEntry, PowerSchedule, PowerScheduleMetadata,
    PowerScheduleTestcaseMetadata, WeightedScheduleMetadata};
use crate::rand::rand_step;
use crate::score::{calculate_score, log2_floor, spec_log2, spec_score, SCORE_CEIL};
use crate::state::StdState;
use crate::testcase::Testcase;

verus! {

/// Whether a testcase carries its power-schedule statistics.
pub open spec fn has_power_meta(t: Testcase) -> bool {
    t.metadata.testcase_power is Some
}

/// The power-schedule statistics of a testcase.
pub open spec fn power_meta(t: Testcase) -> PowerScheduleTestcaseMetadata {
    t.metadata.testcase_power->0
}

/// Whether the testcase's novelty bucket lies inside the global table.
pub open spec fn bucket_ok(t: Testcase, ps: PowerScheduleMetadata) -> bool {
    power_meta(t).n_fuzz_entry < ps.n_fuzz@.len()
}

/// The accumulated execution count of the testcase's novelty bucket.
pub open spec fn bucket_count(t: Testcase, ps: PowerScheduleMetadata) -> u32 {
    ps.n_fuzz@[power_meta(t).n_fuzz_entry as int]
}

/// The defect a rebuild finds at one testcase: statistics missing, or a
/// bucket outside the global table.
pub open spec fn entry_fault(t: Testcase, ps: PowerScheduleMetadata) -> Option<Error> {
    if !has_power_meta(t) {
        Some(Error::KeyNotFound)
    } else if !bucket_ok(t, ps) {
        Some(Error::CorruptState)
    } else {
        None
    }
}

/// The first defect among the first `k` testcases, scanning left to
/// right.
pub open spec fn scan_fault(s: Seq<Testcase>, ps: PowerScheduleMetadata, k: int) -> Option<Error>
    decreases k,
{
    if k <= 0 {
        None
    } else if scan_fault(s, ps, k - 1) is Some {
        scan_fault(s, ps, k - 1)
    } else {
        entry_fault(s[k - 1], ps)
    }
}

/// The numerator of the entropy estimate: the sum, over the first `k`
/// testcases whose bucket has been executed, of the log2 of that count.
pub open spec fn mu_sum(s: Seq<Testcase>, ps: PowerScheduleMetadata, k: int) -> int
    decreases k,
{
    if k <= 0 {
        0
    } else {
        mu_sum(s, ps, k - 1) + (if bucket_count(s[k - 1], ps) > 0 {
            spec_log2(bucket_count(s[k - 1], ps) as int)
        } else {
            0
        })
    }
}

/// The denominator of the entropy estimate: how many of the first `k`
/// testcases contribute a term.
pub open spec fn mu_count(s: Seq<Testcase>, ps: PowerScheduleMetadata, k: int) -> int
    decreases k,
{
    if k <= 0 {
        0
    } else {
        mu_count(s, ps, k - 1) + (if bucket_count(s[k - 1], ps) > 0 {
            1int
        } else {
            0int
        })
    }
}

/// The entropy estimate used by the active strategy: the mean log2
/// bucket count for the cut-off exponential strategy, and the neutral
/// `0 / 1` otherwise.
pub open spec fn mu_of(s: Seq<Testcase>, ps: PowerScheduleMetadata) -> (int, int) {
    if ps.strat is Coe {
        (mu_sum(s, ps, s.len() as int), mu_count(s, ps, s.len() as int))
    } else {
        (0, 1)
    }
}

/// The performance score of one testcase under the global statistics.
pub open spec fn entry_score(
    t: Testcase,
    ps: PowerScheduleMetadata,
    mu_num: int,
    mu_den: int,
) -> int {
    spec_score(power_meta(t).depth, bucket_count(t, ps), mu_num, mu_den, ps.strat)
}

/// The error a rebuild reports, if any: an empty corpus, a missing
/// global entry, the first per-testcase defect, or an entropy estimate
/// with no contributing testcase.
pub open spec fn rebuild_fault<FS, OS>(s: StdState<FS, OS>) -> Option<Error> {
    let entries = s.corpus.items@;
    if entries.len() == 0 {
        Some(Error::EmptyCorpus)
    } else if s.metadata.weighted_schedule is None {
        Some(Error::KeyNotFound)
    } else if s.metadata.power_schedule is None {
        Some(Error::KeyNotFound)
    } else {
        let ps = s.metadata.power_schedule->0;
        if scan_fault(entries, ps, entries.len() as int) is Some {
            scan_fault(entries, ps, entries.len() as int)
        } else if ps.strat is Coe && mu_count(entries, ps, entries.len() as int) == 0 {
            Some(Error::CorruptState)
        } else {
            None
        }
    }
}

/// What a successful rebuild leaves in the scheduler metadata: the exact
/// score of every testcase, their sum as the fixed-point scale, bounded
/// tables, and per-column selection mass exactly proportional to the
/// scores.  The run counter is preserved.
pub open spec fn rebuilt_tables(
    entries: Seq<Testcase>,
    ps: PowerScheduleMetadata,
    wm_old: WeightedScheduleMetadata,
    wm: WeightedScheduleMetadata,
) -> bool {
    let n = entries.len() as int;
    let mu = mu_of(entries, ps);
    &&& wm.runs_in_current_cycle == wm_old.runs_in_current_cycle
    &&& wm.perf_scores@.len() == n
    &&& forall|i: int|
        0 <= i < n ==> #[trigger] wm.perf_scores@[i] == entry_score(entries[i], ps, mu.0, mu.1)
    &&& wm.total_weight == sum_prefix(wm.perf_scores@, n)
    &&& n <= wm.total_weight <= SCORE_CEIL * n
    &&& wm.alias_probability@.len() == n
    &&& wm.alias_table@.len() == n
    &&& forall|i: int| 0 <= i < n ==> #[trigger] wm.alias_probability@[i] <= wm.total_weight
    &&& forall|i: int| 0 <= i < n ==> #[trigger] wm.alias_table@[i] < n
    &&& forall|j: int|
        0 <= j < n ==> column_mass(wm.alias_probability@, wm.alias_table@, wm.total_weight as int, j, n)
            == n * #[trigger] wm.perf_scores@[j]
}

/// Whether the sampling tables are out of step with a corpus of `n`
/// entries and must be rebuilt before use.
pub open spec fn tables_stale(wm: WeightedScheduleMetadata, n: int) -> bool {
    ||| wm.alias_table@.len() != n
    ||| wm.alias_probability@.len() != n
    ||| wm.perf_scores@.len() != n
    ||| wm.total_weight < 1
}

/// One selection's cycle accounting: the run counter advances, and when
/// it completes a pass over a corpus of `n` entries it resets and the
/// queue-cycle counter (saturating) increments.
pub open spec fn cycle_step(runs: u64, cycles: u64, n: int) -> (u64, u64) {
    if runs + 1 >= n {
        (0u64, if cycles == u64::MAX {
            cycles
        } else {
            (cycles + 1) as u64
        })
    } else {
        ((runs + 1) as u64, cycles)
    }
}

/// The error a selection reports, if any.  With fresh tables it is the
/// rebuild's fault; with kept tables a selection can still surface a
/// corrupted alias entry.
pub open spec fn next_fault<FS, OS>(s: StdState<FS, OS>) -> Option<Error> {
    let n = s.corpus.items@.len() as int;
    if n == 0 {
        Some(Error::EmptyCorpus)
    } else if s.metadata.weighted_schedule is None || s.metadata.power_schedule is None {
        Some(Error::KeyNotFound)
    } else {
        let wm = s.metadata.weighted_schedule->0;
        if tables_stale(wm, n) {
            rebuild_fault(s)
        } else {
            let sr = rand_step(s.rand.state) as int % n;
            let u = rand_step(rand_step(s.rand.state)) as int % (wm.total_weight as int);
            if u >= wm.alias_probability@[sr] && wm.alias_table@[sr] >= n {
                Some(Error::CorruptState)
            } else {
                None
            }
        }
    }
}

/// What a successful selection did: tables rebuilt exactly when they
/// were stale, cycle accounting applied once, the generator advanced by
/// two draws, and the returned index picked by the alias rule from those
/// draws.
pub open spec fn next_ok_post<FS, OS>(
    pre: StdState<FS, OS>,
    post: StdState<FS, OS>,
    idx: usize,
) -> bool {
    let n = pre.corpus.items@.len() as int;
    let wm0 = pre.metadata.weighted_schedule->0;
    let ps0 = pre.metadata.power_schedule->0;
    let wm1 = post.metadata.weighted_schedule->0;
    let ps1 = post.metadata.power_schedule->0;
    let s1 = rand_step(pre.rand.state);
    let s2 = rand_step(s1);
    let sr = s1 as int % n;
    let u = s2 as int % (wm1.total_weight as int);
    &&& post.corpus == pre.corpus
    &&& post.solutions == pre.solutions
    &&& post.executions == pre.executions
    &&& post.start_time == pre.start_time
    &&& post.max_size == pre.max_size
    &&& post.feedback_objective_states == pre.feedback_objective_states
    &&& post.rand.state == s2
    &&& post.metadata.weighted_schedule is Some
    &&& post.metadata.power_schedule is Some
    &&& post.metadata.testcase_power == pre.metadata.testcase_power
    &&& ps1.strat == ps0.strat
    &&& ps1.n_fuzz == ps0.n_fuzz
    &&& (wm1.runs_in_current_cycle, ps1.queue_cycles) == cycle_step(
        wm0.runs_in_current_cycle,
        ps0.queue_cycles,
        n,
    )
    &&& if tables_stale(wm0, n) {
        rebuilt_tables(
            pre.corpus.items@,
            ps0,
            wm0,
            (WeightedScheduleMetadata { runs_in_current_cycle: wm0.runs_in_current_cycle, ..wm1 }),
        )
    } else {
        &&& wm1.alias_table == wm0.alias_table
        &&& wm1.alias_probability == wm0.alias_probability
        &&& wm1.perf_scores == wm0.perf_scores
        &&& wm1.total_weight == wm0.total_weight
    }
    &&& !tables_stale(wm1, n)
    &&& idx as int == (if u < wm1.alias_probability@[sr] {
        sr
    } else {
        wm1.alias_table@[sr] as int
    })
    &&& idx < n
}

/// The error an insertion hook reports, if any: a selected parent whose
/// statistics are missing.
pub open spec fn on_add_fault<FS, OS>(s: StdState<FS, OS>) -> Option<Error> {
    match s.corpus.current {
        None => None,
        Some(p) => if has_power_meta(s.corpus.items@[p as int]) {
            None
        } else {
            Some(Error::KeyNotFound)
        },
    }
}

/// The depth stamped on a newly inserted testcase: zero for a seed with
/// no selected parent, the parent's depth plus one otherwise (saturating
/// at the type's maximum).
pub open spec fn new_depth<FS, OS>(s: StdState<FS, OS>) -> u32 {
    match s.corpus.current {
        None => 0,
        Some(p) => {
            let d = power_meta(s.corpus.items@[p as int]).depth;
            if d == u32::MAX {
                d
            } else {
                (d + 1) as u32
            }
        },
    }
}

/// The cycle accounting of `k` consecutive selections over a corpus of
/// `n` entries, with no insertions in between.
pub open spec fn cycle_iter(k: nat, runs: u64, cycles: u64, n: int) -> (u64, u64)
    decreases k,
{
    if k == 0 {
        (runs, cycles)
    } else {
        let prev = cycle_iter((k - 1) as nat, runs, cycles, n);
        cycle_step(prev.0, prev.1, n)
    }
}

/// Below a full pass, each selection only advances the run counter.
proof fn lemma_cycle_iter_partial(j: nat, cycles: u64, n: int)
    requires
        1 <= n <= u64::MAX,
        j <= n - 1,
    ensures
        cycle_iter(j, 0, cycles, n) == ((j as u64, cycles)),
    decreases j,
{
    if j > 0 {
        lemma_cycle_iter_partial((j - 1) as nat, cycles, n);
    }
}

/// Cycle counting: starting at the beginning of a cycle, exactly `n`
/// selections over a corpus of `n` entries, with no insertions in
/// between, increment the queue-cycle counter by exactly one and reset
/// the run counter to zero.
pub proof fn lemma_cycle_counting(cycles: u64, n: int)
    requires
        1 <= n <= u64::MAX,
        cycles < u64::MAX,
    ensures
        cycle_iter(n as nat, 0, cycles, n) == ((0u64, (cycles + 1) as u64)),
{
    lemma_cycle_iter_partial((n - 1) as nat, cycles, n);
}

/// Depth propagation: a testcase inserted while a parent is selected is
/// stamped with the parent's depth plus one; a seed inserted with no
/// selection is stamped with depth zero.
pub proof fn lemma_depth_propagation<FS, OS>(s: StdState<FS, OS>)
    requires
        s.corpus.current matches Some(p) ==> p < s.corpus.items@.len() && has_power_meta(
            s.corpus.items@[p as int],
        ) && power_meta(s.corpus.items@[p as int]).depth < u32::MAX,
    ensures
        s.corpus.current is None ==> new_depth(s) == 0,
        s.corpus.current matches Some(p) ==> new_depth(s) == power_meta(
            s.corpus.items@[p as int],
        ).depth + 1,
{
}

/// A scan with no fault has no faulty entry.
proof fn lemma_scan_fault_none_all(s: Seq<Testcase>, ps: PowerScheduleMetadata, k: int, i: int)
    requires
        scan_fault(s, ps, k) is None,
        0 <= i < k,
    ensures
        entry_fault(s[i], ps) is None,
    decreases k,
{
    if i < k - 1 {
        lemma_scan_fault_none_all(s, ps, k - 1, i);
    }
}

/// A fault found after a clean prefix is the fault of every longer scan.
proof fn lemma_scan_fault_propagates(s: Seq<Testcase>, ps: PowerScheduleMetadata, i: int, k: int)
    requires
        0 <= i < k <= s.len(),
        scan_fault(s, ps, i) is None,
        entry_fault(s[i], ps) is Some,
    ensures
        scan_fault(s, ps, k) == entry_fault(s[i], ps),
    decreases k,
{
    if k > i + 1 {
        lemma_scan_fault_propagates(s, ps, i, k - 1);
    }
}

/// A corpus scheduler with weighted, alias-method testcase selection.
#[derive(Clone, Copy, Debug)]
pub struct WeightedScheduler {

}

impl WeightedScheduler {
    /// Create a new scheduler.  It holds no state of its own: everything
    /// it maintains lives in the fuzzer state's metadata store.
    pub fn new() -> (r: Self)
        ensures
            r == (WeightedScheduler {  }),
    {
        WeightedScheduler {  }
    }

    /// Rebuild the sampling tables from the corpus statistics.
    ///
    /// On success the scheduler metadata holds the exact score of every
    /// testcase and alias tables whose selection mass is exactly
    /// proportional to those scores; on failure nothing changes.
    pub fn create_alias_table<FS, OS>(&self, state: &mut StdState<FS, OS>) -> (r: Result<
        (),
        Error,
    >)
        requires
            old(state).corpus.wf(),
        ensures
            match r {
                Ok(()) => {
                    &&& rebuild_fault(*old(state)) is None
                    &&& final(state).metadata.weighted_schedule matches Some(wm) && rebuilt_tables(
                        old(state).corpus.items@,
                        old(state).metadata.power_schedule->0,
                        old(state).metadata.weighted_schedule->0,
                        wm,
                    )
                    &&& final(state).metadata.power_schedule == old(state).metadata.power_schedule
                    &&& final(state).metadata.testcase_power == old(state).metadata.testcase_power
                    &&& final(state).corpus == old(state).corpus
                    &&& final(state).solutions == old(state).solutions
                    &&& final(state).rand == old(state).rand
                    &&& final(state).executions == old(state).executions
                    &&& final(state).start_time == old(state).start_time
                    &&& final(state).max_size == old(state).max_size
                    &&& final(state).feedback_objective_states == old(
                        state,
                    ).feedback_objective_states
                },
                Err(e) => rebuild_fault(*old(state)) == Some(e) && *final(state) == *old(state),
            },
    {
        let n = state.corpus.count();
        if n == 0 {
            return Err(Error::EmptyCorpus);
        }
        if !state.metadata.has_weighted_schedule() {
            return Err(Error::KeyNotFound);
        }
        let runs = match state.metadata.get_weighted_schedule() {
            Some(w) => w.runs_in_current_cycle,
            None => vstd::pervasive::unreached(),
        };
        let ps = match state.metadata.get_power_schedule() {
            Some(p) => p,
            None => {
                return Err(Error::KeyNotFound);
            },
        };
        let ghost entries = state.corpus.items@;
        let ghost psg = *ps;

        let mut mu_num: u64 = 0;
        let mut mu_den: u64 = 1;
        if ps.strat() == PowerSchedule::Coe {
            mu_den = 0;
            let mut i: usize = 0;
            while i < n
                invariant
                    *state == *old(state),
                    old(state).corpus.wf(),
                    n == entries.len(),
                    1 <= n <= CORPUS_LIMIT,
                    entries == state.corpus.items@,
                    state.metadata.power_schedule == Some(psg),
                    state.metadata.weighted_schedule is Some,
                    *ps == psg,
                    i <= n,
                    scan_fault(entries, psg, i as int) is None,
                    mu_num == mu_sum(entries, psg, i as int),
                    mu_den == mu_count(entries, psg, i as int),
                    mu_num <= 31 * (i as int),
                    mu_den <= i,
                decreases n - i,
            {
                let t = state.corpus.get(i);
                let bucket = match t.metadata.get_testcase_power() {
                    None => {
                        proof {
                            lemma_scan_fault_propagates(entries, psg, i as int, n as int);
                        }
                        return Err(Error::KeyNotFound);
                    },
                    Some(m) => m.n_fuzz_entry,
                };
                if bucket >= ps.n_fuzz().len() {
                    proof {
                        lemma_scan_fault_propagates(entries, psg, i as int, n as int);
                    }
                    return Err(Error::CorruptState);
                }
                let c = ps.n_fuzz()[bucket];
                if c > 0 {
                    let lc = log2_floor(c);
                    mu_num = mu_num + lc as u64;
                    mu_den = mu_den + 1;
                }
                i += 1;
            }
            if mu_den == 0 {
                return Err(Error::CorruptState);
            }
        }
        let ghost mu = mu_of(entries, psg);

        let mut perf: Vec<u64> = Vec::new();
        let mut total: u64 = 0;
        let mut i: usize = 0;
        while i < n
            invariant
                *state == *old(state),
                old(state).corpus.wf(),
                n == entries.len(),
                1 <= n <= CORPUS_LIMIT,
                entries == state.corpus.items@,
                state.metadata.power_schedule == Some(psg),
                state.metadata.weighted_schedule is Some,
                runs == state.metadata.weighted_schedule->0.runs_in_current_cycle,
                *ps == psg,
                i <= n,
                scan_fault(entries, psg, i as int) is None,
                psg.strat is Coe ==> scan_fault(entries, psg, n as int) is None && mu_count(
                    entries,
                    psg,
                    n as int,
                ) != 0,
                mu == mu_of(entries, psg),
                mu_num == mu.0,
                mu_den == mu.1,
                mu_num <= 31 * CORPUS_LIMIT,
                1 <= mu_den <= CORPUS_LIMIT,
                perf@.len() == i,
                forall|k: int|
                    0 <= k < i ==> #[trigger] perf@[k] == entry_score(entries[k], psg, mu.0, mu.1),
                forall|k: int| 0 <= k < i ==> 1 <= #[trigger] perf@[k] <= SCORE_CEIL,
                total == sum_prefix(perf@, i as int),
                total <= SCORE_CEIL * (i as int),
            decreases n - i,
        {
            let t = state.corpus.get(i);
            let m = match t.metadata.get_testcase_power() {
                None => {
                    proof {
                        if psg.strat is Coe {
                            lemma_scan_fault_none_all(entries, psg, n as int, i as int);
                        }
                        lemma_scan_fault_propagates(entries, psg, i as int, n as int);
                    }
                    return Err(Error::KeyNotFound);
                },
                Some(m) => m,
            };
            let bucket = m.n_fuzz_entry();
            let depth = m.depth();
            if bucket >= ps.n_fuzz().len() {
                proof {
                    if psg.strat is Coe {
                        lemma_scan_fault_none_all(entries, psg, n as int, i as int);
                    }
                    lemma_scan_fault_propagates(entries, psg, i as int, n as int);
                }
                return Err(Error::CorruptState);
            }
            let c = ps.n_fuzz()[bucket];
            let w = calculate_score(depth, c, mu_num, mu_den, ps.strat());
            let ghost perf0 = perf@;
            perf.push(w);
            proof {
                assert(perf@.drop_last() =~= perf0);
                lemma_sum_prefix_agree(perf@, perf0, i as int);
                assert(sum_prefix(perf@, i + 1) == sum_prefix(perf@, i as int) + w);
            }
            total = total + w;
            i += 1;
        }

        proof {
            lemma_sum_prefix_bounds(perf@, n as int);
        }
        let (prob, alias) = build_alias_table(&perf, total);
        let wm = WeightedScheduleMetadata {
            runs_in_current_cycle: runs,
            alias_table: alias,
            alias_probability: prob,
            perf_scores: perf,
            total_weight: total,
        };
        state.metadata.weighted_schedule = Some(wm);
        Ok(())
    }

    /// The insertion hook: stamp the new testcase's power-schedule
    /// statistics, deriving its depth from the currently selected
    /// parent.  The grown corpus leaves the sampling tables stale, so
    /// the next selection rebuilds them.
    pub fn on_add<FS, OS>(&self, state: &mut StdState<FS, OS>, idx: usize) -> (r: Result<
        (),
        Error,
    >)
        requires
            old(state).corpus.wf(),
            idx < old(state).corpus.items@.len(),
        ensures
            match r {
                Ok(()) => {
                    &&& on_add_fault(*old(state)) is None
                    &&& final(state).corpus.items@ == old(state).corpus.items@.update(
                        idx as int,
                        (Testcase {
                            metadata: crate::metadata::store_insert(
                                old(state).corpus.items@[idx as int].metadata,
                                MetadataEntry::TestcasePower(
                                    PowerScheduleTestcaseMetadata {
                                        depth: new_depth(*old(state)),
                                        n_fuzz_entry: 0,
                                    },
                                ),
                            ),
                            ..old(state).corpus.items@[idx as int]
                        }),
                    )
                    &&& final(state).corpus.current == old(state).corpus.current
                    &&& final(state).corpus.wf()
                    &&& final(state).solutions == old(state).solutions
                    &&& final(state).rand == old(state).rand
                    &&& final(state).metadata == old(state).metadata
                    &&& final(state).executions == old(state).executions
                    &&& final(state).start_time == old(state).start_time
                    &&& final(state).max_size == old(state).max_size
                    &&& final(state).feedback_objective_states == old(
                        state,
                    ).feedback_objective_states
                },
                Err(e) => on_add_fault(*old(state)) == Some(e) && *final(state) == *old(state),
            },
    {
        let depth: u32 = match state.corpus.current() {
            None => 0,
            Some(p) => {
                let parent = state.corpus.get(p);
                match parent.metadata.get_testcase_power() {
                    None => {
                        return Err(Error::KeyNotFound);
                    },
                    Some(m) => {
                        let d = m.depth();
                        if d == u32::MAX {
                            d
                        } else {
                            d + 1
                        }
                    },
                }
            },
        };
        let tc = state.corpus.get_mut(idx);
        tc.add_metadata(MetadataEntry::TestcasePower(PowerScheduleTestcaseMetadata::new(depth)));
        Ok(())
    }

    /// Select the index to fuzz next.
    ///
    /// Fails on an empty corpus without touching anything.  Rebuilds the
    /// sampling tables when the corpus has grown since the last rebuild,
    /// applies the cycle accounting, and draws the index through the
    /// alias rule: a uniform slot, kept when a second uniform draw falls
    /// below its cutoff, its alias otherwise.
    pub fn next<FS, OS>(&self, state: &mut StdState<FS, OS>) -> (r: Result<usize, Error>)
        requires
            old(state).corpus.wf(),
        ensures
            match r {
                Ok(idx) => next_fault(*old(state)) is None && next_ok_post(
                    *old(state),
                    *final(state),
                    idx,
                ),
                Err(e) => {
                    &&& next_fault(*old(state)) == Some(e)
                    &&& (*final(state) == *old(state) || (e == Error::CorruptState && *final(state)
                        == (StdState {
                        rand: (crate::rand::RandSource {
                            state: rand_step(rand_step(old(state).rand.state)),
                        }),
                        ..*old(state)
                    })))
                },
            },
    {
        let n = state.corpus.count();
        if n == 0 {
            return Err(Error::EmptyCorpus);
        }
        if !state.metadata.has_weighted_schedule() || !state.metadata.has_power_schedule() {
            return Err(Error::KeyNotFound);
        }
        let stale = {
            let wm = match state.metadata.get_weighted_schedule() {
                Some(w) => w,
                None => vstd::pervasive::unreached(),
            };
            wm.alias_table().len() != n || wm.alias_probability().len() != n
                || wm.perf_scores().len() != n || wm.total_weight() < 1
        };
        if stale {
            match self.create_alias_table(state) {
                Ok(()) => {},
                Err(e) => {
                    return Err(e);
                },
            }
        }

        let s1 = state.rand.below(n as u64);
        let sr = s1 as usize;
        let (cutoff, alias_idx, total) = {
            let wm = match state.metadata.get_weighted_schedule() {
                Some(w) => w,
                None => vstd::pervasive::unreached(),
            };
            (wm.alias_probability()[sr], wm.alias_table()[sr], wm.total_weight())
        };
        let u = state.rand.below(total);
        let idx = if u < cutoff {
            sr
        } else {
            alias_idx
        };
        if idx >= n {
            return Err(Error::CorruptState);
        }

        let bump: bool;
        {
            let wm = state.metadata.weighted_schedule_mut();
            let runs = wm.runs_in_current_cycle;
            if runs >= (n as u64) - 1 {
                wm.runs_in_current_cycle = 0;
                bump = true;
            } else {
                wm.runs_in_current_cycle = runs + 1;
                bump = false;
            }
        }
        if bump {
            let ps = state.metadata.power_schedule_mut();
            let cycles = ps.queue_cycles;
            if cycles < u64::MAX {
                ps.queue_cycles = cycles + 1;
            }
        }
        Ok(idx)
    }
}

} // verus!
