//! The weighted scheduler: insertion hook, rebuild, and selection.

use fuzzsched::Error;
use fuzzsched::corpus::InMemoryCorpus;
use fuzzsched::input::BytesInput;
use fuzzsched::metadata::{MetadataEntry, PowerSchedule, PowerScheduleMetadata,
    PowerScheduleTestcaseMetadata, WeightedScheduleMetadata};
use fuzzsched::rand::RandSource;
use fuzzsched::scheduler::WeightedScheduler;
use fuzzsched::state::StdState;
use fuzzsched::testcase::Testcase;

fn fresh_state() -> StdState<(), ()> {
    StdState::new(RandSource::new(12345), InMemoryCorpus::new(), InMemoryCorpus::new(), (), ())
}

/// A state whose corpus holds one testcase per given depth, with the
/// scheduler metadata registered.
fn state_with_depths(strat: PowerSchedule, depths: &[u32]) -> StdState<(), ()> {
    let mut state = fresh_state();
    state.metadata.insert(MetadataEntry::PowerSchedule(PowerScheduleMetadata::new(strat)));
    state.metadata.insert(MetadataEntry::WeightedSchedule(WeightedScheduleMetadata::new()));
    for d in depths {
        let mut tc = Testcase::new(BytesInput::new(vec![*d as u8]));
        tc.add_metadata(MetadataEntry::TestcasePower(PowerScheduleTestcaseMetadata::new(*d)));
        state.corpus.add(tc);
    }
    state
}

#[test]
fn next_on_empty_corpus_fails_without_mutation() {
    let sched = WeightedScheduler::new();
    let mut state = fresh_state();
    let rand_before = state.rand;
    assert_eq!(sched.next(&mut state), Err(Error::EmptyCorpus));
    assert_eq!(state.rand, rand_before);
    assert_eq!(state.corpus.count(), 0);
    assert!(!state.metadata.has_weighted_schedule());
    assert!(!state.metadata.has_power_schedule());
}

#[test]
fn next_without_scheduler_metadata_fails() {
    let sched = WeightedScheduler::new();
    let mut state = fresh_state();
    state.corpus.add(Testcase::new(BytesInput::new(vec![0u8])));
    assert_eq!(sched.next(&mut state), Err(Error::KeyNotFound));
}

#[test]
fn on_add_stamps_depth_zero_for_seeds() {
    let sched = WeightedScheduler::new();
    let mut state = fresh_state();
    let idx = state.corpus.add(Testcase::new(BytesInput::new(vec![1u8])));
    assert_eq!(idx, 0);
    assert!(sched.on_add(&mut state, idx).is_ok());
    let meta = state.corpus.get(0).metadata.get_testcase_power().unwrap();
    assert_eq!(meta.depth(), 0);
    assert_eq!(meta.n_fuzz_entry(), 0);
}

#[test]
fn on_add_stamps_parent_depth_plus_one() {
    let sched = WeightedScheduler::new();
    let mut state = fresh_state();
    let seed = state.corpus.add(Testcase::new(BytesInput::new(vec![1u8])));
    sched.on_add(&mut state, seed).unwrap();
    state.corpus.set_current(seed);
    let child = state.corpus.add(Testcase::new(BytesInput::new(vec![2u8])));
    sched.on_add(&mut state, child).unwrap();
    assert_eq!(state.corpus.get(child).metadata.get_testcase_power().unwrap().depth(), 1);
    state.corpus.set_current(child);
    let grandchild = state.corpus.add(Testcase::new(BytesInput::new(vec![3u8])));
    sched.on_add(&mut state, grandchild).unwrap();
    assert_eq!(state.corpus.get(grandchild).metadata.get_testcase_power().unwrap().depth(), 2);
}

#[test]
fn on_add_with_unstamped_parent_fails() {
    let sched = WeightedScheduler::new();
    let mut state = fresh_state();
    state.corpus.add(Testcase::new(BytesInput::new(vec![1u8])));
    state.corpus.set_current(0);
    let child = state.corpus.add(Testcase::new(BytesInput::new(vec![2u8])));
    assert_eq!(sched.on_add(&mut state, child), Err(Error::KeyNotFound));
    assert!(state.corpus.get(child).metadata.get_testcase_power().is_none());
}

#[test]
fn rebuild_computes_exact_scores_and_tables() {
    let sched = WeightedScheduler::new();
    // depth factors 1, 2 and 5 under the uniform strategy
    let mut state = state_with_depths(PowerSchedule::Explore, &[0, 5, 30]);
    assert!(sched.create_alias_table(&mut state).is_ok());
    let wm = state.metadata.get_weighted_schedule().unwrap();
    assert_eq!(wm.perf_scores(), &vec![100u64, 200, 500]);
    assert_eq!(wm.total_weight(), 800);
    assert_eq!(wm.alias_table().len(), 3);
    assert_eq!(wm.alias_probability().len(), 3);
    for i in 0..3 {
        assert!(wm.alias_probability()[i] <= 800);
        assert!(wm.alias_table()[i] < 3);
    }
}

#[test]
fn rebuild_conserves_selection_mass() {
    let sched = WeightedScheduler::new();
    let mut state = state_with_depths(PowerSchedule::Explore, &[0, 2, 5, 9, 30]);
    assert!(sched.create_alias_table(&mut state).is_ok());
    let wm = state.metadata.get_weighted_schedule().unwrap();
    let n = 5u64;
    let total: u64 = wm.perf_scores().iter().sum();
    assert_eq!(wm.total_weight(), total);
    // column mass of every index is exactly n * score, so the whole
    // table carries mass n * total and probabilities stay in range
    let mut mass_sum = 0u64;
    for j in 0..5 {
        let mut mass = wm.alias_probability()[j];
        for i in 0..5 {
            if wm.alias_table()[i] == j {
                mass += total - wm.alias_probability()[i];
            }
        }
        assert_eq!(mass, n * wm.perf_scores()[j]);
        mass_sum += mass;
    }
    assert_eq!(mass_sum, n * total);
}

#[test]
fn sampling_frequency_is_proportional_to_scores() {
    let sched = WeightedScheduler::new();
    let mut state = state_with_depths(PowerSchedule::Explore, &[0, 5, 30]);
    assert!(sched.create_alias_table(&mut state).is_ok());
    let wm = state.metadata.get_weighted_schedule().unwrap();
    let n = 3usize;
    let total = wm.total_weight();
    // enumerate every equally likely draw pair and count selections
    let mut counts = [0u64; 3];
    for s in 0..n {
        for u in 0..total {
            let idx = if u < wm.alias_probability()[s] { s } else { wm.alias_table()[s] };
            counts[idx] += 1;
        }
    }
    // of the n * total pairs, index j wins exactly n * score[j]
    assert_eq!(counts[0], 3 * 100);
    assert_eq!(counts[1], 3 * 200);
    assert_eq!(counts[2], 3 * 500);
}

#[test]
fn rebuild_on_empty_corpus_fails() {
    let sched = WeightedScheduler::new();
    let mut state = state_with_depths(PowerSchedule::Explore, &[]);
    assert_eq!(sched.create_alias_table(&mut state), Err(Error::EmptyCorpus));
}

#[test]
fn rebuild_without_testcase_metadata_fails() {
    let sched = WeightedScheduler::new();
    let mut state = state_with_depths(PowerSchedule::Explore, &[0]);
    state.corpus.add(Testcase::new(BytesInput::new(vec![9u8])));
    assert_eq!(sched.create_alias_table(&mut state), Err(Error::KeyNotFound));
}

#[test]
fn coe_rebuild_with_no_contributing_bucket_fails() {
    let sched = WeightedScheduler::new();
    // every bucket count is zero: the entropy estimate has no term
    let mut state = state_with_depths(PowerSchedule::Coe, &[0, 1]);
    assert_eq!(sched.create_alias_table(&mut state), Err(Error::CorruptState));
}

#[test]
fn coe_deprioritizes_over_fuzzed_buckets() {
    let sched = WeightedScheduler::new();
    let mut state = state_with_depths(PowerSchedule::Coe, &[0, 0]);
    {
        let ps = state.metadata.power_schedule_mut();
        ps.set_n_fuzz_entry(0, 2);
        ps.set_n_fuzz_entry(1, 16);
    }
    {
        let tc = state.corpus.get_mut(1);
        let m = tc.metadatas().testcase_power_mut();
        m.set_n_fuzz_entry(1);
    }
    // mu = (log2(2) + log2(16)) / 2 = 5/2; log2(16)*2 = 8 > 5, so the
    // second testcase is cut off while the first keeps the base score
    assert!(sched.create_alias_table(&mut state).is_ok());
    let wm = state.metadata.get_weighted_schedule().unwrap();
    assert_eq!(wm.perf_scores(), &vec![100u64, 1]);
}

#[test]
fn cycle_counter_increments_after_full_pass() {
    let sched = WeightedScheduler::new();
    let mut state = state_with_depths(PowerSchedule::Explore, &[0, 1, 2]);
    for k in 1..=3u64 {
        assert!(sched.next(&mut state).is_ok());
        let runs = state.metadata.get_weighted_schedule().unwrap().runs_in_current_cycle();
        let cycles = state.metadata.get_power_schedule().unwrap().queue_cycles();
        if k < 3 {
            assert_eq!(runs, k);
            assert_eq!(cycles, 0);
        } else {
            assert_eq!(runs, 0);
            assert_eq!(cycles, 1);
        }
    }
}

#[test]
fn next_returns_valid_indices() {
    let sched = WeightedScheduler::new();
    let mut state = state_with_depths(PowerSchedule::Explore, &[0, 5, 30]);
    for _ in 0..50 {
        let idx = sched.next(&mut state).unwrap();
        assert!(idx < 3);
    }
}

#[test]
fn next_on_singleton_corpus_always_selects_it() {
    let sched = WeightedScheduler::new();
    let mut state = state_with_depths(PowerSchedule::Explore, &[0]);
    for _ in 0..10 {
        assert_eq!(sched.next(&mut state).unwrap(), 0);
    }
}

#[test]
fn next_rebuilds_only_when_stale() {
    let sched = WeightedScheduler::new();
    let mut state = state_with_depths(PowerSchedule::Explore, &[0, 1]);
    sched.next(&mut state).unwrap();
    let table_before = state.metadata.get_weighted_schedule().unwrap().alias_table().clone();
    sched.next(&mut state).unwrap();
    let table_after = state.metadata.get_weighted_schedule().unwrap().alias_table().clone();
    assert_eq!(table_before, table_after);
}

#[test]
fn next_detects_corrupted_alias_entry() {
    let sched = WeightedScheduler::new();
    let mut state = state_with_depths(PowerSchedule::Explore, &[0]);
    // tables of the right shape and scale, but an alias index pointing
    // outside the corpus: kept (not stale) and caught at selection
    let planted = WeightedScheduleMetadata {
        runs_in_current_cycle: 0,
        alias_table: vec![99usize],
        alias_probability: vec![0u64],
        perf_scores: vec![1u64],
        total_weight: 1,
    };
    state.metadata.insert(MetadataEntry::WeightedSchedule(planted));
    assert_eq!(sched.next(&mut state), Err(Error::CorruptState));
}

#[test]
fn empirical_selection_frequency_tracks_scores() {
    let sched = WeightedScheduler::new();
    let mut state = state_with_depths(PowerSchedule::Explore, &[0, 5, 30]);
    // scores 100, 200 and 500 out of 800: expect roughly 12.5%, 25%
    // and 62.5% of the draws
    let draws = 8000u64;
    let mut counts = [0u64; 3];
    for _ in 0..draws {
        counts[sched.next(&mut state).unwrap()] += 1;
    }
    let expected = [1000u64, 2000, 5000];
    for j in 0..3 {
        let lo = expected[j] - expected[j] / 5;
        let hi = expected[j] + expected[j] / 5;
        assert!(counts[j] >= lo && counts[j] <= hi, "index {}: {}", j, counts[j]);
    }
}
