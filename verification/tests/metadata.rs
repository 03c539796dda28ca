//! The type-keyed metadata store.

use fuzzsched::metadata::{MetadataEntry, MetadataStore, PowerSchedule, PowerScheduleMetadata,
    PowerScheduleTestcaseMetadata, TestcaseMetadata, WeightedScheduleMetadata};
use fuzzsched::testcase::Testcase;
use fuzzsched::input::BytesInput;

#[test]
fn insert_then_get_returns_value() {
    let mut store = MetadataStore::new();
    store.insert(MetadataEntry::TestcasePower(PowerScheduleTestcaseMetadata::new(7)));
    let got = store.get_testcase_power().unwrap();
    assert_eq!(got.depth(), 7);
    assert_eq!(got.n_fuzz_entry(), 0);
}

#[test]
fn get_never_inserted_is_not_found() {
    let store = MetadataStore::new();
    assert!(store.get_power_schedule().is_none());
    assert!(store.get_weighted_schedule().is_none());
    assert!(store.get_testcase_power().is_none());
    assert!(!store.has_power_schedule());
    assert!(!store.has_weighted_schedule());
    assert!(!store.has_testcase_power());
}

#[test]
fn insert_same_kind_replaces() {
    let mut store = MetadataStore::new();
    store.insert(MetadataEntry::TestcasePower(PowerScheduleTestcaseMetadata::new(1)));
    store.insert(MetadataEntry::TestcasePower(PowerScheduleTestcaseMetadata::new(2)));
    assert_eq!(store.get_testcase_power().unwrap().depth(), 2);
}

#[test]
fn insert_one_kind_leaves_others_untouched() {
    let mut store = MetadataStore::new();
    store.insert(MetadataEntry::PowerSchedule(PowerScheduleMetadata::new(PowerSchedule::Fast)));
    assert!(store.has_power_schedule());
    assert!(!store.has_weighted_schedule());
    assert!(!store.has_testcase_power());
    store.insert(MetadataEntry::WeightedSchedule(WeightedScheduleMetadata::new()));
    assert!(store.has_power_schedule());
    assert_eq!(store.get_power_schedule().unwrap().strat(), PowerSchedule::Fast);
}

#[test]
fn metadata_names_are_distinct() {
    let a = PowerScheduleMetadata::new(PowerSchedule::Explore);
    let b = PowerScheduleTestcaseMetadata::new(0);
    let c = WeightedScheduleMetadata::new();
    assert_ne!(a.name(), b.name());
    assert_ne!(a.name(), c.name());
    assert_ne!(b.name(), c.name());
}

#[test]
fn fresh_power_schedule_metadata_is_zeroed() {
    let ps = PowerScheduleMetadata::new(PowerSchedule::Coe);
    assert_eq!(ps.strat(), PowerSchedule::Coe);
    assert_eq!(ps.queue_cycles(), 0);
    assert_eq!(ps.n_fuzz().len(), 65536);
    assert!(ps.n_fuzz().iter().all(|c| *c == 0));
}

#[test]
fn set_n_fuzz_entry_records_count() {
    let mut ps = PowerScheduleMetadata::new(PowerSchedule::Explore);
    ps.set_n_fuzz_entry(3, 99);
    assert_eq!(ps.n_fuzz()[3], 99);
    assert_eq!(ps.n_fuzz()[4], 0);
}

#[test]
fn weighted_schedule_accessors_round_trip() {
    let mut wm = WeightedScheduleMetadata::new();
    assert_eq!(wm.runs_in_current_cycle(), 0);
    assert_eq!(wm.total_weight(), 0);
    wm.set_runs_current_cycle(5);
    wm.set_alias_table(vec![1usize, 0]);
    wm.set_alias_probability(vec![10u64, 20]);
    wm.set_perf_scores(vec![100u64, 200]);
    assert_eq!(wm.runs_in_current_cycle(), 5);
    assert_eq!(wm.alias_table(), &vec![1usize, 0]);
    assert_eq!(wm.alias_probability(), &vec![10u64, 20]);
    assert_eq!(wm.perf_scores(), &vec![100u64, 200]);
}

#[test]
fn testcase_metadata_attachment() {
    let mut tc = Testcase::new(BytesInput::new(vec![0u8]));
    assert!(!tc.metadatas().has_testcase_power());
    tc.add_metadata(MetadataEntry::TestcasePower(PowerScheduleTestcaseMetadata::new(3)));
    assert_eq!(tc.metadatas().get_testcase_power().unwrap().depth(), 3);
}
