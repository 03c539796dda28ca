//! Metadata attached to testcases and to the global fuzzing state: a
//! closed registry keyed by metadata kind, holding at most one entry of
//! each kind.  Inserting a kind again replaces the previous entry and a
//! missing entry is a recoverable "not found", never a crash.

use vstd::prelude::*;

verus! {

/// Metadata attached to a testcase or to the global state.  Every kind
/// carries a name that is unique across the whole program.
pub trait TestcaseMetadata {
    /// The name of this metadata kind, as a sequence of characters.
    spec fn spec_name(&self) -> Seq<char>;

    /// The name of this metadata kind.
    fn name(&self) -> (r: &'static str)
        ensures
            r@ == self.spec_name(),
    ;
}

/// The power-schedule strategy in effect.
#[derive(Clone, Copy, Debug, PartialEq, Eq, Structural)]
pub enum PowerSchedule {
    /// Uniform base score for every testcase.
    Explore,
    /// Favour testcases whose novelty bucket has seen few executions.
    Fast,
    /// Cut-off exponential: deprioritise testcases fuzzed more than the
    /// corpus average, measured through a log2 entropy estimate.
    Coe,
    /// A strongly concentrated base score.
    Exploit,
}

/// Global power-schedule bookkeeping: the strategy, the queue-cycle
/// counter, and the table of accumulated execution counts per
/// coverage-novelty bucket.
#[derive(Debug)]
pub struct PowerScheduleMetadata {
    pub strat: PowerSchedule,
    pub queue_cycles: u64,
    pub n_fuzz: Vec<u32>,
}

/// The number of coverage-novelty buckets in a fresh count table.
pub const N_FUZZ_SIZE: usize = 65536;

impl PowerScheduleMetadata {
    /// A fresh table for `strat`: no completed cycles and every bucket
    /// count zero.
    pub fn new(strat: PowerSchedule) -> (r: Self)
        ensures
            r.strat == strat,
            r.queue_cycles == 0,
            r.n_fuzz@.len() == N_FUZZ_SIZE,
            forall|i: int| 0 <= i < r.n_fuzz@.len() ==> r.n_fuzz@[i] == 0u32,
    {
        PowerScheduleMetadata { strat, queue_cycles: 0, n_fuzz: vec![0u32; N_FUZZ_SIZE] }
    }

    /// The strategy in effect.
    pub fn strat(&self) -> (r: PowerSchedule)
        ensures
            r == self.strat,
    {
        self.strat
    }

    /// The number of completed queue cycles.
    pub fn queue_cycles(&self) -> (r: u64)
        ensures
            r == self.queue_cycles,
    {
        self.queue_cycles
    }

    /// Set the queue-cycle counter.
    pub fn set_queue_cycles(&mut self, cycles: u64)
        ensures
            final(self).queue_cycles == cycles,
            final(self).strat == old(self).strat,
            final(self).n_fuzz == old(self).n_fuzz,
    {
        self.queue_cycles = cycles;
    }

    /// The accumulated execution count of every bucket.
    pub fn n_fuzz(&self) -> (r: &Vec<u32>)
        ensures
            r == &self.n_fuzz,
    {
        &self.n_fuzz
    }

    /// Record an accumulated execution count for one bucket.
    pub fn set_n_fuzz_entry(&mut self, bucket: usize, count: u32)
        requires
            bucket < old(self).n_fuzz@.len(),
        ensures
            final(self).n_fuzz@ == old(self).n_fuzz@.update(bucket as int, count),
            final(self).strat == old(self).strat,
            final(self).queue_cycles == old(self).queue_cycles,
    {
        self.n_fuzz.set(bucket, count);
    }
}

impl TestcaseMetadata for PowerScheduleMetadata {
    open spec fn spec_name(&self) -> Seq<char> {
        "power_schedule"@
    }

    fn name(&self) -> (r: &'static str)
        ensures
            r@ == self.spec_name(),
    {
        "power_schedule"
    }
}

/// Per-testcase power-schedule statistics: the depth of the testcase in
/// the mutation ancestry and the coverage-novelty bucket its discovery is
/// attributed to.
#[derive(Clone, Copy, Debug, PartialEq, Eq, Structural)]
pub struct PowerScheduleTestcaseMetadata {
    pub depth: u32,
    pub n_fuzz_entry: usize,
}

impl PowerScheduleTestcaseMetadata {
    /// Metadata for a testcase found at `depth`, attributed to bucket 0
    /// until the novelty bucket is recorded.
    pub fn new(depth: u32) -> (r: Self)
        ensures
            r.depth == depth,
            r.n_fuzz_entry == 0,
    {
        PowerScheduleTestcaseMetadata { depth, n_fuzz_entry: 0 }
    }

    /// The depth in the mutation ancestry.
    pub fn depth(&self) -> (r: u32)
        ensures
            r == self.depth,
    {
        self.depth
    }

    /// The coverage-novelty bucket this testcase is attributed to.
    pub fn n_fuzz_entry(&self) -> (r: usize)
        ensures
            r == self.n_fuzz_entry,
    {
        self.n_fuzz_entry
    }

    /// Attribute the testcase to a coverage-novelty bucket.
    pub fn set_n_fuzz_entry(&mut self, entry: usize)
        ensures
            final(self).n_fuzz_entry == entry,
            final(self).depth == old(self).depth,
    {
        self.n_fuzz_entry = entry;
    }
}

impl TestcaseMetadata for PowerScheduleTestcaseMetadata {
    open spec fn spec_name(&self) -> Seq<char> {
        "power_schedule_testcase"@
    }

    fn name(&self) -> (r: &'static str)
        ensures
            r@ == self.spec_name(),
    {
        "power_schedule_testcase"
    }
}

/// Global state of the weighted scheduler: the run counter of the current
/// cycle and the sampling tables, all rebuilt together.  Probabilities
/// are held in fixed point: `alias_probability[i]` out of `total_weight`.
#[derive(Debug)]
pub struct WeightedScheduleMetadata {
    pub runs_in_current_cycle: u64,
    pub alias_table: Vec<usize>,
    pub alias_probability: Vec<u64>,
    pub perf_scores: Vec<u64>,
    pub total_weight: u64,
}

impl WeightedScheduleMetadata {
    /// Empty tables; the first selection rebuilds them.
    pub fn new() -> (r: Self)
        ensures
            r.runs_in_current_cycle == 0,
            r.alias_table@.len() == 0,
            r.alias_probability@.len() == 0,
            r.perf_scores@.len() == 0,
            r.total_weight == 0,
    {
        WeightedScheduleMetadata {
            runs_in_current_cycle: 0,
            alias_table: Vec::new(),
            alias_probability: Vec::new(),
            perf_scores: Vec::new(),
            total_weight: 0,
        }
    }

    /// The number of selections made in the current queue cycle.
    pub fn runs_in_current_cycle(&self) -> (r: u64)
        ensures
            r == self.runs_in_current_cycle,
    {
        self.runs_in_current_cycle
    }

    /// Set the number of selections made in the current queue cycle.
    pub fn set_runs_current_cycle(&mut self, cycles: u64)
        ensures
            *final(self) == (WeightedScheduleMetadata { runs_in_current_cycle: cycles, ..*old(self) }),
    {
        self.runs_in_current_cycle = cycles;
    }

    /// The alias index of every slot.
    pub fn alias_table(&self) -> (r: &Vec<usize>)
        ensures
            r == &self.alias_table,
    {
        &self.alias_table
    }

    /// Replace the alias indices.
    pub fn set_alias_table(&mut self, table: Vec<usize>)
        ensures
            *final(self) == (WeightedScheduleMetadata { alias_table: table, ..*old(self) }),
    {
        self.alias_table = table;
    }

    /// The cutoff of every slot, in fixed point out of `total_weight`.
    pub fn alias_probability(&self) -> (r: &Vec<u64>)
        ensures
            r == &self.alias_probability,
    {
        &self.alias_probability
    }

    /// Replace the cutoffs.
    pub fn set_alias_probability(&mut self, probability: Vec<u64>)
        ensures
            *final(self) == (WeightedScheduleMetadata { alias_probability: probability, ..*old(self) }),
    {
        self.alias_probability = probability;
    }

    /// The cached performance score of every testcase.
    pub fn perf_scores(&self) -> (r: &Vec<u64>)
        ensures
            r == &self.perf_scores,
    {
        &self.perf_scores
    }

    /// Replace the cached performance scores.
    pub fn set_perf_scores(&mut self, perf_scores: Vec<u64>)
        ensures
            *final(self) == (WeightedScheduleMetadata { perf_scores: perf_scores, ..*old(self) }),
    {
        self.perf_scores = perf_scores;
    }

    /// The sum of all performance scores: the fixed-point scale of the
    /// cutoffs.
    pub fn total_weight(&self) -> (r: u64)
        ensures
            r == self.total_weight,
    {
        self.total_weight
    }
}

impl TestcaseMetadata for WeightedScheduleMetadata {
    open spec fn spec_name(&self) -> Seq<char> {
        "weighted_schedule"@
    }

    fn name(&self) -> (r: &'static str)
        ensures
            r@ == self.spec_name(),
    {
        "weighted_schedule"
    }
}

/// One metadata entry, tagged by its kind.
#[derive(Debug)]
pub enum MetadataEntry {
    PowerSchedule(PowerScheduleMetadata),
    WeightedSchedule(WeightedScheduleMetadata),
    TestcasePower(PowerScheduleTestcaseMetadata),
}

/// A store holding at most one metadata entry of each kind.  One instance
/// is embedded in every testcase and one in the global fuzzing state.
#[derive(Debug)]
pub struct MetadataStore {
    pub power_schedule: Option<PowerScheduleMetadata>,
    pub weighted_schedule: Option<WeightedScheduleMetadata>,
    pub testcase_power: Option<PowerScheduleTestcaseMetadata>,
}

/// The store after `entry` is inserted: the slot of its kind replaced,
/// every other slot untouched.
pub open spec fn store_insert(s: MetadataStore, entry: MetadataEntry) -> MetadataStore {
    match entry {
        MetadataEntry::PowerSchedule(m) => MetadataStore { power_schedule: Some(m), ..s },
        MetadataEntry::WeightedSchedule(m) => MetadataStore { weighted_schedule: Some(m), ..s },
        MetadataEntry::TestcasePower(m) => MetadataStore { testcase_power: Some(m), ..s },
    }
}

impl MetadataStore {
    /// The store with no entry of any kind.
    pub open spec fn spec_empty() -> MetadataStore {
        MetadataStore { power_schedule: None, weighted_schedule: None, testcase_power: None }
    }

    /// An empty store.
    pub fn new() -> (r: Self)
        ensures
            r == MetadataStore::spec_empty(),
    {
        MetadataStore { power_schedule: None, weighted_schedule: None, testcase_power: None }
    }

    /// Store `entry`, replacing any previous entry of the same kind.
    pub fn insert(&mut self, entry: MetadataEntry)
        ensures
            *final(self) == store_insert(*old(self), entry),
    {
        match entry {
            MetadataEntry::PowerSchedule(m) => {
                self.power_schedule = Some(m);
            },
            MetadataEntry::WeightedSchedule(m) => {
                self.weighted_schedule = Some(m);
            },
            MetadataEntry::TestcasePower(m) => {
                self.testcase_power = Some(m);
            },
        }
    }

    /// The global power-schedule entry, if present.
    pub fn get_power_schedule(&self) -> (r: Option<&PowerScheduleMetadata>)
        ensures
            r is Some <==> self.power_schedule is Some,
            r is Some ==> *r->0 == self.power_schedule->0,
    {
        self.power_schedule.as_ref()
    }

    /// Whether a global power-schedule entry is present.
    pub fn has_power_schedule(&self) -> (r: bool)
        ensures
            r == (self.power_schedule is Some),
    {
        self.power_schedule.is_some()
    }

    /// Mutable access to the global power-schedule entry.
    pub fn power_schedule_mut(&mut self) -> (m: &mut PowerScheduleMetadata)
        requires
            old(self).power_schedule is Some,
        ensures
            *m == old(self).power_schedule->0,
            *final(self) == (MetadataStore { power_schedule: Some(*final(m)), ..*old(self) }),
    {
        match &mut self.power_schedule {
            Some(m) => m,
            None => vstd::pervasive::unreached(),
        }
    }

    /// The weighted-scheduler entry, if present.
    pub fn get_weighted_schedule(&self) -> (r: Option<&WeightedScheduleMetadata>)
        ensures
            r is Some <==> self.weighted_schedule is Some,
            r is Some ==> *r->0 == self.weighted_schedule->0,
    {
        self.weighted_schedule.as_ref()
    }

    /// Whether a weighted-scheduler entry is present.
    pub fn has_weighted_schedule(&self) -> (r: bool)
        ensures
            r == (self.weighted_schedule is Some),
    {
        self.weighted_schedule.is_some()
    }

    /// Mutable access to the weighted-scheduler entry.
    pub fn weighted_schedule_mut(&mut self) -> (m: &mut WeightedScheduleMetadata)
        requires
            old(self).weighted_schedule is Some,
        ensures
            *m == old(self).weighted_schedule->0,
            *final(self) == (MetadataStore { weighted_schedule: Some(*final(m)), ..*old(self) }),
    {
        match &mut self.weighted_schedule {
            Some(m) => m,
            None => vstd::pervasive::unreached(),
        }
    }

    /// The per-testcase power-schedule entry, if present.
    pub fn get_testcase_power(&self) -> (r: Option<&PowerScheduleTestcaseMetadata>)
        ensures
            r is Some <==> self.testcase_power is Some,
            r is Some ==> *r->0 == self.testcase_power->0,
    {
        self.testcase_power.as_ref()
    }

    /// Whether a per-testcase power-schedule entry is present.
    pub fn has_testcase_power(&self) -> (r: bool)
        ensures
            r == (self.testcase_power is Some),
    {
        self.testcase_power.is_some()
    }

    /// Mutable access to the per-testcase power-schedule entry.
    pub fn testcase_power_mut(&mut self) -> (m: &mut PowerScheduleTestcaseMetadata)
        requires
            old(self).testcase_power is Some,
        ensures
            *m == old(self).testcase_power->0,
            *final(self) == (MetadataStore { testcase_power: Some(*final(m)), ..*old(self) }),
    {
        match &mut self.testcase_power {
            Some(m) => m,
            None => vstd::pervasive::unreached(),
        }
    }
}

/// Retrieval is keyed by kind: inserting an entry makes retrieval of its
/// kind return exactly that entry, leaves every other kind untouched, and
/// inserting the same kind again replaces the previous entry.  A kind
/// never inserted reads back as absent.
pub proof fn lemma_store_keyed_by_kind(
    s: MetadataStore,
    m1: PowerScheduleTestcaseMetadata,
    m2: PowerScheduleTestcaseMetadata,
)
    ensures
        store_insert(s, MetadataEntry::TestcasePower(m1)).testcase_power == Some(m1),
        store_insert(s, MetadataEntry::TestcasePower(m1)).power_schedule == s.power_schedule,
        store_insert(s, MetadataEntry::TestcasePower(m1)).weighted_schedule == s.weighted_schedule,
        store_insert(
            store_insert(s, MetadataEntry::TestcasePower(m1)),
            MetadataEntry::TestcasePower(m2),
        ).testcase_power == Some(m2),
        MetadataStore::spec_empty().power_schedule is None,
        MetadataStore::spec_empty().weighted_schedule is None,
        MetadataStore::spec_empty().testcase_power is None,
{
}

/// The names of the metadata kinds are pairwise distinct, so entries of
/// different kinds can never collide in a store.
pub proof fn lemma_metadata_names_distinct(
    a: PowerScheduleMetadata,
    b: PowerScheduleTestcaseMetadata,
    c: WeightedScheduleMetadata,
)
    ensures
        a.spec_name() != b.spec_name(),
        a.spec_name() != c.spec_name(),
        b.spec_name() != c.spec_name(),
{
    reveal_strlit("power_schedule");
    reveal_strlit("power_schedule_testcase");
    reveal_strlit("weighted_schedule");
    assert(a.spec_name().len() != b.spec_name().len());
    assert(a.spec_name().len() != c.spec_name().len());
    assert(b.spec_name().len() != c.spec_name().len());
}

} // verus!
