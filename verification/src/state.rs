//! The fuzzer state: the aggregate that owns the corpus, the solutions,
//! the random source, the global metadata and the feedback/objective
//! states, exposed to components through capability traits.

use vstd::prelude::*;

use crate::corpus::InMemoryCorpus;
use crate::metadata::MetadataStore;
use crate::rand::RandSource;

verus! {

/// The default maximum size hint for testcases and mutations.
pub const DEFAULT_MAX_SIZE: usize = 1_048_576;

/// A fuzzer state: the aggregate all components operate on.
pub trait State {

}

/// Elements offering a testcase corpus.
pub trait HasCorpus {
    /// The corpus type.
    type Corpus;

    /// The corpus, as a specification value.
    spec fn spec_corpus(&self) -> Self::Corpus;

    /// The testcase corpus.
    fn corpus(&self) -> (r: &Self::Corpus)
        ensures
            *r == self.spec_corpus(),
    ;

    /// The testcase corpus (mutable).
    fn corpus_mut(&mut self) -> (r: &mut Self::Corpus)
        ensures
            *r == old(self).spec_corpus(),
            final(self).spec_corpus() == *final(r),
    ;
}

/// Elements carrying a maximum size hint for items and mutations.
pub trait HasMaxSize {
    /// The maximum size hint, as a specification value.
    spec fn spec_max_size(&self) -> usize;

    /// The maximum size hint.
    fn max_size(&self) -> (r: usize)
        ensures
            r == self.spec_max_size(),
    ;

    /// Set the maximum size hint.
    fn set_max_size(&mut self, max_size: usize)
        ensures
            final(self).spec_max_size() == max_size,
    ;
}

/// Elements offering a corpus of solutions.
pub trait HasSolutions {
    /// The solutions corpus type.
    type Solutions;

    /// The solutions corpus, as a specification value.
    spec fn spec_solutions(&self) -> Self::Solutions;

    /// The solutions corpus.
    fn solutions(&self) -> (r: &Self::Solutions)
        ensures
            *r == self.spec_solutions(),
    ;

    /// The solutions corpus (mutable).
    fn solutions_mut(&mut self) -> (r: &mut Self::Solutions)
        ensures
            *r == old(self).spec_solutions(),
            final(self).spec_solutions() == *final(r),
    ;
}

/// Elements offering a random source.
pub trait HasRand {
    /// The random source type.
    type Rand;

    /// The random source, as a specification value.
    spec fn spec_rand(&self) -> Self::Rand;

    /// The random source.
    fn rand(&self) -> (r: &Self::Rand)
        ensures
            *r == self.spec_rand(),
    ;

    /// The random source (mutable).
    fn rand_mut(&mut self) -> (r: &mut Self::Rand)
        ensures
            *r == old(self).spec_rand(),
            final(self).spec_rand() == *final(r),
    ;
}

/// Elements offering a metadata store.
pub trait HasMetadata {
    /// The metadata store, as a specification value.
    spec fn spec_metadata(&self) -> MetadataStore;

    /// The metadata store.
    fn metadata(&self) -> (r: &MetadataStore)
        ensures
            *r == self.spec_metadata(),
    ;

    /// The metadata store (mutable).
    fn metadata_mut(&mut self) -> (r: &mut MetadataStore)
        ensures
            *r == old(self).spec_metadata(),
            final(self).spec_metadata() == *final(r),
    ;
}

/// Elements owning the feedback and objective states.  The state is held
/// by exactly one owner, the fuzzer state aggregate, and handed out by
/// reference for the duration of one operation.
pub trait HasFeedbackObjectiveStates {
    /// The state tree for feedbacks.
    type FeedbackState;

    /// The state tree for objective feedbacks.
    type ObjectiveState;

    /// The feedback and objective states, as a specification value.
    spec fn spec_feedback_objective_states(&self) -> (Self::FeedbackState, Self::ObjectiveState);

    /// The feedback and objective states.
    fn feedback_objective_states(&self) -> (r: &(Self::FeedbackState, Self::ObjectiveState))
        ensures
            *r == self.spec_feedback_objective_states(),
    ;
}

/// Elements counting executions of the target.
pub trait HasExecutions {
    /// The executions counter, as a specification value.
    spec fn spec_executions(&self) -> usize;

    /// The executions counter.
    fn executions(&self) -> (r: &usize)
        ensures
            *r == self.spec_executions(),
    ;

    /// The executions counter (mutable).
    fn executions_mut(&mut self) -> (r: &mut usize)
        ensures
            *r == old(self).spec_executions(),
            final(self).spec_executions() == *final(r),
    ;
}

/// Elements recording the starting time, in milliseconds.
pub trait HasStartTime {
    /// The starting time, as a specification value.
    spec fn spec_start_time(&self) -> u64;

    /// The starting time.
    fn start_time(&self) -> (r: &u64)
        ensures
            *r == self.spec_start_time(),
    ;

    /// The starting time (mutable).
    fn start_time_mut(&mut self) -> (r: &mut u64)
        ensures
            *r == old(self).spec_start_time(),
            final(self).spec_start_time() == *final(r),
    ;
}

/// The standard fuzzer state, generic over the feedback and objective
/// state trees it owns.
#[derive(Debug)]
pub struct StdState<FS, OS> {
    /// The random source.
    pub rand: RandSource,
    /// How many times the executor ran the target.
    pub executions: usize,
    /// When fuzzing started, in milliseconds.
    pub start_time: u64,
    /// The testcase corpus.
    pub corpus: InMemoryCorpus,
    /// The feedback and objective state trees, owned here exactly once.
    pub feedback_objective_states: (FS, OS),
    /// The solutions corpus.
    pub solutions: InMemoryCorpus,
    /// Global metadata stored by components.
    pub metadata: MetadataStore,
    /// The maximum size hint for testcases and mutations.
    pub max_size: usize,
}

impl<FS, OS> StdState<FS, OS> {
    /// Well-formed: both corpora are well-formed.
    pub open spec fn wf(&self) -> bool {
        self.corpus.wf() && self.solutions.wf()
    }

    /// A fresh state owning the given components.
    pub fn new(
        rand: RandSource,
        corpus: InMemoryCorpus,
        solutions: InMemoryCorpus,
        feedback_state: FS,
        objective_state: OS,
    ) -> (r: Self)
        ensures
            r.rand == rand,
            r.executions == 0,
            r.start_time == 0,
            r.corpus == corpus,
            r.solutions == solutions,
            r.metadata == MetadataStore::spec_empty(),
            r.max_size == DEFAULT_MAX_SIZE,
            r.feedback_objective_states == (feedback_state, objective_state),
    {
        StdState {
            rand,
            executions: 0,
            start_time: 0,
            corpus,
            feedback_objective_states: (feedback_state, objective_state),
            solutions,
            metadata: MetadataStore::new(),
            max_size: DEFAULT_MAX_SIZE,
        }
    }
}

impl<FS, OS> State for StdState<FS, OS> {

}

impl<FS, OS> HasCorpus for StdState<FS, OS> {
    type Corpus = InMemoryCorpus;

    open spec fn spec_corpus(&self) -> InMemoryCorpus {
        self.corpus
    }

    fn corpus(&self) -> (r: &InMemoryCorpus) {
        &self.corpus
    }

    fn corpus_mut(&mut self) -> (r: &mut InMemoryCorpus) {
        &mut self.corpus
    }
}

impl<FS, OS> HasMaxSize for StdState<FS, OS> {
    open spec fn spec_max_size(&self) -> usize {
        self.max_size
    }

    fn max_size(&self) -> (r: usize) {
        self.max_size
    }

    fn set_max_size(&mut self, max_size: usize) {
        self.max_size = max_size;
    }
}

impl<FS, OS> HasSolutions for StdState<FS, OS> {
    type Solutions = InMemoryCorpus;

    open spec fn spec_solutions(&self) -> InMemoryCorpus {
        self.solutions
    }

    fn solutions(&self) -> (r: &InMemoryCorpus) {
        &self.solutions
    }

    fn solutions_mut(&mut self) -> (r: &mut InMemoryCorpus) {
        &mut self.solutions
    }
}

impl<FS, OS> HasRand for StdState<FS, OS> {
    type Rand = RandSource;

    open spec fn spec_rand(&self) -> RandSource {
        self.rand
    }

    fn rand(&self) -> (r: &RandSource) {
        &self.rand
    }

    fn rand_mut(&mut self) -> (r: &mut RandSource) {
        &mut self.rand
    }
}

impl<FS, OS> HasMetadata for StdState<FS, OS> {
    open spec fn spec_metadata(&self) -> MetadataStore {
        self.metadata
    }

    fn metadata(&self) -> (r: &MetadataStore) {
        &self.metadata
    }

    fn metadata_mut(&mut self) -> (r: &mut MetadataStore) {
        &mut self.metadata
    }
}

impl<FS, OS> HasFeedbackObjectiveStates for StdState<FS, OS> {
    type FeedbackState = FS;

    type ObjectiveState = OS;

    open spec fn spec_feedback_objective_states(&self) -> (FS, OS) {
        self.feedback_objective_states
    }

    fn feedback_objective_states(&self) -> (r: &(FS, OS)) {
        &self.feedback_objective_states
    }
}

impl<FS, OS> HasExecutions for StdState<FS, OS> {
    open spec fn spec_executions(&self) -> usize {
        self.executions
    }

    fn executions(&self) -> (r: &usize) {
        &self.executions
    }

    fn executions_mut(&mut self) -> (r: &mut usize) {
        &mut self.executions
    }
}

impl<FS, OS> HasStartTime for StdState<FS, OS> {
    open spec fn spec_start_time(&self) -> u64 {
        self.start_time
    }

    fn start_time(&self) -> (r: &u64) {
        &self.start_time
    }

    fn start_time_mut(&mut self) -> (r: &mut u64) {
        &mut self.start_time
    }
}

} // verus!
