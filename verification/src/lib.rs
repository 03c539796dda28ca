//! Scheduling core of a coverage-guided fuzzer: testcase lifecycle,
//! type-keyed metadata storage, and a weighted corpus scheduler that
//! samples testcases in O(1) through an alias table kept in exact
//! integer arithmetic.

pub mod alias;
pub mod corpus;
pub mod input;
pub mod metadata;
pub mod rand;
pub mod scheduler;
pub mod score;
pub mod state;
pub mod storage;
pub mod testcase;

use vstd::prelude::*;

verus! {

/// The recoverable error conditions of the scheduling core.
///
/// Every operation reports failure through one of these kinds; none of the
/// verified functions panics.
#[derive(Clone, Copy, Debug, PartialEq, Eq, Structural)]
pub enum Error {
    /// A lifecycle transition violates the testcase state machine.
    IllegalState,
    /// An operation needs an input or a file path that is absent.
    EmptyReference,
    /// An expected metadata entry is missing from a store.
    KeyNotFound,
    /// A selection was requested from a corpus with no entries.
    EmptyCorpus,
    /// An internal consistency check failed.
    CorruptState,
    /// The underlying storage medium failed.
    Io,
}

} // verus!
