//! The corpus: an ordered, indexable collection of testcases with a
//! cursor for the currently selected entry.

use vstd::prelude::*;

use crate::testcase::Testcase;

verus! {

/// The largest number of entries a corpus may hold.  The bound keeps the
/// scheduler's fixed-point weight arithmetic inside `u64`.
pub const CORPUS_LIMIT: usize = 0x1000_0000;

/// An in-memory corpus of testcases.
#[derive(Debug)]
pub struct InMemoryCorpus {
    pub items: Vec<Testcase>,
    pub current: Option<usize>,
}

impl InMemoryCorpus {
    /// Well-formed: the cursor, when set, points at an entry, and the
    /// corpus is within its size bound.
    pub open spec fn wf(&self) -> bool {
        &&& (self.current matches Some(c) ==> c < self.items@.len())
        &&& self.items@.len() <= CORPUS_LIMIT
    }

    /// An empty corpus with no selection.
    pub fn new() -> (r: Self)
        ensures
            r.items@.len() == 0,
            r.current is None,
            r.wf(),
    {
        InMemoryCorpus { items: Vec::new(), current: None }
    }

    /// The number of entries.
    pub fn count(&self) -> (r: usize)
        ensures
            r == self.items@.len(),
    {
        self.items.len()
    }

    /// The entry at `idx`.
    pub fn get(&self, idx: usize) -> (r: &Testcase)
        requires
            idx < self.items@.len(),
        ensures
            *r == self.items@[idx as int],
    {
        &self.items[idx]
    }

    /// The entry at `idx`, mutable.
    pub fn get_mut(&mut self, idx: usize) -> (r: &mut Testcase)
        requires
            idx < old(self).items@.len(),
        ensures
            *r == old(self).items@[idx as int],
            final(self).items@ == old(self).items@.update(idx as int, *final(r)),
            final(self).current == old(self).current,
    {
        &mut self.items[idx]
    }

    /// The currently selected index, if any.
    pub fn current(&self) -> (r: Option<usize>)
        ensures
            r == self.current,
    {
        self.current
    }

    /// Select the entry at `idx`.
    pub fn set_current(&mut self, idx: usize)
        requires
            idx < old(self).items@.len(),
        ensures
            *final(self) == (InMemoryCorpus { current: Some(idx), ..*old(self) }),
    {
        self.current = Some(idx);
    }

    /// Append a testcase and return its index.
    pub fn add(&mut self, testcase: Testcase) -> (r: usize)
        requires
            old(self).items@.len() < CORPUS_LIMIT,
        ensures
            r == old(self).items@.len(),
            final(self).items@ == old(self).items@.push(testcase),
            final(self).current == old(self).current,
            old(self).wf() ==> final(self).wf(),
    {
        let idx = self.items.len();
        self.items.push(testcase);
        idx
    }
}

} // verus!
