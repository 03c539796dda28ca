//! The storage medium behind file-backed testcases, abstracted as a map
//! from path to byte contents.  The lifecycle machine is verified against
//! this interface; `MemStorage` is the in-memory implementation.

use vstd::prelude::*;

use crate::Error;

verus! {

/// A store of named byte blobs.  `contents()` is the abstract state:
/// which paths exist and what bytes each holds.
pub trait Storage {
    /// The abstract contents: a map from path to bytes.
    spec fn contents(&self) -> Map<Seq<char>, Seq<u8>>;

    /// Read the blob at `path`.  Succeeds exactly when the path exists,
    /// returning its bytes unchanged.
    fn read(&self, path: &String) -> (r: Result<Vec<u8>, Error>)
        ensures
            match r {
                Ok(data) => self.contents().contains_key(path@) && data@ == self.contents()[path@],
                Err(e) => !self.contents().contains_key(path@) && e == Error::Io,
            },
    ;

    /// Overwrite (or create) the blob at `path`.  On success the contents
    /// are updated at exactly that path; on failure they are unchanged.
    fn write(&mut self, path: &String, data: &Vec<u8>) -> (r: Result<(), Error>)
        ensures
            match r {
                Ok(()) => final(self).contents() == old(self).contents().insert(path@, data@),
                Err(e) => final(self).contents() == old(self).contents() && e == Error::Io,
            },
    ;
}

/// The map described by a journal of writes, later entries overriding
/// earlier ones.
pub open spec fn journal_contents(s: Seq<(String, Vec<u8>)>) -> Map<Seq<char>, Seq<u8>>
    decreases s.len(),
{
    if s.len() == 0 {
        Map::empty()
    } else {
        journal_contents(s.drop_last()).insert(s.last().0@, s.last().1@)
    }
}

/// An in-memory store: a journal of writes, the newest entry for a path
/// giving its current bytes.
pub struct MemStorage {
    pub entries: Vec<(String, Vec<u8>)>,
}

impl MemStorage {
    /// An empty store.
    pub fn new() -> (r: Self)
        ensures
            r.contents() == Map::<Seq<char>, Seq<u8>>::empty(),
    {
        MemStorage { entries: Vec::new() }
    }
}

impl Storage for MemStorage {
    open spec fn contents(&self) -> Map<Seq<char>, Seq<u8>> {
        journal_contents(self.entries@)
    }

    fn read(&self, path: &String) -> (r: Result<Vec<u8>, Error>)
        ensures
            match r {
                Ok(data) => self.contents().contains_key(path@) && data@ == self.contents()[path@],
                Err(e) => !self.contents().contains_key(path@) && e == Error::Io,
            },
    {
        let ghost full = self.entries@;
        let mut j = self.entries.len();
        proof {
            assert(full.take(full.len() as int) =~= full);
        }
        while j > 0
            invariant
                j <= self.entries@.len(),
                full == self.entries@,
                self.contents().contains_key(path@) == journal_contents(
                    full.take(j as int),
                ).contains_key(path@),
                journal_contents(full.take(j as int)).contains_key(path@)
                    ==> self.contents()[path@] == journal_contents(full.take(j as int))[path@],
            decreases j,
        {
            j = j - 1;
            proof {
                assert(full.take(j + 1).drop_last() =~= full.take(j as int));
                assert(full.take(j + 1).last() == full[j as int]);
            }
            if self.entries[j].0.eq(path) {
                let data = self.entries[j].1.clone();
                proof {
                    assert(data@ =~= full[j as int].1@);
                }
                return Ok(data);
            }
        }
        proof {
            assert(full.take(0) =~= Seq::<(String, Vec<u8>)>::empty());
        }
        Err(Error::Io)
    }

    fn write(&mut self, path: &String, data: &Vec<u8>) -> (r: Result<(), Error>)
        ensures
            match r {
                Ok(()) => final(self).contents() == old(self).contents().insert(path@, data@),
                Err(e) => final(self).contents() == old(self).contents() && e == Error::Io,
            },
    {
        let key = path.clone();
        let fresh = data.clone();
        proof {
            assert(fresh@ =~= data@);
        }
        self.entries.push((key, fresh));
        proof {
            assert(self.entries@.drop_last() =~= old(self).entries@);
        }
        Ok(())
    }
}

} // verus!
