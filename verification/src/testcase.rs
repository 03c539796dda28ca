//! Testcases: corpus entries with an optional in-memory input, an
//! optional backing file, and a metadata store; and the explicit
//! three-state lifecycle machine for file-backed testcases.
//!
//! The lifecycle contracts guarantee that no transition ever discards
//! unsaved mutations: a load from `Dirty` fails, and an unload from
//! `Dirty` saves first.

use vstd::prelude::*;

use crate::Error;
use crate::input::BytesInput;
use crate::metadata::{MetadataEntry, MetadataStore};
use crate::storage::Storage;

verus! {

/// An entry in the testcase corpus.
#[derive(Debug)]
pub struct Testcase {
    /// The input of this testcase, if held in memory.
    pub input: Option<BytesInput>,
    /// The backing file, if this testcase has one.
    pub filename: Option<String>,
    /// The metadata attached to this testcase.
    pub metadata: MetadataStore,
}

impl Testcase {
    /// A testcase holding `input` in memory, with no backing file.
    pub fn new(input: BytesInput) -> (r: Self)
        ensures
            r.input == Some(input),
            r.filename is None,
            r.metadata == MetadataStore::spec_empty(),
    {
        Testcase { input: Some(input), filename: None, metadata: MetadataStore::new() }
    }

    /// A testcase holding `input` in memory, backed by `filename`.
    pub fn with_filename(input: BytesInput, filename: String) -> (r: Self)
        ensures
            r.input == Some(input),
            r.filename == Some(filename),
            r.metadata == MetadataStore::spec_empty(),
    {
        Testcase { input: Some(input), filename: Some(filename), metadata: MetadataStore::new() }
    }

    /// A testcase with neither an input nor a backing file.
    pub fn default() -> (r: Self)
        ensures
            r.input is None,
            r.filename is None,
            r.metadata == MetadataStore::spec_empty(),
    {
        Testcase { input: None, filename: None, metadata: MetadataStore::new() }
    }

    /// The input, if any.
    pub fn input(&self) -> (r: &Option<BytesInput>)
        ensures
            r == &self.input,
    {
        &self.input
    }

    /// The input, if any (mutable).
    pub fn input_mut(&mut self) -> (r: &mut Option<BytesInput>)
        ensures
            *r == old(self).input,
            *final(self) == (Testcase { input: *final(r), ..*old(self) }),
    {
        &mut self.input
    }

    /// The backing filename, if any.
    pub fn filename(&self) -> (r: &Option<String>)
        ensures
            r == &self.filename,
    {
        &self.filename
    }

    /// The backing filename, if any (mutable).
    pub fn filename_mut(&mut self) -> (r: &mut Option<String>)
        ensures
            *r == old(self).filename,
            *final(self) == (Testcase { filename: *final(r), ..*old(self) }),
    {
        &mut self.filename
    }

    /// The metadata attached to this testcase (mutable).
    pub fn metadatas(&mut self) -> (r: &mut MetadataStore)
        ensures
            *r == old(self).metadata,
            *final(self) == (Testcase { metadata: *final(r), ..*old(self) }),
    {
        &mut self.metadata
    }

    /// Attach a metadata entry, replacing any previous entry of the same
    /// kind.
    pub fn add_metadata(&mut self, meta: MetadataEntry)
        ensures
            *final(self) == (Testcase {
                metadata: crate::metadata::store_insert(old(self).metadata, meta),
                ..*old(self)
            }),
    {
        self.metadata.insert(meta);
    }

    /// Make sure a valid input is in memory, reading it from the backing
    /// file if needed and caching the result.  Fails with
    /// `EmptyReference` when neither an input nor a filename is present.
    pub fn load_input<S: Storage>(&mut self, storage: &S) -> (r: Result<(), Error>)
        ensures
            old(self).input is Some ==> r == Ok::<(), Error>(()) && *final(self) == *old(self),
            old(self).input is None && old(self).filename is None ==> r == Err::<(), Error>(
                Error::EmptyReference,
            ) && *final(self) == *old(self),
            (old(self).input is None && old(self).filename is Some) ==> {
                let f = old(self).filename->0@;
                if storage.contents().contains_key(f) {
                    &&& r == Ok::<(), Error>(())
                    &&& final(self).input matches Some(i) && i@ == storage.contents()[f]
                    &&& final(self).filename == old(self).filename
                    &&& final(self).metadata == old(self).metadata
                } else {
                    r == Err::<(), Error>(Error::Io) && *final(self) == *old(self)
                }
            },
            r is Err ==> *final(self) == *old(self),
    {
        if self.input.is_some() {
            return Ok(());
        }
        match &self.filename {
            None => Err(Error::EmptyReference),
            Some(f) => {
                match storage.read(f) {
                    Ok(data) => {
                        self.input = Some(BytesInput::new(data));
                        Ok(())
                    },
                    Err(e) => Err(e),
                }
            },
        }
    }
}

/// A file-backed testcase: an explicit lifecycle machine over the
/// in-memory input and the on-disk bytes.
#[derive(Debug)]
pub enum FileBackedTestcase {
    /// On disk only; no input in memory.
    Stored { filename: String },
    /// In memory and identical to the on-disk bytes.
    Loaded { input: BytesInput, filename: String },
    /// In memory and diverged from the on-disk bytes.
    Dirty { input: BytesInput, filename: String },
}

impl FileBackedTestcase {
    /// The path of the backing file.
    pub open spec fn filename_spec(&self) -> Seq<char> {
        match self {
            FileBackedTestcase::Stored { filename } => filename@,
            FileBackedTestcase::Loaded { filename, .. } => filename@,
            FileBackedTestcase::Dirty { filename, .. } => filename@,
        }
    }

    /// The bytes of the in-memory input; empty in `Stored`, which holds
    /// none.
    pub open spec fn input_spec(&self) -> Seq<u8> {
        match self {
            FileBackedTestcase::Stored { .. } => Seq::empty(),
            FileBackedTestcase::Loaded { input, .. } => input@,
            FileBackedTestcase::Dirty { input, .. } => input@,
        }
    }
}

/// What `load` does: from `Stored` it reads the backing file into
/// memory, from `Loaded` it is a no-op, and from `Dirty` it fails rather
/// than discard unsaved mutations.  The machine is unchanged on failure.
pub open spec fn load_post(
    pre: FileBackedTestcase,
    disk: Map<Seq<char>, Seq<u8>>,
    post: FileBackedTestcase,
    r: Result<(), Error>,
) -> bool {
    match pre {
        FileBackedTestcase::Stored { .. } => {
            if disk.contains_key(pre.filename_spec()) {
                &&& r == Ok::<(), Error>(())
                &&& post is Loaded
                &&& post.filename_spec() == pre.filename_spec()
                &&& post.input_spec() == disk[pre.filename_spec()]
            } else {
                r == Err::<(), Error>(Error::Io) && post == pre
            }
        },
        FileBackedTestcase::Loaded { .. } => r == Ok::<(), Error>(()) && post == pre,
        FileBackedTestcase::Dirty { .. } => r == Err::<(), Error>(Error::IllegalState) && post
            == pre,
    }
}

/// What `save` does: from `Dirty` it overwrites the backing file with
/// the in-memory input, from `Loaded` it is a no-op, and from `Stored`
/// it fails, there being nothing in memory to write.  A failed write
/// leaves both the machine and the disk unchanged.
pub open spec fn save_post(
    pre: FileBackedTestcase,
    disk_pre: Map<Seq<char>, Seq<u8>>,
    post: FileBackedTestcase,
    disk_post: Map<Seq<char>, Seq<u8>>,
    r: Result<(), Error>,
) -> bool {
    match pre {
        FileBackedTestcase::Loaded { .. } => {
            &&& r == Ok::<(), Error>(())
            &&& post == pre
            &&& disk_post == disk_pre
        },
        FileBackedTestcase::Dirty { .. } => {
            ||| {
                &&& r == Ok::<(), Error>(())
                &&& post is Loaded
                &&& post.filename_spec() == pre.filename_spec()
                &&& post.input_spec() == pre.input_spec()
                &&& disk_post == disk_pre.insert(pre.filename_spec(), pre.input_spec())
            }
            ||| {
                &&& r == Err::<(), Error>(Error::Io)
                &&& post == pre
                &&& disk_post == disk_pre
            }
        },
        FileBackedTestcase::Stored { .. } => {
            &&& r == Err::<(), Error>(Error::IllegalState)
            &&& post == pre
            &&& disk_post == disk_pre
        },
    }
}

/// What `refresh` does: route `Dirty` through `save`, anything else
/// through `load`, so that memory and disk agree afterwards.
pub open spec fn refresh_post(
    pre: FileBackedTestcase,
    disk_pre: Map<Seq<char>, Seq<u8>>,
    post: FileBackedTestcase,
    disk_post: Map<Seq<char>, Seq<u8>>,
    r: Result<(), Error>,
) -> bool {
    if pre is Dirty {
        save_post(pre, disk_pre, post, disk_post, r)
    } else {
        load_post(pre, disk_pre, post, r) && disk_post == disk_pre
    }
}

/// What `unload` does: drop the in-memory input, saving it first when it
/// has diverged from disk — unsaved mutations are never discarded.
pub open spec fn unload_post(
    pre: FileBackedTestcase,
    disk_pre: Map<Seq<char>, Seq<u8>>,
    post: FileBackedTestcase,
    disk_post: Map<Seq<char>, Seq<u8>>,
    r: Result<(), Error>,
) -> bool {
    match pre {
        FileBackedTestcase::Loaded { .. } => {
            &&& r == Ok::<(), Error>(())
            &&& post is Stored
            &&& post.filename_spec() == pre.filename_spec()
            &&& disk_post == disk_pre
        },
        FileBackedTestcase::Stored { .. } => {
            &&& r == Ok::<(), Error>(())
            &&& post == pre
            &&& disk_post == disk_pre
        },
        FileBackedTestcase::Dirty { .. } => {
            ||| {
                &&& r == Ok::<(), Error>(())
                &&& post is Stored
                &&& post.filename_spec() == pre.filename_spec()
                &&& disk_post == disk_pre.insert(pre.filename_spec(), pre.input_spec())
            }
            ||| {
                &&& r == Err::<(), Error>(Error::Io)
                &&& post == pre
                &&& disk_post == disk_pre
            }
        },
    }
}

impl FileBackedTestcase {
    /// Load the testcase from disk if it is not already loaded.  Fails
    /// from `Dirty`: a load there would discard unsaved mutations.
    pub fn load<S: Storage>(&mut self, storage: &S) -> (r: Result<(), Error>)
        ensures
            load_post(*old(self), storage.contents(), *final(self), r),
    {
        match &*self {
            FileBackedTestcase::Stored { filename } => {
                match storage.read(filename) {
                    Ok(data) => {
                        let f = filename.clone();
                        *self = FileBackedTestcase::Loaded { input: BytesInput::new(data), filename: f };
                        Ok(())
                    },
                    Err(e) => Err(e),
                }
            },
            FileBackedTestcase::Loaded { .. } => Ok(()),
            FileBackedTestcase::Dirty { .. } => Err(Error::IllegalState),
        }
    }

    /// Write the in-memory input to disk if it has diverged.
    pub fn save<S: Storage>(&mut self, storage: &mut S) -> (r: Result<(), Error>)
        ensures
            save_post(*old(self), old(storage).contents(), *final(self), final(storage).contents(), r),
    {
        match &*self {
            FileBackedTestcase::Loaded { .. } => Ok(()),
            FileBackedTestcase::Dirty { input, filename } => {
                let data = input.serialize();
                match storage.write(filename, &data) {
                    Ok(()) => {
                        let f = filename.clone();
                        *self = FileBackedTestcase::Loaded {
                            input: BytesInput::new(data),
                            filename: f,
                        };
                        Ok(())
                    },
                    Err(e) => Err(e),
                }
            },
            FileBackedTestcase::Stored { .. } => Err(Error::IllegalState),
        }
    }

    /// Make memory and disk agree, whichever direction that takes: a
    /// dirty input is saved, anything else is (re)loaded.
    pub fn refresh<S: Storage>(&mut self, storage: &mut S) -> (r: Result<(), Error>)
        ensures
            refresh_post(*old(self), old(storage).contents(), *final(self), final(storage).contents(), r),
    {
        match &*self {
            FileBackedTestcase::Dirty { .. } => self.save(storage),
            _ => self.load(&*storage),
        }
    }

    /// Drop the in-memory input, saving it first if it has diverged from
    /// disk.
    pub fn unload<S: Storage>(&mut self, storage: &mut S) -> (r: Result<(), Error>)
        ensures
            unload_post(*old(self), old(storage).contents(), *final(self), final(storage).contents(), r),
    {
        match &*self {
            FileBackedTestcase::Loaded { filename, .. } => {
                let f = filename.clone();
                *self = FileBackedTestcase::Stored { filename: f };
                Ok(())
            },
            FileBackedTestcase::Stored { .. } => Ok(()),
            FileBackedTestcase::Dirty { .. } => {
                match self.save(storage) {
                    Ok(()) => {
                        match &*self {
                            FileBackedTestcase::Loaded { filename, .. } => {
                                let f = filename.clone();
                                *self = FileBackedTestcase::Stored { filename: f };
                                Ok(())
                            },
                            _ => vstd::pervasive::unreached(),
                        }
                    },
                    Err(e) => Err(e),
                }
            },
        }
    }
}

/// Loading from `Dirty` always fails with `IllegalState` and never
/// touches the in-memory input, whatever the disk holds.
pub proof fn lemma_load_from_dirty_safe(
    pre: FileBackedTestcase,
    disk: Map<Seq<char>, Seq<u8>>,
    post: FileBackedTestcase,
    r: Result<(), Error>,
)
    requires
        pre is Dirty,
        load_post(pre, disk, post, r),
    ensures
        r == Err::<(), Error>(Error::IllegalState),
        post == pre,
{
}

/// Unloading from `Dirty` performs the save: when it succeeds, the file
/// afterwards holds exactly the bytes that were dirty in memory.
pub proof fn lemma_unload_from_dirty_saves(
    pre: FileBackedTestcase,
    disk_pre: Map<Seq<char>, Seq<u8>>,
    post: FileBackedTestcase,
    disk_post: Map<Seq<char>, Seq<u8>>,
)
    requires
        pre is Dirty,
        unload_post(pre, disk_pre, post, disk_post, Ok::<(), Error>(())),
    ensures
        post is Stored,
        disk_post.contains_key(pre.filename_spec()),
        disk_post[pre.filename_spec()] == pre.input_spec(),
{
}

/// Round trip: a successful save of a dirty input followed by a load
/// through a fresh `Stored` machine at the same path yields an input
/// equal to the one saved.
pub proof fn lemma_save_then_load_round_trip(
    pre: FileBackedTestcase,
    disk_pre: Map<Seq<char>, Seq<u8>>,
    saved: FileBackedTestcase,
    disk_mid: Map<Seq<char>, Seq<u8>>,
    fresh: FileBackedTestcase,
    loaded: FileBackedTestcase,
    r: Result<(), Error>,
)
    requires
        pre is Dirty,
        save_post(pre, disk_pre, saved, disk_mid, Ok::<(), Error>(())),
        fresh is Stored,
        fresh.filename_spec() == pre.filename_spec(),
        load_post(fresh, disk_mid, loaded, r),
    ensures
        r == Ok::<(), Error>(()),
        loaded is Loaded,
        loaded.input_spec() == pre.input_spec(),
{
}

} // verus!
