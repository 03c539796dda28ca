//! The input value a testcase carries: a byte buffer whose serialized
//! form is exactly its bytes, so a save followed by a load restores it.

use vstd::prelude::*;

verus! {

/// A fuzzing input held as raw bytes.
#[derive(Debug)]
pub struct BytesInput {
    pub bytes: Vec<u8>,
}

impl View for BytesInput {
    type V = Seq<u8>;

    open spec fn view(&self) -> Seq<u8> {
        self.bytes@
    }
}

impl BytesInput {
    /// Wrap a byte buffer as an input.
    pub fn new(bytes: Vec<u8>) -> (r: Self)
        ensures
            r@ == bytes@,
    {
        BytesInput { bytes }
    }

    /// The serialized form of this input: its bytes, unchanged.
    pub fn serialize(&self) -> (r: Vec<u8>)
        ensures
            r@ == self@,
    {
        let r = self.bytes.clone();
        proof {
            assert(r@ =~= self.bytes@);
        }
        r
    }

    /// Rebuild an input from its serialized form.
    pub fn deserialize(bytes: Vec<u8>) -> (r: Self)
        ensures
            r@ == bytes@,
    {
        BytesInput { bytes }
    }

    /// The number of bytes in this input.
    pub fn len(&self) -> (r: usize)
        ensures
            r == self@.len(),
    {
        self.bytes.len()
    }
}

} // verus!
