//! The primitives of a scene, each already encoded as the shaders read it.
use crate::shaders::primitive_buffer::{PrimitiveDataSlice, PrimitiveDataUnit};
use vstd::prelude::*;

verus! {

/// The encoded primitives of a scene, in the order in which the shaders see them.
pub struct PrimitiveCollection {
    encoded: Vec<PrimitiveDataSlice>,
}

impl View for PrimitiveCollection {
    type V = Seq<PrimitiveDataSlice>;

    closed spec fn view(&self) -> Seq<PrimitiveDataSlice> {
        self.encoded@
    }
}

impl PrimitiveCollection {
    /// An empty collection.
    pub fn new() -> (res: Self)
        ensures
            res@ == Seq::<PrimitiveDataSlice>::empty(),
    {
        PrimitiveCollection { encoded: Vec::new() }
    }

    /// Appends one encoded primitive.
    pub fn push_encoded(&mut self, encoded: PrimitiveDataSlice)
        ensures
            final(self)@ == old(self)@.push(encoded),
    {
        self.encoded.push(encoded);
    }

    /// The encoded primitives.
    pub fn encoded_data(&self) -> (res: &Vec<PrimitiveDataSlice>)
        ensures
            res@ == self@,
    {
        &self.encoded
    }

    /// The number of primitives.
    pub fn len(&self) -> (res: usize)
        ensures
            res == self@.len(),
    {
        self.encoded.len()
    }
}

} // verus!
