//! The operations of a scene, each already encoded as the shaders read it.
use crate::shaders::operation_buffer::OperationDataSlice;
use vstd::prelude::*;

verus! {

/// The encoded operations of a scene, in the order in which the shaders see them.
pub struct OperationCollection {
    encoded: Vec<OperationDataSlice>,
}

impl View for OperationCollection {
    type V = Seq<OperationDataSlice>;

    closed spec fn view(&self) -> Seq<OperationDataSlice> {
        self.encoded@
    }
}

impl OperationCollection {
    /// An empty collection.
    pub fn new() -> (res: Self)
        ensures
            res@ == Seq::<OperationDataSlice>::empty(),
    {
        OperationCollection { encoded: Vec::new() }
    }

    /// Appends one encoded operation.
    pub fn push_encoded(&mut self, encoded: OperationDataSlice)
        ensures
            final(self)@ == old(self)@.push(encoded),
    {
        self.encoded.push(encoded);
    }

    /// The encoded operations.
    pub fn buffer_data(&self) -> (res: &Vec<OperationDataSlice>)
        ensures
            res@ == self@,
    {
        &self.encoded
    }

    /// The number of operations.
    pub fn len(&self) -> (res: usize)
        ensures
            res == self@.len(),
    {
        self.encoded.len()
    }
}

} // verus!
