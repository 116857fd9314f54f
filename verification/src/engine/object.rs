//! Identifiers of the objects of a scene.
use vstd::prelude::*;

verus! {

/// Identifies an object of the scene. The shaders carry it in the upper 16 bits of a `u32`.
#[derive(Clone, Copy, Debug, PartialEq, Eq, Hash, Structural)]
pub struct ObjectId(pub u16);

/// Position of a primitive op in the list of ops of an object.
pub type PrimitiveOpIndex = usize;

impl ObjectId {
    /// The raw value of the id.
    pub fn raw_id(&self) -> (res: u16)
        ensures
            res == self.0,
    {
        self.0
    }
}

} // verus!
