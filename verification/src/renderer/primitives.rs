//! Encoded primitives uploaded to the primitive storage buffer.
use crate::shaders::shader_interfaces::{primitive_codes, PRIMITIVE_LEN};
use vstd::prelude::*;

verus! {

/// The units of a sphere: its code, the bits of its radius and of its center's coordinates,
/// then padding.
pub open spec fn sphere_units(radius_bits: u32, center_bits: [u32; 3]) -> Seq<u32> {
    seq![primitive_codes::SPHERE, radius_bits, center_bits[0], center_bits[1], center_bits[2],
        primitive_codes::NULL, primitive_codes::NULL, primitive_codes::NULL]
}

/// Encoded primitives, `PRIMITIVE_LEN` units each.
pub struct Primitives {
    encoded_data: Vec<u32>,
}

impl View for Primitives {
    type V = Seq<u32>;

    closed spec fn view(&self) -> Seq<u32> {
        self.encoded_data@
    }
}

impl Primitives {
    /// No primitives.
    pub fn new() -> (res: Self)
        ensures
            res@ == Seq::<u32>::empty(),
    {
        Primitives { encoded_data: Vec::new() }
    }

    /// Appends a sphere, given the bits of its `f32` radius and center coordinates.
    pub fn add_sphere(&mut self, radius_bits: u32, center_bits: [u32; 3])
        ensures
            final(self)@ == old(self)@ + sphere_units(radius_bits, center_bits),
    {
        let sphere_data: [u32; PRIMITIVE_LEN] = [
            primitive_codes::SPHERE,
            radius_bits,
            center_bits[0],
            center_bits[1],
            center_bits[2],
            // padding
            primitive_codes::NULL,
            primitive_codes::NULL,
            primitive_codes::NULL,
        ];
        let ghost before = self.encoded_data@;
        self.encoded_data.extend_from_slice(sphere_data.as_slice());
        assert(self.encoded_data@ =~= before + sphere_units(radius_bits, center_bits));
    }

    /// The encoded units.
    pub fn encoded_data(&self) -> (res: &Vec<u32>)
        ensures
            res@ == self@,
    {
        &self.encoded_data
    }

    /// The number of primitives.
    pub fn primitive_count(&self) -> (res: usize)
        ensures
            res == self@.len() / (PRIMITIVE_LEN as nat),
    {
        self.encoded_data.len() / PRIMITIVE_LEN
    }

    /// The data of the primitives storage buffer: the number of primitives, then their
    /// units. The number of primitives must stay below `u32::MAX`.
    pub fn buffer_data(&self) -> (res: Vec<u32>)
        requires
            self@.len() / (PRIMITIVE_LEN as nat) < u32::MAX,
        ensures
            res@ == seq![(self@.len() / (PRIMITIVE_LEN as nat)) as u32] + self@,
    {
        let len = self.primitive_count();
        let mut combined: Vec<u32> = Vec::new();
        combined.push(len as u32);
        let ghost before = combined@;
        combined.extend_from_slice(self.encoded_data.as_slice());
        assert(combined@ =~= before + self@);
        combined
    }
}

} // verus!
