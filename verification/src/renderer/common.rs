//! Errors shared by the render passes.
use vstd::prelude::*;

verus! {

/// Errors encountered when creating a descriptor set
#[derive(Debug, Clone, Copy, PartialEq, Eq, Structural)]
pub enum CreateDescriptorSetError {
    /// Descriptor set index not found in the pipeline layout
    InvalidDescriptorSetIndex { index: usize },
}

} // verus!
