//! Pipeline creation data that is plain values.

use vstd::prelude::*;

verus! {

/// What a compute pipeline is built from: a compiled shader module, handed
/// around as an opaque blob of bytes.
#[derive(Debug, Clone, Copy)]
pub struct VkComputePipelineCreateInfo<'a> {
    pub shader_source: &'a [u8],
}

} // verus!
