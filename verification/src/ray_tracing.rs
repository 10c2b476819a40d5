//! Ray-tracing pipeline data: shader group classification and the device
//! properties the ray-tracing path reads.

use vstd::prelude::*;

verus! {

/// Which shader group a ray-tracing shader belongs to.
#[derive(Debug, Clone, Copy, PartialEq, Eq, Structural)]
pub enum VkRTShaderGroup {
    RayGen,
    Miss,
    ClosestHit,
}

/// How many groups of each kind a ray-tracing pipeline was built from.
#[derive(Debug, Clone, Copy, PartialEq, Eq, Structural, Default)]
pub struct VkRTShaderGroupInfo {
    pub group_count: u32,
    pub raygen_shader_count: u32,
    pub miss_shader_count: u32,
    pub hit_shader_count: u32,
}

/// How many entries of `s` are the group `g`.
pub open spec fn group_count_of(s: Seq<VkRTShaderGroup>, g: VkRTShaderGroup) -> int
    decreases s.len(),
{
    if s.len() == 0 {
        0
    } else {
        group_count_of(s.drop_last(), g) + if s.last() == g {
            1int
        } else {
            0int
        }
    }
}

/// The three group kinds partition any shader list.
pub proof fn lemma_group_counts_partition(s: Seq<VkRTShaderGroup>)
    ensures
        group_count_of(s, VkRTShaderGroup::RayGen) + group_count_of(s, VkRTShaderGroup::Miss)
            + group_count_of(s, VkRTShaderGroup::ClosestHit) == s.len(),
    decreases s.len(),
{
    if s.len() > 0 {
        lemma_group_counts_partition(s.drop_last());
    }
}

/// Classify a pipeline's shaders: the total and the number of each group.
pub fn count_shader_groups(groups: &Vec<VkRTShaderGroup>) -> (info: VkRTShaderGroupInfo)
    requires
        groups@.len() <= u32::MAX,
    ensures
        info.group_count == groups@.len(),
        info.raygen_shader_count == group_count_of(groups@, VkRTShaderGroup::RayGen),
        info.miss_shader_count == group_count_of(groups@, VkRTShaderGroup::Miss),
        info.hit_shader_count == group_count_of(groups@, VkRTShaderGroup::ClosestHit),
        info.raygen_shader_count + info.miss_shader_count + info.hit_shader_count
            == info.group_count,
{
    let n = groups.len();
    let mut raygen: u32 = 0;
    let mut miss: u32 = 0;
    let mut hit: u32 = 0;
    let mut i: usize = 0;
    while i < n
        invariant
            n == groups@.len(),
            n <= u32::MAX,
            i <= n,
            raygen == group_count_of(groups@.take(i as int), VkRTShaderGroup::RayGen),
            miss == group_count_of(groups@.take(i as int), VkRTShaderGroup::Miss),
            hit == group_count_of(groups@.take(i as int), VkRTShaderGroup::ClosestHit),
            raygen + miss + hit == i,
        decreases n - i,
    {
        proof {
            assert(groups@.take(i + 1).drop_last() =~= groups@.take(i as int));
            assert(groups@.take(i + 1).last() == groups@[i as int]);
        }
        match groups[i] {
            VkRTShaderGroup::RayGen => {
                raygen = raygen + 1;
            },
            VkRTShaderGroup::Miss => {
                miss = miss + 1;
            },
            VkRTShaderGroup::ClosestHit => {
                hit = hit + 1;
            },
        }
        i = i + 1;
    }
    proof {
        assert(groups@.take(n as int) =~= groups@);
    }
    VkRTShaderGroupInfo {
        group_count: n as u32,
        raygen_shader_count: raygen,
        miss_shader_count: miss,
        hit_shader_count: hit,
    }
}

/// The ray-tracing pipeline limits a device reports, as plain values.
#[derive(Debug, Clone, Copy, PartialEq, Eq, Structural, Default)]
pub struct PhysicalDeviceRayTracingPipelineProperties {
    pub shader_group_handle_size: u32,
    pub max_ray_recursion_depth: u32,
    pub max_shader_group_stride: u32,
    pub shader_group_base_alignment: u32,
    pub shader_group_handle_capture_replay_size: u32,
    pub max_ray_dispatch_invocation_count: u32,
    pub shader_group_handle_alignment: u32,
    pub max_ray_hit_attribute_size: u32,
}

/// The acceleration-structure limits a device reports, as plain values.
#[derive(Debug, Clone, Copy, PartialEq, Eq, Structural, Default)]
pub struct PhysicalDeviceAccelerationStructureProperties {
    pub max_geometry_count: u64,
    pub max_instance_count: u64,
    pub max_primitive_count: u64,
    pub max_per_stage_descriptor_acceleration_structures: u32,
    pub max_per_stage_descriptor_update_after_bind_acceleration_structures: u32,
    pub max_descriptor_set_acceleration_structures: u32,
    pub max_descriptor_set_update_after_bind_acceleration_structures: u32,
    pub min_acceleration_structure_scratch_offset_alignment: u32,
}

} // verus!
