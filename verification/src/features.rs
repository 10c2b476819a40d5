//! Device feature sets and their compatibility relation.

use vstd::prelude::*;

verus! {

/// The optional device features this core cares about, each a single toggle.
#[derive(Debug, Clone, Copy, Default, PartialEq, Eq, Structural)]
pub struct DeviceFeatures {
    pub ray_tracing_pipeline: bool,
    pub acceleration_structure: bool,
    pub runtime_descriptor_array: bool,
    pub buffer_device_address: bool,
    pub dynamic_rendering: bool,
    pub synchronization2: bool,
    pub independent_blend: bool,
}

/// `supported` covers `required`: every required toggle is supported.
pub open spec fn features_compatible(supported: DeviceFeatures, required: DeviceFeatures) -> bool {
    &&& required.ray_tracing_pipeline ==> supported.ray_tracing_pipeline
    &&& required.acceleration_structure ==> supported.acceleration_structure
    &&& required.runtime_descriptor_array ==> supported.runtime_descriptor_array
    &&& required.buffer_device_address ==> supported.buffer_device_address
    &&& required.dynamic_rendering ==> supported.dynamic_rendering
    &&& required.synchronization2 ==> supported.synchronization2
    &&& required.independent_blend ==> supported.independent_blend
}

impl DeviceFeatures {
    /// Does this feature set satisfy all the toggles that `requirements` asks for?
    pub fn is_compatible_with(&self, requirements: &Self) -> (r: bool)
        ensures
            r == features_compatible(*self, *requirements),
    {
        (!requirements.ray_tracing_pipeline || self.ray_tracing_pipeline)
            && (!requirements.acceleration_structure || self.acceleration_structure)
            && (!requirements.runtime_descriptor_array || self.runtime_descriptor_array)
            && (!requirements.buffer_device_address || self.buffer_device_address)
            && (!requirements.dynamic_rendering || self.dynamic_rendering)
            && (!requirements.synchronization2 || self.synchronization2)
            && (!requirements.independent_blend || self.independent_blend)
    }
}

} // verus!
