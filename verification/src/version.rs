//! Vulkan-style API version numbers and their packed 32-bit encoding.

use vstd::prelude::*;

verus! {

/// A Vulkan API version: variant, major, minor and patch components.
#[derive(Debug, Clone, Copy, PartialEq, Eq, Structural)]
pub struct VkVersion {
    pub variant: u32,
    pub major: u32,
    pub minor: u32,
    pub patch: u32,
}

/// The packed encoding keeps 3 bits of variant, 7 of major, 10 of minor and
/// 12 of patch, so each component must fit its field.
pub open spec fn version_packable(v: VkVersion) -> bool {
    v.variant < 8 && v.major < 128 && v.minor < 1024 && v.patch < 4096
}

/// The packed 32-bit value: variant | major | minor | patch, high to low.
pub open spec fn packed_version(v: VkVersion) -> int {
    v.variant * 0x2000_0000 + v.major * 0x40_0000 + v.minor * 0x1000 + v.patch
}

impl VkVersion {
    pub fn new(variant: u32, major: u32, minor: u32, patch: u32) -> (r: Self)
        ensures
            r == (VkVersion { variant, major, minor, patch }),
    {
        Self { variant, major, minor, patch }
    }

    pub fn from_major(major: u32) -> (r: Self)
        ensures
            r == (VkVersion { variant: 0u32, major, minor: 0u32, patch: 0u32 }),
    {
        Self { variant: 0, major, minor: 0, patch: 0 }
    }

    pub fn from_major_minor(major: u32, minor: u32) -> (r: Self)
        ensures
            r == (VkVersion { variant: 0u32, major, minor, patch: 0u32 }),
    {
        Self { variant: 0, major, minor, patch: 0 }
    }

    /// The packed value handed to the driver when an instance is created.
    pub fn make_api_version(&self) -> (r: u32)
        requires
            version_packable(*self),
        ensures
            r == packed_version(*self),
    {
        let r = (self.variant << 29u32) | (self.major << 22u32) | (self.minor << 12u32)
            | self.patch;
        proof {
            let (va, ma, mi, pa) = (self.variant, self.major, self.minor, self.patch);
            assert((va << 29u32) | (ma << 22u32) | (mi << 12u32) | pa == va * 0x2000_0000 + ma
                * 0x40_0000 + mi * 0x1000 + pa) by (bit_vector)
                requires
                    va < 8u32 && ma < 128u32 && mi < 1024u32 && pa < 4096u32,
            ;
        }
        r
    }
}

impl Default for VkVersion {
    /// The all-zero version, the base for the partial constructors.
    fn default() -> (r: Self)
        ensures
            r == (VkVersion { variant: 0u32, major: 0u32, minor: 0u32, patch: 0u32 }),
    {
        Self { variant: 0, major: 0, minor: 0, patch: 0 }
    }
}

} // verus!
