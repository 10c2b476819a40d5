//! Physical-device data and the selection of a suitable device.
//!
//! The driver queries that fill these records run in the shell; selection
//! itself — which device, which queue families — is decided here.

use vstd::prelude::*;

use crate::features::{features_compatible, DeviceFeatures};
use crate::swapchain::SurfaceFormat;

verus! {

/// One queue family of a physical device, as plain values.
#[derive(Debug, Clone, Copy, PartialEq, Eq, Structural)]
pub struct QueueFamilyInfo {
    pub index: u32,
    pub queue_count: u32,
    pub supports_graphics: bool,
    pub supports_compute: bool,
    pub supports_present: bool,
    pub timestamp_valid_bits: u32,
}

impl QueueFamilyInfo {
    /// Does the family expose any queues at all?
    pub fn has_queues(&self) -> (r: bool)
        ensures
            r <==> self.queue_count > 0,
    {
        self.queue_count > 0
    }

    /// Can this family's queues answer timestamp queries?
    pub fn supports_timestamp_queries(&self) -> (r: bool)
        ensures
            r <==> self.timestamp_valid_bits > 0,
    {
        self.timestamp_valid_bits > 0
    }
}

/// A family this core would drive graphics with: queues that do graphics
/// and compute and can be timestamped.
pub open spec fn family_fits_graphics(f: QueueFamilyInfo) -> bool {
    f.queue_count > 0 && f.supports_graphics && f.supports_compute && f.timestamp_valid_bits > 0
}

/// A family this core would present with.
pub open spec fn family_fits_present(f: QueueFamilyInfo) -> bool {
    f.queue_count > 0 && f.supports_present
}

/// The broad class of a physical device. Selection prefers dedicated
/// hardware: discrete first, then integrated, then everything else.
#[derive(Debug, Clone, Copy, PartialEq, Eq, Structural)]
pub enum DeviceKind {
    DiscreteGpu,
    IntegratedGpu,
    Other,
}

/// The preference rank of a device class: lower is better.
pub open spec fn kind_rank(k: DeviceKind) -> int {
    match k {
        DeviceKind::DiscreteGpu => 0,
        DeviceKind::IntegratedGpu => 1,
        DeviceKind::Other => 2,
    }
}

/// Everything selection reads of one physical device, as plain values.
#[derive(Debug)]
pub struct PhysicalDeviceInfo {
    pub name: String,
    pub kind: DeviceKind,
    pub queue_families: Vec<QueueFamilyInfo>,
    pub supported_extensions: Vec<String>,
    pub supported_surface_formats: Vec<SurfaceFormat>,
    pub supported_present_mode_count: usize,
    pub supported_device_features: DeviceFeatures,
}

/// Is the extension named `e` in the supported list?
pub open spec fn extension_supported(supported: Seq<String>, e: Seq<char>) -> bool {
    exists|j: int| 0 <= j < supported.len() && supported[j]@ == e
}

/// Is every required extension in the supported list?
pub open spec fn all_extensions_supported(supported: Seq<String>, required: Seq<String>) -> bool {
    forall|i: int| 0 <= i < required.len() ==> extension_supported(supported, required[i]@)
}

impl PhysicalDeviceInfo {
    /// Does this device support every named extension?
    pub fn supports_extensions(&self, extensions: &Vec<String>) -> (r: bool)
        ensures
            r <==> all_extensions_supported(self.supported_extensions@, extensions@),
    {
        let n = extensions.len();
        let mut i: usize = 0;
        while i < n
            invariant
                n == extensions@.len(),
                i <= n,
                forall|k: int|
                    0 <= k < i ==> extension_supported(
                        self.supported_extensions@,
                        extensions@[k]@,
                    ),
            decreases n - i,
        {
            let m = self.supported_extensions.len();
            let mut j: usize = 0;
            let mut found = false;
            while j < m
                invariant
                    m == self.supported_extensions@.len(),
                    j <= m,
                    i < extensions@.len(),
                    found <==> exists|l: int|
                        0 <= l < j && self.supported_extensions@[l]@ == extensions@[i as int]@,
                decreases m - j,
            {
                if self.supported_extensions[j] == extensions[i] {
                    found = true;
                }
                j = j + 1;
            }
            if !found {
                assert(!extension_supported(self.supported_extensions@, extensions@[i as int]@));
                return false;
            }
            i = i + 1;
        }
        true
    }

    /// Would this device do: suitable graphics and present families, every
    /// required extension, a non-empty format and present-mode list, and
    /// the required features?
    pub open spec fn suitable(
        &self,
        required_extensions: Seq<String>,
        required_features: DeviceFeatures,
    ) -> bool {
        &&& exists|i: int|
            0 <= i < self.queue_families@.len() && family_fits_graphics(self.queue_families@[i])
        &&& exists|i: int|
            0 <= i < self.queue_families@.len() && family_fits_present(self.queue_families@[i])
        &&& all_extensions_supported(self.supported_extensions@, required_extensions)
        &&& self.supported_surface_formats@.len() > 0
        &&& self.supported_present_mode_count > 0
        &&& features_compatible(self.supported_device_features, required_features)
    }
}

/// What device selection answers with: the position of the chosen device
/// and the two queue families to create queues from.
#[derive(Debug, Clone, Copy, PartialEq, Eq, Structural)]
pub struct DeviceSelection {
    pub device_index: usize,
    pub graphics_family: QueueFamilyInfo,
    pub present_family: QueueFamilyInfo,
}

/// Find the first queue family that fits graphics work, if any.
fn find_graphics_family(families: &Vec<QueueFamilyInfo>) -> (r: Option<QueueFamilyInfo>)
    ensures
        r matches Some(f) ==> exists|i: int|
            0 <= i < families@.len() && families@[i] == f && family_fits_graphics(f) && forall|
                k: int,
            | 0 <= k < i ==> !family_fits_graphics(families@[k]),
        r is None <==> forall|i: int|
            0 <= i < families@.len() ==> !family_fits_graphics(families@[i]),
{
    let n = families.len();
    let mut i: usize = 0;
    while i < n
        invariant
            n == families@.len(),
            i <= n,
            forall|k: int| 0 <= k < i ==> !family_fits_graphics(families@[k]),
        decreases n - i,
    {
        let f = families[i];
        if f.queue_count > 0 && f.supports_graphics && f.supports_compute
            && f.timestamp_valid_bits > 0 {
            return Some(f);
        }
        i = i + 1;
    }
    None
}

/// Find the first queue family that can present, if any.
fn find_present_family(families: &Vec<QueueFamilyInfo>) -> (r: Option<QueueFamilyInfo>)
    ensures
        r matches Some(f) ==> exists|i: int|
            0 <= i < families@.len() && families@[i] == f && family_fits_present(f) && forall|
                k: int,
            | 0 <= k < i ==> !family_fits_present(families@[k]),
        r is None <==> forall|i: int|
            0 <= i < families@.len() ==> !family_fits_present(families@[i]),
{
    let n = families.len();
    let mut i: usize = 0;
    while i < n
        invariant
            n == families@.len(),
            i <= n,
            forall|k: int| 0 <= k < i ==> !family_fits_present(families@[k]),
        decreases n - i,
    {
        let f = families[i];
        if f.queue_count > 0 && f.supports_present {
            return Some(f);
        }
        i = i + 1;
    }
    None
}

/// Decide whether one device is suitable, and if so hand back its first
/// fitting graphics family and first fitting present family.
fn check_device(
    device: &PhysicalDeviceInfo,
    required_extensions: &Vec<String>,
    required_device_features: &DeviceFeatures,
) -> (r: Option<(QueueFamilyInfo, QueueFamilyInfo)>)
    ensures
        r is Some <==> device.suitable(required_extensions@, *required_device_features),
        r matches Some((g, p)) ==> {
            &&& family_fits_graphics(g)
            &&& family_fits_present(p)
            &&& exists|i: int|
                0 <= i < device.queue_families@.len() && device.queue_families@[i] == g
            &&& exists|i: int|
                0 <= i < device.queue_families@.len() && device.queue_families@[i] == p
        },
{
    let graphics = find_graphics_family(&device.queue_families);
    let present = find_present_family(&device.queue_families);
    let extensions_ok = device.supports_extensions(required_extensions);
    let formats_ok = device.supported_surface_formats.len() > 0;
    let modes_ok = device.supported_present_mode_count > 0;
    let features_ok = device.supported_device_features.is_compatible_with(
        required_device_features,
    );
    match (graphics, present) {
        (Some(g), Some(p)) => {
            if extensions_ok && formats_ok && modes_ok && features_ok {
                Some((g, p))
            } else {
                None
            }
        },
        _ => None,
    }
}

/// Find the first suitable device of one class, if any.
fn find_suitable_of_kind(
    devices: &Vec<PhysicalDeviceInfo>,
    required_extensions: &Vec<String>,
    required_device_features: &DeviceFeatures,
    want: DeviceKind,
) -> (r: Option<DeviceSelection>)
    ensures
        r matches Some(sel) ==> {
            &&& sel.device_index < devices@.len()
            &&& devices@[sel.device_index as int].kind == want
            &&& devices@[sel.device_index as int].suitable(
                required_extensions@,
                *required_device_features,
            )
            &&& forall|k: int|
                0 <= k < sel.device_index ==> !(devices@[k].kind == want && devices@[k].suitable(
                    required_extensions@,
                    *required_device_features,
                ))
            &&& selection_families_fit(sel, devices@)
        },
        r is None <==> forall|k: int|
            0 <= k < devices@.len() ==> !(devices@[k].kind == want && devices@[k].suitable(
                required_extensions@,
                *required_device_features,
            )),
{
    let n = devices.len();
    let mut d: usize = 0;
    while d < n
        invariant
            n == devices@.len(),
            d <= n,
            forall|k: int|
                0 <= k < d ==> !(devices@[k].kind == want && devices@[k].suitable(
                    required_extensions@,
                    *required_device_features,
                )),
        decreases n - d,
    {
        let device = &devices[d];
        if device.kind == want {
            match check_device(device, required_extensions, required_device_features) {
                Some((g, p)) => {
                    return Some(
                        DeviceSelection { device_index: d, graphics_family: g, present_family: p },
                    );
                },
                None => {},
            }
        }
        d = d + 1;
    }
    None
}

/// The chosen families really are families of the chosen device, and fit
/// their roles.
pub open spec fn selection_families_fit(sel: DeviceSelection, devices: Seq<PhysicalDeviceInfo>) -> bool {
    &&& family_fits_graphics(sel.graphics_family)
    &&& family_fits_present(sel.present_family)
    &&& exists|i: int|
        0 <= i < devices[sel.device_index as int].queue_families@.len()
            && devices[sel.device_index as int].queue_families@[i] == sel.graphics_family
    &&& exists|i: int|
        0 <= i < devices[sel.device_index as int].queue_families@.len()
            && devices[sel.device_index as int].queue_families@[i] == sel.present_family
}

/// Pick the device to run on: the first suitable device of the most
/// preferred class present — discrete over integrated over the rest — with
/// its first fitting graphics family and first fitting present family.
/// `None` exactly when no device on the machine will do.
pub fn select_suitable_physical_device(
    devices: &Vec<PhysicalDeviceInfo>,
    required_extensions: &Vec<String>,
    required_device_features: &DeviceFeatures,
) -> (r: Option<DeviceSelection>)
    ensures
        r matches Some(sel) ==> {
            &&& sel.device_index < devices@.len()
            &&& devices@[sel.device_index as int].suitable(
                required_extensions@,
                *required_device_features,
            )
            &&& forall|k: int|
                0 <= k < devices@.len() && devices@[k].suitable(
                    required_extensions@,
                    *required_device_features,
                ) ==> kind_rank(devices@[sel.device_index as int].kind) <= kind_rank(
                    devices@[k].kind,
                )
            &&& forall|k: int|
                0 <= k < sel.device_index && devices@[k].kind == devices@[sel.device_index as int].kind
                    ==> !devices@[k].suitable(required_extensions@, *required_device_features)
            &&& selection_families_fit(sel, devices@)
        },
        r is None <==> forall|k: int|
            0 <= k < devices@.len() ==> !devices@[k].suitable(
                required_extensions@,
                *required_device_features,
            ),
{
    let mut rank: usize = 0;
    while rank < 3
        invariant
            forall|k: int|
                0 <= k < devices@.len() && kind_rank(devices@[k].kind) < rank ==> !devices@[
                    k
                ].suitable(required_extensions@, *required_device_features),
        decreases 3 - rank,
    {
        let want = if rank == 0 {
            DeviceKind::DiscreteGpu
        } else if rank == 1 {
            DeviceKind::IntegratedGpu
        } else {
            DeviceKind::Other
        };
        proof {
            assert(kind_rank(want) == rank);
        }
        match find_suitable_of_kind(devices, required_extensions, required_device_features, want) {
            Some(sel) => {
                proof {
                    assert forall|k: int|
                        0 <= k < devices@.len() && devices@[k].suitable(
                            required_extensions@,
                            *required_device_features,
                        ) implies kind_rank(devices@[sel.device_index as int].kind) <= kind_rank(
                        devices@[k].kind,
                    ) by {
                        assert(devices@[k].kind is DiscreteGpu || devices@[k].kind
                            is IntegratedGpu || devices@[k].kind is Other);
                        assert(kind_rank(devices@[k].kind) >= rank);
                    }
                }
                return Some(sel);
            },
            None => {},
        }
        proof {
            assert forall|k: int|
                0 <= k < devices@.len() && kind_rank(devices@[k].kind) < rank + 1 implies !devices@[
                k
            ].suitable(required_extensions@, *required_device_features) by {
                if kind_rank(devices@[k].kind) == rank {
                    assert(devices@[k].kind is DiscreteGpu || devices@[k].kind is IntegratedGpu
                        || devices@[k].kind is Other);
                    assert(devices@[k].kind == want);
                }
            }
        }
        rank = rank + 1;
    }
    proof {
        assert forall|k: int|
            0 <= k < devices@.len() implies !devices@[k].suitable(
            required_extensions@,
            *required_device_features,
        ) by {
            assert(kind_rank(devices@[k].kind) < 3);
        }
    }
    None
}

} // verus!
