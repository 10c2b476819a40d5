//! Swapchain data: the negotiated surface format, the creation plan derived
//! from surface capabilities, and the state of the current image set.
//!
//! The driver calls that create and destroy the swapchain live in the shell;
//! this module decides what to ask for and which driver answers to accept.

use vstd::prelude::*;

verus! {

/// A surface pixel format together with its color space, by their raw
/// driver identifiers.
#[derive(Debug, Clone, Copy, PartialEq, Eq, Structural)]
pub struct SurfaceFormat {
    pub format: u32,
    pub color_space: u32,
}

/// What the surface reports it can do, as read at recreation time.
#[derive(Debug, Clone, Copy, PartialEq, Eq, Structural)]
pub struct SurfaceCaps {
    pub min_image_count: u32,
    /// `0` means the surface puts no upper bound on the image count.
    pub max_image_count: u32,
}

/// The number of images to ask the driver for: one more than the surface
/// minimum (so acquisition never has to wait for the only free image), never
/// fewer than two, clamped to the surface maximum where one exists.
pub open spec fn planned_image_count(caps: SurfaceCaps) -> int {
    let desired = if caps.min_image_count < 2 {
        2
    } else if caps.min_image_count == u32::MAX {
        u32::MAX as int
    } else {
        caps.min_image_count + 1
    };
    if caps.max_image_count == 0 || desired <= caps.max_image_count {
        desired
    } else {
        caps.max_image_count as int
    }
}

/// Can the surface hold two presentable images at once?
pub open spec fn caps_allow_double_buffering(caps: SurfaceCaps) -> bool {
    caps.max_image_count == 0 || caps.max_image_count >= 2
}

/// Everything the shell needs to hand the driver for one creation call.
#[derive(Debug, Clone, Copy, PartialEq, Eq, Structural)]
pub struct SwapchainPlan {
    pub image_count: u32,
    pub width: u32,
    pub height: u32,
    pub format: SurfaceFormat,
}

impl SwapchainPlan {
    /// A plan always asks for a double-buffered, non-empty surface.
    pub open spec fn wf(&self) -> bool {
        self.image_count >= 2 && self.width > 0 && self.height > 0
    }
}

/// Work out the creation parameters for the given window area and format.
/// `None` exactly when the window has no area or the surface cannot hold two
/// images; both are transient and answered by trying again on a later resize.
pub fn plan_swapchain(caps: SurfaceCaps, width: u32, height: u32, format: SurfaceFormat) -> (r:
    Option<SwapchainPlan>)
    ensures
        r is Some <==> (width > 0 && height > 0 && caps_allow_double_buffering(caps)),
        r matches Some(plan) ==> plan.wf() && plan == (SwapchainPlan {
            image_count: planned_image_count(caps) as u32,
            width,
            height,
            format,
        }),
{
    if width == 0 || height == 0 {
        return None;
    }
    if caps.max_image_count != 0 && caps.max_image_count < 2 {
        return None;
    }
    let desired: u32 = if caps.min_image_count < 2 {
        2
    } else if caps.min_image_count == u32::MAX {
        u32::MAX
    } else {
        caps.min_image_count + 1
    };
    let image_count: u32 = if caps.max_image_count != 0 && desired > caps.max_image_count {
        caps.max_image_count
    } else {
        desired
    };
    Some(SwapchainPlan { image_count, width, height, format })
}

/// Pick the surface format to use: the preferred one when the surface
/// supports it, otherwise the first format the surface lists.
pub fn choose_surface_format(supported: &Vec<SurfaceFormat>, preferred: SurfaceFormat) -> (r:
    SurfaceFormat)
    requires
        supported@.len() > 0,
    ensures
        supported@.contains(preferred) ==> r == preferred,
        !supported@.contains(preferred) ==> r == supported@[0],
{
    let n = supported.len();
    let mut i: usize = 0;
    while i < n
        invariant
            n == supported@.len(),
            i <= n,
            forall|j: int| 0 <= j < i ==> supported@[j] != preferred,
        decreases n - i,
    {
        let cand = supported[i];
        if cand.format == preferred.format && cand.color_space == preferred.color_space {
            assert(cand == preferred);
            assert(supported@.contains(preferred));
            return cand;
        }
        i = i + 1;
    }
    assert(!supported@.contains(preferred));
    supported[0]
}

/// The image set currently presentable: how many images exist, their size,
/// and the format they were created with. Images and views themselves are
/// driver objects owned by the shell.
#[derive(Debug, Clone, Copy, PartialEq, Eq, Structural)]
pub struct SwapchainState {
    pub image_count: u32,
    pub width: u32,
    pub height: u32,
    pub format: SurfaceFormat,
}

impl SwapchainState {
    /// There is never a single-buffered image set.
    pub open spec fn wf(&self) -> bool {
        self.image_count >= 2
    }

    /// Adopt the image set a creation call produced. The driver may create
    /// more images than the plan asked for; an answer below two is refused,
    /// so a successfully adopted set always allows double buffering.
    pub fn from_creation(plan: &SwapchainPlan, actual_image_count: u32) -> (r: Option<
        SwapchainState,
    >)
        requires
            plan.wf(),
        ensures
            r is Some <==> actual_image_count >= 2,
            r matches Some(s) ==> s.wf() && s == (SwapchainState {
                image_count: actual_image_count,
                width: plan.width,
                height: plan.height,
                format: plan.format,
            }),
    {
        if actual_image_count >= 2 {
            Some(
                SwapchainState {
                    image_count: actual_image_count,
                    width: plan.width,
                    height: plan.height,
                    format: plan.format,
                },
            )
        } else {
            None
        }
    }
}

} // verus!
