//! Swapchain build planning: the negotiated creation parameters assembled
//! from a capability snapshot and the resolved queue-family selection, and
//! the per-image view plan for the images the platform hands back.

use vstd::prelude::*;

use crate::queue::QueueIndexes;
use crate::surface::Extent;
use crate::surface::PresentMode;
use crate::surface::SurfaceFormat;
use crate::surface::SwapChainSupport;
use crate::surface::chosen_mode;
use crate::surface::is_first_minimal_format;
use crate::surface::resolved_extent;
use crate::surface::resolved_image_count;

verus! {

/// How the swapchain images are shared between the graphics and presentation
/// queue families: exclusively owned when the two roles share a family,
/// otherwise concurrently accessible to exactly the two distinct families.
#[derive(Clone, Copy, Debug, PartialEq, Eq, Structural)]
pub enum SharingPlan {
    Exclusive,
    Concurrent { graphics: u32, present: u32 },
}

/// The resolved parameters a swapchain is created with.
#[derive(Clone, Copy, Debug, PartialEq, Eq, Structural)]
pub struct PresentationParams {
    pub format: SurfaceFormat,
    pub present_mode: PresentMode,
    pub extent: Extent,
    pub image_count: u32,
    pub sharing: SharingPlan,
    /// The snapshot's current transform, carried through untouched.
    pub pre_transform: u32,
}

/// Creation parameters for one 2D colour image view over one swapchain
/// image. View type, channel mapping (identity) and subresource range
/// (single mip, single layer, colour aspect) are fixed by the renderer and
/// not varied here.
#[derive(Clone, Copy, Debug, PartialEq, Eq, Structural)]
pub struct ImageViewPlan {
    pub image: u64,
    pub format: u32,
}

/// The sharing plan for a queue selection.
pub open spec fn spec_sharing_plan(q: QueueIndexes) -> SharingPlan {
    if q.graphics == q.present {
        SharingPlan::Exclusive
    } else {
        SharingPlan::Concurrent { graphics: q.graphics, present: q.present }
    }
}

/// Decide the image sharing mode from the resolved queue selection: a shared
/// family owns the images exclusively; distinct families get concurrent
/// access with both indices listed.
pub fn sharing_plan(q: &QueueIndexes) -> (r: SharingPlan)
    ensures
        r == spec_sharing_plan(*q),
{
    if q.graphics == q.present {
        SharingPlan::Exclusive
    } else {
        SharingPlan::Concurrent { graphics: q.graphics, present: q.present }
    }
}

impl SwapChainSupport {
    /// Negotiate every swapchain creation parameter from this snapshot, the
    /// drawable size reported by the windowing layer, and the resolved queue
    /// selection.
    pub fn negotiate(&self, drawable: Extent, queues: &QueueIndexes) -> (r: PresentationParams)
        requires
            self.negotiable(),
        ensures
            exists|i: int| is_first_minimal_format(self.formats@, i) && r.format == self.formats@[i],
            r.present_mode == chosen_mode(self.present_modes@),
            r.extent == resolved_extent(self.capabilities, drawable),
            r.image_count as int == resolved_image_count(self.capabilities),
            r.sharing == spec_sharing_plan(*queues),
            r.pre_transform == self.capabilities.current_transform,
    {
        PresentationParams {
            format: self.choose_swap_surface_format(),
            present_mode: self.choose_swap_present_mode(),
            extent: self.get_swap_extent(drawable),
            image_count: self.image_count(),
            sharing: sharing_plan(queues),
            pre_transform: self.capabilities.current_transform,
        }
    }
}

/// Plan one image view per swapchain image, in the order the platform
/// returned the images, every view using the swapchain's chosen format.
pub fn plan_image_views(images: &Vec<u64>, format: u32) -> (r: Vec<ImageViewPlan>)
    ensures
        r@.len() == images@.len(),
        forall|i: int|
            0 <= i < images@.len() ==> r@[i] == (ImageViewPlan { image: images@[i], format }),
{
    let n = images.len();
    let mut r: Vec<ImageViewPlan> = Vec::new();
    let mut i: usize = 0;
    while i < n
        invariant
            n == images@.len(),
            0 <= i <= n,
            r@.len() == i,
            forall|j: int| 0 <= j < i ==> r@[j] == (ImageViewPlan { image: images@[j], format }),
        decreases n - i,
    {
        r.push(ImageViewPlan { image: images[i], format });
        i = i + 1;
    }
    r
}

} // verus!
