//! Resource teardown planning: the ownership chain is a fixed order of
//! optional handle slots, and teardown walks it in strict reverse-dependency
//! order — image views, swapchain, logical device, surface, instance —
//! skipping every slot that was never filled.

use vstd::prelude::*;

verus! {

/// The handles a run has created so far, in the ownership chain
/// instance → (surface, device) → swapchain → image views. A slot is `None`
/// until its resource is successfully created. Handles are carried as the
/// raw 64-bit values of the graphics API.
pub struct ResourceState {
    pub image_views: Vec<u64>,
    pub swapchain: Option<u64>,
    pub device: Option<u64>,
    pub surface: Option<u64>,
    pub instance: Option<u64>,
}

/// One destruction the application must perform, with the handle to destroy.
#[derive(Clone, Copy, Debug, PartialEq, Eq, Structural)]
pub enum TeardownStep {
    DestroyImageView(u64),
    DestroySwapchain(u64),
    DestroyDevice(u64),
    DestroySurface(u64),
    DestroyInstance(u64),
}

/// The complete teardown order for a state: every image view in creation
/// order, then the swapchain, the device, the surface and the instance —
/// each only if its handle exists.
pub open spec fn spec_teardown_plan(s: ResourceState) -> Seq<TeardownStep> {
    s.image_views@.map_values(|h: u64| TeardownStep::DestroyImageView(h)) + (match s.swapchain {
        Some(h) => seq![TeardownStep::DestroySwapchain(h)],
        None => Seq::<TeardownStep>::empty(),
    }) + (match s.device {
        Some(h) => seq![TeardownStep::DestroyDevice(h)],
        None => Seq::<TeardownStep>::empty(),
    }) + (match s.surface {
        Some(h) => seq![TeardownStep::DestroySurface(h)],
        None => Seq::<TeardownStep>::empty(),
    }) + (match s.instance {
        Some(h) => seq![TeardownStep::DestroyInstance(h)],
        None => Seq::<TeardownStep>::empty(),
    })
}

/// A partially built state tears down cleanly: an absent swapchain produces
/// no swapchain step, while the device, surface and instance that do exist
/// are still destroyed.
pub proof fn lemma_partial_teardown_skips_absent(s: ResourceState)
    requires
        s.swapchain is None,
    ensures
        forall|k: int|
            0 <= k < spec_teardown_plan(s).len() ==> !((#[trigger] spec_teardown_plan(s)[k])
                is DestroySwapchain),
        s.device matches Some(h) ==> spec_teardown_plan(s).contains(TeardownStep::DestroyDevice(h)),
        s.surface matches Some(h) ==> spec_teardown_plan(s).contains(
            TeardownStep::DestroySurface(h),
        ),
        s.instance matches Some(h) ==> spec_teardown_plan(s).contains(
            TeardownStep::DestroyInstance(h),
        ),
{
    let plan = spec_teardown_plan(s);
    let views = s.image_views@.map_values(|h: u64| TeardownStep::DestroyImageView(h));
    assert forall|k: int| 0 <= k < plan.len() implies !((#[trigger] plan[k]) is DestroySwapchain) by {
        if k < views.len() {
            assert(plan[k] == views[k]);
        }
    }
    if s.device is Some {
        assert(plan[views.len() as int] == TeardownStep::DestroyDevice(s.device->0));
    }
    let dev_len: int = if s.device is Some { 1int } else { 0int };
    if s.surface is Some {
        assert(plan[views.len() + dev_len] == TeardownStep::DestroySurface(s.surface->0));
    }
    let sur_len: int = if s.surface is Some { 1int } else { 0int };
    if s.instance is Some {
        assert(plan[views.len() + dev_len + sur_len] == TeardownStep::DestroyInstance(
            s.instance->0,
        ));
    }
}

/// Compute the teardown steps for a state, in the fixed reverse-dependency
/// order, skipping every absent handle.
pub fn teardown_plan(s: &ResourceState) -> (r: Vec<TeardownStep>)
    ensures
        r@ == spec_teardown_plan(*s),
{
    let ghost views_part = s.image_views@.map_values(|h: u64| TeardownStep::DestroyImageView(h));
    let mut r: Vec<TeardownStep> = Vec::new();
    let n = s.image_views.len();
    let mut i: usize = 0;
    while i < n
        invariant
            n == s.image_views@.len(),
            0 <= i <= n,
            r@.len() == i,
            forall|j: int|
                0 <= j < i ==> r@[j] == TeardownStep::DestroyImageView(s.image_views@[j]),
        decreases n - i,
    {
        r.push(TeardownStep::DestroyImageView(s.image_views[i]));
        i = i + 1;
    }
    proof {
        assert(r@ =~= views_part);
    }
    match s.swapchain {
        Some(h) => r.push(TeardownStep::DestroySwapchain(h)),
        None => {},
    }
    match s.device {
        Some(h) => r.push(TeardownStep::DestroyDevice(h)),
        None => {},
    }
    match s.surface {
        Some(h) => r.push(TeardownStep::DestroySurface(h)),
        None => {},
    }
    match s.instance {
        Some(h) => r.push(TeardownStep::DestroyInstance(h)),
        None => {},
    }
    proof {
        assert(r@ =~= spec_teardown_plan(*s));
    }
    r
}

} // verus!
