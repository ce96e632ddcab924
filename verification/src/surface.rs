//! Surface capability snapshot for one (device, surface) pair, and the
//! negotiation of concrete presentation parameters from it: surface format,
//! present mode, drawable extent and image count.

use vstd::prelude::*;

verus! {

/// Raw value of the preferred 8-bit BGRA sRGB image format in the graphics
/// API's format enumeration.
pub const FORMAT_B8G8R8A8_SRGB: u32 = 50;

/// Raw value of the standard non-linear sRGB colour space in the graphics
/// API's colour-space enumeration.
pub const COLOR_SPACE_SRGB_NONLINEAR: u32 = 0;

/// Sentinel width marking an adaptive current extent: the surface takes its
/// size from the swapchain rather than dictating one.
pub const ADAPTIVE_EXTENT: u32 = u32::MAX;

/// One advertised (format, colour-space) pair, carried as the raw values of
/// the graphics API's enumerations.
#[derive(Clone, Copy, Debug, PartialEq, Eq, Structural)]
pub struct SurfaceFormat {
    pub format: u32,
    pub color_space: u32,
}

/// A presentation mode: the policy for when a presented image is shown
/// relative to display refresh. Modes outside the fixed preference order are
/// carried as `Other`; they are never chosen.
#[derive(Clone, Copy, Debug, PartialEq, Eq, Structural)]
pub enum PresentMode {
    Mailbox,
    Immediate,
    FifoRelaxed,
    Fifo,
    Other,
}

/// A drawable size in pixels.
#[derive(Clone, Copy, Debug, PartialEq, Eq, Structural)]
pub struct Extent {
    pub width: u32,
    pub height: u32,
}

/// Surface capabilities for one (device, surface) pair: image-count bounds,
/// extent bounds, and the current transform (carried through untouched as the
/// raw transform bits).
#[derive(Clone, Copy, Debug, PartialEq, Eq, Structural)]
pub struct SurfaceCaps {
    pub min_image_count: u32,
    /// Zero means no upper bound.
    pub max_image_count: u32,
    pub current_extent: Extent,
    pub min_image_extent: Extent,
    pub max_image_extent: Extent,
    pub current_transform: u32,
}

/// The full capability snapshot for one (device, surface) pair.
pub struct SwapChainSupport {
    pub capabilities: SurfaceCaps,
    pub formats: Vec<SurfaceFormat>,
    pub present_modes: Vec<PresentMode>,
}

/// Preference score of an advertised format pair: one point for the preferred
/// 8-bit BGRA sRGB format, one for the standard non-linear sRGB colour space.
pub open spec fn format_score(f: SurfaceFormat) -> int {
    (if f.format == FORMAT_B8G8R8A8_SRGB { 1int } else { 0int })
        + (if f.color_space == COLOR_SPACE_SRGB_NONLINEAR { 1int } else { 0int })
}

/// `i` is the earliest position holding a format pair of minimal score.
pub open spec fn is_first_minimal_format(formats: Seq<SurfaceFormat>, i: int) -> bool {
    &&& 0 <= i < formats.len()
    &&& forall|j: int| 0 <= j < formats.len() ==> format_score(formats[i]) <= format_score(formats[j])
    &&& forall|j: int| 0 <= j < i ==> format_score(formats[i]) < format_score(formats[j])
}

/// The mode list advertises `m`.
pub open spec fn mode_supported(modes: Seq<PresentMode>, m: PresentMode) -> bool {
    exists|i: int| 0 <= i < modes.len() && modes[i] == m
}

/// The mode the negotiator picks: the first of mailbox, immediate,
/// relaxed-FIFO, FIFO that the list advertises. FIFO is the guaranteed
/// fallback.
pub open spec fn chosen_mode(modes: Seq<PresentMode>) -> PresentMode {
    if mode_supported(modes, PresentMode::Mailbox) {
        PresentMode::Mailbox
    } else if mode_supported(modes, PresentMode::Immediate) {
        PresentMode::Immediate
    } else if mode_supported(modes, PresentMode::FifoRelaxed) {
        PresentMode::FifoRelaxed
    } else {
        PresentMode::Fifo
    }
}

/// `x` clamped to `[lo, hi]`.
pub open spec fn spec_clamp(x: u32, lo: u32, hi: u32) -> u32 {
    if x < lo {
        lo
    } else if x > hi {
        hi
    } else {
        x
    }
}

/// The extent the negotiator resolves: the snapshot's current extent
/// verbatim unless it carries the adaptive sentinel, in which case the
/// drawable size clamped per axis to the snapshot's extent bounds.
pub open spec fn resolved_extent(caps: SurfaceCaps, drawable: Extent) -> Extent {
    if caps.current_extent.width != ADAPTIVE_EXTENT {
        caps.current_extent
    } else {
        Extent {
            width: spec_clamp(drawable.width, caps.min_image_extent.width, caps.max_image_extent.width),
            height: spec_clamp(
                drawable.height,
                caps.min_image_extent.height,
                caps.max_image_extent.height,
            ),
        }
    }
}

/// The image count the negotiator resolves: one more than the minimum, for
/// reduced stalling, clamped down to the maximum when that bound is nonzero.
pub open spec fn resolved_image_count(caps: SurfaceCaps) -> int {
    if caps.max_image_count > 0 && caps.min_image_count + 1 > caps.max_image_count {
        caps.max_image_count as int
    } else {
        caps.min_image_count + 1
    }
}

/// Exec mirror of `format_score`.
fn format_preference(f: &SurfaceFormat) -> (r: u32)
    ensures
        r as int == format_score(*f),
{
    let mut score: u32 = 0;
    if f.format == FORMAT_B8G8R8A8_SRGB {
        score = score + 1;
    }
    if f.color_space == COLOR_SPACE_SRGB_NONLINEAR {
        score = score + 1;
    }
    score
}

/// Whether `modes` advertises `m`.
fn contains_mode(modes: &Vec<PresentMode>, m: PresentMode) -> (r: bool)
    ensures
        r == mode_supported(modes@, m),
{
    let n = modes.len();
    let mut i: usize = 0;
    while i < n
        invariant
            n == modes@.len(),
            0 <= i <= n,
            forall|j: int| 0 <= j < i ==> modes@[j] != m,
        decreases n - i,
    {
        if modes[i] == m {
            return true;
        }
        i = i + 1;
    }
    false
}

/// `x` clamped to `[lo, hi]`.
fn clamp_u32(x: u32, lo: u32, hi: u32) -> (r: u32)
    requires
        lo <= hi,
    ensures
        r == spec_clamp(x, lo, hi),
{
    if x < lo {
        lo
    } else if x > hi {
        hi
    } else {
        x
    }
}

impl SwapChainSupport {
    /// A snapshot on which negotiation is defined: a non-empty format list,
    /// FIFO among the advertised modes (the platform's guaranteed fallback),
    /// ordered extent bounds, and an image-count minimum with headroom for
    /// the extra image.
    pub open spec fn negotiable(self) -> bool {
        &&& self.formats@.len() > 0
        &&& mode_supported(self.present_modes@, PresentMode::Fifo)
        &&& self.capabilities.min_image_extent.width <= self.capabilities.max_image_extent.width
        &&& self.capabilities.min_image_extent.height <= self.capabilities.max_image_extent.height
        &&& self.capabilities.min_image_count < u32::MAX
    }

    /// Assemble a snapshot from its queried parts.
    pub fn new(
        capabilities: SurfaceCaps,
        formats: Vec<SurfaceFormat>,
        present_modes: Vec<PresentMode>,
    ) -> (r: SwapChainSupport)
        ensures
            r.capabilities == capabilities,
            r.formats == formats,
            r.present_modes == present_modes,
    {
        SwapChainSupport { capabilities, formats, present_modes }
    }

    /// Pick the advertised format pair with the *lowest* preference score,
    /// ties going to the earliest advertised pair. The ascending comparison
    /// is deliberate and kept as the crate's documented behaviour: a caller
    /// wanting the most-preferred pair must invert the score.
    pub fn choose_swap_surface_format(&self) -> (r: SurfaceFormat)
        requires
            self.formats@.len() > 0,
        ensures
            exists|i: int| is_first_minimal_format(self.formats@, i) && r == self.formats@[i],
    {
        let n = self.formats.len();
        let mut best: usize = 0;
        let mut best_score: u32 = format_preference(&self.formats[0]);
        let mut i: usize = 1;
        while i < n
            invariant
                n == self.formats@.len(),
                0 < n,
                0 <= best < i <= n,
                best_score as int == format_score(self.formats@[best as int]),
                forall|j: int| 0 <= j < i ==> best_score as int <= format_score(self.formats@[j]),
                forall|j: int| 0 <= j < best ==> (best_score as int) < format_score(self.formats@[j]),
            decreases n - i,
        {
            let s = format_preference(&self.formats[i]);
            if s < best_score {
                best = i;
                best_score = s;
            }
            i = i + 1;
        }
        proof {
            assert(is_first_minimal_format(self.formats@, best as int));
        }
        self.formats[best]
    }

    /// Pick the present mode: the first of mailbox, immediate, relaxed-FIFO,
    /// FIFO that the snapshot advertises.
    pub fn choose_swap_present_mode(&self) -> (r: PresentMode)
        requires
            mode_supported(self.present_modes@, PresentMode::Fifo),
        ensures
            r == chosen_mode(self.present_modes@),
    {
        if contains_mode(&self.present_modes, PresentMode::Mailbox) {
            PresentMode::Mailbox
        } else if contains_mode(&self.present_modes, PresentMode::Immediate) {
            PresentMode::Immediate
        } else if contains_mode(&self.present_modes, PresentMode::FifoRelaxed) {
            PresentMode::FifoRelaxed
        } else {
            PresentMode::Fifo
        }
    }

    /// Resolve the swapchain extent: the current extent verbatim unless the
    /// snapshot marks it adaptive, in which case the drawable size clamped
    /// per axis to the snapshot's bounds.
    pub fn get_swap_extent(&self, drawable: Extent) -> (r: Extent)
        requires
            self.capabilities.min_image_extent.width <= self.capabilities.max_image_extent.width,
            self.capabilities.min_image_extent.height <= self.capabilities.max_image_extent.height,
        ensures
            r == resolved_extent(self.capabilities, drawable),
    {
        let caps = self.capabilities;
        if caps.current_extent.width != ADAPTIVE_EXTENT {
            caps.current_extent
        } else {
            Extent {
                width: clamp_u32(
                    drawable.width,
                    caps.min_image_extent.width,
                    caps.max_image_extent.width,
                ),
                height: clamp_u32(
                    drawable.height,
                    caps.min_image_extent.height,
                    caps.max_image_extent.height,
                ),
            }
        }
    }

    /// Resolve the number of swapchain images to request.
    pub fn image_count(&self) -> (r: u32)
        requires
            self.capabilities.min_image_count < u32::MAX,
        ensures
            r as int == resolved_image_count(self.capabilities),
    {
        let caps = self.capabilities;
        let curr = caps.min_image_count + 1;
        if caps.max_image_count > 0 && curr > caps.max_image_count {
            caps.max_image_count
        } else {
            curr
        }
    }
}

} // verus!
