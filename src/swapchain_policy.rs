//! How the parameters of a new swapchain follow from the surface's capabilities.

use vstd::prelude::*;

verus! {

/// A width and a height in pixels.
#[derive(Clone, Copy, Debug, PartialEq, Eq, Structural)]
pub struct Extent2 {
    pub width: u32,
    pub height: u32,
}

/// What the surface reports about the swapchains it accepts.
#[derive(Clone, Copy, Debug, PartialEq, Eq, Structural)]
pub struct SurfaceCapabilities {
    pub min_image_count: u32,
    /// `None` when the surface sets no upper bound.
    pub max_image_count: Option<u32>,
    /// `Some` when the surface dictates the extent of its images.
    pub current_extent: Option<Extent2>,
    pub min_image_extent: Extent2,
    pub max_image_extent: Extent2,
}

pub open spec fn min_u32(a: u32, b: u32) -> u32 {
    if a <= b { a } else { b }
}

pub open spec fn max_u32(a: u32, b: u32) -> u32 {
    if a >= b { a } else { b }
}

/// `v` clamped into `[lo, hi]`; where `lo > hi` the lower bound wins.
pub open spec fn clamp_spec(v: u32, lo: u32, hi: u32) -> u32 {
    max_u32(lo, min_u32(hi, v))
}

impl SurfaceCapabilities {
    /// The bounds are consistent: the largest count and extent are no smaller
    /// than the smallest.
    pub open spec fn wf(&self) -> bool {
        &&& (self.max_image_count matches Some(m) ==> self.min_image_count <= m)
        &&& self.min_image_extent.width <= self.max_image_extent.width
        &&& self.min_image_extent.height <= self.max_image_extent.height
    }

    /// The upper bound on the image count, an unbounded maximum standing for
    /// one more than the minimum.
    pub open spec fn effective_max_count(&self) -> int {
        match self.max_image_count {
            Some(m) => m as int,
            None => self.min_image_count + 1,
        }
    }

    /// Room for the default maximum of one more than the minimum.
    pub open spec fn count_fits(&self) -> bool {
        self.max_image_count is Some || self.min_image_count < u32::MAX
    }
}

/// The image count asked for: double buffering beyond the minimum, but never
/// above the maximum.
pub open spec fn image_count_spec(caps: SurfaceCapabilities) -> int {
    let pref = caps.min_image_count + 1;
    let m = caps.effective_max_count();
    if m <= pref { m } else { pref }
}

/// The extent asked for: the surface's own where it sets one, else the
/// window's size clamped into the surface's bounds, one component at a time.
pub open spec fn extent_spec(caps: SurfaceCapabilities, window: Extent2) -> Extent2 {
    match caps.current_extent {
        Some(e) => e,
        None => Extent2 {
            width: clamp_spec(window.width, caps.min_image_extent.width, caps.max_image_extent.width),
            height: clamp_spec(window.height, caps.min_image_extent.height, caps.max_image_extent.height),
        },
    }
}

/// Image count for a new swapchain.
pub fn choose_image_count(caps: &SurfaceCapabilities) -> (r: u32)
    requires
        caps.count_fits(),
    ensures
        r == image_count_spec(*caps),
        caps.wf() ==> caps.min_image_count <= r <= caps.effective_max_count(),
{
    match caps.max_image_count {
        Some(m) => {
            if m <= caps.min_image_count {
                m
            } else {
                caps.min_image_count + 1
            }
        },
        None => caps.min_image_count + 1,
    }
}

fn clamp_u32(v: u32, lo: u32, hi: u32) -> (r: u32)
    ensures
        r == clamp_spec(v, lo, hi),
        lo <= hi ==> lo <= r <= hi,
        lo <= v <= hi ==> r == v,
{
    let capped = if v <= hi { v } else { hi };
    if capped >= lo { capped } else { lo }
}

/// Extent for a new swapchain, given the window's current inner size.
pub fn choose_extent(caps: &SurfaceCapabilities, window: Extent2) -> (r: Extent2)
    ensures
        r == extent_spec(*caps, window),
        caps.current_extent is None && caps.wf() ==> {
            &&& caps.min_image_extent.width <= r.width <= caps.max_image_extent.width
            &&& caps.min_image_extent.height <= r.height <= caps.max_image_extent.height
        },
{
    match caps.current_extent {
        Some(e) => e,
        None => Extent2 {
            width: clamp_u32(window.width, caps.min_image_extent.width, caps.max_image_extent.width),
            height: clamp_u32(window.height, caps.min_image_extent.height, caps.max_image_extent.height),
        },
    }
}

/// How the swapchain's images are shared between queue families.
#[derive(Clone, Copy, Debug, PartialEq, Eq, Structural)]
pub enum Sharing {
    /// One family owns the images.
    Exclusive { family: u32 },
    /// The graphics family and the present family use the images together.
    Concurrent { graphics_family: u32, present_family: u32 },
}

pub open spec fn sharing_spec(graphics_family: u32, present_family: u32) -> Sharing {
    if graphics_family == present_family {
        Sharing::Exclusive { family: graphics_family }
    } else {
        Sharing::Concurrent { graphics_family, present_family }
    }
}

/// Exclusive where the two queues share a family, concurrent across both
/// families otherwise.
pub fn choose_sharing(graphics_family: u32, present_family: u32) -> (r: Sharing)
    ensures
        r == sharing_spec(graphics_family, present_family),
{
    if graphics_family == present_family {
        Sharing::Exclusive { family: graphics_family }
    } else {
        Sharing::Concurrent { graphics_family, present_family }
    }
}

/// The parameters of a swapchain that vary with the surface and the queues.
/// The colour format (8-bit BGRA, sRGB non-linear), the opaque composite
/// alpha and the FIFO present mode never vary.
#[derive(Clone, Copy, Debug, PartialEq, Eq, Structural)]
pub struct SwapchainPlan {
    pub image_count: u32,
    pub extent: Extent2,
    pub sharing: Sharing,
}

/// Everything that a new swapchain is created with, from the surface's
/// capabilities, the window's current size and the two queue families.
pub fn plan_swapchain(
    caps: &SurfaceCapabilities,
    window: Extent2,
    graphics_family: u32,
    present_family: u32,
) -> (r: SwapchainPlan)
    requires
        caps.count_fits(),
    ensures
        r.image_count == image_count_spec(*caps),
        r.extent == extent_spec(*caps, window),
        r.sharing == sharing_spec(graphics_family, present_family),
{
    SwapchainPlan {
        image_count: choose_image_count(caps),
        extent: choose_extent(caps, window),
        sharing: choose_sharing(graphics_family, present_family),
    }
}

/// A surface that fixes its image count gets exactly that many images.
pub proof fn lemma_fixed_image_count(caps: SurfaceCapabilities)
    requires
        caps.max_image_count == Some(caps.min_image_count),
    ensures
        image_count_spec(caps) == caps.min_image_count,
{
}

/// The chosen extent is the surface's current extent where it reports one;
/// otherwise it is the window's size clamped into the surface's bounds, and
/// a window size already within the bounds is kept.
pub proof fn lemma_extent_choice(caps: SurfaceCapabilities, window: Extent2)
    ensures
        caps.current_extent matches Some(e) ==> extent_spec(caps, window) == e,
        caps.current_extent is None ==> {
            &&& extent_spec(caps, window).width == clamp_spec(
                window.width,
                caps.min_image_extent.width,
                caps.max_image_extent.width,
            )
            &&& extent_spec(caps, window).height == clamp_spec(
                window.height,
                caps.min_image_extent.height,
                caps.max_image_extent.height,
            )
        },
        caps.current_extent is None && caps.wf() ==> {
            &&& caps.min_image_extent.width <= extent_spec(caps, window).width
                <= caps.max_image_extent.width
            &&& caps.min_image_extent.height <= extent_spec(caps, window).height
                <= caps.max_image_extent.height
        },
        caps.current_extent is None
            && caps.min_image_extent.width <= window.width <= caps.max_image_extent.width
            && caps.min_image_extent.height <= window.height <= caps.max_image_extent.height
            ==> extent_spec(caps, window) == window,
{
}

} // verus!
