//! Swapchain: the rotating set of presentable images backing the surface.
//!
//! The chain is derived from the queried surface capabilities: the extent
//! (clamped to the surface size when the driver leaves it open), the image
//! count, and the present mode. Acquiring the next image can report that the
//! surface went stale, which is a recoverable, resize-triggering condition.

use vstd::prelude::*;

use crate::error::Error;
use crate::gpu::PresentMode;
use crate::gpu::VSync;

verus! {

/// Queried capabilities of the present surface.
#[derive(Debug, Clone, Copy, PartialEq, Eq, Structural)]
pub struct SurfaceCapabilities {
    /// Extent the driver fixes for the surface; a width of `u32::MAX` means
    /// the extent is left to the application.
    pub current_width: u32,
    pub current_height: u32,
    pub min_width: u32,
    pub max_width: u32,
    pub min_height: u32,
    pub max_height: u32,
    pub min_image_count: u32,
    /// Zero means no upper limit.
    pub max_image_count: u32,
}

impl SurfaceCapabilities {
    /// The extent bounds are ordered and the image counts sane.
    pub open spec fn spec_wf(self) -> bool {
        &&& self.min_width <= self.max_width
        &&& self.min_height <= self.max_height
        &&& self.min_image_count < u32::MAX
    }
}

/// A value clamped into an inclusive range.
pub open spec fn spec_clamp(v: u32, lo: u32, hi: u32) -> u32
    recommends
        lo <= hi,
{
    if v < lo {
        lo
    } else if v > hi {
        hi
    } else {
        v
    }
}

/// Clamp a value into an inclusive range.
pub fn clamp(v: u32, lo: u32, hi: u32) -> (r: u32)
    requires
        lo <= hi,
    ensures
        r == spec_clamp(v, lo, hi),
{
    if v < lo {
        lo
    } else if v > hi {
        hi
    } else {
        v
    }
}

/// The extent the chain uses: the driver's fixed extent when there is one,
/// else the surface size clamped into the supported bounds.
pub open spec fn spec_pick_extent(caps: SurfaceCapabilities, surface_width: u32, surface_height: u32) -> (
    u32,
    u32,
) {
    if caps.current_width != u32::MAX {
        (caps.current_width, caps.current_height)
    } else {
        (
            spec_clamp(surface_width, caps.min_width, caps.max_width),
            spec_clamp(surface_height, caps.min_height, caps.max_height),
        )
    }
}

/// Pick the extent of the image chain.
pub fn pick_extent(caps: SurfaceCapabilities, surface_width: u32, surface_height: u32) -> (r: (
    u32,
    u32,
))
    requires
        caps.spec_wf(),
    ensures
        r == spec_pick_extent(caps, surface_width, surface_height),
{
    if caps.current_width != u32::MAX {
        (caps.current_width, caps.current_height)
    } else {
        (
            clamp(surface_width, caps.min_width, caps.max_width),
            clamp(surface_height, caps.min_height, caps.max_height),
        )
    }
}

/// The present mode the vsync setting asks for.
pub fn pick_present_mode(vsync: VSync) -> (r: PresentMode)
    ensures
        r == vsync.spec_present_mode(),
{
    vsync.present_mode()
}

/// One image more than the minimum, capped at the maximum where the driver
/// reports one.
pub open spec fn spec_pick_image_count(caps: SurfaceCapabilities) -> u32 {
    if caps.max_image_count > 0 && caps.min_image_count + 1 > caps.max_image_count {
        caps.max_image_count
    } else {
        (caps.min_image_count + 1) as u32
    }
}

/// Pick how many images the chain holds.
pub fn pick_image_count(caps: SurfaceCapabilities) -> (r: u32)
    requires
        caps.spec_wf(),
    ensures
        r == spec_pick_image_count(caps),
{
    if caps.max_image_count > 0 && caps.min_image_count + 1 > caps.max_image_count {
        caps.max_image_count
    } else {
        caps.min_image_count + 1
    }
}

/// What the presentation engine reported for an acquire request.
#[derive(Debug, Clone, Copy, PartialEq, Eq, Structural)]
pub enum Acquire {
    /// The engine handed out this image index.
    Image { index: u32 },
    /// The surface is stale; the chain must be recreated.
    OutOfDate,
}

/// The present-surface-bound image chain and its derived configuration.
#[derive(Debug, Clone, Copy, PartialEq, Eq, Structural)]
pub struct Swapchain {
    pub width: u32,
    pub height: u32,
    pub image_count: u32,
    pub present_mode: PresentMode,
    /// Index of the most recently acquired image.
    pub current_image: u32,
}

impl Swapchain {
    /// Whether the chain's configuration is the one derived from the given
    /// capabilities, surface size and vsync setting, with the image index
    /// reset.
    pub open spec fn spec_configured(
        self,
        caps: SurfaceCapabilities,
        surface_width: u32,
        surface_height: u32,
        vsync: VSync,
    ) -> bool {
        &&& self.width == spec_pick_extent(caps, surface_width, surface_height).0
        &&& self.height == spec_pick_extent(caps, surface_width, surface_height).1
        &&& self.image_count == spec_pick_image_count(caps)
        &&& self.present_mode == vsync.spec_present_mode()
        &&& self.current_image == 0
    }

    /// Build the chain for a surface.
    pub fn new(
        caps: SurfaceCapabilities,
        surface_width: u32,
        surface_height: u32,
        vsync: VSync,
    ) -> (r: Swapchain)
        requires
            caps.spec_wf(),
        ensures
            r.spec_configured(caps, surface_width, surface_height, vsync),
    {
        let (width, height) = pick_extent(caps, surface_width, surface_height);
        Swapchain {
            width,
            height,
            image_count: pick_image_count(caps),
            present_mode: pick_present_mode(vsync),
            current_image: 0,
        }
    }

    /// Rebuild the chain in place after a resize or capability change; the
    /// old images are discarded.
    pub fn recreate(
        &mut self,
        caps: SurfaceCapabilities,
        surface_width: u32,
        surface_height: u32,
        vsync: VSync,
    )
        requires
            caps.spec_wf(),
        ensures
            final(self).spec_configured(caps, surface_width, surface_height, vsync),
    {
        *self = Swapchain::new(caps, surface_width, surface_height, vsync);
    }

    /// Take note of an acquire outcome.
    ///
    /// A delivered index in range becomes the current image; a stale surface
    /// is reported as the distinct, resize-triggering
    /// [`Error::SurfaceOutOfDate`]; an index out of range means a broken
    /// driver and is fatal. On any error the chain is unchanged.
    pub fn next(&mut self, acquired: Acquire) -> (r: Result<u32, Error>)
        ensures
            match acquired {
                Acquire::OutOfDate => r == Err::<u32, Error>(Error::SurfaceOutOfDate) && *final(self)
                    == *old(self),
                Acquire::Image { index } => if index < old(self).image_count {
                    r == Ok::<u32, Error>(index) && *final(self) == (Swapchain {
                        current_image: index,
                        ..*old(self)
                    })
                } else {
                    r == Err::<u32, Error>(Error::GpuError) && *final(self) == *old(self)
                },
            },
    {
        match acquired {
            Acquire::OutOfDate => Err(Error::SurfaceOutOfDate),
            Acquire::Image { index } => {
                if index < self.image_count {
                    self.current_image = index;
                    Ok(index)
                } else {
                    Err(Error::GpuError)
                }
            },
        }
    }

    /// Index of the most recently acquired image.
    pub fn current(&self) -> (r: u32)
        ensures
            r == self.current_image,
    {
        self.current_image
    }
}

} // verus!
