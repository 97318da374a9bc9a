//! Physical GPU selection.
//!
//! Each enumerated GPU is scored against a capability checklist: one base
//! point, one hundred bonus points for a discrete GPU, and disqualification
//! (score zero) if any mandatory capability is missing. The highest-scoring
//! candidate wins; ties go to the earlier enumeration index.

use vstd::prelude::*;

use crate::error::Error;
use crate::memory::MemoryType;

verus! {

/// The color format the present surface must offer: 8-bit BGRA with sRGB
/// transfer.
pub const FORMAT_SBGRA: u32 = 50;

/// The color space the present surface must offer: non-linear sRGB.
pub const COLOR_SPACE_SRGB: u32 = 0;

/// Kind of a physical GPU as the driver reports it.
#[derive(Debug, Clone, Copy, PartialEq, Eq, Structural)]
pub enum DeviceType {
    Discrete,
    Integrated,
    Virtual,
    Cpu,
    Other,
}

/// Vertical synchronisation setting requested by the application.
#[derive(Debug, Clone, Copy, PartialEq, Eq, Structural)]
pub enum VSync {
    On,
    Off,
}

/// Multisample anti-aliasing level requested by the application.
#[derive(Debug, Clone, Copy, PartialEq, Eq, Structural)]
pub enum Msaa {
    Disabled,
    X4,
    X8,
    X16,
}

/// Presentation mode of the surface.
#[derive(Debug, Clone, Copy, PartialEq, Eq, Structural)]
pub enum PresentMode {
    /// Queued presentation locked to the display refresh.
    Fifo,
    /// Immediate presentation, tearing allowed.
    Immediate,
}

impl VSync {
    /// The presentation mode this setting asks for.
    pub open spec fn spec_present_mode(self) -> PresentMode {
        match self {
            VSync::On => PresentMode::Fifo,
            VSync::Off => PresentMode::Immediate,
        }
    }

    /// The presentation mode this setting asks for.
    pub fn present_mode(self) -> (r: PresentMode)
        ensures
            r == self.spec_present_mode(),
    {
        match self {
            VSync::On => PresentMode::Fifo,
            VSync::Off => PresentMode::Immediate,
        }
    }
}

/// One surface format a GPU offers: a pixel format paired with a color space.
#[derive(Debug, Clone, Copy, PartialEq, Eq, Structural)]
pub struct SurfaceFormat {
    pub format: u32,
    pub color_space: u32,
}

/// Queried properties of one candidate physical GPU, reduced to the plain
/// values the selection logic reads.
#[derive(Debug, Clone)]
pub struct GpuProperties {
    pub device_type: DeviceType,
    /// All required device extensions are available.
    pub supports_extensions: bool,
    /// A queue family usable for both graphics and presentation, if any.
    pub queue_index: Option<u32>,
    pub sampler_anisotropy: bool,
    pub fill_mode_non_solid: bool,
    pub wide_lines: bool,
    pub present_modes: Vec<PresentMode>,
    pub msaa_levels: Vec<Msaa>,
    pub formats: Vec<SurfaceFormat>,
    /// Memory types of this GPU, handed on to the device for allocation.
    pub memory_types: Vec<MemoryType>,
}

impl GpuProperties {
    /// Whether the GPU offers a BGRA surface format with sRGB color space.
    pub open spec fn spec_has_srgb_format(self) -> bool {
        exists|k: int|
            0 <= k < self.formats@.len() && self.formats@[k].format == FORMAT_SBGRA
                && self.formats@[k].color_space == COLOR_SPACE_SRGB
    }

    /// Whether the GPU supports the present mode the vsync setting asks for.
    pub fn supports_present_mode(&self, vsync: VSync) -> (r: bool)
        ensures
            r == self.present_modes@.contains(vsync.spec_present_mode()),
    {
        let wanted = vsync.present_mode();
        let mut i: usize = 0;
        while i < self.present_modes.len()
            invariant
                i <= self.present_modes@.len(),
                forall|j: int| 0 <= j < i ==> self.present_modes@[j] != wanted,
                wanted == vsync.spec_present_mode(),
            decreases self.present_modes@.len() - i,
        {
            if self.present_modes[i] == wanted {
                return true;
            }
            i = i + 1;
        }
        false
    }

    /// Whether the GPU supports the requested multisample level.
    pub fn supports_msaa(&self, msaa: Msaa) -> (r: bool)
        ensures
            r == self.msaa_levels@.contains(msaa),
    {
        let mut i: usize = 0;
        while i < self.msaa_levels.len()
            invariant
                i <= self.msaa_levels@.len(),
                forall|j: int| 0 <= j < i ==> self.msaa_levels@[j] != msaa,
            decreases self.msaa_levels@.len() - i,
        {
            if self.msaa_levels[i] == msaa {
                return true;
            }
            i = i + 1;
        }
        false
    }

    /// Whether the GPU offers a BGRA surface format with sRGB color space.
    pub fn has_srgb_format(&self) -> (r: bool)
        ensures
            r == self.spec_has_srgb_format(),
    {
        let mut i: usize = 0;
        while i < self.formats.len()
            invariant
                i <= self.formats@.len(),
                forall|j: int|
                    0 <= j < i ==> !(self.formats@[j].format == FORMAT_SBGRA
                        && self.formats@[j].color_space == COLOR_SPACE_SRGB),
            decreases self.formats@.len() - i,
        {
            if self.formats[i].format == FORMAT_SBGRA && self.formats[i].color_space
                == COLOR_SPACE_SRGB {
                return true;
            }
            i = i + 1;
        }
        false
    }
}

/// Whether a candidate has every mandatory capability: the required
/// extensions, a usable queue family, anisotropic sampling, non-solid fill
/// mode, wide lines, the requested present mode, the requested multisample
/// level, and an sRGB-capable present format.
pub open spec fn spec_mandatory_ok(p: GpuProperties, vsync: VSync, msaa: Msaa) -> bool {
    &&& p.supports_extensions
    &&& p.queue_index is Some
    &&& p.sampler_anisotropy
    &&& p.fill_mode_non_solid
    &&& p.wide_lines
    &&& p.present_modes@.contains(vsync.spec_present_mode())
    &&& p.msaa_levels@.contains(msaa)
    &&& p.spec_has_srgb_format()
}

/// Score of one candidate: zero if disqualified, else one base point plus a
/// hundred bonus points for a discrete GPU.
pub open spec fn spec_gpu_score(p: GpuProperties, vsync: VSync, msaa: Msaa) -> int {
    if !spec_mandatory_ok(p, vsync, msaa) {
        0
    } else if p.device_type is Discrete {
        101
    } else {
        1
    }
}

/// Characterisation of the selection result: index `i` holds a positive score
/// and no candidate beats it, earlier candidates not even equalling it.
pub open spec fn spec_picked_gpu(
    props: Seq<GpuProperties>,
    vsync: VSync,
    msaa: Msaa,
    i: int,
) -> bool {
    &&& 0 <= i < props.len()
    &&& spec_gpu_score(props[i], vsync, msaa) > 0
    &&& forall|j: int|
        0 <= j < props.len() ==> spec_gpu_score(props[j], vsync, msaa) < spec_gpu_score(
            props[i],
            vsync,
            msaa,
        ) || (spec_gpu_score(props[j], vsync, msaa) == spec_gpu_score(props[i], vsync, msaa) && i
            <= j)
}

/// Score one candidate against the capability checklist.
fn gpu_score(p: &GpuProperties, vsync: VSync, msaa: Msaa) -> (r: u32)
    ensures
        r == spec_gpu_score(*p, vsync, msaa),
{
    let mandatory = p.supports_extensions && p.queue_index.is_some() && p.sampler_anisotropy
        && p.fill_mode_non_solid && p.wide_lines && p.supports_present_mode(vsync)
        && p.supports_msaa(msaa) && p.has_srgb_format();
    if !mandatory {
        0
    } else if matches!(p.device_type, DeviceType::Discrete) {
        101
    } else {
        1
    }
}

/// Pick the most suitable GPU from the enumerated candidates.
///
/// Returns the index of the highest-scoring candidate, ties broken by
/// enumeration order; fails with [`Error::NoSuitableGpu`] exactly when every
/// candidate misses some mandatory capability.
pub fn pick_gpu(props: &Vec<GpuProperties>, vsync: VSync, msaa: Msaa) -> (r: Result<usize, Error>)
    ensures
        match r {
            Ok(i) => spec_picked_gpu(props@, vsync, msaa, i as int),
            Err(e) => e == Error::NoSuitableGpu && forall|j: int|
                0 <= j < props@.len() ==> spec_gpu_score(props@[j], vsync, msaa) == 0,
        },
{
    let mut best: usize = 0;
    let mut best_score: u32 = 0;
    let mut found = false;
    let mut i: usize = 0;
    while i < props.len()
        invariant
            i <= props@.len(),
            !found ==> best_score == 0 && forall|j: int|
                0 <= j < i ==> spec_gpu_score(props@[j], vsync, msaa) == 0,
            found ==> {
                &&& best < i
                &&& best_score == spec_gpu_score(props@[best as int], vsync, msaa)
                &&& best_score > 0
                &&& forall|j: int|
                    0 <= j < best ==> spec_gpu_score(props@[j], vsync, msaa) < best_score
                &&& forall|j: int| 0 <= j < i ==> spec_gpu_score(props@[j], vsync, msaa) <= best_score
            },
        decreases props@.len() - i,
    {
        let score = gpu_score(&props[i], vsync, msaa);
        if score > best_score {
            best = i;
            best_score = score;
            found = true;
        }
        i = i + 1;
    }
    if found {
        Ok(best)
    } else {
        Err(Error::NoSuitableGpu)
    }
}

/// Law: GPU selection is deterministic. Two indices that both satisfy the
/// selection characterisation for the same candidate list are equal.
pub proof fn lemma_pick_gpu_deterministic(
    props: Seq<GpuProperties>,
    vsync: VSync,
    msaa: Msaa,
    i: int,
    j: int,
)
    requires
        spec_picked_gpu(props, vsync, msaa, i),
        spec_picked_gpu(props, vsync, msaa, j),
    ensures
        i == j,
{
    assert(spec_gpu_score(props[j], vsync, msaa) < spec_gpu_score(props[i], vsync, msaa) || (
    spec_gpu_score(props[j], vsync, msaa) == spec_gpu_score(props[i], vsync, msaa) && i <= j));
    assert(spec_gpu_score(props[i], vsync, msaa) < spec_gpu_score(props[j], vsync, msaa) || (
    spec_gpu_score(props[i], vsync, msaa) == spec_gpu_score(props[j], vsync, msaa) && j <= i));
}

/// Law: a candidate missing any mandatory capability is never selected, even
/// if it would otherwise carry the highest discrete-GPU bonus.
pub proof fn lemma_unsuitable_never_picked(
    props: Seq<GpuProperties>,
    vsync: VSync,
    msaa: Msaa,
    i: int,
    k: int,
)
    requires
        spec_picked_gpu(props, vsync, msaa, i),
        0 <= k < props.len(),
        !spec_mandatory_ok(props[k], vsync, msaa),
    ensures
        i != k,
{
    assert(spec_gpu_score(props[k], vsync, msaa) == 0);
}

} // verus!
