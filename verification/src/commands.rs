//! Command recording surface.
//!
//! One command buffer exists per in-flight frame slot; begin and end bracket
//! each recording. The typed operations are recorded as plain values; the
//! platform layer translates the recorded list into driver calls when the
//! frame is submitted. For the barrier operation the access flags and
//! pipeline stages are derived here, per image layout.

use vstd::prelude::*;

verus! {

pub const ACCESS_NONE: u32 = 0x0;
pub const ACCESS_SHADER_READ: u32 = 0x20;
pub const ACCESS_COLOR_ATTACHMENT_WRITE: u32 = 0x100;
pub const ACCESS_DEPTH_STENCIL_WRITE: u32 = 0x400;
pub const ACCESS_TRANSFER_READ: u32 = 0x800;
pub const ACCESS_TRANSFER_WRITE: u32 = 0x1000;

pub const STAGE_TOP_OF_PIPE: u32 = 0x1;
pub const STAGE_EARLY_FRAGMENT_TESTS: u32 = 0x100;
pub const STAGE_FRAGMENT_SHADER: u32 = 0x80;
pub const STAGE_COLOR_ATTACHMENT_OUTPUT: u32 = 0x400;
pub const STAGE_TRANSFER: u32 = 0x1000;
pub const STAGE_BOTTOM_OF_PIPE: u32 = 0x2000;

/// Layout an image can be in; barriers transition between two of these.
#[derive(Debug, Clone, Copy, PartialEq, Eq, Structural)]
pub enum ImageLayout {
    Undefined,
    Color,
    Depth,
    ShaderColor,
    ShaderDepth,
    TransferSrc,
    TransferDst,
    Present,
}

impl ImageLayout {
    /// The access flags a barrier uses for an image in this layout.
    pub open spec fn spec_access_flag(self) -> u32 {
        match self {
            ImageLayout::Undefined => ACCESS_NONE,
            ImageLayout::Color => ACCESS_COLOR_ATTACHMENT_WRITE,
            ImageLayout::Depth => ACCESS_DEPTH_STENCIL_WRITE,
            ImageLayout::ShaderColor => ACCESS_SHADER_READ,
            ImageLayout::ShaderDepth => ACCESS_SHADER_READ,
            ImageLayout::TransferSrc => ACCESS_TRANSFER_READ,
            ImageLayout::TransferDst => ACCESS_TRANSFER_WRITE,
            ImageLayout::Present => ACCESS_NONE,
        }
    }

    /// The pipeline stage a barrier uses for an image in this layout.
    pub open spec fn spec_stage_flag(self) -> u32 {
        match self {
            ImageLayout::Undefined => STAGE_TOP_OF_PIPE,
            ImageLayout::Color => STAGE_COLOR_ATTACHMENT_OUTPUT,
            ImageLayout::Depth => STAGE_EARLY_FRAGMENT_TESTS,
            ImageLayout::ShaderColor => STAGE_FRAGMENT_SHADER,
            ImageLayout::ShaderDepth => STAGE_FRAGMENT_SHADER,
            ImageLayout::TransferSrc => STAGE_TRANSFER,
            ImageLayout::TransferDst => STAGE_TRANSFER,
            ImageLayout::Present => STAGE_BOTTOM_OF_PIPE,
        }
    }

    /// The access flags a barrier uses for an image in this layout.
    pub fn access_flag(self) -> (r: u32)
        ensures
            r == self.spec_access_flag(),
    {
        match self {
            ImageLayout::Undefined => ACCESS_NONE,
            ImageLayout::Color => ACCESS_COLOR_ATTACHMENT_WRITE,
            ImageLayout::Depth => ACCESS_DEPTH_STENCIL_WRITE,
            ImageLayout::ShaderColor => ACCESS_SHADER_READ,
            ImageLayout::ShaderDepth => ACCESS_SHADER_READ,
            ImageLayout::TransferSrc => ACCESS_TRANSFER_READ,
            ImageLayout::TransferDst => ACCESS_TRANSFER_WRITE,
            ImageLayout::Present => ACCESS_NONE,
        }
    }

    /// The pipeline stage a barrier uses for an image in this layout.
    pub fn stage_flag(self) -> (r: u32)
        ensures
            r == self.spec_stage_flag(),
    {
        match self {
            ImageLayout::Undefined => STAGE_TOP_OF_PIPE,
            ImageLayout::Color => STAGE_COLOR_ATTACHMENT_OUTPUT,
            ImageLayout::Depth => STAGE_EARLY_FRAGMENT_TESTS,
            ImageLayout::ShaderColor => STAGE_FRAGMENT_SHADER,
            ImageLayout::ShaderDepth => STAGE_FRAGMENT_SHADER,
            ImageLayout::TransferSrc => STAGE_TRANSFER,
            ImageLayout::TransferDst => STAGE_TRANSFER,
            ImageLayout::Present => STAGE_BOTTOM_OF_PIPE,
        }
    }
}

/// Filter used by an image blit.
#[derive(Debug, Clone, Copy, PartialEq, Eq, Structural)]
pub enum Filter {
    Linear,
    Nearest,
}

/// The fixed-size push-constant block handed to every draw: a model matrix
/// plus two sampler table indices. The matrix entries are carried as raw bit
/// patterns; the recording surface does not interpret them.
#[derive(Debug, Clone, Copy, PartialEq, Eq)]
pub struct PushConstants {
    pub model_matrix: [u32; 16],
    pub albedo_index: i32,
    pub sampler_index: i32,
}

/// A layout transition for an image barrier, with the mip range it covers.
#[derive(Debug, Clone, Copy, PartialEq, Eq, Structural)]
pub struct LayoutChange {
    pub old_layout: ImageLayout,
    pub new_layout: ImageLayout,
    pub base_mip: u32,
    pub mip_count: u32,
}

/// One recorded GPU operation.
#[derive(Debug, Clone, Copy, PartialEq, Eq)]
pub enum CmdOp {
    /// Open a render pass on a framebuffer; the clear color carries raw bit
    /// patterns of the four channels.
    BeginRenderPass { framebuffer: u64, clear: [u32; 4] },
    EndRenderPass,
    BindPipeline { pipeline: u64 },
    BindDescriptor { set_index: u32, set: u64 },
    BindVertexBuffer { buffer: u64 },
    BindIndexBuffer { buffer: u64 },
    PushConstants { constants: PushConstants },
    DrawIndexed { count: u32 },
    CopyBuffer { src: u64, dst: u64, size: u64 },
    CopyBufferToImage { src: u64, dst: u64, width: u32, height: u32 },
    BlitImage { src: u64, dst: u64, filter: Filter },
    /// Image barrier; the access and stage fields are derived from the two
    /// layouts of `change`.
    ImageBarrier { image: u64, change: LayoutChange, src_access: u32, dst_access: u32, src_stage: u32, dst_stage: u32 },
    SetViewport { width: u32, height: u32 },
    SetScissor { width: u32, height: u32 },
    /// The line width carries the raw bit pattern of the requested width.
    SetLineWidth { width: u32 },
}

/// A command buffer: a bracketed recording of typed GPU operations.
#[derive(Debug, Clone)]
pub struct Commands {
    pub recording: bool,
    pub recorded: Vec<CmdOp>,
}

impl Commands {
    /// A fresh command buffer: empty and closed.
    pub fn new() -> (r: Commands)
        ensures
            !r.recording,
            r.recorded@ == Seq::<CmdOp>::empty(),
    {
        Commands { recording: false, recorded: Vec::new() }
    }

    /// Begin a recording. The buffer is one-time-submit: beginning discards
    /// anything recorded before.
    pub fn begin(&mut self)
        requires
            !old(self).recording,
        ensures
            final(self).recording,
            final(self).recorded@ == Seq::<CmdOp>::empty(),
    {
        self.recording = true;
        self.recorded = Vec::new();
    }

    /// End the recording; the recorded operations stay for submission.
    pub fn end(&mut self)
        requires
            old(self).recording,
        ensures
            !final(self).recording,
            final(self).recorded@ == old(self).recorded@,
    {
        self.recording = false;
    }

    /// Record one operation.
    pub fn record(&mut self, op: CmdOp)
        requires
            old(self).recording,
        ensures
            final(self).recording,
            final(self).recorded@ == old(self).recorded@.push(op),
    {
        self.recorded.push(op);
    }
}

} // verus!
