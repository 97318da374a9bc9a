//! Top-level configuration of the engine context.

use vstd::prelude::*;

use crate::gpu::VSync;

verus! {

/// Rendering quality preset.
#[derive(Debug, Clone, Copy, PartialEq, Eq, Structural)]
pub enum Quality {
    Low,
    Medium,
    High,
}

/// Options for creating the engine context.
#[derive(Debug, Clone, Copy, PartialEq, Eq, Structural)]
pub struct ContextOptions {
    pub quality: Quality,
    pub vsync: VSync,
}

impl Default for ContextOptions {
    /// Medium quality with vsync on.
    fn default() -> (r: ContextOptions)
        ensures
            r == (ContextOptions { quality: Quality::Medium, vsync: VSync::On }),
    {
        ContextOptions { quality: Quality::Medium, vsync: VSync::On }
    }
}

} // verus!
