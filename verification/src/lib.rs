//! Core of a real-time renderer built on an explicit graphics API: frame-slot
//! rotation across a fixed number of in-flight frames, fence-gated deferred
//! reclamation of GPU resources, a typed command-recording surface, physical
//! GPU selection, memory-type selection and shader-binary validation.
//!
//! The device core is a verified state machine over plain values: GPU handles
//! are opaque integers and the outcomes of the asynchronous GPU (fence
//! signals, image acquisition, presentation) enter as explicit events. A
//! platform layer performs the actual driver calls and feeds the outcomes in.

pub mod buffer;
pub mod commands;
pub mod context;
pub mod device;
pub mod error;
pub mod font;
pub mod gpu;
pub mod memory;
pub mod reclaim;
pub mod shader;
pub mod spirv;
pub mod store;
pub mod swapchain;
pub mod sync;
pub mod texture;
pub mod uniform_data;
pub mod window;

use vstd::prelude::*;

verus! {

} // verus!
