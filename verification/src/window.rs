//! Builders and events for the optional OS window layer.
//!
//! The window itself (event loop, input, the OS surface) lives outside this
//! core; these are the plain-value types the engine and the window layer
//! agree on.

use vstd::prelude::*;

use crate::gpu::Msaa;
use crate::gpu::VSync;

verus! {

/// OS window event.
#[derive(Debug, Clone, Copy, PartialEq, Eq, Structural)]
pub enum Event {
    /// The window was resized to this size in pixels.
    Resize { width: u32, height: u32 },
}

/// Builder for the engine context.
#[derive(Debug, Clone, Copy, PartialEq, Eq, Structural)]
pub struct DukuBuilder {
    pub vsync: VSync,
    pub msaa: Msaa,
}

impl DukuBuilder {
    /// Default engine settings: vsync on, multisampling off.
    pub fn new() -> (r: DukuBuilder)
        ensures
            r == (DukuBuilder { vsync: VSync::On, msaa: Msaa::Disabled }),
    {
        DukuBuilder { vsync: VSync::On, msaa: Msaa::Disabled }
    }

    /// Create an OS window builder around these engine settings.
    pub fn build_window(self, width: u32, height: u32) -> (r: WindowBuilder)
        ensures
            r.duku == self,
            r.title@ == Seq::<char>::empty(),
            !r.resizable,
            r.width == width,
            r.height == height,
    {
        WindowBuilder { duku: self, title: String::new(), resizable: false, width, height }
    }
}

/// OS window builder.
#[derive(Debug, Clone)]
pub struct WindowBuilder {
    pub duku: DukuBuilder,
    pub title: String,
    pub resizable: bool,
    pub width: u32,
    pub height: u32,
}

impl WindowBuilder {
    /// Make the window resizable.
    pub fn resizable(self) -> (r: WindowBuilder)
        ensures
            r == (WindowBuilder { resizable: true, ..self }),
    {
        WindowBuilder { resizable: true, ..self }
    }

    /// Use this window title.
    pub fn title(self, title: &str) -> (r: WindowBuilder)
        ensures
            r.title@ == title@,
            r.duku == self.duku,
            r.resizable == self.resizable,
            r.width == self.width,
            r.height == self.height,
    {
        WindowBuilder { title: title.to_owned(), ..self }
    }
}

} // verus!
