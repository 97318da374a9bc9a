//! User-facing texture handle and its GPU-side record.

use vstd::prelude::*;

use crate::store::Index;

verus! {

/// User-facing texture: a handle into the texture store.
#[derive(Debug, Clone, Copy, PartialEq, Eq, Structural)]
pub struct Texture {
    pub index: Index,
}

impl Texture {
    /// Wrap a store index.
    pub fn new(index: Index) -> (r: Texture)
        ensures
            r.index == index,
    {
        Texture { index }
    }
}

/// GPU-side record of a texture: the slot its view occupies in the shader
/// image table.
#[derive(Debug, Clone, Copy, PartialEq, Eq, Structural)]
pub struct CoreTexture {
    pub image_index: i32,
}

impl CoreTexture {
    /// The texture's slot in the shader image table.
    pub fn image_index(&self) -> (r: i32)
        ensures
            r == self.image_index,
    {
        self.image_index
    }
}

} // verus!
