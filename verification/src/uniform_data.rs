//! Uniform data blocks handed to shaders.

use vstd::prelude::*;

verus! {

/// Material parameters: eight general-purpose four-component arguments whose
/// entries are carried as raw bit patterns; this core does not interpret
/// them.
#[derive(Debug, Clone, Copy, PartialEq, Eq)]
pub struct MaterialData {
    pub arg_1: [u32; 4],
    pub arg_2: [u32; 4],
    pub arg_3: [u32; 4],
    pub arg_4: [u32; 4],
    pub arg_5: [u32; 4],
    pub arg_6: [u32; 4],
    pub arg_7: [u32; 4],
    pub arg_8: [u32; 4],
}

impl Default for MaterialData {
    /// All arguments zeroed.
    fn default() -> (r: MaterialData)
        ensures
            r.arg_1@ == Seq::new(4, |i: int| 0u32),
            r.arg_2@ == Seq::new(4, |i: int| 0u32),
            r.arg_3@ == Seq::new(4, |i: int| 0u32),
            r.arg_4@ == Seq::new(4, |i: int| 0u32),
            r.arg_5@ == Seq::new(4, |i: int| 0u32),
            r.arg_6@ == Seq::new(4, |i: int| 0u32),
            r.arg_7@ == Seq::new(4, |i: int| 0u32),
            r.arg_8@ == Seq::new(4, |i: int| 0u32),
    {
        MaterialData {
            arg_1: [0u32; 4],
            arg_2: [0u32; 4],
            arg_3: [0u32; 4],
            arg_4: [0u32; 4],
            arg_5: [0u32; 4],
            arg_6: [0u32; 4],
            arg_7: [0u32; 4],
            arg_8: [0u32; 4],
        }
    }
}

} // verus!
