//! The light pass: the light's uniform record.

use vstd::prelude::*;
use crate::mesh::MeshData;

verus! {

/// The light's uniform record: a position and a colour, each padded to four
/// 32-bit words. Components are the bit patterns of 32-bit floats.
#[derive(Clone, Copy, Debug)]
pub struct LightUBO {
    pub position: [u32; 3],
    pub padding: u32,
    pub color: [u32; 3],
    pub padding2: u32,
}

/// Bit patterns of the floats 1.0, 2.0 and 100.0.
pub const FLOAT_ONE: u32 = 0x3f80_0000;
pub const FLOAT_TWO: u32 = 0x4000_0000;
pub const FLOAT_HUNDRED: u32 = 0x42c8_0000;

pub struct LightRenderer {
    pub light_uniform: LightUBO,
}

impl LightRenderer {
    /// A white light high above the origin, at (2, 100, 2).
    pub fn new() -> (r: LightRenderer)
        ensures
            r.light_uniform.position == [FLOAT_TWO, FLOAT_HUNDRED, FLOAT_TWO],
            r.light_uniform.color == [FLOAT_ONE, FLOAT_ONE, FLOAT_ONE],
            r.light_uniform.padding == 0 && r.light_uniform.padding2 == 0,
    {
        LightRenderer {
            light_uniform: LightUBO {
                position: [FLOAT_TWO, FLOAT_HUNDRED, FLOAT_TWO],
                padding: 0,
                color: [FLOAT_ONE, FLOAT_ONE, FLOAT_ONE],
                padding2: 0,
            },
        }
    }

    /// Draws a mesh in the light pass; the pass records no commands yet.
    pub fn render(&self, _mesh: &MeshData) {
    }
}

} // verus!
