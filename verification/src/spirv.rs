//! Names of the precompiled compute programs. The instruction words
//! themselves live with the embedding program.

use vstd::prelude::*;

verus! {

/// One of the fixed compute programs.
#[derive(Clone, Copy, Debug, PartialEq, Eq, Structural)]
pub enum Shader {
    /// Vertex attributes from 16-bit indices.
    CalcVertexAttrsU16,
    /// Vertex attributes from 16-bit indices, with bone-weight blending.
    CalcVertexAttrsU16Skin,
    /// Vertex attributes from 32-bit indices.
    CalcVertexAttrsU32,
    /// Vertex attributes from 32-bit indices, with bone-weight blending.
    CalcVertexAttrsU32Skin,
    /// Expansion of packed RGB pixels into an RGBA image.
    DecodeRgbRgba,
}

} // verus!
