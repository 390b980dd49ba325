//! The vertex formats that a shape parameter can take on the GPU.
use vstd::prelude::*;

verus! {

/// A GPU vertex attribute format: a scalar kind and a component count.
#[derive(Clone, Copy, Debug, PartialEq, Eq, Hash, Structural)]
pub enum VertexFormat {
    Float32,
    Float32x2,
    Float32x3,
    Float32x4,
    Uint32,
    Uint32x2,
    Uint32x3,
    Uint32x4,
    Sint32,
    Sint32x2,
    Sint32x3,
    Sint32x4,
    Float64,
    Float64x2,
    Float64x3,
    Float64x4,
}

/// Bytes in one 32-bit word, the unit of every attribute of an instance.
pub const WORD_BYTE_LENGTH: u64 = 4;

impl VertexFormat {
    /// Number of components of the format.
    pub open spec fn components(self) -> nat {
        match self {
            VertexFormat::Float32 | VertexFormat::Uint32 | VertexFormat::Sint32
            | VertexFormat::Float64 => 1,
            VertexFormat::Float32x2 | VertexFormat::Uint32x2 | VertexFormat::Sint32x2
            | VertexFormat::Float64x2 => 2,
            VertexFormat::Float32x3 | VertexFormat::Uint32x3 | VertexFormat::Sint32x3
            | VertexFormat::Float64x3 => 3,
            VertexFormat::Float32x4 | VertexFormat::Uint32x4 | VertexFormat::Sint32x4
            | VertexFormat::Float64x4 => 4,
        }
    }

    /// Whether each component is 64 bits wide.
    pub open spec fn is_double(self) -> bool {
        self is Float64 || self is Float64x2 || self is Float64x3 || self is Float64x4
    }

    /// Number of 32-bit words that one value of the format occupies.
    pub open spec fn spec_words(self) -> nat {
        if self.is_double() {
            2 * self.components()
        } else {
            self.components()
        }
    }

    /// Size in bytes of one value of the format.
    pub open spec fn spec_size(self) -> nat {
        4 * self.spec_words()
    }

    /// Number of 32-bit words that one value of the format occupies.
    pub fn words(self) -> (n: usize)
        ensures
            n == self.spec_words(),
            1 <= n <= 8,
    {
        match self {
            VertexFormat::Float32 | VertexFormat::Uint32 | VertexFormat::Sint32 => 1,
            VertexFormat::Float32x2 | VertexFormat::Uint32x2 | VertexFormat::Sint32x2 => 2,
            VertexFormat::Float32x3 | VertexFormat::Uint32x3 | VertexFormat::Sint32x3 => 3,
            VertexFormat::Float32x4 | VertexFormat::Uint32x4 | VertexFormat::Sint32x4 => 4,
            VertexFormat::Float64 => 2,
            VertexFormat::Float64x2 => 4,
            VertexFormat::Float64x3 => 6,
            VertexFormat::Float64x4 => 8,
        }
    }

    /// Size in bytes of one value of the format.
    pub fn size(self) -> (n: u64)
        ensures
            n == self.spec_size(),
            4 <= n <= 32,
    {
        let words: usize = self.words();
        WORD_BYTE_LENGTH * (words as u64)
    }
}

} // verus!
