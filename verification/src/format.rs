//! Element types of buffers, pixel formats of textures, and how many bytes
//! each of them takes in device memory.

use vstd::prelude::*;

verus! {

/// The type of one element of a typed buffer.
#[derive(Clone, Copy, Debug, PartialEq, Eq, Structural)]
pub enum ElementType {
    F32,
    Vec2,
    Vec3,
    Vec4,
    I32,
    U32,
    UVec2,
    UVec3,
}

impl ElementType {
    /// Number of 32-bit components in one element.
    pub open spec fn spec_components(self) -> nat {
        match self {
            ElementType::F32 | ElementType::I32 | ElementType::U32 => 1,
            ElementType::Vec2 | ElementType::UVec2 => 2,
            ElementType::Vec3 | ElementType::UVec3 => 3,
            ElementType::Vec4 => 4,
        }
    }

    /// Bytes from the start of one element to the start of the next
    /// (elements are tightly packed).
    pub open spec fn spec_stride(self) -> nat {
        4 * self.spec_components()
    }

    pub fn components(self) -> (r: usize)
        ensures
            r == self.spec_components(),
    {
        match self {
            ElementType::F32 | ElementType::I32 | ElementType::U32 => 1,
            ElementType::Vec2 | ElementType::UVec2 => 2,
            ElementType::Vec3 | ElementType::UVec3 => 3,
            ElementType::Vec4 => 4,
        }
    }

    pub fn stride(self) -> (r: usize)
        ensures
            r == self.spec_stride(),
            4 <= r <= 16,
    {
        4 * self.components()
    }
}

/// The storage format of one texel.
#[derive(Clone, Copy, Debug, PartialEq, Eq, Structural)]
pub enum PixelFormat {
    /// One 32-bit float channel.
    R32f,
    /// Two 32-bit float channels.
    Rg32f,
    /// Four 32-bit float channels.
    Rgba32f,
    /// Four 8-bit unsigned integer channels.
    Rgba8ui,
}

/// The channels that a host array holds per pixel.
#[derive(Clone, Copy, Debug, PartialEq, Eq, Structural)]
pub enum SourceFormat {
    Red,
    Rg,
    Rgba,
    RgbaInteger,
}

/// The type of one channel in a host array.
#[derive(Clone, Copy, Debug, PartialEq, Eq, Structural)]
pub enum SourceType {
    Float,
    UnsignedByte,
}

impl SourceFormat {
    pub open spec fn spec_channels(self) -> nat {
        match self {
            SourceFormat::Red => 1,
            SourceFormat::Rg => 2,
            SourceFormat::Rgba | SourceFormat::RgbaInteger => 4,
        }
    }

    pub fn channels(self) -> (r: usize)
        ensures
            r == self.spec_channels(),
    {
        match self {
            SourceFormat::Red => 1,
            SourceFormat::Rg => 2,
            SourceFormat::Rgba | SourceFormat::RgbaInteger => 4,
        }
    }
}

impl SourceType {
    pub open spec fn spec_size(self) -> nat {
        match self {
            SourceType::Float => 4,
            SourceType::UnsignedByte => 1,
        }
    }

    pub fn size(self) -> (r: usize)
        ensures
            r == self.spec_size(),
    {
        match self {
            SourceType::Float => 4,
            SourceType::UnsignedByte => 1,
        }
    }
}

impl PixelFormat {
    /// The host layout that holds texels of this format channel for channel.
    pub open spec fn spec_source(self) -> (SourceFormat, SourceType) {
        match self {
            PixelFormat::R32f => (SourceFormat::Red, SourceType::Float),
            PixelFormat::Rg32f => (SourceFormat::Rg, SourceType::Float),
            PixelFormat::Rgba32f => (SourceFormat::Rgba, SourceType::Float),
            PixelFormat::Rgba8ui => (SourceFormat::RgbaInteger, SourceType::UnsignedByte),
        }
    }

    /// Bytes of one texel.
    pub open spec fn spec_bytes_per_pixel(self) -> nat {
        self.spec_source().0.spec_channels() * self.spec_source().1.spec_size()
    }

    #[verifier::when_used_as_spec(spec_source)]
    pub fn source(self) -> (r: (SourceFormat, SourceType))
        ensures
            r == self.spec_source(),
    {
        match self {
            PixelFormat::R32f => (SourceFormat::Red, SourceType::Float),
            PixelFormat::Rg32f => (SourceFormat::Rg, SourceType::Float),
            PixelFormat::Rgba32f => (SourceFormat::Rgba, SourceType::Float),
            PixelFormat::Rgba8ui => (SourceFormat::RgbaInteger, SourceType::UnsignedByte),
        }
    }

    pub fn bytes_per_pixel(self) -> (r: usize)
        ensures
            r == self.spec_bytes_per_pixel(),
            1 <= r <= 16,
    {
        let (f, t) = self.source();
        f.channels() * t.size()
    }
}

/// What a compute kernel may do with a texture bound to an image unit.
#[derive(Clone, Copy, Debug, PartialEq, Eq, Structural)]
pub enum Access {
    ReadOnly,
    WriteOnly,
    ReadWrite,
}

impl Access {
    pub open spec fn spec_reads(self) -> bool {
        self != Access::WriteOnly
    }

    pub open spec fn spec_writes(self) -> bool {
        self != Access::ReadOnly
    }

    #[verifier::when_used_as_spec(spec_reads)]
    pub fn reads(self) -> (r: bool)
        ensures
            r == self.spec_reads(),
    {
        match self {
            Access::WriteOnly => false,
            _ => true,
        }
    }

    #[verifier::when_used_as_spec(spec_writes)]
    pub fn writes(self) -> (r: bool)
        ensures
            r == self.spec_writes(),
    {
        match self {
            Access::ReadOnly => false,
            _ => true,
        }
    }
}

/// How a sampler picks a value between texels.
#[derive(Clone, Copy, Debug, PartialEq, Eq, Structural)]
pub enum Filter {
    Nearest,
    Linear,
}

} // verus!
