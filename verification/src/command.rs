//! The device commands that the library asks its driver loop to perform.

use vstd::prelude::*;
use crate::format::{Access, Filter, PixelFormat, SourceFormat, SourceType};

verus! {

/// One device command. The library never performs one itself: it hands them
/// out in the order in which they have to reach the device.
#[derive(Clone, Copy, Debug, PartialEq, Eq, Structural)]
pub enum Command {
    /// Allocate the immutable store of `buffer` and fill it with the `size`
    /// bytes of the host array that was handed to the library.
    BufferStorage { buffer: u32, size: usize, flags: u32 },
    /// Overwrite `size` bytes of `buffer`, starting at byte `offset`, with
    /// the host array that was handed to the library.
    WriteBuffer { buffer: u32, offset: usize, size: usize },
    /// Copy `size` bytes of `buffer`, starting at byte `offset`, into the host array.
    ReadBuffer { buffer: u32, offset: usize, size: usize },
    /// Allocate the immutable store of a 2D texture, `levels` mip levels deep.
    TextureStorage2d { texture: u32, levels: u32, format: PixelFormat, width: u32, height: u32 },
    /// Upload `size` bytes of the host array into a rectangle of one mip level.
    TextureSubImage2d {
        texture: u32,
        level: u32,
        x: u32,
        y: u32,
        width: u32,
        height: u32,
        source: SourceFormat,
        kind: SourceType,
        size: usize,
    },
    /// Set the minification and magnification filter of a texture.
    TextureFilter { texture: u32, filter: Filter },
    /// Bind level 0 of a texture to an image unit for random access.
    BindImageUnit { unit: u32, texture: u32, access: Access, format: PixelFormat },
    /// Bind a texture to a texture unit for filtered sampling.
    BindTextureUnit { unit: u32, texture: u32 },
    /// Route storage block `block` of `program` to binding point `point`
    /// and bind `buffer` there.
    BindStorageBuffer { program: u32, block: u32, point: u32, buffer: u32 },
    /// Make `program` the current program.
    UseProgram { program: u32 },
    /// Set an integer pair uniform of `program`.
    Uniform2i { program: u32, location: u32, first: i32, second: i32 },
    /// Set a float uniform of `program` to the value with the bit pattern `bits`.
    Uniform1f { program: u32, location: u32, bits: u32 },
    /// Launch the current compute program over a grid of workgroups.
    DispatchCompute { x: u32, y: u32, z: u32 },
    /// Full memory barrier: every write issued so far becomes visible to
    /// every command issued afterwards.
    MemoryBarrier,
    /// Release a buffer.
    DeleteBuffer { buffer: u32 },
    /// Release a texture.
    DeleteTexture { texture: u32 },
    /// Release a program.
    DeleteProgram { program: u32 },
}

} // verus!
