//! A two-dimensional device texture with immutable storage: its format, its
//! extent, its chain of mip levels, and the checks on what is uploaded to it.

use vstd::prelude::*;
use crate::command::Command;
use crate::format::{Access, Filter, PixelFormat, SourceFormat, SourceType};

verus! {

/// The widest and the highest a texture can be: the device counts texels in
/// a signed 32-bit integer.
pub const MAX_EXTENT: u32 = 0x7fff_ffff;

/// Why a texture operation was turned down.
#[derive(Clone, Copy, Debug, PartialEq, Eq, Structural)]
pub enum TextureError {
    /// A width or height of zero, or one beyond `MAX_EXTENT`.
    BadExtent,
    /// The texture has no such mip level.
    LevelOutOfRange,
    /// The host layout is not the one of the texture's format.
    FormatMismatch,
    /// The rectangle reaches beyond the mip level.
    OutOfBounds,
    /// The host array does not hold exactly the rectangle's texels.
    SizeMismatch,
}

/// Number of levels in the full mip chain of a texture whose larger side
/// has `n` texels: one for `n` itself and one for each halving down to 1.
pub open spec fn mip_count(n: nat) -> nat
    decreases n,
{
    if n == 0 {
        0
    } else {
        1 + mip_count(n / 2)
    }
}

/// Side length of mip level `level` of a texture whose level 0 has side
/// `side`: halved once per level, rounded down, but never below 1.
pub open spec fn level_extent(side: nat, level: nat) -> nat
    decreases level,
{
    if level == 0 {
        side
    } else {
        let half = level_extent(side, (level - 1) as nat) / 2;
        if half == 0 {
            1
        } else {
            half
        }
    }
}

/// Bytes of a tightly packed, row-major rectangle of texels.
pub open spec fn region_bytes(width: nat, height: nat, format: PixelFormat) -> nat {
    width * height * format.spec_bytes_per_pixel()
}

/// The larger of two sides.
pub open spec fn larger(a: u32, b: u32) -> u32 {
    if a >= b {
        a
    } else {
        b
    }
}

/// A chain never has more levels than its larger side has texels.
pub proof fn lemma_mip_count_le(n: nat)
    ensures
        mip_count(n) <= n,
        n >= 1 ==> mip_count(n) >= 1,
    decreases n,
{
    if n != 0 {
        lemma_mip_count_le(n / 2);
    }
}

/// A mip level is never empty and never larger than level 0.
pub proof fn lemma_level_extent_bounds(side: nat, level: nat)
    requires
        side >= 1,
    ensures
        1 <= level_extent(side, level) <= side,
    decreases level,
{
    if level != 0 {
        lemma_level_extent_bounds(side, (level - 1) as nat);
    }
}

/// Halving the side once first is the same as starting one level down.
proof fn lemma_level_extent_shift(side: nat, level: nat)
    requires
        side >= 2,
        level >= 1,
    ensures
        level_extent(side, level) == level_extent(side / 2, (level - 1) as nat),
    decreases level,
{
    reveal_with_fuel(level_extent, 2);
    if level > 1 {
        lemma_level_extent_shift(side, (level - 1) as nat);
    }
}

/// A longer side is at no level the shorter one.
proof fn lemma_level_extent_monotone(a: nat, b: nat, level: nat)
    requires
        a <= b,
    ensures
        level_extent(a, level) <= level_extent(b, level),
    decreases level,
{
    if level > 0 {
        lemma_level_extent_monotone(a, b, (level - 1) as nat);
    }
}

proof fn lemma_last_level(side: nat)
    requires
        side >= 1,
    ensures
        level_extent(side, (mip_count(side) - 1) as nat) == 1,
        forall|level: nat| level + 1 < mip_count(side) ==> level_extent(side, level) > 1,
    decreases side,
{
    lemma_mip_count_le(side / 2);
    if side >= 2 {
        lemma_last_level(side / 2);
        lemma_level_extent_shift(side, (mip_count(side) - 1) as nat);
        assert forall|level: nat| level + 1 < mip_count(side) implies level_extent(side, level)
            > 1 by {
            if level >= 1 {
                lemma_level_extent_shift(side, level);
            }
        }
    }
}

/// The chain is the full one: its last level is one texel, and every level
/// before it is larger than that along the texture's larger side.
pub proof fn lemma_chain_complete(width: u32, height: u32)
    requires
        width >= 1,
        height >= 1,
    ensures
        ({
            let last = (mip_count(larger(width, height) as nat) - 1) as nat;
            &&& level_extent(width as nat, last) == 1
            &&& level_extent(height as nat, last) == 1
            &&& forall|level: nat|
                level < last ==> level_extent(larger(width, height) as nat, level) > 1
        }),
{
    let side = larger(width, height) as nat;
    let last = (mip_count(side) - 1) as nat;
    lemma_mip_count_le(side);
    lemma_last_level(side);
    lemma_level_extent_monotone(width as nat, side, last);
    lemma_level_extent_monotone(height as nat, side, last);
    lemma_level_extent_bounds(width as nat, last);
    lemma_level_extent_bounds(height as nat, last);
}

/// Computes the depth of the full mip chain for a `width` by `height` texture.
pub fn mip_levels(width: u32, height: u32) -> (levels: u32)
    ensures
        levels == mip_count(larger(width, height) as nat),
{
    let side: u32 = if width >= height {
        width
    } else {
        height
    };
    let mut rest: u32 = side;
    let mut levels: u32 = 0;
    proof {
        lemma_mip_count_le(side as nat);
    }
    while rest > 0
        invariant
            levels + mip_count(rest as nat) == mip_count(side as nat),
            mip_count(side as nat) <= side,
        decreases rest,
    {
        rest = rest / 2;
        levels = levels + 1;
    }
    levels
}

/// A 2D texture: handle, format, extent of level 0, depth of the mip chain
/// and sampling filter. Format and extent are fixed at creation.
#[derive(Debug)]
pub struct Texture {
    handle: u32,
    format: PixelFormat,
    width: u32,
    height: u32,
    levels: u32,
    filter: Filter,
}

impl Texture {
    #[verifier::type_invariant]
    spec fn wf(self) -> bool {
        &&& 1 <= self.width <= MAX_EXTENT
        &&& 1 <= self.height <= MAX_EXTENT
        &&& self.levels == mip_count(larger(self.width, self.height) as nat)
    }

    pub closed spec fn spec_handle(&self) -> u32 {
        self.handle
    }

    pub closed spec fn spec_format(&self) -> PixelFormat {
        self.format
    }

    /// Width and height of level 0.
    pub closed spec fn spec_size(&self) -> (u32, u32) {
        (self.width, self.height)
    }

    pub closed spec fn spec_levels(&self) -> u32 {
        self.levels
    }

    pub closed spec fn spec_filter(&self) -> Filter {
        self.filter
    }

    /// Width and height of mip level `level`.
    pub open spec fn level_size(&self, level: u32) -> (nat, nat) {
        (
            level_extent(self.spec_size().0 as nat, level as nat),
            level_extent(self.spec_size().1 as nat, level as nat),
        )
    }

    /// The reason for which `create_2d` turns an extent down, if there is one.
    pub open spec fn create_error(width: u32, height: u32) -> Option<TextureError> {
        if width == 0 || height == 0 || width > MAX_EXTENT || height > MAX_EXTENT {
            Some(TextureError::BadExtent)
        } else {
            None
        }
    }

    /// The reason for which `sub_image` turns an upload of `n` bytes down,
    /// if there is one. The checks come in this order: level, layout,
    /// rectangle, length.
    pub open spec fn upload_error(
        &self,
        level: u32,
        x: u32,
        y: u32,
        width: u32,
        height: u32,
        source: SourceFormat,
        kind: SourceType,
        n: nat,
    ) -> Option<TextureError> {
        if level >= self.spec_levels() {
            Some(TextureError::LevelOutOfRange)
        } else if (source, kind) != self.spec_format().spec_source() {
            Some(TextureError::FormatMismatch)
        } else if x + width > self.level_size(level).0 || y + height > self.level_size(level).1 {
            Some(TextureError::OutOfBounds)
        } else if n != region_bytes(width as nat, height as nat, self.spec_format()) {
            Some(TextureError::SizeMismatch)
        } else {
            None
        }
    }

    /// Describes a texture on a handle that the device has just created, and
    /// returns it with the command that allocates all its mip levels.
    pub fn create_2d(handle: u32, format: PixelFormat, width: u32, height: u32) -> (r: Result<
        (Texture, Command),
        TextureError,
    >)
        ensures
            match r {
                Ok((t, c)) => {
                    &&& Self::create_error(width, height) is None
                    &&& t.spec_handle() == handle
                    &&& t.spec_format() == format
                    &&& t.spec_size() == (width, height)
                    &&& t.spec_levels() == mip_count(larger(width, height) as nat)
                    &&& t.spec_filter() == Filter::Linear
                    &&& c == (Command::TextureStorage2d {
                        texture: handle,
                        levels: t.spec_levels(),
                        format,
                        width,
                        height,
                    })
                },
                Err(e) => Self::create_error(width, height) == Some(e),
            },
    {
        if width == 0 || height == 0 || width > MAX_EXTENT || height > MAX_EXTENT {
            return Err(TextureError::BadExtent);
        }
        let levels = mip_levels(width, height);
        let t = Texture { handle, format, width, height, levels, filter: Filter::Linear };
        Ok((t, Command::TextureStorage2d { texture: handle, levels, format, width, height }))
    }

    pub fn handle(&self) -> (h: u32)
        ensures
            h == self.spec_handle(),
    {
        self.handle
    }

    pub fn format(&self) -> (f: PixelFormat)
        ensures
            f == self.spec_format(),
    {
        self.format
    }

    /// Width and height of level 0.
    pub fn size(&self) -> (s: (u32, u32))
        ensures
            s == self.spec_size(),
            1 <= s.0 <= MAX_EXTENT,
            1 <= s.1 <= MAX_EXTENT,
    {
        proof {
            use_type_invariant(self);
        }
        (self.width, self.height)
    }

    /// Depth of the mip chain.
    pub fn levels(&self) -> (n: u32)
        ensures
            n == self.spec_levels(),
            n == mip_count(larger(self.spec_size().0, self.spec_size().1) as nat),
            n >= 1,
    {
        proof {
            use_type_invariant(self);
            lemma_mip_count_le(larger(self.width, self.height) as nat);
        }
        self.levels
    }

    pub fn filter(&self) -> (f: Filter)
        ensures
            f == self.spec_filter(),
    {
        self.filter
    }

    /// Width and height of one mip level.
    pub fn level_dimensions(&self, level: u32) -> (s: (u32, u32))
        ensures
            s.0 == self.level_size(level).0,
            s.1 == self.level_size(level).1,
            1 <= s.0 <= self.spec_size().0,
            1 <= s.1 <= self.spec_size().1,
    {
        proof {
            use_type_invariant(self);
        }
        let mut w: u32 = self.width;
        let mut h: u32 = self.height;
        let mut i: u32 = 0;
        while i < level
            invariant
                i <= level,
                w == level_extent(self.width as nat, i as nat),
                h == level_extent(self.height as nat, i as nat),
                1 <= w <= self.width,
                1 <= h <= self.height,
            decreases level - i,
        {
            w = if w / 2 == 0 {
                1
            } else {
                w / 2
            };
            h = if h / 2 == 0 {
                1
            } else {
                h / 2
            };
            i = i + 1;
        }
        (w, h)
    }

    /// The texel of level 0 under the point `(x, y)`, if the point lies on
    /// the texture.
    pub fn texel_at(&self, x: i32, y: i32) -> (r: Option<(u32, u32)>)
        ensures
            r is Some <==> 0 <= x < self.spec_size().0 && 0 <= y < self.spec_size().1,
            r matches Some(t) ==> t.0 == x && t.1 == y,
    {
        if x >= 0 && y >= 0 && (x as u32) < self.width && (y as u32) < self.height {
            Some((x as u32, y as u32))
        } else {
            None
        }
    }

    /// Checks the upload of a rectangle of one mip level from `data`, which
    /// holds the rectangle's texels row by row, tightly packed, in the host
    /// layout `(source, kind)`, and returns the upload to perform.
    pub fn sub_image(
        &self,
        level: u32,
        x: u32,
        y: u32,
        width: u32,
        height: u32,
        source: SourceFormat,
        kind: SourceType,
        data: &[u8],
    ) -> (r: Result<Command, TextureError>)
        ensures
            match r {
                Ok(c) => {
                    &&& self.upload_error(level, x, y, width, height, source, kind, data@.len())
                        is None
                    &&& c == (Command::TextureSubImage2d {
                        texture: self.spec_handle(),
                        level,
                        x,
                        y,
                        width,
                        height,
                        source,
                        kind,
                        size: data@.len() as usize,
                    })
                },
                Err(e) => self.upload_error(level, x, y, width, height, source, kind, data@.len())
                    == Some(e),
            },
    {
        if level >= self.levels {
            return Err(TextureError::LevelOutOfRange);
        }
        let (f, k) = self.format.source();
        if source != f || kind != k {
            return Err(TextureError::FormatMismatch);
        }
        let (lw, lh) = self.level_dimensions(level);
        proof {
            use_type_invariant(self);
        }
        if x as u64 + width as u64 > lw as u64 || y as u64 + height as u64 > lh as u64 {
            return Err(TextureError::OutOfBounds);
        }
        let bpp: u128 = self.format.bytes_per_pixel() as u128;
        assert(width * height <= 0x7fff_ffff * 0x7fff_ffff) by (nonlinear_arith)
            requires
                width <= 0x7fff_ffff,
                height <= 0x7fff_ffff,
        ;
        let area: u128 = width as u128 * height as u128;
        assert(area * bpp <= 0x7fff_ffff * 0x7fff_ffff * 16) by (nonlinear_arith)
            requires
                area <= 0x7fff_ffff * 0x7fff_ffff,
                bpp <= 16,
        ;
        let bytes: u128 = area * bpp;
        if data.len() as u128 != bytes {
            return Err(TextureError::SizeMismatch);
        }
        Ok(
            Command::TextureSubImage2d {
                texture: self.handle,
                level,
                x,
                y,
                width,
                height,
                source,
                kind,
                size: data.len(),
            },
        )
    }

    /// The binding of level 0 to an image unit, for random access from a
    /// compute kernel. What a kernel writes through it is visible to later
    /// reads only after a barrier, which the caller owes.
    pub fn bind_as_image(&self, unit: u32, access: Access) -> (c: Command)
        ensures
            c == (Command::BindImageUnit {
                unit,
                texture: self.spec_handle(),
                access,
                format: self.spec_format(),
            }),
    {
        Command::BindImageUnit { unit, texture: self.handle, access, format: self.format }
    }

    /// The binding to a texture unit for filtered sampling: first the
    /// texture's filter is set, then the texture is bound.
    pub fn bind_as_sampler(&self, unit: u32) -> (cs: Vec<Command>)
        ensures
            cs@ == seq![
                Command::TextureFilter { texture: self.spec_handle(), filter: self.spec_filter() },
                Command::BindTextureUnit { unit, texture: self.spec_handle() },
            ],
    {
        let mut cs: Vec<Command> = Vec::new();
        cs.push(Command::TextureFilter { texture: self.handle, filter: self.filter });
        cs.push(Command::BindTextureUnit { unit, texture: self.handle });
        proof {
            assert(cs@ =~= seq![
                Command::TextureFilter { texture: self.spec_handle(), filter: self.spec_filter() },
                Command::BindTextureUnit { unit, texture: self.spec_handle() },
            ]);
        }
        cs
    }

    /// Gives the texture up: the result is the one command that releases it.
    pub fn release(self) -> (c: Command)
        ensures
            c == (Command::DeleteTexture { texture: self.spec_handle() }),
    {
        Command::DeleteTexture { texture: self.handle }
    }

    /// The same texture, sampled without interpolation.
    pub fn filter_nearest(self) -> (t: Texture)
        ensures
            t.spec_filter() == Filter::Nearest,
            t.spec_handle() == self.spec_handle(),
            t.spec_format() == self.spec_format(),
            t.spec_size() == self.spec_size(),
            t.spec_levels() == self.spec_levels(),
    {
        proof {
            use_type_invariant(&self);
        }
        Texture {
            handle: self.handle,
            format: self.format,
            width: self.width,
            height: self.height,
            levels: self.levels,
            filter: Filter::Nearest,
        }
    }

    /// The same texture, sampled with linear interpolation.
    pub fn filter_linear(self) -> (t: Texture)
        ensures
            t.spec_filter() == Filter::Linear,
            t.spec_handle() == self.spec_handle(),
            t.spec_format() == self.spec_format(),
            t.spec_size() == self.spec_size(),
            t.spec_levels() == self.spec_levels(),
    {
        proof {
            use_type_invariant(&self);
        }
        Texture {
            handle: self.handle,
            format: self.format,
            width: self.width,
            height: self.height,
            levels: self.levels,
            filter: Filter::Linear,
        }
    }
}

} // verus!
