use gl_obj::command::Command;
use gl_obj::format::{Access, Filter, PixelFormat, SourceFormat, SourceType};
use gl_obj::texture::{mip_levels, Texture, TextureError, MAX_EXTENT};

#[test]
fn bytes_per_pixel_of_each_format() {
    assert_eq!(PixelFormat::R32f.bytes_per_pixel(), 4);
    assert_eq!(PixelFormat::Rg32f.bytes_per_pixel(), 8);
    assert_eq!(PixelFormat::Rgba32f.bytes_per_pixel(), 16);
    assert_eq!(PixelFormat::Rgba8ui.bytes_per_pixel(), 4);
    assert_eq!(PixelFormat::Rg32f.source(), (SourceFormat::Rg, SourceType::Float));
    assert_eq!(PixelFormat::Rgba8ui.source(), (SourceFormat::RgbaInteger, SourceType::UnsignedByte));
    assert_eq!(SourceFormat::Red.channels(), 1);
    assert_eq!(SourceFormat::Rgba.channels(), 4);
    assert_eq!(SourceType::Float.size(), 4);
    assert_eq!(SourceType::UnsignedByte.size(), 1);
}

#[test]
fn access_modes_read_and_write() {
    assert!(Access::ReadOnly.reads() && !Access::ReadOnly.writes());
    assert!(!Access::WriteOnly.reads() && Access::WriteOnly.writes());
    assert!(Access::ReadWrite.reads() && Access::ReadWrite.writes());
}

#[test]
fn mip_chain_depth() {
    assert_eq!(mip_levels(1, 1), 1);
    assert_eq!(mip_levels(2, 1), 2);
    assert_eq!(mip_levels(3, 3), 2);
    assert_eq!(mip_levels(4, 1), 3);
    assert_eq!(mip_levels(1024, 512), 11);
    assert_eq!(mip_levels(512, 1024), 11);
    assert_eq!(mip_levels(1023, 5), 10);
    assert_eq!(mip_levels(MAX_EXTENT, 1), 31);
    assert_eq!(mip_levels(0, 0), 0);
}

#[test]
fn create_2d_allocates_all_levels() {
    let (t, c) = Texture::create_2d(7, PixelFormat::Rg32f, 1024, 512).unwrap();
    assert_eq!(
        c,
        Command::TextureStorage2d { texture: 7, levels: 11, format: PixelFormat::Rg32f, width: 1024, height: 512 }
    );
    assert_eq!(t.handle(), 7);
    assert_eq!(t.format(), PixelFormat::Rg32f);
    assert_eq!(t.size(), (1024, 512));
    assert_eq!(t.levels(), 11);
    assert_eq!(t.filter(), Filter::Linear);
}

#[test]
fn create_2d_turns_bad_extents_down() {
    assert_eq!(Texture::create_2d(1, PixelFormat::Rg32f, 0, 4).err(), Some(TextureError::BadExtent));
    assert_eq!(Texture::create_2d(1, PixelFormat::Rg32f, 4, 0).err(), Some(TextureError::BadExtent));
    assert_eq!(Texture::create_2d(1, PixelFormat::Rg32f, MAX_EXTENT + 1, 4).err(), Some(TextureError::BadExtent));
    assert_eq!(Texture::create_2d(1, PixelFormat::Rg32f, 4, u32::MAX).err(), Some(TextureError::BadExtent));
    assert!(Texture::create_2d(1, PixelFormat::Rg32f, MAX_EXTENT, 1).is_ok());
}

#[test]
fn level_dimensions_halve_down_to_one() {
    let (t, _) = Texture::create_2d(1, PixelFormat::Rgba8ui, 10, 3).unwrap();
    assert_eq!(t.levels(), 4);
    assert_eq!(t.level_dimensions(0), (10, 3));
    assert_eq!(t.level_dimensions(1), (5, 1));
    assert_eq!(t.level_dimensions(2), (2, 1));
    assert_eq!(t.level_dimensions(3), (1, 1));
}

#[test]
fn sub_image_of_whole_level() {
    let (t, _) = Texture::create_2d(5, PixelFormat::Rg32f, 4, 2).unwrap();
    let data = vec![0u8; 4 * 2 * 8];
    assert_eq!(
        t.sub_image(0, 0, 0, 4, 2, SourceFormat::Rg, SourceType::Float, &data),
        Ok(Command::TextureSubImage2d {
            texture: 5,
            level: 0,
            x: 0,
            y: 0,
            width: 4,
            height: 2,
            source: SourceFormat::Rg,
            kind: SourceType::Float,
            size: 64,
        })
    );
}

#[test]
fn sub_image_of_inner_rectangle_and_lower_level() {
    let (t, _) = Texture::create_2d(5, PixelFormat::Rgba8ui, 8, 8).unwrap();
    let data = vec![0u8; 3 * 2 * 4];
    assert!(t.sub_image(0, 5, 6, 3, 2, SourceFormat::RgbaInteger, SourceType::UnsignedByte, &data).is_ok());
    let data = vec![0u8; 2 * 2 * 4];
    assert!(t.sub_image(2, 0, 0, 2, 2, SourceFormat::RgbaInteger, SourceType::UnsignedByte, &data).is_ok());
    assert!(t.sub_image(0, 0, 0, 0, 0, SourceFormat::RgbaInteger, SourceType::UnsignedByte, &[]).is_ok());
}

#[test]
fn sub_image_errors() {
    let (t, _) = Texture::create_2d(5, PixelFormat::Rg32f, 4, 2).unwrap();
    let data = vec![0u8; 64];
    assert_eq!(
        t.sub_image(3, 0, 0, 4, 2, SourceFormat::Rg, SourceType::Float, &data),
        Err(TextureError::LevelOutOfRange)
    );
    assert_eq!(
        t.sub_image(0, 0, 0, 4, 2, SourceFormat::Rgba, SourceType::Float, &data),
        Err(TextureError::FormatMismatch)
    );
    assert_eq!(
        t.sub_image(0, 0, 0, 4, 2, SourceFormat::Rg, SourceType::UnsignedByte, &data),
        Err(TextureError::FormatMismatch)
    );
    assert_eq!(
        t.sub_image(0, 1, 0, 4, 2, SourceFormat::Rg, SourceType::Float, &data),
        Err(TextureError::OutOfBounds)
    );
    assert_eq!(
        t.sub_image(0, 0, 1, 4, 2, SourceFormat::Rg, SourceType::Float, &data),
        Err(TextureError::OutOfBounds)
    );
    assert_eq!(
        t.sub_image(0, u32::MAX, 0, 4, 2, SourceFormat::Rg, SourceType::Float, &data),
        Err(TextureError::OutOfBounds)
    );
    assert_eq!(
        t.sub_image(1, 0, 0, 4, 2, SourceFormat::Rg, SourceType::Float, &data),
        Err(TextureError::OutOfBounds)
    );
    assert_eq!(
        t.sub_image(0, 0, 0, 4, 2, SourceFormat::Rg, SourceType::Float, &data[..63]),
        Err(TextureError::SizeMismatch)
    );
    assert_eq!(
        t.sub_image(0, 0, 0, 4, 2, SourceFormat::Rg, SourceType::Float, &vec![0u8; 65]),
        Err(TextureError::SizeMismatch)
    );
    assert_eq!(
        t.sub_image(9, 9, 9, 9, 9, SourceFormat::Red, SourceType::Float, &[]),
        Err(TextureError::LevelOutOfRange)
    );
}

#[test]
fn bind_as_image_carries_access_and_format() {
    let (t, _) = Texture::create_2d(12, PixelFormat::Rgba8ui, 16, 16).unwrap();
    for access in [Access::ReadOnly, Access::WriteOnly, Access::ReadWrite] {
        assert_eq!(
            t.bind_as_image(2, access),
            Command::BindImageUnit { unit: 2, texture: 12, access, format: PixelFormat::Rgba8ui }
        );
    }
}

#[test]
fn bind_as_sampler_sets_filter_first() {
    let (t, _) = Texture::create_2d(12, PixelFormat::Rgba8ui, 16, 16).unwrap();
    let t = t.filter_nearest();
    assert_eq!(t.filter(), Filter::Nearest);
    assert_eq!(t.size(), (16, 16));
    assert_eq!(t.handle(), 12);
    assert_eq!(
        t.bind_as_sampler(3),
        vec![
            Command::TextureFilter { texture: 12, filter: Filter::Nearest },
            Command::BindTextureUnit { unit: 3, texture: 12 },
        ]
    );
    let t = t.filter_linear();
    assert_eq!(t.filter(), Filter::Linear);
    assert_eq!(t.levels(), 5);
    assert_eq!(
        t.bind_as_sampler(0),
        vec![
            Command::TextureFilter { texture: 12, filter: Filter::Linear },
            Command::BindTextureUnit { unit: 0, texture: 12 },
        ]
    );
}

#[test]
fn texel_at_is_inside_level_zero() {
    let (t, _) = Texture::create_2d(5, PixelFormat::Rg32f, 1024, 512).unwrap();
    assert_eq!(t.texel_at(0, 0), Some((0, 0)));
    assert_eq!(t.texel_at(1023, 511), Some((1023, 511)));
    assert_eq!(t.texel_at(1024, 0), None);
    assert_eq!(t.texel_at(0, 512), None);
    assert_eq!(t.texel_at(-1, 5), None);
    assert_eq!(t.texel_at(5, -1), None);
    assert_eq!(t.texel_at(i32::MIN, i32::MAX), None);
}

#[test]
fn release_names_the_texture() {
    let (t, _) = Texture::create_2d(5, PixelFormat::Rg32f, 4, 4).unwrap();
    assert_eq!(t.release(), Command::DeleteTexture { texture: 5 });
}
