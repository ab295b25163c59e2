use gpucanvas::image::{
    ImageFlags, ImageFormat, ImageInfo, ImageSource, FLIP_Y, GENERATE_MIPMAPS, NEAREST,
    PREMULTIPLIED, REPEAT_X, REPEAT_Y,
};
use gpucanvas::paint::{BlendFactor, Color, CompositeOperationState, FillRule};
use gpucanvas::renderer::{
    check_update, Command, CommandType, Drawable, Renderer, ShaderType, Vertex, Void, VoidCache,
};
use gpucanvas::{ErrorKind, ImageStore, Size};
use imgref::Img;
use rgb::alt::GRAY8;
use rgb::{RGB8, RGBA8};

#[test]
fn flag_bits_have_their_documented_values() {
    assert_eq!(GENERATE_MIPMAPS, 1);
    assert_eq!(REPEAT_X, 1 << 1);
    assert_eq!(REPEAT_Y, 1 << 2);
    assert_eq!(FLIP_Y, 1 << 3);
    assert_eq!(PREMULTIPLIED, 1 << 4);
    assert_eq!(NEAREST, 1 << 5);
}

#[test]
fn flags_combine() {
    let none = ImageFlags::empty();
    assert!(none.is_empty());
    assert_eq!(none, ImageFlags::default());
    assert_eq!(none.bits(), 0);
    let repeat_x = ImageFlags::from_bits(REPEAT_X).unwrap();
    let nearest = ImageFlags::from_bits(NEAREST).unwrap();
    let both = repeat_x.union(nearest);
    assert_eq!(both.bits(), 34);
    assert!(both.contains(repeat_x));
    assert!(both.contains(nearest));
    assert!(both.contains(none));
    assert!(!repeat_x.contains(both));
    assert!(!both.contains(ImageFlags::from_bits(FLIP_Y).unwrap()));
    let mut flags = both;
    flags.remove(repeat_x);
    assert_eq!(flags, nearest);
    flags.insert(ImageFlags::from_bits(PREMULTIPLIED | FLIP_Y).unwrap());
    assert_eq!(flags.bits(), 32 | 16 | 8);
    assert!(ImageFlags::from_bits(64).is_none());
    assert_eq!(ImageFlags::from_bits(63).unwrap().bits(), 63);
    assert_eq!(ImageFlags::from_bits_truncate(64 | 3).bits(), 3);
}

#[test]
fn image_info_keeps_its_parts() {
    let flags = ImageFlags::from_bits(REPEAT_Y).unwrap();
    let mut info = ImageInfo::new(flags, 640, 480, ImageFormat::Rgb);
    assert_eq!(info.flags(), flags);
    assert_eq!(info.width(), 640);
    assert_eq!(info.height(), 480);
    assert_eq!(info.format(), ImageFormat::Rgb);
    info.set_format(ImageFormat::Gray);
    assert_eq!(info.format(), ImageFormat::Gray);
    assert_eq!(info.width(), 640);
    assert_eq!(info, ImageInfo::new(flags, 640, 480, ImageFormat::Gray));
}

#[test]
fn image_source_knows_format_and_dimensions() {
    let rgb = vec![RGB8 { r: 0, g: 0, b: 0 }; 6];
    let rgba = vec![RGBA8 { r: 0, g: 0, b: 0, a: 0 }; 8];
    let gray = vec![GRAY8::new(0); 15];
    let a = ImageSource::from(Img::new(&rgb[..], 3, 2));
    let b = ImageSource::from(Img::new(&rgba[..], 2, 4));
    let c = ImageSource::from(Img::new(&gray[..], 5, 3));
    assert_eq!(a.format(), ImageFormat::Rgb);
    assert_eq!(b.format(), ImageFormat::Rgba);
    assert_eq!(c.format(), ImageFormat::Gray);
    assert_eq!(a.dimensions(), (3, 2));
    assert_eq!(b.dimensions(), (2, 4));
    assert_eq!(c.dimensions(), (5, 3));
    // a view into a wider image has the width of the view
    let view = ImageSource::from(Img::new_stride(&gray[..], 2, 3, 5));
    assert_eq!(view.dimensions(), (2, 3));
}

#[test]
fn update_is_tested_against_bounds_then_format() {
    let info = ImageInfo::new(ImageFlags::empty(), 10, 8, ImageFormat::Rgba);
    let rgba = vec![RGBA8 { r: 0, g: 0, b: 0, a: 0 }; 12];
    let gray = vec![GRAY8::new(0); 12];
    let patch = ImageSource::from(Img::new(&rgba[..], 4, 3));
    let other = ImageSource::from(Img::new(&gray[..], 4, 3));
    assert_eq!(check_update(info, patch, 0, 0), Ok(()));
    assert_eq!(check_update(info, patch, 6, 5), Ok(()));
    assert_eq!(check_update(info, patch, 7, 5), Err(ErrorKind::ImageUpdateOutOfBounds));
    assert_eq!(check_update(info, patch, 6, 6), Err(ErrorKind::ImageUpdateOutOfBounds));
    assert_eq!(check_update(info, patch, usize::MAX - 1, 0), Err(ErrorKind::ImageUpdateOutOfBounds));
    assert_eq!(check_update(info, other, 0, 0), Err(ErrorKind::ImageUpdateWithDifferentFormat));
    assert_eq!(check_update(info, other, 6, 5), Err(ErrorKind::ImageUpdateWithDifferentFormat));
    assert_eq!(check_update(info, other, 7, 5), Err(ErrorKind::ImageUpdateOutOfBounds));
}

#[test]
fn new_command_is_empty() {
    let cmd = Command::new(CommandType::ClearRect {
        x: 1,
        y: 2,
        width: 3,
        height: 4,
        color: Color::blue(),
    });
    assert_eq!(
        cmd.cmd_type,
        CommandType::ClearRect { x: 1, y: 2, width: 3, height: 4, color: Color::blue() }
    );
    assert!(cmd.drawables.is_empty());
    assert!(cmd.triangles_verts.is_none());
    assert!(cmd.image.is_none());
    assert!(cmd.alpha_mask.is_none());
    assert_eq!(cmd.fill_rule, FillRule::NonZero);
    assert_eq!(
        cmd.composite_operation,
        CompositeOperationState {
            src_rgb: BlendFactor::One,
            src_alpha: BlendFactor::One,
            dst_rgb: BlendFactor::OneMinusSrcAlpha,
            dst_alpha: BlendFactor::OneMinusSrcAlpha,
        }
    );
    let d = Drawable::default();
    assert!(d.fill_verts.is_none());
    assert!(d.stroke_verts.is_none());
}

#[test]
fn vertex_keeps_bit_patterns() {
    let mut v = Vertex::new(1.5f32.to_bits(), 2.0f32.to_bits(), 0.25f32.to_bits(), 1.0f32.to_bits());
    assert_eq!(f32::from_bits(v.x), 1.5);
    assert_eq!(f32::from_bits(v.v), 1.0);
    v.set(3.0f32.to_bits(), 4.0f32.to_bits(), 0, 0);
    assert_eq!(v, Vertex { x: 3.0f32.to_bits(), y: 4.0f32.to_bits(), u: 0, v: 0 });
    assert_eq!(Vertex::default(), Vertex { x: 0, y: 0, u: 0, v: 0 });
}

#[test]
fn shader_type_numbers() {
    assert_eq!(f32::from_bits(ShaderType::FillGradient.to_f32()), 0.0);
    assert_eq!(f32::from_bits(ShaderType::FillImage.to_f32()), 1.0);
    assert_eq!(f32::from_bits(ShaderType::Stencil.to_f32()), 2.0);
    assert_eq!(ShaderType::default(), ShaderType::FillGradient);
}

#[test]
fn blue_is_blue() {
    let c = Color::blue();
    assert_eq!(
        (f32::from_bits(c.r), f32::from_bits(c.g), f32::from_bits(c.b), f32::from_bits(c.a)),
        (0.0, 0.0, 1.0, 1.0)
    );
}

#[test]
fn size_contains_and_max() {
    let a = Size::new(10, 4);
    let b = Size::new(6, 8);
    assert!(a.contains(&Size::new(10, 4)));
    assert!(a.contains(&Size::new(3, 3)));
    assert!(!a.contains(&b));
    assert!(!b.contains(&a));
    assert_eq!(a.max(&b), Size::new(10, 8));
    assert_eq!(b.max(&a), Size::new(10, 8));
}

#[test]
fn void_backend_renders_nothing_and_remembers_its_size() {
    let mut void = Void::new();
    assert_eq!(void.view_size(), Size::new(0, 0));
    void.set_size(800, 600);
    assert_eq!(void.view_size(), Size::new(800, 600));
    let images = ImageStore::new();
    let mut cache: VoidCache = void.alloc_buffer_cache();
    let cmd = Command::new(CommandType::Stroke { params: Default::default() });
    assert!(void.render(&images, &mut cache, &[Vertex::default()], &[cmd]));
    assert!(void.render(&images, &mut cache, &[], &[]));
    let shot = void.screenshot(&images).unwrap();
    assert_eq!((shot.width, shot.height, shot.data.len()), (0, 0, 0));
    let info = ImageInfo::new(ImageFlags::empty(), 2, 2, ImageFormat::Rgb);
    let image = void.alloc_image(info).unwrap();
    assert_eq!(image.info, info);
    void.delete_image(image);
    void.start_capture();
    void.stop_capture();
    assert!(!Void::flip_y());
    assert!(!Void::flip_uv());
}

#[test]
fn error_message() {
    assert_eq!(ErrorKind::ImageIdNotFound.message(), "canvas error");
    assert_eq!(ErrorKind::GeneralError("x".to_owned()).message(), "canvas error");
}
