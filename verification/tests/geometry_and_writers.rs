use sharp::colour::{has_alpha, hex_channels};
use sharp::geometry::{
    calculate_angle_rotation, calculate_crop, calculate_crop2, calculate_embed_position,
    calculate_exif_rotation_and_flop, multi_page_unsupported, trim_bounds, Angle,
};
use sharp::image_type::{
    assert_image_type_dimensions, image_type_id, image_type_supports_page, image_type_supports_unlimited, is_dz,
    is_dz_zip, is_heif, is_jp2, is_jpeg, is_png, is_tiff, is_v, loader_to_type, ImageType,
};
use sharp::info::{cache_limits, cache_result, get_file_type, image_type_from_loader, output_size};
use sharp::input::{create_input_descriptor, Input};
use sharp::resize::{
    canvas_plan, Canvas, CanvasAction, Extend, ExtendOptions, Fit, GeometrySettings, Gravity, Kernel, Position,
    Region, ResizeOptions,
};
use sharp::text::{ends_with, int_to_string, invalid_parameter_error, str_eq};
use sharp::writer::{buffer_writer, file_writer, written_channels, Writer};

#[test]
fn embed_positions_by_gravity() {
    assert_eq!(calculate_embed_position(10, 20, 30, 40, 0), (10, 10));
    assert_eq!(calculate_embed_position(10, 20, 30, 40, 1), (10, 0));
    assert_eq!(calculate_embed_position(10, 20, 30, 40, 2), (20, 10));
    assert_eq!(calculate_embed_position(10, 20, 30, 40, 6), (20, 20));
    assert_eq!(calculate_embed_position(10, 20, 30, 40, 8), (0, 0));
    assert_eq!(calculate_embed_position(10, 20, 31, 41, 0), (10, 10));
}

#[test]
fn crop_positions_by_gravity() {
    assert_eq!(calculate_crop(30, 40, 10, 20, 0), (10, 10));
    assert_eq!(calculate_crop(31, 41, 10, 20, 0), (11, 11));
    assert_eq!(calculate_crop(30, 40, 10, 20, 3), (10, 20));
    assert_eq!(calculate_crop(30, 40, 10, 20, 7), (0, 20));
    assert_eq!(calculate_crop2(30, 40, 10, 20, 5, 50), (5, 20));
}

#[test]
fn rotations() {
    assert_eq!(calculate_angle_rotation(90), Angle::D90);
    assert_eq!(calculate_angle_rotation(-90), Angle::D270);
    assert_eq!(calculate_angle_rotation(-450), Angle::D270);
    assert_eq!(calculate_angle_rotation(540), Angle::D180);
    assert_eq!(calculate_angle_rotation(45), Angle::D0);
    assert_eq!(calculate_exif_rotation_and_flop(6), (Angle::D90, false));
    assert_eq!(calculate_exif_rotation_and_flop(7), (Angle::D270, true));
    assert_eq!(calculate_exif_rotation_and_flop(1), (Angle::D0, false));
}

#[test]
fn multi_page_refusal() {
    assert_eq!(multi_page_unsupported(2, "Rotate").err().unwrap(), "Rotate is not supported for multi-page images");
    assert!(multi_page_unsupported(1, "Rotate").is_ok());
}

#[test]
fn trim_regions() {
    assert_eq!(trim_bounds((2, 3, 4, 5), Some((1, 4, 2, 10))), Some((1, 3, 5, 11)));
    assert_eq!(trim_bounds((2, 3, 0, 5), Some((1, 4, 2, 10))), Some((1, 4, 2, 10)));
    assert_eq!(trim_bounds((2, 3, 4, 5), None), Some((2, 3, 4, 5)));
    assert_eq!(trim_bounds((2, 3, 0, 0), None), None);
}

#[test]
fn canvas_plans() {
    assert_eq!(canvas_plan(100, 50, 100, 50, Canvas::Crop, 0), (100, 50, CanvasAction::Keep));
    assert_eq!(canvas_plan(100, 50, 0, 0, Canvas::Embed, 0), (100, 50, CanvasAction::Keep));
    assert_eq!(
        canvas_plan(100, 50, 120, 80, Canvas::Embed, 0),
        (120, 80, CanvasAction::Embed { left: 10, top: 15, width: 120, height: 80 })
    );
    assert_eq!(
        canvas_plan(100, 50, 60, 80, Canvas::Crop, 0),
        (60, 50, CanvasAction::Crop { left: 20, top: 0, width: 60, height: 50 })
    );
    assert_eq!(
        canvas_plan(100, 50, 60, 40, Canvas::Crop, 16),
        (60, 40, CanvasAction::SmartCrop { width: 60, height: 40, entropy: true })
    );
    assert_eq!(canvas_plan(100, 50, 60, 40, Canvas::Max, 0), (60, 40, CanvasAction::Keep));
}

#[test]
fn resize_settings() {
    let g = GeometrySettings::new();
    assert_eq!((g.width, g.height, g.canvas), (-1, -1, Canvas::Crop));
    let g = g
        .resize_with_opts(
            ResizeOptions {
                width: 200,
                height: 300,
                fit: Some(Fit::Contain),
                position: Some(Position::RightTop),
                kernel: Some(Kernel::Nearest),
                ..Default::default()
            },
            false,
        )
        .unwrap();
    assert_eq!((g.width, g.height, g.canvas, g.position, g.kernel), (200, 300, Canvas::Embed, 5, Kernel::Nearest));
    assert!(!g.rotate_before);
    let e = GeometrySettings::new().resize(-1, 10, false).err().unwrap();
    assert_eq!(e, "Expected \"\\\"positive integer\\\"\" for \"width\" but received \"width\"");
    let g = GeometrySettings::new().rotate(90).resize(10, 10, false).unwrap();
    assert!(g.rotate_before);
    let g = GeometrySettings::new().resize(10, 10, true).unwrap();
    assert!(g.rotate_before);
    assert_eq!(Gravity::Southwest.code(), 7);
}

#[test]
fn extract_before_and_after_resize() {
    let region = Region { left: 1, top: 2, width: 3, height: 4 };
    let g = GeometrySettings::new().extract(region, false);
    assert_eq!((g.left_offset_pre, g.top_offset_pre, g.width_pre, g.height_pre), (1, 2, 3, 4));
    assert_eq!(g.width_post, -1);
    let g = g.resize(10, 10, false).unwrap().extract(Region { left: 5, top: 6, width: 7, height: 8 }, false);
    assert_eq!((g.left_offset_post, g.top_offset_post, g.width_post, g.height_post), (5, 6, 7, 8));
    assert_eq!(g.width_pre, 3);
    let g = GeometrySettings::new().rotate(45).extract(region, false);
    assert!(g.rotate_before);
}

#[test]
fn extend_rotate_trim() {
    let g = GeometrySettings::new()
        .extend(ExtendOptions { top: Some(10), right: Some(3), extend_with: Some(Extend::Mirror), ..Default::default() })
        .unwrap();
    assert_eq!((g.extend_top, g.extend_right, g.extend_bottom, g.extend_with), (10, 3, 0, Extend::Mirror));
    let e = GeometrySettings::new().extend(ExtendOptions { left: Some(-1), ..Default::default() }).err().unwrap();
    assert_eq!(e, "Expected \"\\\"positive integer\\\"\" for \"left\" but received \"left\"");
    let g = GeometrySettings::new().rotate(45);
    assert_eq!((g.angle, g.rotation_angle), (0, 45));
    let g = g.rotate(180);
    assert_eq!((g.angle, g.rotation_angle), (180, 0));
    let g = GeometrySettings::new().rotate(-90).rotate(30);
    assert_eq!((g.angle, g.rotation_angle), (0, 30));
    let g = GeometrySettings::new().rotate(-30).rotate(90);
    assert_eq!((g.angle, g.rotation_angle), (90, 0));
    let g = GeometrySettings::new().trim(None, true).unwrap();
    assert!(g.trim && g.rotate_before);
    assert_eq!(GeometrySettings::new().trim(Some("bad threshold".to_string()), false).err().unwrap(), "bad threshold");
    let g = GeometrySettings::new().flip(true).flop(true).icon_size(64);
    assert!(g.flip && g.flop);
    assert_eq!((g.width, g.height, g.canvas), (64, 64, Canvas::Embed));
}

#[test]
fn image_types() {
    assert_eq!(image_type_id(ImageType::Jpeg), "jpeg");
    assert_eq!(image_type_id(ImageType::MISSING), "missing");
    assert_eq!(loader_to_type("VipsForeignLoadPngBuffer"), Some(ImageType::Png));
    assert_eq!(loader_to_type("nothing"), None);
    assert!(image_type_supports_page(&ImageType::GIF));
    assert!(!image_type_supports_page(&ImageType::Jpeg));
    assert!(image_type_supports_unlimited(&ImageType::SVG));
    assert!(is_jpeg("a.JPEG") && is_png("b.png") && is_tiff("c.tif") && is_jp2("d.j2k"));
    assert!(is_heif("e.avif") && is_dz("f.dzi") && is_dz_zip("g.szi") && is_v("h.vips"));
    assert!(!is_png("b.png.bak"));
    assert_eq!(
        assert_image_type_dimensions(70000, 10, ImageType::Jpeg).err().unwrap(),
        "Processed image is too large for the JPEG format"
    );
    assert!(assert_image_type_dimensions(16383, 16383, ImageType::Webp).is_ok());
    assert!(assert_image_type_dimensions(16384, 10, ImageType::Webp).is_err());
    // any format but the listed ones refuses a height over 16384
    assert_eq!(
        assert_image_type_dimensions(10, 20000, ImageType::Png).err().unwrap(),
        "Processed image is too large for the HEIF format"
    );
}

#[test]
fn buffer_writers() {
    assert_eq!(buffer_writer("jpeg", ImageType::Png).unwrap(), Writer::Jpeg);
    assert_eq!(buffer_writer("input", ImageType::SVG).unwrap(), Writer::Png);
    assert_eq!(buffer_writer("dz", ImageType::Png).unwrap(), Writer::Dz { zip: true });
    assert_eq!(buffer_writer("input", ImageType::RAW).unwrap(), Writer::Raw);
    assert_eq!(
        buffer_writer("input", ImageType::PDF).err().unwrap(),
        "Unsupported output format when trying to match input format of pdf"
    );
    assert_eq!(buffer_writer("v", ImageType::PDF).err().unwrap(), "Unsupported output format v");
    assert_eq!(Writer::Dz { zip: false }.format(), "dz");
}

#[test]
fn file_writers() {
    assert_eq!(file_writer("input", "out.webp", ImageType::Jpeg).unwrap(), Writer::Webp);
    assert_eq!(file_writer("png", "out.webp", ImageType::Jpeg).unwrap(), Writer::Png);
    assert_eq!(file_writer("input", "out.bin", ImageType::Jpeg).unwrap(), Writer::Jpeg);
    assert_eq!(file_writer("input", "out.zip", ImageType::Jpeg).unwrap(), Writer::Dz { zip: true });
    assert_eq!(file_writer("input", "out.dzi", ImageType::Jpeg).unwrap(), Writer::Dz { zip: false });
    assert_eq!(file_writer("input", "out.v", ImageType::Png).unwrap(), Writer::V);
    assert_eq!(file_writer("raw", "out.bin", ImageType::Png).err().unwrap(), "Unsupported output format out.bin");
    assert_eq!(written_channels(Writer::Jpeg, 4, true, true, false, false), 4);
    assert_eq!(written_channels(Writer::Jpeg, 4, false, true, false, false), 3);
    assert_eq!(written_channels(Writer::Tiff, 4, false, false, true, false), 3);
    assert_eq!(written_channels(Writer::Raw, 3, true, false, false, true), 1);
}

#[test]
fn colours_from_hex() {
    assert!(has_alpha(0x1000000));
    assert!(!has_alpha(0xFFFFFF));
    assert_eq!(hex_channels(0x123456), (0x12, 0x34, 0x56, None));
    assert_eq!(hex_channels(0x12345678), (0x12, 0x34, 0x56, Some(0x78)));
}

#[test]
fn info_helpers() {
    assert_eq!(output_size(100, 200, -1, 0, 0, -1, 0, 0), (100, 200));
    assert_eq!(output_size(-1, 200, 5, 30, 40, -1, 0, 0), (30, 40));
    assert_eq!(output_size(100, 200, 5, 30, 40, 2, 7, 8), (7, 8));
    assert_eq!(cache_limits(true), (50, 20, 100));
    assert_eq!(cache_limits(false), (0, 0, 0));
    let c = cache_result(3 * 1048576 + 5, 1048575, 50 * 1048576, 1, 20, 2, 100);
    assert_eq!((c.memory.current, c.memory.high, c.memory.max), (3, 0, 50));
    assert_eq!((c.files.current, c.items.max), (1, 100));
    assert_eq!(image_type_from_loader(Some("VipsForeignLoadGifFile")), ImageType::GIF);
    assert_eq!(image_type_from_loader(None), ImageType::UNKNOWN);
    let d = create_input_descriptor(Input::Path("a.tif".to_string()), None).unwrap();
    assert_eq!(get_file_type(&d, Some("VipsForeignLoadTiffFile"), None), "tiff");
    let d = create_input_descriptor(Input::NoInput(), None).unwrap();
    assert_eq!(get_file_type(&d, None, None), "");
}

#[test]
fn text_helpers() {
    assert!(ends_with("photo.jpg", ".jpg"));
    assert!(!ends_with("jpg", ".jpg"));
    assert!(str_eq("a", "a") && !str_eq("a", "b"));
    assert_eq!(int_to_string(0), "0");
    assert_eq!(int_to_string(-120), "-120");
    assert_eq!(int_to_string(i64::MIN), "-9223372036854775808");
    assert_eq!(
        invalid_parameter_error("quality", "\"x\\y\"", "q"),
        "Expected \"\\\"x\\\\y\\\"\" for \"quality\" but received \"q\""
    );
}

#[test]
fn resize_with_one_dimension_scales_the_other() {
    let g = GeometrySettings::new()
        .resize_with_opts(ResizeOptions { width: 320, ..Default::default() }, false)
        .unwrap();
    assert_eq!((g.width, g.height), (320, -1));
    let g = GeometrySettings::new().resize(0, 240, false).unwrap();
    assert_eq!((g.width, g.height), (-1, 240));
    let e = GeometrySettings::new().resize(320, -5, false).err().unwrap();
    assert_eq!(e, "Expected \"\\\"positive integer\\\"\" for \"height\" but received \"height\"");
}
