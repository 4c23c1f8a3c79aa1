use sharp::composite::{composite, BlendMode, OverlayOptions};
use sharp::geometry::{check_trim_size, Angle};
use sharp::icon_check::{decode_checked, encode_checked, is_decodable, is_encodable};
use sharp::writer::check_output_file;
use sharp::image_type::ImageType;
use sharp::input::{create_input_descriptor, Create, CreateRaw, CreateText, Input, SharpOptions};
use sharp::loading::{check_pixel_limit, input_source, loader_flags, text_size, Source};
use sharp::operations::OperationSettings;
use sharp::pipeline::Pipeline;
use sharp::info::{depth_name, space_name};
use sharp::plan::{animation_properties, check_overlay_size, check_svg_size, extended_size, extends_edges, oriented_target, orientation_plan, page_regions, pages_to_render, resolve_extract_channel, tile_counts};
use sharp::resize::Gravity;

fn overlay(input: Input) -> OverlayOptions {
    OverlayOptions {
        input,
        blend: None,
        gravity: None,
        top: None,
        left: None,
        tile: None,
        premultiplied: None,
        animated: None,
        fail_on: None,
        limit_input_pixels: None,
        auto_orient: None,
        create: None,
        raw: None,
        text: None,
    }
}

#[test]
fn composites_in_order() {
    let mut second = overlay(Input::Buffer(vec![1, 2, 3]));
    second.blend = Some(BlendMode::Multiply);
    second.top = Some(10);
    second.left = Some(20);
    second.gravity = Some(Gravity::Northeast);
    let cs = composite(vec![overlay(Input::Path("a.png".to_string())), second]).unwrap();
    assert_eq!(cs.len(), 2);
    assert_eq!(cs[0].mode, BlendMode::Over);
    assert_eq!(cs[0].gravity, 0);
    assert!(!cs[0].has_offset);
    assert_eq!(cs[0].input.file, "a.png");
    assert_eq!(cs[1].mode, BlendMode::Multiply);
    assert_eq!((cs[1].top, cs[1].left, cs[1].gravity), (10, 20, 5));
    assert!(cs[1].has_offset);
    assert_eq!(cs[1].input.buffer, vec![1, 2, 3]);
}

#[test]
fn composite_refusals() {
    assert_eq!(
        composite(vec![]).err().unwrap(),
        "Expected \"\\\"array\\\"\" for \"images to composite\" but received \"images\""
    );
    let e = composite(vec![overlay(Input::Path("a.png".to_string())), overlay(Input::Buffer(vec![]))]).err().unwrap();
    assert_eq!(e, "Input Buffer is empty");
}

#[test]
fn input_sources() {
    let d = create_input_descriptor(Input::Path("a.png".to_string()), None).unwrap();
    assert_eq!(input_source(&d), Source::File);
    let d = create_input_descriptor(
        Input::Buffer(vec![0; 3]),
        Some(SharpOptions { raw: Some(CreateRaw { width: 1, height: 1, channels: 3, premultiplied: false }), ..Default::default() }),
    )
    .unwrap();
    assert_eq!(input_source(&d), Source::Raw);
    let d = create_input_descriptor(Input::Buffer(vec![0; 3]), None).unwrap();
    assert_eq!(input_source(&d), Source::Encoded);
    let d = create_input_descriptor(
        Input::NoInput(),
        Some(SharpOptions { create: Some(Create { width: 1, height: 1, channels: 4, noise: None }), ..Default::default() }),
    )
    .unwrap();
    assert_eq!(input_source(&d), Source::Created { noise: false });
    let text = CreateText { text: "hi".to_string(), width: Some(100), height: Some(50), ..Default::default() };
    let d = create_input_descriptor(Input::NoInput(), Some(SharpOptions { text: Some(text), ..Default::default() })).unwrap();
    assert_eq!(input_source(&d), Source::Text);
    assert_eq!(text_size(&d), (Some(100), Some(50), None));
    let text = CreateText { text: "hi".to_string(), height: Some(50), ..Default::default() };
    let d = create_input_descriptor(Input::NoInput(), Some(SharpOptions { text: Some(text), ..Default::default() })).unwrap();
    assert_eq!(text_size(&d), (None, None, Some(72)));
}

#[test]
fn loader_options_and_limits() {
    let d = create_input_descriptor(Input::Path("a.png".to_string()), Some(SharpOptions { unlimited: Some(true), ..Default::default() })).unwrap();
    assert_eq!(loader_flags(&d, ImageType::Png), (true, false));
    assert_eq!(loader_flags(&d, ImageType::GIF), (false, true));
    assert!(check_pixel_limit(100, 10, 10).is_ok());
    assert_eq!(check_pixel_limit(99, 10, 10).err().unwrap(), "Input image exceeds pixel limit");
    assert!(check_pixel_limit(0, 1000, 1000).is_ok());
    // Products beyond i32 are counted whole.
    assert_eq!(check_pixel_limit(268402689, 100000, 100000).err().unwrap(), "Input image exceeds pixel limit");
    assert!(check_pixel_limit(usize::MAX, 100000, 100000).is_ok());
}

#[test]
fn run_time_decisions() {
    assert_eq!(pages_to_render(-1, Some(10), 3), 7);
    assert_eq!(pages_to_render(-1, None, 3), 1);
    assert_eq!(pages_to_render(2, Some(10), 3), 2);
    assert_eq!(orientation_plan(true, false, Angle::D90, false, false, false, Angle::D180, false), (true, true));
    assert_eq!(orientation_plan(true, false, Angle::D0, false, false, false, Angle::D180, false), (false, false));
    assert_eq!(orientation_plan(false, true, Angle::D0, false, false, false, Angle::D0, true), (false, true));
    assert_eq!(oriented_target(Angle::D90, 100, 50), (50, 100));
    assert_eq!(oriented_target(Angle::D180, 100, 50), (100, 50));
    assert!(extends_edges(0, 0, 1, 0));
    assert!(!extends_edges(0, 0, 0, 0));
    assert_eq!(extended_size(100, 50, 1, 2, 3, 4), (107, 53));
}

#[test]
fn channel_operations() {
    let s = OperationSettings::new().remove_alpha().ensure_alpha(1).unwrap().extract_channel(2).unwrap();
    assert!(s.remove_alpha);
    assert_eq!((s.ensure_alpha, s.extract_channel), (1, 2));
    assert_eq!(
        OperationSettings::new().ensure_alpha(2).err().unwrap(),
        "Expected \"\\\"number between 0 and 1\\\"\" for \"alpha\" but received \"alpha\""
    );
    assert!(OperationSettings::new().extract_channel(5).is_err());
}

#[test]
fn joining_channels() {
    let p = Pipeline::new_from_file("a.png".to_string(), None).unwrap();
    let p = p.join_channel(vec![], None).unwrap();
    assert_eq!(p.join_channel_in.len(), 0);
    let p = p.join_channel(vec!["b.png".to_string(), "c.png".to_string()], None).unwrap();
    assert_eq!(p.join_channel_in.len(), 2);
    assert_eq!(p.join_channel_in[1].file, "c.png");
    let p = p.join_channel_buffers(vec![vec![9]], None).unwrap();
    assert_eq!(p.join_channel_in.len(), 3);
    assert_eq!(p.join_channel_in[2].buffer, vec![9]);
    assert_eq!(p.join_channel_buffers(vec![vec![]], None).err().unwrap(), "Input Buffer is empty");
}

#[test]
fn extract_channel_within_bands() {
    assert_eq!(resolve_extract_channel(1, 3, false), Ok(1));
}

#[test]
fn extract_alpha_channel_moves_to_last_band() {
    assert_eq!(resolve_extract_channel(3, 2, true), Ok(1));
}

#[test]
fn extract_missing_channel_refused() {
    assert_eq!(
        resolve_extract_channel(3, 3, false),
        Err("Cannot extract channel 3 from  image with channels 0-2".to_string())
    );
}

#[test]
fn tile_counts_cover_and_centre() {
    // 100 / 30 needs 4 tiles, made odd for centre gravity.
    assert_eq!(tile_counts(100, 60, 30, 20, 0), (5, 3));
    // North centres across only.
    assert_eq!(tile_counts(100, 60, 30, 20, 1), (5, 3));
    assert_eq!(tile_counts(100, 80, 30, 20, 1), (5, 4));
    // East centres down only.
    assert_eq!(tile_counts(100, 80, 30, 20, 2), (4, 5));
    // Corner gravities keep the counts.
    assert_eq!(tile_counts(100, 80, 30, 20, 5), (4, 4));
    assert_eq!(tile_counts(90, 60, 30, 20, 8), (3, 3));
}

#[test]
fn single_delay_repeats_for_every_frame() {
    assert_eq!(animation_properties(3, &vec![100], -1), (true, vec![100, 100, 100], None));
}

#[test]
fn still_image_plays_once() {
    assert_eq!(animation_properties(1, &vec![], -1), (false, vec![], Some(1)));
}

#[test]
fn delays_and_loop_kept() {
    assert_eq!(animation_properties(2, &vec![10, 20], 0), (true, vec![10, 20], Some(0)));
    assert_eq!(animation_properties(2, &vec![], -1), (true, vec![], None));
}

#[test]
fn page_regions_step_by_page_height() {
    assert_eq!(page_regions(3, 10, 2, 1, 5, 4), vec![(2, 1, 5, 4), (2, 11, 5, 4), (2, 21, 5, 4)]);
    assert_eq!(page_regions(0, 10, 0, 0, 5, 4), vec![]);
}

#[test]
fn output_over_input_refused() {
    assert_eq!(check_output_file("in.jpg", "in.jpg").err().unwrap(), "Cannot use same file for input and output");
    assert!(check_output_file("in.jpg", "out.jpg").is_ok());
    assert!(check_output_file("", "out.jpg").is_ok());
}

#[test]
fn trim_needs_three_pixels() {
    assert_eq!(check_trim_size(2, 2).err().unwrap(), "Image to trim must be at least 3x3 pixels");
    assert!(check_trim_size(3, 2).is_ok());
    assert!(check_trim_size(10, 10).is_ok());
}

#[test]
fn truncated_icons_refused() {
    // Header says one icon, but the directory entry is missing.
    let short = vec![0u8, 0, 1, 0, 1, 0, 16];
    assert!(!is_decodable(&short));
    assert_eq!(decode_checked(short.clone()).err().unwrap(), "Image data is truncated");
    assert_eq!(Pipeline::from_icon_buffer(short).err().unwrap(), "Image data is truncated");
    // A wrong reserved field is read and refused as usual.
    assert_eq!(decode_checked(vec![1u8, 0]).err().unwrap(), "Reserved must be 0");
    // An empty payload cannot be read.
    assert!(!is_encodable(&vec![vec![]]));
    assert_eq!(encode_checked(vec![vec![]]).err().unwrap(), "Image data is truncated");
    assert!(is_encodable(&vec![]));
    assert_eq!(encode_checked(vec![]).unwrap(), vec![0, 0, 1, 0, 0, 0]);
}

#[test]
fn svg_size_limit() {
    assert!(check_svg_size(32767, 32767, true).is_ok());
    assert_eq!(
        check_svg_size(32768, 10, true).unwrap_err(),
        "Input SVG image will exceed 32767x32767 pixel limit when scaled"
    );
    assert_eq!(check_svg_size(10, 40000, false).unwrap_err(), "Input SVG image exceeds 32767x32767 pixel limit");
}

#[test]
fn overlay_must_fit_the_image() {
    assert!(check_overlay_size(100, 80, 100, 80).is_ok());
    assert!(check_overlay_size(100, 80, 20, 10).is_ok());
    let e = check_overlay_size(100, 80, 101, 10).unwrap_err();
    assert_eq!(e, "Image to composite must have same dimensions or smaller");
    assert!(check_overlay_size(100, 80, 10, 81).is_err());
}

#[test]
fn colour_space_and_depth_names() {
    assert_eq!(space_name(22), "srgb");
    assert_eq!(space_name(1), "b-w");
    assert_eq!(space_name(26), "grey16");
    assert_eq!(space_name(-5), "");
    assert_eq!(depth_name(0), "uchar");
    assert_eq!(depth_name(2), "ushort");
    assert_eq!(depth_name(99), "");
}
