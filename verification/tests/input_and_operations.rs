use sharp::input::{
    create_input_descriptor, Align, Create, CreateRaw, CreateText, FailOn, HorizontalAlignment, Input, Join, Noise,
    Raw, SharpOptions, TextAlign, TextWrap, VerticalAlignment,
};
use sharp::operations::{
    boolean_descriptor, check_recomb, BooleanOptions, ClaheOptions, Interpolators, NegateOptions, NormaliseOptions,
    OperationSettings, Precision, ThresholdOptions,
};
use sharp::pipeline::Pipeline;

fn refused(name: &str, expected: &str, actual: &str) -> String {
    format!("Expected {:?} for {:?} but received {:?}", format!("\"{}\"", expected), name, actual)
}

#[test]
fn describes_a_file() {
    let d = create_input_descriptor(Input::Path("in.jpg".to_string()), None).unwrap();
    assert_eq!(d.file, "in.jpg");
    assert!(!d.is_buffer);
    assert_eq!(d.fail_on, FailOn::Warning);
    assert_eq!(d.limit_input_pixels, 0x3FFF * 0x3FFF);
    assert_eq!(d.pages, 1);
    assert_eq!(d.subifd, -1);
    assert_eq!(d.text_dpi, 72);
    assert_eq!(d.join_across, 1);
}

#[test]
fn refuses_an_empty_buffer() {
    let e = create_input_descriptor(Input::Buffer(vec![]), None).err().unwrap();
    assert_eq!(e, "Input Buffer is empty");
}

#[test]
fn describes_raw_pixels() {
    let raw = CreateRaw { width: 2, height: 3, channels: 4, premultiplied: true };
    let d = create_input_descriptor(
        Input::Buffer(vec![0; 24]),
        Some(SharpOptions { raw: Some(raw), animated: Some(true), fail_on: Some(FailOn::Error), ..Default::default() }),
    )
    .unwrap();
    assert!(d.is_buffer);
    assert_eq!(d.buffer.len(), 24);
    assert_eq!((d.raw_width, d.raw_height, d.raw_channels), (2, 3, 4));
    assert!(d.raw_premultiplied);
    assert_eq!(d.pages, -1);
    assert_eq!(d.fail_on, FailOn::Error);
    let e = create_input_descriptor(
        Input::Buffer(vec![0; 5]),
        Some(SharpOptions { raw: Some(CreateRaw { channels: 5, ..raw }), ..Default::default() }),
    )
    .err()
    .unwrap();
    assert_eq!(e, refused("raw.channels", "number between 1 and 4", "raw.channels"));
}

#[test]
fn describes_a_created_image() {
    let create = Create { width: 10, height: 20, channels: 3, noise: None };
    let d = create_input_descriptor(Input::NoInput(), Some(SharpOptions { create: Some(create), ..Default::default() }))
        .unwrap();
    assert_eq!((d.create_width, d.create_height, d.create_channels), (10, 20, 3));
    assert_eq!(d.create_noise_type, "");
    let e = create_input_descriptor(
        Input::NoInput(),
        Some(SharpOptions { create: Some(Create { channels: 2, ..create }), ..Default::default() }),
    )
    .err()
    .unwrap();
    assert_eq!(e, refused("create.channels", "number between 3 and 4", "create.channels"));
    let noisy = Create { channels: 1, noise: Some(Noise { gaussian: Some(true) }), ..create };
    let d = create_input_descriptor(Input::NoInput(), Some(SharpOptions { create: Some(noisy), ..Default::default() }))
        .unwrap();
    assert_eq!(d.create_noise_type, "gaussian");
    let e = create_input_descriptor(
        Input::NoInput(),
        Some(SharpOptions { create: Some(Create { channels: 0, ..noisy }), ..Default::default() }),
    )
    .err()
    .unwrap();
    assert_eq!(e, refused("create.channels", "number between 1 and 4", "create.channels"));
}

#[test]
fn creating_drops_the_buffer() {
    let create = Create { width: 1, height: 1, channels: 4, noise: None };
    let d = create_input_descriptor(Input::Buffer(vec![1, 2, 3]), Some(SharpOptions { create: Some(create), ..Default::default() }))
        .unwrap();
    assert!(d.buffer.is_empty());
    assert!(d.is_buffer);
}

#[test]
fn describes_text_and_join() {
    let text = CreateText {
        text: "Hello".to_string(),
        font: Some("sans".to_string()),
        align: Some(TextAlign::Right),
        wrap: Some(TextWrap::NoWrap),
        ..Default::default()
    };
    let join = Join { across: Some(2), halign: Some(HorizontalAlignment::Centre), valign: Some(VerticalAlignment::Bottom), ..Default::default() };
    let d = create_input_descriptor(Input::NoInput(), Some(SharpOptions { text: Some(text), join: Some(join), ..Default::default() }))
        .unwrap();
    assert_eq!(d.text_value, "Hello");
    assert_eq!(d.text_font, "sans");
    assert_eq!(d.text_align, Align::High);
    assert_eq!(d.text_wrap, TextWrap::NoWrap);
    assert_eq!(d.join_across, 2);
    assert_eq!(d.join_halign, Align::Centre);
    assert_eq!(d.join_valign, Align::High);
}

#[test]
fn pipelines_from_sources() {
    let p = Pipeline::new_from_file("a.png".to_string(), None).unwrap();
    assert_eq!(p.input.file, "a.png");
    assert_eq!(p.output.format_out, "input");
    assert_eq!(p.geometry.width, -1);
    let e = Pipeline::new_from_files(vec!["a.png".to_string()], None).err().unwrap();
    assert_eq!(e, "Expected at least two images to join");
    let p = Pipeline::new_from_files(vec!["a.png".to_string(), "b.png".to_string()], None).unwrap();
    assert_eq!(p.join.len(), 2);
    assert_eq!(p.join[1].file, "b.png");
    let e = Pipeline::new_from_buffers(vec![vec![1], vec![]], None).err().unwrap();
    assert_eq!(e, "Input Buffer is empty");
    let p = Pipeline::new_from_buffers(vec![vec![1], vec![2, 3]], None).unwrap();
    assert_eq!(p.join[1].buffer, vec![2, 3]);
    let p = p.auto_orient();
    assert!(p.input.auto_orient);
    let e = p.icon_sizes(None).err().unwrap();
    assert_eq!(e, "Multiple input is not supported");
    let p = Pipeline::new_from_buffer(vec![1, 2], None).unwrap();
    assert_eq!(p.icon_sizes(None).unwrap(), vec![256, 128, 64, 48, 32, 24, 16]);
    assert_eq!(p.icon_sizes(Some(vec![32])).unwrap(), vec![32]);
}

#[test]
fn operation_settings() {
    let s = OperationSettings::new();
    assert_eq!(s.median_size, 0);
    assert!(s.negate_alpha);
    let s = s.median(None).unwrap();
    assert_eq!(s.median_size, 3);
    let s = s.median(Some(5)).unwrap();
    assert_eq!(s.median_size, 5);
    let e = OperationSettings::new().median(Some(1001)).err().unwrap();
    assert_eq!(e, refused("size", "integer between 1 and 1000", "size"));
    let s = OperationSettings::new().dilate(None).unwrap().erode(Some(2)).unwrap();
    assert_eq!((s.dilate_width, s.erode_width), (1, 2));
    let e = OperationSettings::new().erode(Some(-1)).err().unwrap();
    assert_eq!(e, refused("erode", "positive integer", "width"));
    let s = OperationSettings::new().negate(Some(NegateOptions { alpha: Some(false) }));
    assert!(s.negate && !s.negate_alpha);
    let s = OperationSettings::new().flatten().unflatten();
    assert!(s.flatten && s.unflatten);
}

#[test]
fn normalise_range() {
    let s = OperationSettings::new().normalise(Some(NormaliseOptions { lower: Some(10), upper: Some(70) })).unwrap();
    assert!(s.normalise);
    assert_eq!((s.normalise_lower, s.normalise_upper), (10, 70));
    let e = OperationSettings::new()
        .normalise(Some(NormaliseOptions { lower: Some(99), upper: None }))
        .err()
        .unwrap();
    assert_eq!(
        e,
        format!(
            "Expected {:?} for {:?} but received {:?}",
            "\"lower to be less than upper\"",
            "range",
            "format!(\"{:?} >= {:?}\", self.options.normaliseLower, self.options.normaliseUpper)"
        )
    );
    let e = OperationSettings::new().normalise(Some(NormaliseOptions { lower: Some(-1), upper: None })).err().unwrap();
    assert_eq!(e, refused("lower", "number between 0 and 99", "lower"));
    let e = OperationSettings::new().normalise(Some(NormaliseOptions { lower: None, upper: Some(101) })).err().unwrap();
    assert_eq!(e, refused("upper", "number between 1 and 100", "upper"));
}

#[test]
fn clahe_threshold_modulate() {
    let s = OperationSettings::new().clahe(Some(ClaheOptions { width: 5, height: 6, max_slope: None })).unwrap();
    assert_eq!((s.clahe_width, s.clahe_height, s.clahe_max_slope), (5, 6, 3));
    let e = OperationSettings::new().clahe(Some(ClaheOptions { width: 0, height: 6, max_slope: None })).err().unwrap();
    assert_eq!(e, refused("width", "integer greater than zero", "options.width"));
    let e = OperationSettings::new().clahe(Some(ClaheOptions { width: 5, height: 6, max_slope: Some(101) })).err().unwrap();
    assert_eq!(e, refused("max_slope", "integer between 0 and 100", "max_slope"));
    let s = OperationSettings::new().threshold(None, None).unwrap();
    assert_eq!(s.threshold, 128);
    assert!(!s.threshold_grayscale);
    let s = OperationSettings::new().threshold(Some(40), Some(ThresholdOptions { grayscale: None })).unwrap();
    assert_eq!(s.threshold, 40);
    assert!(s.threshold_grayscale);
    let e = OperationSettings::new().threshold(Some(256), None).err().unwrap();
    assert_eq!(e, refused("threshold", "integer between 0 and 255", "threshold"));
    let s = OperationSettings::new().modulate(Some(-450), None).unwrap();
    assert_eq!(s.hue, -90);
    let s = OperationSettings::new().modulate(Some(400), None).unwrap();
    assert_eq!(s.hue, 40);
}

#[test]
fn kernel_and_matrix_shapes() {
    let s = OperationSettings::new().convolve(3, 3, 9).unwrap();
    assert_eq!((s.conv_kernel_width, s.conv_kernel_height), (3, 3));
    assert_eq!(OperationSettings::new().convolve(3, 3, 8).err().unwrap(), "Invalid convolution kernel");
    assert_eq!(OperationSettings::new().convolve(2, 3, 6).err().unwrap(), "Invalid convolution kernel");
    assert!(check_recomb(&vec![3, 3, 3]).is_ok());
    assert!(check_recomb(&vec![4, 4, 4, 4]).is_ok());
    assert_eq!(check_recomb(&vec![3, 3]).err().unwrap(), refused("input_matrix", "3x3 or 4x4 array", "input_matrix"));
    assert_eq!(
        check_recomb(&vec![3, 3, 4]).err().unwrap(),
        refused("recomb_matrix", "cardinality of 9 or 16", "recomb_matrix.len()")
    );
    assert_eq!(Interpolators::LocallyBoundedBicubic.to_text(), "lbb");
}

#[test]
fn boolean_operands() {
    let d = boolean_descriptor(
        Input::Buffer(vec![0; 4]),
        Some(BooleanOptions { raw: Raw { width: 1, height: 1, channels: 4 } }),
    )
    .unwrap();
    assert_eq!(d.raw_channels, 4);
    assert!(!d.raw_premultiplied);
    let e = boolean_descriptor(Input::Buffer(vec![0; 4]), Some(BooleanOptions { raw: Raw { width: 1, height: 1, channels: 0 } }))
        .err()
        .unwrap();
    assert_eq!(e, refused("raw.channels", "number between 1 and 4", "raw.channels"));
    let d = boolean_descriptor(Input::Path("x.png".to_string()), None).unwrap();
    assert_eq!(d.raw_channels, 0);
}

#[test]
fn affine_and_blur_defaults() {
    let s = OperationSettings::new();
    assert!(!s.affine);
    assert_eq!(s.affine_interpolator, Interpolators::Bicubic);
    assert_eq!(s.affine_interpolator.to_text(), "bicubic");
    assert_eq!(s.precision, Precision::Integer);
    let t = s.affine(4, None).unwrap();
    assert!(t.affine);
    assert_eq!(t.affine_interpolator, Interpolators::Bicubic);
    let t = s.affine(4, Some(Interpolators::Nohalo)).unwrap();
    assert_eq!(t.affine_interpolator, Interpolators::Nohalo);
    assert_eq!(s.affine(3, None).err().unwrap(), refused("matrix", "1x4 or 2x2 array", "matrix"));
    let t = s.blur(Some(Precision::Approximate), None).unwrap();
    assert_eq!(t.precision, Precision::Approximate);
    assert_eq!(s.blur(None, None).unwrap().precision, Precision::Integer);
    assert_eq!(s.blur(Some(Precision::Float), Some("bad sigma".to_string())).err().unwrap(), "bad sigma");
}
