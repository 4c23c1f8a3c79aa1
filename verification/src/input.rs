//! Describing an input: where the image comes from (a file, a buffer, raw
//! pixels, a blank canvas, rendered text or joined images) and how it is
//! to be read. Options with fractional values (density, colours, noise
//! mean and deviation) are kept beside this description.
use crate::output::or;
use crate::text::{invalid_param, invalid_parameter_error};
use vstd::prelude::*;

verus! {

broadcast use vstd::string::group_string_axioms;

/// An image source.
#[derive(Debug, Clone)]
pub enum Input {
    /// A file to read.
    Path(String),
    /// Encoded image data, or raw pixels.
    Buffer(Vec<u8>),
    /// No source: the image is created, rendered or joined.
    NoInput(),
}

/// An image given by file name or by its encoded data.
pub enum ImageKind {
    File(String),
    Buffer(Vec<u8>),
}

/// When reading stops on invalid data.
#[derive(Debug, Clone, Copy, PartialEq, Eq, Structural)]
pub enum FailOn {
    /// Never stop.
    Never,
    Truncated,
    Error,
    Warning,
}

/// How pixels are read.
#[derive(Debug, Clone, Copy, PartialEq, Eq, Structural)]
pub enum Access {
    Random,
    Sequential,
    SequentialUnbuffered,
}

/// Alignment along one axis.
#[derive(Debug, Clone, Copy, PartialEq, Eq, Structural)]
pub enum Align {
    Low,
    Centre,
    High,
}

/// Word wrapping of rendered text.
#[derive(Debug, Clone, Copy, PartialEq, Eq, Structural)]
pub enum TextWrap {
    Word,
    Char,
    WordChar,
    /// No wrapping.
    NoWrap,
}

/// Text alignment.
#[derive(Debug, Clone, Copy, PartialEq, Eq, Structural)]
pub enum TextAlign {
    Left,
    Centre,
    Right,
}

#[derive(Debug, Clone, Copy, PartialEq, Eq, Structural)]
pub enum HorizontalAlignment {
    Left,
    Centre,
    Right,
}

#[derive(Debug, Clone, Copy, PartialEq, Eq, Structural)]
pub enum VerticalAlignment {
    Top,
    Centre,
    Bottom,
}

/// Dimensions of raw pixel data.
#[derive(Debug, Clone, Copy, Default)]
pub struct Raw {
    pub width: i32,
    pub height: i32,
    pub channels: u32,
}

/// Raw pixel input.
#[derive(Debug, Clone, Copy, Default)]
pub struct CreateRaw {
    pub width: i32,
    pub height: i32,
    pub channels: u32,
    /// The pixels are already premultiplied by alpha (default false).
    pub premultiplied: bool,
}

/// Noise to create; its mean and deviation are set beside this.
#[derive(Debug, Clone, Copy, Default)]
pub struct Noise {
    /// Gaussian noise, the only type supported.
    pub gaussian: Option<bool>,
}

/// A new image to create; its background colour is set beside this.
#[derive(Debug, Clone, Copy, Default)]
pub struct Create {
    pub width: i32,
    pub height: i32,
    /// Number of bands: 3 for RGB, 4 for RGBA; 1 to 4 with noise.
    pub channels: u32,
    pub noise: Option<Noise>,
}

/// Text to render as an image.
#[derive(Debug, Clone, Default)]
pub struct CreateText {
    /// UTF-8 text, which may hold Pango markup.
    pub text: String,
    pub font: Option<String>,
    pub fontfile: Option<String>,
    /// Width in pixels to wrap at.
    pub width: Option<i32>,
    /// Height in pixels to fit the text into.
    pub height: Option<i32>,
    pub align: Option<TextAlign>,
    pub justify: Option<bool>,
    /// Resolution to render at (default 72).
    pub dpi: Option<i32>,
    pub rgba: Option<bool>,
    /// Line height in points.
    pub spacing: Option<i32>,
    pub wrap: Option<TextWrap>,
}

/// Joining several inputs into one image; its background is set beside
/// this.
#[derive(Debug, Clone, Copy, Default)]
pub struct Join {
    /// Number of images per row.
    pub across: Option<i32>,
    /// Treat the inputs as frames of an animation.
    pub animated: Option<bool>,
    /// Space between images, in pixels.
    pub shim: Option<i32>,
    pub halign: Option<HorizontalAlignment>,
    pub valign: Option<VerticalAlignment>,
}

/// Input options with integer, flag or text values.
#[derive(Debug, Clone, Default)]
pub struct SharpOptions {
    pub auto_orient: Option<bool>,
    pub fail_on: Option<FailOn>,
    pub limit_input_pixels: Option<usize>,
    pub unlimited: Option<bool>,
    pub sequential_read: Option<bool>,
    pub ignore_icc: Option<bool>,
    pub pages: Option<i32>,
    pub page: Option<i32>,
    pub subifd: Option<i32>,
    pub level: Option<i32>,
    pub animated: Option<bool>,
    pub raw: Option<CreateRaw>,
    pub create: Option<Create>,
    pub text: Option<CreateText>,
    pub join: Option<Join>,
}

/// How to read one input.
#[derive(Debug, Clone)]
pub struct InputDescriptor {
    pub file: String,
    pub auto_orient: bool,
    pub buffer: Vec<u8>,
    pub fail_on: FailOn,
    pub limit_input_pixels: usize,
    pub unlimited: bool,
    pub access: Access,
    pub is_buffer: bool,
    pub ignore_icc: bool,
    pub raw_channels: i32,
    pub raw_width: i32,
    pub raw_height: i32,
    pub raw_premultiplied: bool,
    pub pages: i32,
    pub page: i32,
    pub level: i32,
    pub subifd: i32,
    pub create_channels: i32,
    pub create_width: i32,
    pub create_height: i32,
    pub create_noise_type: String,
    pub text_value: String,
    pub text_font: String,
    pub text_fontfile: String,
    pub text_width: i32,
    pub text_height: i32,
    pub text_align: Align,
    pub text_justify: bool,
    pub text_dpi: i32,
    pub text_rgba: bool,
    pub text_spacing: i32,
    pub text_wrap: TextWrap,
    pub text_autofit_dpi: i32,
    pub join_animated: bool,
    pub join_across: i32,
    pub join_shim: i32,
    pub join_halign: Align,
    pub join_valign: Align,
    pub svg_stylesheet: String,
    pub svg_high_bitdepth: bool,
    pub tiff_subifd: i32,
    pub open_slide_level: i32,
    pub jp2_oneshot: bool,
}

/// The pixel limit unless told otherwise: `0x3FFF` squared.
pub const DEFAULT_LIMIT_INPUT_PIXELS: usize = 268402689;

/// The description of an input before any option is applied.
pub open spec fn default_descriptor(d: InputDescriptor) -> bool {
    &&& d.file@.len() == 0 && !d.auto_orient && d.buffer@.len() == 0
    &&& d.fail_on == FailOn::Warning && d.limit_input_pixels == DEFAULT_LIMIT_INPUT_PIXELS
    &&& !d.unlimited && d.access == Access::Sequential && !d.is_buffer && !d.ignore_icc
    &&& d.raw_channels == 0 && d.raw_width == 0 && d.raw_height == 0 && !d.raw_premultiplied
    &&& d.pages == 1 && d.page == 0 && d.level == 0 && d.subifd == -1
    &&& d.create_channels == 0 && d.create_width == 0 && d.create_height == 0
    &&& d.create_noise_type@.len() == 0
    &&& d.text_value@.len() == 0 && d.text_font@.len() == 0 && d.text_fontfile@.len() == 0
    &&& d.text_width == 0 && d.text_height == 0 && d.text_align == Align::Low
    &&& !d.text_justify && d.text_dpi == 72 && !d.text_rgba && d.text_spacing == 0
    &&& d.text_wrap == TextWrap::Word && d.text_autofit_dpi == 0
    &&& !d.join_animated && d.join_across == 1 && d.join_shim == 0
    &&& d.join_halign == Align::Low && d.join_valign == Align::Low
    &&& d.svg_stylesheet@.len() == 0 && !d.svg_high_bitdepth && d.tiff_subifd == 0
    &&& d.open_slide_level == 0 && !d.jp2_oneshot
}

impl Default for InputDescriptor {
    /// The description of an input before any option is applied.
    fn default() -> (r: InputDescriptor)
        ensures
            default_descriptor(r),
    {
        InputDescriptor {
            file: String::new(),
            auto_orient: false,
            buffer: Vec::new(),
            fail_on: FailOn::Warning,
            limit_input_pixels: DEFAULT_LIMIT_INPUT_PIXELS,
            unlimited: false,
            access: Access::Sequential,
            is_buffer: false,
            ignore_icc: false,
            raw_channels: 0,
            raw_width: 0,
            raw_height: 0,
            raw_premultiplied: false,
            pages: 1,
            page: 0,
            level: 0,
            subifd: -1,
            create_channels: 0,
            create_width: 0,
            create_height: 0,
            create_noise_type: String::new(),
            text_value: String::new(),
            text_font: String::new(),
            text_fontfile: String::new(),
            text_width: 0,
            text_height: 0,
            text_align: Align::Low,
            text_justify: false,
            text_dpi: 72,
            text_rgba: false,
            text_spacing: 0,
            text_wrap: TextWrap::Word,
            text_autofit_dpi: 0,
            join_animated: false,
            join_across: 1,
            join_shim: 0,
            join_halign: Align::Low,
            join_valign: Align::Low,
            svg_stylesheet: String::new(),
            svg_high_bitdepth: false,
            tiff_subifd: 0,
            open_slide_level: 0,
            jp2_oneshot: false,
        }
    }
}

/// The message for an empty input buffer.
pub open spec fn empty_buffer_text() -> Seq<char> {
    "Input Buffer is empty"@
}

/// `raw.channels` refused: "number between 1 and 4".
#[verifier::opaque]
pub open spec fn err_raw_channels_text() -> Seq<char> {
    invalid_param("raw.channels"@, "\"number between 1 and 4\""@, "raw.channels"@)
}

fn err_raw_channels() -> (r: String)
    ensures
        r@ == err_raw_channels_text(),
{
    proof {
        reveal(err_raw_channels_text);
        reveal_strlit("raw.channels");
        reveal_strlit("\"number between 1 and 4\"");
    }
    invalid_parameter_error("raw.channels", "\"number between 1 and 4\"", "raw.channels")
}

/// `create.channels` refused with noise: "number between 1 and 4".
#[verifier::opaque]
pub open spec fn err_noise_channels_text() -> Seq<char> {
    invalid_param("create.channels"@, "\"number between 1 and 4\""@, "create.channels"@)
}

fn err_noise_channels() -> (r: String)
    ensures
        r@ == err_noise_channels_text(),
{
    proof {
        reveal(err_noise_channels_text);
        reveal_strlit("create.channels");
        reveal_strlit("\"number between 1 and 4\"");
    }
    invalid_parameter_error("create.channels", "\"number between 1 and 4\"", "create.channels")
}

/// `create.channels` refused without noise: "number between 3 and 4".
#[verifier::opaque]
pub open spec fn err_create_channels_text() -> Seq<char> {
    invalid_param("create.channels"@, "\"number between 3 and 4\""@, "create.channels"@)
}

fn err_create_channels() -> (r: String)
    ensures
        r@ == err_create_channels_text(),
{
    proof {
        reveal(err_create_channels_text);
        reveal_strlit("create.channels");
        reveal_strlit("\"number between 3 and 4\"");
    }
    invalid_parameter_error("create.channels", "\"number between 3 and 4\"", "create.channels")
}

/// No input option given.
pub open spec fn no_sharp_options() -> SharpOptions {
    SharpOptions {
        auto_orient: None,
        fail_on: None,
        limit_input_pixels: None,
        unlimited: None,
        sequential_read: None,
        ignore_icc: None,
        pages: None,
        page: None,
        subifd: None,
        level: None,
        animated: None,
        raw: None,
        create: None,
        text: None,
        join: None,
    }
}

/// Why an input is refused, if it is: an empty buffer, or a channel count
/// out of range for raw pixels or a created image (1 to 4 with noise, 3 or
/// 4 without).
pub open spec fn input_error(input: Input, o: SharpOptions) -> Option<Seq<char>> {
    if input matches Input::Buffer(b) && b@.len() == 0 {
        Some(empty_buffer_text())
    } else if o.raw matches Some(r) && !(1 <= r.channels <= 4) {
        Some(err_raw_channels_text())
    } else {
        create_error(o.create)
    }
}

/// The alignment of a text alignment.
pub open spec fn text_align(a: TextAlign) -> Align {
    match a {
        TextAlign::Left => Align::Low,
        TextAlign::Centre => Align::Centre,
        TextAlign::Right => Align::High,
    }
}

/// The alignment of a horizontal alignment.
pub open spec fn h_align(a: HorizontalAlignment) -> Align {
    match a {
        HorizontalAlignment::Left => Align::Low,
        HorizontalAlignment::Centre => Align::Centre,
        HorizontalAlignment::Right => Align::High,
    }
}

/// The alignment of a vertical alignment.
pub open spec fn v_align(a: VerticalAlignment) -> Align {
    match a {
        VerticalAlignment::Top => Align::Low,
        VerticalAlignment::Centre => Align::Centre,
        VerticalAlignment::Bottom => Align::High,
    }
}

/// The view of an optional text.
pub open spec fn text_or(t: Option<String>, d: Seq<char>) -> Seq<char> {
    match t {
        Some(s) => s@,
        None => d,
    }
}

/// `d` describes `input` read with the accepted options `o`: the source,
/// then each given option; creating or rendering an image drops the
/// buffer.
pub open spec fn described(d: InputDescriptor, input: Input, o: SharpOptions) -> bool {
    &&& d.file@ == match input {
        Input::Path(f) => f@,
        _ => seq![],
    }
    &&& d.is_buffer == input is Buffer
    &&& d.buffer@ == if o.create is Some || o.text is Some {
        seq![]
    } else {
        match input {
            Input::Buffer(b) => b@,
            _ => seq![],
        }
    }
    &&& d.fail_on == or(o.fail_on, FailOn::Warning)
    &&& d.auto_orient == or(o.auto_orient, false)
    &&& d.ignore_icc == or(o.ignore_icc, false)
    &&& d.limit_input_pixels == or(o.limit_input_pixels, DEFAULT_LIMIT_INPUT_PIXELS)
    &&& d.unlimited == or(o.unlimited, false)
    &&& d.access == Access::Sequential
    &&& match o.raw {
        Some(r) => d.raw_width == r.width && d.raw_height == r.height && d.raw_channels
            == r.channels && d.raw_premultiplied == r.premultiplied,
        None => d.raw_width == 0 && d.raw_height == 0 && d.raw_channels == 0
            && !d.raw_premultiplied,
    }
    &&& d.pages == match o.pages {
        Some(p) => p,
        None => match o.animated {
            Some(true) => -1i32,
            _ => 1i32,
        },
    }
    &&& d.page == or(o.page, 0)
    &&& d.level == or(o.level, 0)
    &&& d.subifd == or(o.subifd, -1i32)
    &&& create_described(o.create, (d.create_width, d.create_height, d.create_channels, d.create_noise_type))
    &&& text_described(o.text, (d.text_value, d.text_font, d.text_fontfile, d.text_width, d.text_height, d.text_align, d.text_justify, d.text_dpi, d.text_rgba, d.text_spacing, d.text_wrap))
    &&& d.text_autofit_dpi == 0
    &&& join_described(o.join, (d.join_animated, d.join_across, d.join_shim, d.join_halign, d.join_valign))
    &&& d.svg_stylesheet@.len() == 0 && !d.svg_high_bitdepth && d.tiff_subifd == 0
    &&& d.open_slide_level == 0 && !d.jp2_oneshot
}

/// How an input is read, by option: every option given is used; without
/// one, decoding stops on warnings, the input may hold up to 268402689
/// pixels (0x3FFF x 0x3FFF), the EXIF orientation and embedded profile are
/// not acted on, pixels are read sequentially, and only the first page is
/// read, all pages when `animated` is asked for; a created or rendered
/// image reads no buffer.
pub proof fn lemma_input_defaults(d: InputDescriptor, input: Input, o: SharpOptions)
    requires
        described(d, input, o),
    ensures
        o.fail_on matches Some(f) ==> d.fail_on == f,
        o.fail_on is None ==> d.fail_on == FailOn::Warning,
        o.limit_input_pixels matches Some(l) ==> d.limit_input_pixels == l,
        o.limit_input_pixels is None ==> d.limit_input_pixels == 0x3FFF * 0x3FFF,
        d.auto_orient == (o.auto_orient == Some(true)),
        d.ignore_icc == (o.ignore_icc == Some(true)),
        d.unlimited == (o.unlimited == Some(true)),
        d.access == Access::Sequential,
        o.pages matches Some(p) ==> d.pages == p,
        o.pages is None && o.animated == Some(true) ==> d.pages == -1,
        o.pages is None && o.animated != Some(true) ==> d.pages == 1,
        o.page matches Some(p) ==> d.page == p,
        o.page is None ==> d.page == 0,
        (o.create is Some || o.text is Some) ==> d.buffer@.len() == 0,
        o.create is None && o.text is None ==> (input matches Input::Buffer(b) ==> d.buffer@
            == b@),
        input matches Input::Path(f) ==> d.file@ == f@ && !d.is_buffer,
{
}

/// An input is refused when it is an empty buffer, when raw pixels have
/// other than 1 to 4 channels, or when a created image has other than 1 to
/// 4 channels with noise or other than 3 or 4 without.
pub proof fn lemma_input_refusals(input: Input, o: SharpOptions)
    ensures
        (input matches Input::Buffer(b) && b@.len() == 0) ==> input_error(input, o) is Some,
        (o.raw matches Some(r) && !(1 <= r.channels <= 4)) ==> input_error(input, o) is Some,
        (o.create matches Some(c) && c.noise is Some && !(1 <= c.channels <= 4)) ==> input_error(
            input,
            o,
        ) is Some,
        (o.create matches Some(c) && c.noise is None && !(3 <= c.channels <= 4)) ==> input_error(
            input,
            o,
        ) is Some,
        (!(input matches Input::Buffer(b) && b@.len() == 0) && (o.raw matches Some(r) ==> 1
            <= r.channels <= 4) && (o.create matches Some(c) ==> (if c.noise is Some {
            1 <= c.channels <= 4
        } else {
            3 <= c.channels <= 4
        }))) ==> input_error(input, o) is None,
{
}

/// Describes how to read `input` with `input_options`.
#[verifier::rlimit(40)]
pub fn create_input_descriptor(input: Input, input_options: Option<SharpOptions>) -> (r: Result<
    InputDescriptor,
    String,
>)
    ensures
        match input_error(input, or(input_options, no_sharp_options())) {
            Some(m) => r matches Err(e) && e@ == m,
            None => r matches Ok(d) && described(d, input, or(input_options, no_sharp_options())),
        },
{
    let o = match input_options {
        Some(o) => o,
        None => SharpOptions {
            auto_orient: None,
            fail_on: None,
            limit_input_pixels: None,
            unlimited: None,
            sequential_read: None,
            ignore_icc: None,
            pages: None,
            page: None,
            subifd: None,
            level: None,
            animated: None,
            raw: None,
            create: None,
            text: None,
            join: None,
        },
    };
    let (file, buffer, is_buffer) = match input {
        Input::Path(file) => (file, Vec::new(), false),
        Input::Buffer(buffer) => {
            if buffer.len() == 0 {
                proof {
                    reveal_strlit("Input Buffer is empty");
                }
                return Err("Input Buffer is empty".to_string());
            }
            (String::new(), buffer, true)
        },
        Input::NoInput() => (String::new(), Vec::new(), false),
    };
    let (raw_width, raw_height, raw_channels, raw_premultiplied) = match o.raw {
        Some(raw) => {
            if !(1 <= raw.channels && raw.channels <= 4) {
                return Err(err_raw_channels());
            }
            (raw.width, raw.height, raw.channels as i32, raw.premultiplied)
        },
        None => (0, 0, 0, false),
    };
    let keep_buffer = o.create.is_none() && o.text.is_none();
    let (create_width, create_height, create_channels, create_noise_type) = create_fields(&o.create)?;
    let (text_value, text_font, text_fontfile, text_width, text_height, text_align, text_justify, text_dpi, text_rgba, text_spacing, text_wrap) = text_fields(o.text);
    let (join_animated, join_across, join_shim, join_halign, join_valign) = join_fields(o.join);
    let pages = match o.pages {
        Some(p) => p,
        None => match o.animated {
            Some(true) => -1,
            _ => 1,
        },
    };
    Ok(
        InputDescriptor {
            file,
            auto_orient: or_else(o.auto_orient, false),
            buffer: if keep_buffer {
                buffer
            } else {
                Vec::new()
            },
            fail_on: match o.fail_on {
                Some(v) => v,
                None => FailOn::Warning,
            },
            limit_input_pixels: match o.limit_input_pixels {
                Some(v) => v,
                None => DEFAULT_LIMIT_INPUT_PIXELS,
            },
            unlimited: or_else(o.unlimited, false),
            access: Access::Sequential,
            is_buffer,
            ignore_icc: or_else(o.ignore_icc, false),
            raw_channels,
            raw_width,
            raw_height,
            raw_premultiplied,
            pages,
            page: match o.page {
                Some(v) => v,
                None => 0,
            },
            level: match o.level {
                Some(v) => v,
                None => 0,
            },
            subifd: match o.subifd {
                Some(v) => v,
                None => -1,
            },
            create_channels,
            create_width,
            create_height,
            create_noise_type,
            text_value,
            text_font,
            text_fontfile,
            text_width,
            text_height,
            text_align,
            text_justify,
            text_dpi,
            text_rgba,
            text_spacing,
            text_wrap,
            text_autofit_dpi: 0,
            join_animated,
            join_across,
            join_shim,
            join_halign,
            join_valign,
            svg_stylesheet: String::new(),
            svg_high_bitdepth: false,
            tiff_subifd: 0,
            open_slide_level: 0,
            jp2_oneshot: false,
        },
    )
}

/// A flag, `d` when not given.
fn or_else(v: Option<bool>, d: bool) -> (r: bool)
    ensures
        r == or(v, d),
{
    match v {
        Some(b) => b,
        None => d,
    }
}

/// The fields of a created image: width, height, channels, noise type.
pub open spec fn create_described(c: Option<Create>, f: (i32, i32, i32, String)) -> bool {
    match c {
        Some(c) => f.0 == c.width && f.1 == c.height && f.2 == c.channels
            && f.3@ == if c.noise matches Some(n) && n.gaussian == Some(true) {
                "gaussian"@
            } else {
                seq![]
            },
        None => f.0 == 0 && f.1 == 0 && f.2 == 0 && f.3@.len() == 0,
    }
}

/// Why a created image is refused, if it is.
pub open spec fn create_error(c: Option<Create>) -> Option<Seq<char>> {
    if c matches Some(c) && c.noise is Some && !(1 <= c.channels <= 4) {
        Some(err_noise_channels_text())
    } else if c matches Some(c) && c.noise is None && !(3 <= c.channels <= 4) {
        Some(err_create_channels_text())
    } else {
        None
    }
}

fn create_fields(create: &Option<Create>) -> (r: Result<(i32, i32, i32, String), String>)
    ensures
        match create_error(*create) {
            Some(m) => r matches Err(e) && e@ == m,
            None => r matches Ok(f) && create_described(*create, f),
        },
{
    match create {
        Some(c) => {
            let mut noise_type = String::new();
            match &c.noise {
                Some(noise) => {
                    if !(1 <= c.channels && c.channels <= 4) {
                        return Err(err_noise_channels());
                    }
                    if let Some(gaussian) = noise.gaussian {
                        if gaussian {
                            noise_type = "gaussian".to_string();
                        }
                    }
                },
                None => {
                    if !(3 <= c.channels && c.channels <= 4) {
                        return Err(err_create_channels());
                    }
                },
            }
            proof {
                reveal_strlit("gaussian");
            }
            Ok((c.width, c.height, c.channels as i32, noise_type))
        },
        None => Ok((0, 0, 0, String::new())),
    }
}

/// The fields of rendered text, in the order of the descriptor.
pub open spec fn text_described(
    t: Option<CreateText>,
    f: (String, String, String, i32, i32, Align, bool, i32, bool, i32, TextWrap),
) -> bool {
    match t {
        Some(t) => f.0@ == t.text@ && f.1@ == text_or(t.font, seq![]) && f.2@ == text_or(
            t.fontfile,
            seq![],
        ) && f.3 == or(t.width, 0) && f.4 == or(t.height, 0) && f.5 == match t.align {
            Some(a) => text_align(a),
            None => Align::Low,
        } && f.6 == or(t.justify, false) && f.7 == or(t.dpi, 72) && f.8 == or(t.rgba, false)
            && f.9 == or(t.spacing, 0) && f.10 == or(t.wrap, TextWrap::Word),
        None => f.0@.len() == 0 && f.1@.len() == 0 && f.2@.len() == 0 && f.3 == 0 && f.4 == 0
            && f.5 == Align::Low && !f.6 && f.7 == 72 && !f.8 && f.9 == 0 && f.10 == TextWrap::Word,
    }
}

fn text_fields(text: Option<CreateText>) -> (r: (String, String, String, i32, i32, Align, bool, i32, bool, i32, TextWrap))
    ensures
        text_described(text, r),
{
    match text {
        Some(t) => (
            t.text,
            match t.font {
                Some(f) => f,
                None => String::new(),
            },
            match t.fontfile {
                Some(f) => f,
                None => String::new(),
            },
            match t.width {
                Some(v) => v,
                None => 0,
            },
            match t.height {
                Some(v) => v,
                None => 0,
            },
            match t.align {
                Some(TextAlign::Centre) => Align::Centre,
                Some(TextAlign::Right) => Align::High,
                _ => Align::Low,
            },
            or_else(t.justify, false),
            match t.dpi {
                Some(v) => v,
                None => 72,
            },
            or_else(t.rgba, false),
            match t.spacing {
                Some(v) => v,
                None => 0,
            },
            match t.wrap {
                Some(w) => w,
                None => TextWrap::Word,
            },
        ),
        None => (String::new(), String::new(), String::new(), 0, 0, Align::Low, false, 72, false, 0, TextWrap::Word),
    }
}

/// The fields of joined images, in the order of the descriptor.
pub open spec fn join_described(j: Option<Join>, f: (bool, i32, i32, Align, Align)) -> bool {
    match j {
        Some(j) => f.0 == or(j.animated, false) && f.1 == or(j.across, 1) && f.2 == or(j.shim, 0)
            && f.3 == match j.halign {
                Some(a) => h_align(a),
                None => Align::Low,
            } && f.4 == match j.valign {
                Some(a) => v_align(a),
                None => Align::Low,
            },
        None => !f.0 && f.1 == 1 && f.2 == 0 && f.3 == Align::Low && f.4 == Align::Low,
    }
}

fn join_fields(join: Option<Join>) -> (r: (bool, i32, i32, Align, Align))
    ensures
        join_described(join, r),
{
    match join {
        Some(j) => (
            or_else(j.animated, false),
            match j.across {
                Some(v) => v,
                None => 1,
            },
            match j.shim {
                Some(v) => v,
                None => 0,
            },
            match j.halign {
                Some(HorizontalAlignment::Centre) => Align::Centre,
                Some(HorizontalAlignment::Right) => Align::High,
                _ => Align::Low,
            },
            match j.valign {
                Some(VerticalAlignment::Centre) => Align::Centre,
                Some(VerticalAlignment::Bottom) => Align::High,
                _ => Align::Low,
            },
        ),
        None => (false, 1, 0, Align::Low, Align::Low),
    }
}

} // verus!
