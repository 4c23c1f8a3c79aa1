//! Choosing the output format: each setter checks its encoder options,
//! stores them, and makes its format the output format unless told not to.
use crate::output::{
    animation_error, gif_applied, gif_error, jp2_error, jp2_updated, jpeg_applied, jpeg_error, or,
    png_applied, png_error, same_except, format_after, webp_applied, webp_error, AnimationSettings,
    GifOptions, Jp2Options, JpegOptions, OutputSettings, Part, PngOptions, WebpOptions,
    tiff_error, tiff_applied, heif_error, heif_updated, jxl_error, jxl_applied, tile_error,
    tile_updated, err_tile_format_text, err_tile_format, TiffOptions, HeifOptions, HeifCompression,
    AvifOptions, JxlOptions, TileOptions, TileSettings,
};
use crate::text::{invalid_param, invalid_parameter_error, str_eq};
use crate::output::OutputOptions;
use vstd::prelude::*;

verus! {

/// `s` is `prior` with only part `p` possibly changed, and the output format
/// updated for a setter of `fmt`.
pub open spec fn settled(prior: OutputSettings, s: OutputSettings, p: Part, q: Part, fmt: Seq<char>, force: Option<bool>) -> bool {
    &&& same_except(prior, s, p, q)
    &&& s.format_out@ == format_after(prior.format_out@, fmt, force)
}

/// The view of optional frame delays.
pub open spec fn delays_view(d: Option<Vec<i32>>) -> Option<Seq<i32>> {
    match d {
        Some(v) => Some(v@),
        None => None,
    }
}

/// The view of an optional message.
pub open spec fn message_view(m: Option<String>) -> Option<Seq<char>> {
    match m {
        Some(v) => Some(v@),
        None => None,
    }
}

/// `after` is `before` with accepted animation options applied.
pub open spec fn animation_updated(before: AnimationSettings, after: AnimationSettings, loop_: Option<i32>, delay: Option<Seq<i32>>) -> bool {
    &&& after.loop_ == or(loop_, before.loop_)
    &&& after.delay@ == match delay {
        Some(d) => d,
        None => before.delay@,
    }
}

/// Raw output options other than the sample format, which is kept beside
/// these.
#[derive(Debug, Clone, Default)]
pub struct RawOptions {
    pub force: Option<bool>,
}

/// The outcome of choosing JPEG output on `prior`.
pub open spec fn jpeg_outcome(prior: OutputSettings, options: Option<JpegOptions>, r: Result<OutputSettings, String>) -> bool {
    match options {
        None => r matches Ok(s) && settled(prior, s, Part::Jpeg, Part::Jpeg, "jpeg"@, None)
            && s.jpeg == prior.jpeg,
        Some(o) => match jpeg_error(o) {
            Some(m) => r matches Err(e) && e@ == m,
            None => r matches Ok(s) && settled(prior, s, Part::Jpeg, Part::Jpeg, "jpeg"@, o.force)
                && s.jpeg == jpeg_applied(prior.jpeg, o),
        },
    }
}

/// The outcome of choosing PNG output on `prior`.
pub open spec fn png_outcome(prior: OutputSettings, options: Option<PngOptions>, dither_given: bool, dither_error: Option<String>, r: Result<OutputSettings, String>) -> bool {
    match options {
        None => r matches Ok(s) && settled(prior, s, Part::Png, Part::Png, "png"@, None)
            && s.png == prior.png,
        Some(o) => match png_error(o, dither_given, message_view(dither_error)) {
            Some(m) => r matches Err(e) && e@ == m,
            None => r matches Ok(s) && settled(prior, s, Part::Png, Part::Png, "png"@, o.force)
                && s.png == png_applied(prior.png, o, dither_given),
        },
    }
}

/// The outcome of choosing WEBP output on `prior`.
pub open spec fn webp_outcome(prior: OutputSettings, options: Option<WebpOptions>, r: Result<OutputSettings, String>) -> bool {
    match options {
        None => r matches Ok(s) && settled(prior, s, Part::Webp, Part::Webp, "webp"@, None)
            && s.webp == prior.webp && s.animation == prior.animation,
        Some(o) => match webp_error(o) {
            Some(m) => r matches Err(e) && e@ == m,
            None => match animation_error(o.loop_, delays_view(o.delay)) {
                Some(m) => r matches Err(e) && e@ == m,
                None => r matches Ok(s) && settled(prior, s, Part::Webp, Part::Animation, "webp"@, o.force)
                    && s.webp == webp_applied(prior.webp, o)
                    && animation_updated(prior.animation, s.animation, o.loop_, delays_view(o.delay)),
            },
        },
    }
}

/// The outcome of choosing GIF output on `prior`.
pub open spec fn gif_outcome(prior: OutputSettings, options: Option<GifOptions>, float_error: Option<String>, r: Result<OutputSettings, String>) -> bool {
    match options {
        None => r matches Ok(s) && settled(prior, s, Part::Gif, Part::Gif, "gif"@, None)
            && s.gif == prior.gif && s.animation == prior.animation,
        Some(o) => match gif_error(o, message_view(float_error)) {
            Some(m) => r matches Err(e) && e@ == m,
            None => r matches Ok(s) && settled(prior, s, Part::Gif, Part::Animation, "gif"@, o.force)
                && s.gif == gif_applied(prior.gif, o)
                && animation_updated(prior.animation, s.animation, o.loop_, delays_view(o.delay)),
        },
    }
}

/// The outcome of choosing JP2 output on `prior`.
pub open spec fn jp2_outcome(prior: OutputSettings, options: Option<Jp2Options>, r: Result<OutputSettings, String>) -> bool {
    match options {
        None => r matches Ok(s) && settled(prior, s, Part::Jp2, Part::Jp2, "jp2"@, None)
            && s.jp2 == prior.jp2,
        Some(o) => match jp2_error(o) {
            Some(m) => r matches Err(e) && e@ == m,
            None => r matches Ok(s) && settled(prior, s, Part::Jp2, Part::Jp2, "jp2"@, o.force)
                && jp2_updated(prior.jp2, s.jp2, o),
        },
    }
}

/// The outcome of choosing TIFF output on `prior`.
pub open spec fn tiff_outcome(prior: OutputSettings, options: Option<TiffOptions>, resolution_error: Option<String>, r: Result<OutputSettings, String>) -> bool {
    match options {
        None => r matches Ok(s) && settled(prior, s, Part::Tiff, Part::Tiff, "tiff"@, None)
            && s.tiff == prior.tiff,
        Some(o) => match tiff_error(o, message_view(resolution_error)) {
            Some(m) => r matches Err(e) && e@ == m,
            None => r matches Ok(s) && settled(prior, s, Part::Tiff, Part::Tiff, "tiff"@, o.force)
                && s.tiff == tiff_applied(prior.tiff, o),
        },
    }
}

/// The outcome of choosing HEIF output on `prior`.
pub open spec fn heif_outcome(prior: OutputSettings, options: Option<HeifOptions>, r: Result<OutputSettings, String>) -> bool {
    match options {
        None => r matches Ok(s) && settled(prior, s, Part::Heif, Part::Heif, "heif"@, None)
            && s.heif == prior.heif,
        Some(o) => match heif_error(o) {
            Some(m) => r matches Err(e) && e@ == m,
            None => r matches Ok(s) && settled(prior, s, Part::Heif, Part::Heif, "heif"@, o.force)
                && heif_updated(prior.heif, s.heif, o),
        },
    }
}

/// The outcome of choosing AVIF output on `prior`.
pub open spec fn avif_outcome(prior: OutputSettings, options: Option<AvifOptions>, r: Result<OutputSettings, String>) -> bool {
    match options {
        None => r matches Ok(s) && settled(prior, s, Part::Heif, Part::Heif, "heif"@, None)
            && s.heif == prior.heif,
        Some(o) => match heif_error(avif_as_heif(o)) {
            Some(m) => r matches Err(e) && e@ == m,
            None => r matches Ok(s) && settled(prior, s, Part::Heif, Part::Heif, "heif"@, o.force)
                && heif_updated(prior.heif, s.heif, avif_as_heif(o)),
        },
    }
}

/// The outcome of choosing JXL output on `prior`.
pub open spec fn jxl_outcome(prior: OutputSettings, options: Option<JxlOptions>, distance_error: Option<String>, r: Result<OutputSettings, String>) -> bool {
    match options {
        None => r matches Ok(s) && settled(prior, s, Part::Jxl, Part::Jxl, "jxl"@, None)
            && s.jxl == prior.jxl && s.animation == prior.animation,
        Some(o) => match jxl_error(o, message_view(distance_error)) {
            Some(m) => r matches Err(e) && e@ == m,
            None => r matches Ok(s) && settled(prior, s, Part::Jxl, Part::Animation, "jxl"@, o.force)
                && s.jxl == jxl_applied(prior.jxl, o)
                && animation_updated(prior.animation, s.animation, o.loop_, delays_view(o.delay)),
        },
    }
}

/// The outcome of choosing tiled output on `prior`.
pub open spec fn tile_outcome(prior: OutputSettings, options: Option<TileOptions>, r: Result<OutputSettings, String>) -> bool {
    match options {
        None => tile_format_step(prior, r, no_tile_options()),
        Some(o) => match tile_error(prior.tile, o) {
            Some(m) => r matches Err(e) && e@ == m,
            None => tile_format_step(prior, r, o),
        },
    }
}

/// Choosing JPEG output with accepted options makes JPEG the output format
/// unless `force` is `false` (then the format stays as it was), leaves the
/// settings of every other encoder, the animation, the metadata and the
/// tiles as they were, and puts each option given in force: a progressive
/// scan asked for is written progressive, one refused is written baseline
/// unless `mozjpeg` or scan optimisation asks for progressive.
pub proof fn lemma_jpeg_output_chosen(prior: OutputSettings, o: JpegOptions, r: Result<OutputSettings, String>)
    requires
        jpeg_outcome(prior, Some(o), r),
        jpeg_error(o) is None,
    ensures
        r matches Ok(s) && {
            &&& s.format_out@ == if o.force == Some(false) { prior.format_out@ } else { "jpeg"@ }
            &&& s.png == prior.png && s.jp2 == prior.jp2 && s.webp == prior.webp && s.gif == prior.gif
            &&& s.tiff == prior.tiff && s.heif == prior.heif && s.jxl == prior.jxl
            &&& s.animation == prior.animation && s.metadata == prior.metadata && s.tile == prior.tile
            &&& o.progressive == Some(true) ==> s.jpeg.progressive
            &&& (o.progressive == Some(false) && o.mozjpeg != Some(true) && o.optimise_scans != Some(
                true)) ==> !s.jpeg.progressive
            &&& o.quality matches Some(q) ==> s.jpeg.quality == q
        },
{
    crate::output::lemma_jpeg_options_take_effect(prior.jpeg, o);
}

/// A setter makes its format the output format unless told not to by a
/// `force` of `false`, which keeps the format chosen before.
pub proof fn lemma_format_forced(current: Seq<char>, fmt: Seq<char>, force: Option<bool>)
    ensures
        force != Some(false) ==> format_after(current, fmt, force) == fmt,
        force == Some(false) ==> format_after(current, fmt, force) == current,
{
}

impl OutputSettings {
    /// Use these JPEG options for output.
    pub fn jpeg(self, options: Option<JpegOptions>) -> (r: Result<OutputSettings, String>)
        ensures
            jpeg_outcome(self, options, r),
    {
        let mut s = self;
        let mut force = None;
        if let Some(o) = options {
            force = o.force;
            if let Err(e) = s.jpeg.apply(o) {
                return Err(e);
            }
        }
        s.update_format_out("jpeg", force);
        Ok(s)
    }

    /// Use these PNG options for output; `dither_given` and `dither_error`
    /// describe the dither level given beside them.
    pub fn png(self, options: Option<PngOptions>, dither_given: bool, dither_error: Option<String>) -> (r: Result<OutputSettings, String>)
        ensures
            png_outcome(self, options, dither_given, dither_error, r),
    {
        let mut s = self;
        let mut force = None;
        if let Some(o) = options {
            force = o.force;
            if let Err(e) = s.png.apply(o, dither_given, dither_error) {
                return Err(e);
            }
        }
        s.update_format_out("png", force);
        Ok(s)
    }

    /// Use these WebP options for output.
    pub fn webp(self, options: Option<WebpOptions>) -> (r: Result<OutputSettings, String>)
        ensures
            webp_outcome(self, options, r),
    {
        let mut s = self;
        let mut force = None;
        if let Some(o) = options {
            force = o.force;
            if let Err(e) = s.webp.apply(&o) {
                return Err(e);
            }
            if let Err(e) = s.animation.try_set_animation_options(o.loop_, o.delay) {
                return Err(e);
            }
        }
        s.update_format_out("webp", force);
        Ok(s)
    }

    /// Use these GIF options for output; `float_error` is the refusal, if
    /// any, of the dither level and error thresholds given beside them.
    pub fn gif(self, options: Option<GifOptions>, float_error: Option<String>) -> (r: Result<OutputSettings, String>)
        ensures
            gif_outcome(self, options, float_error, r),
    {
        let mut s = self;
        let mut force = None;
        if let Some(o) = options {
            force = o.force;
            if let Err(e) = s.gif.apply(&o) {
                return Err(e);
            }
            if let Some(e) = float_error {
                return Err(e);
            }
            if let Err(e) = s.animation.try_set_animation_options(o.loop_, o.delay) {
                return Err(e);
            }
        }
        s.update_format_out("gif", force);
        Ok(s)
    }

    /// Use these JPEG 2000 options for output.
    pub fn jp2(self, options: Option<Jp2Options>) -> (r: Result<OutputSettings, String>)
        ensures
            jp2_outcome(self, options, r),
    {
        let mut s = self;
        let mut force = None;
        if let Some(o) = options {
            force = o.force;
            if let Err(e) = s.jp2.apply(o) {
                return Err(e);
            }
        }
        s.update_format_out("jp2", force);
        Ok(s)
    }
}

/// The HEIF options that AVIF options stand for: AV1 compression.
pub open spec fn avif_as_heif(o: AvifOptions) -> HeifOptions {
    HeifOptions {
        force: o.force,
        quality: o.quality,
        compression: Some(HeifCompression::Av1),
        lossless: o.lossless,
        effort: o.effort,
        chroma_subsampling: o.chroma_subsampling,
        bitdepth: o.bitdepth,
    }
}

/// Tile output takes its tile format from these output formats.
pub open spec fn tile_format_ok(f: Seq<char>) -> bool {
    f == "jpeg"@ || f == "png"@ || f == "webp"@
}

/// No tile option given.
pub open spec fn no_tile_options() -> TileOptions {
    TileOptions {
        force: None,
        size: None,
        overlap: None,
        angle: None,
        skip_blanks: None,
        layout: None,
        centre: None,
        id: None,
        basename: None,
    }
}

/// Tile output after its options were accepted: refused unless the output
/// format is JPEG, PNG, WebP or still follows the input; those three become
/// the tile format.
pub open spec fn tile_format_step(prior: OutputSettings, r: Result<OutputSettings, String>, o: TileOptions) -> bool {
    if !tile_format_ok(prior.format_out@) && prior.format_out@ != "input"@ {
        r matches Err(e) && e@ == err_tile_format_text()
    } else {
        r matches Ok(s) && settled(prior, s, Part::Tile, Part::Tile, "dz"@, o.force)
            && tile_updated(prior.tile, s.tile, o)
            && s.tile.format@ == if tile_format_ok(prior.format_out@) {
                prior.format_out@
            } else {
                prior.tile.format@
            }
    }
}

impl OutputSettings {
    /// Use these TIFF options for output; `resolution_error` is the
    /// refusal, if any, of the resolutions given beside them.
    pub fn tiff(self, options: Option<TiffOptions>, resolution_error: Option<String>) -> (r: Result<OutputSettings, String>)
        ensures
            tiff_outcome(self, options, resolution_error, r),
    {
        let mut s = self;
        let mut force = None;
        if let Some(o) = options {
            force = o.force;
            if let Err(e) = s.tiff.apply(&o, resolution_error) {
                return Err(e);
            }
        }
        s.update_format_out("tiff", force);
        Ok(s)
    }

    /// Use these HEIF options for output.
    pub fn heif(self, options: Option<HeifOptions>) -> (r: Result<OutputSettings, String>)
        ensures
            heif_outcome(self, options, r),
    {
        let mut s = self;
        let mut force = None;
        if let Some(o) = options {
            force = o.force;
            if let Err(e) = s.heif.apply(&o) {
                return Err(e);
            }
        }
        s.update_format_out("heif", force);
        Ok(s)
    }

    /// Use these AVIF options for output: HEIF output with AV1 compression.
    pub fn avif(self, options: Option<AvifOptions>) -> (r: Result<OutputSettings, String>)
        ensures
            avif_outcome(self, options, r),
    {
        let heif_options = match options {
            Some(o) => Some(
                HeifOptions {
                    force: o.force,
                    quality: o.quality,
                    compression: Some(HeifCompression::Av1),
                    lossless: o.lossless,
                    effort: o.effort,
                    chroma_subsampling: o.chroma_subsampling,
                    bitdepth: o.bitdepth,
                },
            ),
            None => None,
        };
        self.heif(heif_options)
    }

    /// Use these JPEG-XL options for output; `distance_error` is the
    /// refusal, if any, of the distance given beside them.
    pub fn jxl(self, options: Option<JxlOptions>, distance_error: Option<String>) -> (r: Result<OutputSettings, String>)
        ensures
            jxl_outcome(self, options, distance_error, r),
    {
        let mut s = self;
        let mut force = None;
        if let Some(o) = options {
            force = o.force;
            if let Err(e) = s.jxl.apply(&o, distance_error) {
                return Err(e);
            }
            if let Err(e) = s.animation.try_set_animation_options(o.loop_, o.delay) {
                return Err(e);
            }
        }
        s.update_format_out("jxl", force);
        Ok(s)
    }

    /// Make the output raw, uncompressed pixel data.
    pub fn raw(self, options: Option<RawOptions>) -> (r: OutputSettings)
        ensures
            settled(self, r, Part::Tile, Part::Tile, "raw"@, match options { Some(o) => o.force, None => None }),
            r.tile == self.tile,
    {
        let mut s = self;
        let force = match options {
            Some(o) => o.force,
            None => None,
        };
        s.update_format_out("raw", force);
        s
    }

    /// Use tile-based deep zoom output, with these tile options; tiles take
    /// the output format chosen so far.
    pub fn tile(self, options: Option<TileOptions>) -> (r: Result<OutputSettings, String>)
        ensures
            tile_outcome(self, options, r),
    {
        let mut s = self;
        let mut force = None;
        if let Some(o) = options {
            force = o.force;
            if let Err(e) = s.tile.apply(o) {
                return Err(e);
            }
        }
        let f = s.format_out.as_str();
        if str_eq(f, "jpeg") || str_eq(f, "png") || str_eq(f, "webp") {
            s.tile.format = s.format_out.clone();
        } else if !str_eq(f, "input") {
            return Err(err_tile_format());
        }
        s.update_format_out("dz", force);
        Ok(s)
    }
}

/// Output formats by name.
#[derive(Debug, Clone, Copy, PartialEq, Eq, Structural)]
pub enum FormatEnum {
    Avif,
    Dz,
    Exr,
    Fits,
    Gif,
    Heif,
    Input,
    Jpeg,
    Jpg,
    Jp2,
    Jxl,
    Magick,
    Openslide,
    Pdf,
    Png,
    Ppm,
    Rad,
    Raw,
    Svg,
    Tiff,
    Tif,
    V,
    Webp,
}

/// The name of an output format.
pub open spec fn format_name(f: FormatEnum) -> Seq<char> {
    match f {
        FormatEnum::Avif => "avif"@,
        FormatEnum::Dz => "dz"@,
        FormatEnum::Exr => "exr"@,
        FormatEnum::Fits => "fits"@,
        FormatEnum::Gif => "gif"@,
        FormatEnum::Heif => "heif"@,
        FormatEnum::Input => "input"@,
        FormatEnum::Jpeg => "jpeg"@,
        FormatEnum::Jpg => "jpg"@,
        FormatEnum::Jp2 => "jp2"@,
        FormatEnum::Jxl => "jxl"@,
        FormatEnum::Magick => "magick"@,
        FormatEnum::Openslide => "openslide"@,
        FormatEnum::Pdf => "pdf"@,
        FormatEnum::Png => "png"@,
        FormatEnum::Ppm => "ppm"@,
        FormatEnum::Rad => "rad"@,
        FormatEnum::Raw => "raw"@,
        FormatEnum::Svg => "svg"@,
        FormatEnum::Tiff => "tiff"@,
        FormatEnum::Tif => "tif"@,
        FormatEnum::V => "v"@,
        FormatEnum::Webp => "webp"@,
    }
}

impl FormatEnum {
    /// The name of this output format.
    pub fn to_text(&self) -> (r: String)
        ensures
            r@ == format_name(*self),
    {
        match self {
            FormatEnum::Avif => "avif".to_string(),
            FormatEnum::Dz => "dz".to_string(),
            FormatEnum::Exr => "exr".to_string(),
            FormatEnum::Fits => "fits".to_string(),
            FormatEnum::Gif => "gif".to_string(),
            FormatEnum::Heif => "heif".to_string(),
            FormatEnum::Input => "input".to_string(),
            FormatEnum::Jpeg => "jpeg".to_string(),
            FormatEnum::Jpg => "jpg".to_string(),
            FormatEnum::Jp2 => "jp2".to_string(),
            FormatEnum::Jxl => "jxl".to_string(),
            FormatEnum::Magick => "magick".to_string(),
            FormatEnum::Openslide => "openslide".to_string(),
            FormatEnum::Pdf => "pdf".to_string(),
            FormatEnum::Png => "png".to_string(),
            FormatEnum::Ppm => "ppm".to_string(),
            FormatEnum::Rad => "rad".to_string(),
            FormatEnum::Raw => "raw".to_string(),
            FormatEnum::Svg => "svg".to_string(),
            FormatEnum::Tiff => "tiff".to_string(),
            FormatEnum::Tif => "tif".to_string(),
            FormatEnum::V => "v".to_string(),
            FormatEnum::Webp => "webp".to_string(),
        }
    }
}

/// The options of each output format, with the refusals of the values with
/// fractions that are checked beside them.
#[derive(Debug, Default)]
pub struct FormatOptions {
    pub output_options: Option<OutputOptions>,
    pub jpeg_options: Option<JpegOptions>,
    pub png_options: Option<PngOptions>,
    pub webp_options: Option<WebpOptions>,
    pub avif_options: Option<AvifOptions>,
    pub heif_options: Option<HeifOptions>,
    pub jxl_options: Option<JxlOptions>,
    pub gif_options: Option<GifOptions>,
    pub jp2_options: Option<Jp2Options>,
    pub tiff_options: Option<TiffOptions>,
    pub tile_options: Option<TileOptions>,
    pub raw_options: Option<RawOptions>,
    /// A PNG dither level was given.
    pub png_dither_given: bool,
    /// The refusal of the PNG dither level, if any.
    pub png_dither_error: Option<String>,
    /// The refusal of the GIF dither level or error thresholds, if any.
    pub gif_float_error: Option<String>,
    /// The refusal of the TIFF resolutions, if any.
    pub tiff_resolution_error: Option<String>,
    /// The refusal of the JPEG-XL distance, if any.
    pub jxl_distance_error: Option<String>,
}

/// No option of any format given.
pub open spec fn no_format_options() -> FormatOptions {
    FormatOptions {
        output_options: None,
        jpeg_options: None,
        png_options: None,
        webp_options: None,
        avif_options: None,
        heif_options: None,
        jxl_options: None,
        gif_options: None,
        jp2_options: None,
        tiff_options: None,
        tile_options: None,
        raw_options: None,
        png_dither_given: false,
        png_dither_error: None,
        gif_float_error: None,
        tiff_resolution_error: None,
        jxl_distance_error: None,
    }
}

/// `format` refused: "Invalid format".
#[verifier::opaque]
pub open spec fn err_invalid_format_text() -> Seq<char> {
    invalid_param("format"@, "\"Invalid format\""@, "format"@)
}

fn err_invalid_format() -> (r: String)
    ensures
        r@ == err_invalid_format_text(),
{
    proof {
        reveal(err_invalid_format_text);
        reveal_strlit("format");
        reveal_strlit("\"Invalid format\"");
    }
    invalid_parameter_error("format", "\"Invalid format\"", "format")
}

/// The outcome of forcing output to `format` with options `o`: the setter
/// of that format, with its options; formats without one are refused.
pub open spec fn format_outcome(prior: OutputSettings, format: FormatEnum, o: FormatOptions, r: Result<OutputSettings, String>) -> bool {
    match format {
        FormatEnum::Avif => avif_outcome(prior, o.avif_options, r),
        FormatEnum::Dz => tile_outcome(prior, o.tile_options, r),
        FormatEnum::Gif => gif_outcome(prior, o.gif_options, o.gif_float_error, r),
        FormatEnum::Heif => heif_outcome(prior, o.heif_options, r),
        FormatEnum::Jp2 => jp2_outcome(prior, o.jp2_options, r),
        FormatEnum::Jpeg | FormatEnum::Jpg => jpeg_outcome(prior, o.jpeg_options, r),
        FormatEnum::Jxl => jxl_outcome(prior, o.jxl_options, o.jxl_distance_error, r),
        FormatEnum::Png => png_outcome(prior, o.png_options, o.png_dither_given, o.png_dither_error, r),
        FormatEnum::Raw => r matches Ok(s) && settled(prior, s, Part::Tile, Part::Tile, "raw"@,
            match o.raw_options { Some(ro) => ro.force, None => None }) && s.tile == prior.tile,
        FormatEnum::Tif | FormatEnum::Tiff => tiff_outcome(prior, o.tiff_options, o.tiff_resolution_error, r),
        FormatEnum::Webp => webp_outcome(prior, o.webp_options, r),
        _ => r matches Err(e) && e@ == err_invalid_format_text(),
    }
}

impl OutputSettings {
    /// Force output to `format`, with its options.
    pub fn to_format(self, format: FormatEnum, options: Option<FormatOptions>) -> (r: Result<OutputSettings, String>)
        ensures
            format_outcome(self, format, match options { Some(o) => o, None => no_format_options() }, r),
    {
        let o = match options {
            Some(o) => o,
            None => FormatOptions {
                output_options: None,
                jpeg_options: None,
                png_options: None,
                webp_options: None,
                avif_options: None,
                heif_options: None,
                jxl_options: None,
                gif_options: None,
                jp2_options: None,
                tiff_options: None,
                tile_options: None,
                raw_options: None,
                png_dither_given: false,
                png_dither_error: None,
                gif_float_error: None,
                tiff_resolution_error: None,
                jxl_distance_error: None,
            },
        };
        match format {
            FormatEnum::Avif => self.avif(o.avif_options),
            FormatEnum::Dz => self.tile(o.tile_options),
            FormatEnum::Gif => self.gif(o.gif_options, o.gif_float_error),
            FormatEnum::Heif => self.heif(o.heif_options),
            FormatEnum::Jp2 => self.jp2(o.jp2_options),
            FormatEnum::Jpeg | FormatEnum::Jpg => self.jpeg(o.jpeg_options),
            FormatEnum::Jxl => self.jxl(o.jxl_options, o.jxl_distance_error),
            FormatEnum::Png => self.png(o.png_options, o.png_dither_given, o.png_dither_error),
            FormatEnum::Raw => Ok(self.raw(o.raw_options)),
            FormatEnum::Tif | FormatEnum::Tiff => self.tiff(o.tiff_options, o.tiff_resolution_error),
            FormatEnum::Webp => self.webp(o.webp_options),
            _ => Err(err_invalid_format()),
        }
    }
}

} // verus!
