//! Output-format settings: the integer, flag and text options of each
//! encoder, their defaults, the rules each option setter enforces, and the
//! argument suffix handed to the tile writer.
use crate::text::{int_text, int_to_string, invalid_param, invalid_parameter_error, push_str, str_eq};
use vstd::prelude::*;

verus! {

broadcast use vstd::string::group_string_axioms;

// ---------------------------------------------------------------------------
// Option types
// ---------------------------------------------------------------------------

/// Chroma subsampling of lossy encoders.
#[derive(Debug, Clone, Copy, PartialEq, Eq, Structural)]
pub enum ChromaSubsampling {
    /// `4:4:4`: no subsampling.
    Off,
    /// `4:2:0`.
    Two,
}

/// The text libvips takes for a chroma subsampling.
pub open spec fn chroma_text(c: ChromaSubsampling) -> Seq<char> {
    match c {
        ChromaSubsampling::Off => "4:4:4"@,
        ChromaSubsampling::Two => "4:2:0"@,
    }
}

impl ChromaSubsampling {
    /// The text libvips takes for this subsampling.
    pub fn to_text(&self) -> (r: String)
        ensures
            r@ == chroma_text(*self),
    {
        match self {
            ChromaSubsampling::Off => "4:4:4".to_string(),
            ChromaSubsampling::Two => "4:2:0".to_string(),
        }
    }
}

/// Bit depth of HEIF/AVIF output.
#[derive(Debug, Clone, Copy, PartialEq, Eq, Structural)]
pub enum BitDepth {
    Eight,
    Ten,
    Twelve,
}

/// Bits per sample of a [`BitDepth`].
pub open spec fn bit_depth_bits(b: BitDepth) -> i32 {
    match b {
        BitDepth::Eight => 8,
        BitDepth::Ten => 10,
        BitDepth::Twelve => 12,
    }
}

impl BitDepth {
    /// Bits per sample.
    pub fn bits(&self) -> (r: i32)
        ensures
            r == bit_depth_bits(*self),
    {
        match self {
            BitDepth::Eight => 8,
            BitDepth::Ten => 10,
            BitDepth::Twelve => 12,
        }
    }
}

/// Reduced bit depth of TIFF output.
#[derive(Debug, Clone, Copy, PartialEq, Eq, Structural)]
pub enum TiffBitDepth {
    One,
    Two,
    Four,
    Eight,
}

/// Bits per sample of a [`TiffBitDepth`].
pub open spec fn tiff_bits(b: TiffBitDepth) -> i32 {
    match b {
        TiffBitDepth::One => 1,
        TiffBitDepth::Two => 2,
        TiffBitDepth::Four => 4,
        TiffBitDepth::Eight => 8,
    }
}

impl TiffBitDepth {
    /// Bits per sample.
    pub fn bits(&self) -> (r: i32)
        ensures
            r == tiff_bits(*self),
    {
        match self {
            TiffBitDepth::One => 1,
            TiffBitDepth::Two => 2,
            TiffBitDepth::Four => 4,
            TiffBitDepth::Eight => 8,
        }
    }
}

/// HEIF compression formats.
#[derive(Debug, Clone, Copy, PartialEq, Eq, Structural)]
pub enum HeifCompression {
    Av1,
    Hevc,
}

/// The name of a HEIF compression format.
pub open spec fn heif_compression_text(c: HeifCompression) -> Seq<char> {
    match c {
        HeifCompression::Av1 => "av1"@,
        HeifCompression::Hevc => "hevc"@,
    }
}

impl HeifCompression {
    /// The name of this compression format.
    pub fn to_text(&self) -> (r: String)
        ensures
            r@ == heif_compression_text(*self),
    {
        match self {
            HeifCompression::Av1 => "av1".to_string(),
            HeifCompression::Hevc => "hevc".to_string(),
        }
    }
}

/// WebP encoder presets.
#[derive(Debug, Clone, Copy, PartialEq, Eq, Structural)]
pub enum WebpPreset {
    Default,
    Picture,
    Photo,
    Drawing,
    Icon,
    Text,
}

/// The libvips nickname of a WebP preset.
pub open spec fn webp_preset_text(p: WebpPreset) -> Seq<char> {
    match p {
        WebpPreset::Default => "default"@,
        WebpPreset::Picture => "picture"@,
        WebpPreset::Photo => "photo"@,
        WebpPreset::Drawing => "drawing"@,
        WebpPreset::Icon => "icon"@,
        WebpPreset::Text => "text"@,
    }
}

/// The libvips nickname of a WebP preset.
pub fn foreign_webp_preset_string(preset: WebpPreset) -> (r: String)
    ensures
        r@ == webp_preset_text(preset),
{
    match preset {
        WebpPreset::Default => "default".to_string(),
        WebpPreset::Picture => "picture".to_string(),
        WebpPreset::Photo => "photo".to_string(),
        WebpPreset::Drawing => "drawing".to_string(),
        WebpPreset::Icon => "icon".to_string(),
        WebpPreset::Text => "text".to_string(),
    }
}

/// Deep-zoom directory layouts.
#[derive(Debug, Clone, Copy, PartialEq, Eq, Structural)]
pub enum DzLayout {
    Dz,
    Zoomify,
    Google,
    Iiif,
    Iiif3,
}

#[derive(Debug, Clone, Default)]
pub struct OutputOptions {
    /// Force format output, otherwise attempt to use input format (default true).
    pub force: Option<bool>,
}

#[derive(Debug, Clone, Default)]
pub struct AnimationOptions {
    /// Number of animation iterations, 0 to 65535, 0 for infinite.
    pub loop_: Option<u32>,
    /// Delay between animation frames in milliseconds, 0 to 65535.
    pub delay: Option<u32>,
}

#[derive(Debug, Clone, Default)]
pub struct JpegOptions {
    pub force: Option<bool>,
    /// Quality, integer 1-100 (default 80).
    pub quality: Option<i32>,
    /// Use progressive (interlace) scan (default false).
    pub progressive: Option<bool>,
    /// `4:4:4` prevents chroma subsampling (default `4:2:0`).
    pub chroma_subsampling: Option<String>,
    pub trellis_quantisation: Option<bool>,
    pub overshoot_deringing: Option<bool>,
    /// Optimise progressive scans, forces progressive (default false).
    pub optimise_scans: Option<bool>,
    pub optimise_coding: Option<bool>,
    /// Quantization table, integer 0-8 (default 0).
    pub quantisation_table: Option<i32>,
    /// Use mozjpeg defaults (default false).
    pub mozjpeg: Option<bool>,
}

#[derive(Debug, Clone, Default)]
pub struct Jp2Options {
    pub force: Option<bool>,
    /// Quality, integer 1-100 (default 80).
    pub quality: Option<i32>,
    pub lossless: Option<bool>,
    /// Horizontal tile size, 1-32768 (default 512).
    pub tile_width: Option<i32>,
    /// Vertical tile size, 1-32768 (default 512).
    pub tile_height: Option<i32>,
    pub chroma_subsampling: Option<ChromaSubsampling>,
}

#[derive(Debug, Clone, Default)]
pub struct AvifOptions {
    pub force: Option<bool>,
    /// Quality, integer 1-100 (default 50).
    pub quality: Option<i32>,
    pub lossless: Option<bool>,
    /// CPU effort, 0 (fastest) to 9 (slowest) (default 4).
    pub effort: Option<i32>,
    pub chroma_subsampling: Option<ChromaSubsampling>,
    pub bitdepth: Option<BitDepth>,
}

#[derive(Debug, Clone, Default)]
pub struct HeifOptions {
    pub force: Option<bool>,
    /// Quality, integer 1-100 (default 50).
    pub quality: Option<i32>,
    /// Compression format (default av1).
    pub compression: Option<HeifCompression>,
    pub lossless: Option<bool>,
    /// CPU effort, 0 (fastest) to 9 (slowest) (default 4).
    pub effort: Option<i32>,
    pub chroma_subsampling: Option<ChromaSubsampling>,
    pub bitdepth: Option<BitDepth>,
}

#[derive(Debug, Clone, Default)]
pub struct WebpOptions {
    pub force: Option<bool>,
    /// Number of animation iterations, 0 to 65535.
    pub loop_: Option<i32>,
    /// Delays between animation frames, each 0 to 65535.
    pub delay: Option<Vec<i32>>,
    /// Quality, integer 1-100 (default 80).
    pub quality: Option<i32>,
    /// Quality of alpha layer, 0-100 (default 100).
    pub alpha_quality: Option<i32>,
    pub lossless: Option<bool>,
    pub near_lossless: Option<bool>,
    pub smart_subsample: Option<bool>,
    pub smart_deblock: Option<bool>,
    /// CPU effort, 0-6 (default 4).
    pub effort: Option<i32>,
    pub min_size: Option<bool>,
    pub mixed: Option<bool>,
    pub preset: Option<WebpPreset>,
}

/// GIF options with integer values; dithering and error thresholds are
/// chosen beside these.
#[derive(Debug, Clone, Default)]
pub struct GifOptions {
    pub force: Option<bool>,
    pub loop_: Option<i32>,
    pub delay: Option<Vec<i32>>,
    /// Re-use existing palette, otherwise generate new.
    pub reuse: Option<bool>,
    pub progressive: Option<bool>,
    /// Maximum number of palette entries, 2-256.
    pub colours: Option<i32>,
    /// CPU effort, 1-10 (default 7).
    pub effort: Option<i32>,
}

/// TIFF options with integer values; resolution and codec choices are set
/// beside these.
#[derive(Debug, Clone, Default)]
pub struct TiffOptions {
    pub force: Option<bool>,
    /// Quality, integer 1-100 (default 80).
    pub quality: Option<i32>,
    pub pyramid: Option<bool>,
    pub tile: Option<bool>,
    /// Horizontal tile size, greater than zero (default 256).
    pub tile_width: Option<i32>,
    /// Vertical tile size, greater than zero (default 256).
    pub tile_height: Option<i32>,
    pub bitdepth: Option<TiffBitDepth>,
    pub miniswhite: Option<bool>,
}

/// PNG options with integer values; the dither level is set beside these.
#[derive(Debug, Clone, Default)]
pub struct PngOptions {
    pub force: Option<bool>,
    pub progressive: Option<bool>,
    /// zlib compression level, 0-9 (default 6).
    pub compression_level: Option<i32>,
    pub adaptive_filtering: Option<bool>,
    /// Quality of the quantised palette, 0-100 (default 100).
    pub quality: Option<i32>,
    /// CPU effort, 1-10 (default 7).
    pub effort: Option<i32>,
    pub palette: Option<bool>,
    /// Maximum number of palette entries, 2-256.
    pub colours: Option<i32>,
}

/// JPEG-XL options with integer values; the distance is set beside these.
#[derive(Debug, Clone, Default)]
pub struct JxlOptions {
    pub force: Option<bool>,
    /// Quality, integer 1-100, converted to a distance; takes precedence
    /// over a distance.
    pub quality: Option<i32>,
    pub loop_: Option<i32>,
    pub delay: Option<Vec<i32>>,
    /// Target decode speed tier, 0-4 (default 0).
    pub decoding_tier: Option<i32>,
    pub lossless: Option<bool>,
    /// CPU effort, 1-9 (default 7).
    pub effort: Option<i32>,
}

/// Deep-zoom tile options with integer and text values; background,
/// container and depth are set beside these.
#[derive(Debug, Clone, Default)]
pub struct TileOptions {
    pub force: Option<bool>,
    /// Tile size in pixels, 1-8192 (default 256).
    pub size: Option<i32>,
    /// Tile overlap in pixels, 0-8192 and at most the size (default 0).
    pub overlap: Option<i32>,
    /// Tile rotation, a multiple of 90 (default 0).
    pub angle: Option<i32>,
    /// Threshold to skip blank tiles, -1 to 65535.
    pub skip_blanks: Option<i32>,
    pub layout: Option<DzLayout>,
    pub centre: Option<bool>,
    pub id: Option<String>,
    pub basename: Option<String>,
}

// ---------------------------------------------------------------------------
// Settings
// ---------------------------------------------------------------------------

#[derive(Debug, Clone)]
pub struct JpegSettings {
    pub quality: i32,
    pub progressive: bool,
    pub chroma_subsampling: String,
    pub trellis_quantisation: bool,
    pub quantisation_table: i32,
    pub overshoot_deringing: bool,
    pub optimise_scans: bool,
    pub optimise_coding: bool,
}

#[derive(Debug, Clone)]
pub struct PngSettings {
    pub progressive: bool,
    pub compression_level: i32,
    pub adaptive_filtering: bool,
    pub palette: bool,
    pub quality: i32,
    pub effort: i32,
    pub bitdepth: i32,
}

#[derive(Debug, Clone)]
pub struct Jp2Settings {
    pub quality: i32,
    pub lossless: bool,
    pub tile_height: i32,
    pub tile_width: i32,
    pub chroma_subsampling: String,
}

#[derive(Debug, Clone)]
pub struct WebpSettings {
    pub quality: i32,
    pub alpha_quality: i32,
    pub near_lossless: bool,
    pub lossless: bool,
    pub smart_subsample: bool,
    pub smart_deblock: bool,
    pub preset: WebpPreset,
    pub effort: i32,
    pub min_size: bool,
    pub mixed: bool,
}

#[derive(Debug, Clone)]
pub struct GifSettings {
    pub bitdepth: i32,
    pub effort: i32,
    pub reuse: bool,
    pub progressive: bool,
}

#[derive(Debug, Clone)]
pub struct TiffSettings {
    pub quality: i32,
    pub pyramid: bool,
    pub bitdepth: i32,
    pub miniswhite: bool,
    pub tile: bool,
    pub tile_height: i32,
    pub tile_width: i32,
}

#[derive(Debug, Clone)]
pub struct HeifSettings {
    pub compression: HeifCompression,
    pub quality: i32,
    pub effort: i32,
    pub chroma_subsampling: String,
    pub lossless: bool,
    pub bitdepth: i32,
}

#[derive(Debug, Clone)]
pub struct JxlSettings {
    pub decoding_tier: i32,
    pub effort: i32,
    pub lossless: bool,
}

#[derive(Debug, Clone)]
pub struct AnimationSettings {
    /// Number of iterations; -1 keeps the input's.
    pub loop_: i32,
    pub delay: Vec<i32>,
}

#[derive(Debug, Clone)]
pub struct MetadataSettings {
    /// Bit set of kept metadata: 1 EXIF, 2 XMP, 4 IPTC, 8 ICC, 16 other.
    pub keep: i32,
    /// EXIF orientation to write; -1 for none.
    pub orientation: i32,
    pub icc_profile: String,
    /// EXIF fields to write, by key; a later entry replaces an earlier one
    /// with the same key.
    pub exif: Vec<(String, String)>,
    /// Merge the EXIF fields into the input's, rather than replace them.
    pub exif_merge: bool,
}

#[derive(Debug, Clone)]
pub struct TileSettings {
    pub size: i32,
    pub overlap: i32,
    pub layout: DzLayout,
    pub format: String,
    pub angle: i32,
    pub skip_blanks: i32,
    pub centre: bool,
    pub id: String,
    pub basename: String,
}

/// The output settings of a pipeline that take integer, flag or text values.
#[derive(Debug, Clone)]
pub struct OutputSettings {
    /// The chosen output format, `input` to follow the input's.
    pub format_out: String,
    pub jpeg: JpegSettings,
    pub png: PngSettings,
    pub jp2: Jp2Settings,
    pub webp: WebpSettings,
    pub gif: GifSettings,
    pub tiff: TiffSettings,
    pub heif: HeifSettings,
    pub jxl: JxlSettings,
    pub animation: AnimationSettings,
    pub metadata: MetadataSettings,
    pub tile: TileSettings,
}

/// The settings of a new pipeline.
pub open spec fn initial_output(s: OutputSettings) -> bool {
    &&& s.format_out@ == "input"@
    &&& s.jpeg.quality == 80 && !s.jpeg.progressive && s.jpeg.chroma_subsampling@ == "4:2:0"@
    &&& !s.jpeg.trellis_quantisation && s.jpeg.quantisation_table == 0
    &&& !s.jpeg.overshoot_deringing && !s.jpeg.optimise_scans && s.jpeg.optimise_coding
    &&& !s.png.progressive && s.png.compression_level == 6 && !s.png.adaptive_filtering
    &&& !s.png.palette && s.png.quality == 100 && s.png.effort == 7 && s.png.bitdepth == 8
    &&& s.jp2.quality == 80 && !s.jp2.lossless && s.jp2.tile_height == 512
    &&& s.jp2.tile_width == 512 && s.jp2.chroma_subsampling@ == "4:4:4"@
    &&& s.webp.quality == 80 && s.webp.alpha_quality == 100 && !s.webp.near_lossless
    &&& !s.webp.lossless && !s.webp.smart_subsample && !s.webp.smart_deblock
    &&& s.webp.preset == WebpPreset::Default && s.webp.effort == 4 && !s.webp.min_size
    &&& !s.webp.mixed
    &&& s.gif.bitdepth == 8 && s.gif.effort == 7 && s.gif.reuse && !s.gif.progressive
    &&& s.tiff.quality == 80 && !s.tiff.pyramid && s.tiff.bitdepth == 8 && !s.tiff.miniswhite
    &&& !s.tiff.tile && s.tiff.tile_height == 256 && s.tiff.tile_width == 256
    &&& s.heif.compression == HeifCompression::Av1
    &&& s.heif.quality == 50 && s.heif.effort == 4 && s.heif.chroma_subsampling@ == "4:4:4"@
    &&& !s.heif.lossless && s.heif.bitdepth == 8
    &&& s.jxl.decoding_tier == 0 && s.jxl.effort == 7 && !s.jxl.lossless
    &&& s.animation.loop_ == -1 && s.animation.delay@.len() == 0
    &&& s.metadata.keep == 0 && s.metadata.orientation == -1 && s.metadata.icc_profile@.len()
        == 0
    &&& s.metadata.exif@.len() == 0 && s.metadata.exif_merge
    &&& s.tile.size == 256 && s.tile.overlap == 0 && s.tile.layout == DzLayout::Dz
    &&& s.tile.format@ == "last"@ && s.tile.angle == 0 && s.tile.skip_blanks == -1
    &&& !s.tile.centre && s.tile.id@ == "https://example.com/iiif"@ && s.tile.basename@.len()
        == 0
}

/// Which part of the settings an option setter changes.
pub enum Part {
    Jpeg,
    Png,
    Jp2,
    Webp,
    Gif,
    Tiff,
    Heif,
    Jxl,
    Animation,
    Metadata,
    Tile,
}

/// Every part but the named ones is left as it was.
pub open spec fn same_except(a: OutputSettings, b: OutputSettings, p: Part, q: Part) -> bool {
    &&& (!(p is Jpeg) && !(q is Jpeg)) ==> b.jpeg == a.jpeg
    &&& (!(p is Png) && !(q is Png)) ==> b.png == a.png
    &&& (!(p is Jp2) && !(q is Jp2)) ==> b.jp2 == a.jp2
    &&& (!(p is Webp) && !(q is Webp)) ==> b.webp == a.webp
    &&& (!(p is Gif) && !(q is Gif)) ==> b.gif == a.gif
    &&& (!(p is Tiff) && !(q is Tiff)) ==> b.tiff == a.tiff
    &&& (!(p is Heif) && !(q is Heif)) ==> b.heif == a.heif
    &&& (!(p is Jxl) && !(q is Jxl)) ==> b.jxl == a.jxl
    &&& (!(p is Animation) && !(q is Animation)) ==> b.animation == a.animation
    &&& (!(p is Metadata) && !(q is Metadata)) ==> b.metadata == a.metadata
    &&& (!(p is Tile) && !(q is Tile)) ==> b.tile == a.tile
}

/// The output format after a setter for `fmt`: forced unless `force` is
/// `Some(false)`.
pub open spec fn format_after(current: Seq<char>, fmt: Seq<char>, force: Option<bool>) -> Seq<
    char,
> {
    if force == Some(false) {
        current
    } else {
        fmt
    }
}

/// `v` when given, else `d`.
pub open spec fn or<T>(o: Option<T>, d: T) -> T {
    match o {
        Some(v) => v,
        None => d,
    }
}

/// An option given outside `lo..=hi`.
pub open spec fn out_of(o: Option<i32>, lo: int, hi: int) -> bool {
    o matches Some(v) && !(lo <= v <= hi)
}

impl OutputSettings {
    /// The settings of a new pipeline.
    pub fn new() -> (r: OutputSettings)
        ensures
            initial_output(r),
    {
        OutputSettings {
            format_out: "input".to_string(),
            jpeg: JpegSettings {
                quality: 80,
                progressive: false,
                chroma_subsampling: "4:2:0".to_string(),
                trellis_quantisation: false,
                quantisation_table: 0,
                overshoot_deringing: false,
                optimise_scans: false,
                optimise_coding: true,
            },
            png: PngSettings {
                progressive: false,
                compression_level: 6,
                adaptive_filtering: false,
                palette: false,
                quality: 100,
                effort: 7,
                bitdepth: 8,
            },
            jp2: Jp2Settings {
                quality: 80,
                lossless: false,
                tile_height: 512,
                tile_width: 512,
                chroma_subsampling: "4:4:4".to_string(),
            },
            webp: WebpSettings {
                quality: 80,
                alpha_quality: 100,
                near_lossless: false,
                lossless: false,
                smart_subsample: false,
                smart_deblock: false,
                preset: WebpPreset::Default,
                effort: 4,
                min_size: false,
                mixed: false,
            },
            gif: GifSettings { bitdepth: 8, effort: 7, reuse: true, progressive: false },
            tiff: TiffSettings {
                quality: 80,
                pyramid: false,
                bitdepth: 8,
                miniswhite: false,
                tile: false,
                tile_height: 256,
                tile_width: 256,
            },
            heif: HeifSettings {
                compression: HeifCompression::Av1,
                quality: 50,
                effort: 4,
                chroma_subsampling: "4:4:4".to_string(),
                lossless: false,
                bitdepth: 8,
            },
            jxl: JxlSettings { decoding_tier: 0, effort: 7, lossless: false },
            animation: AnimationSettings { loop_: -1, delay: Vec::new() },
            metadata: MetadataSettings {
                keep: 0,
                orientation: -1,
                icc_profile: String::new(),
                exif: Vec::new(),
                exif_merge: true,
            },
            tile: TileSettings {
                size: 256,
                overlap: 0,
                layout: DzLayout::Dz,
                format: "last".to_string(),
                angle: 0,
                skip_blanks: -1,
                centre: false,
                id: "https://example.com/iiif".to_string(),
                basename: String::new(),
            },
        }
    }

    /// Chooses `fmt` as the output format unless `force` is `Some(false)`.
    pub fn update_format_out(&mut self, fmt: &str, force: Option<bool>)
        ensures
            final(self).format_out@ == format_after(old(self).format_out@, fmt@, force),
            same_except(*old(self), *final(self), Part::Tile, Part::Tile),
            final(self).tile == old(self).tile,
    {
        if force.is_none() || (force matches Some(f) && f) {
            self.format_out = fmt.to_string();
        }
    }
}

// ---------------------------------------------------------------------------
// Messages for refused option values
// ---------------------------------------------------------------------------

/// `quality` refused: "integer between 1 and 100".
#[verifier::opaque]
pub open spec fn err_quality_1_100_text() -> Seq<char> {
    invalid_param("quality"@, "\"integer between 1 and 100\""@, "quality"@)
}

pub(crate) fn err_quality_1_100() -> (r: String)
    ensures
        r@ == err_quality_1_100_text(),
{
    proof {
        reveal(err_quality_1_100_text);
        reveal_strlit("quality");
        reveal_strlit("\"integer between 1 and 100\"");
        reveal_strlit("quality");
    }
    invalid_parameter_error("quality", "\"integer between 1 and 100\"", "quality")
}

/// `quantisationTable` refused: "integer between 0 and 8".
#[verifier::opaque]
pub open spec fn err_quantisation_table_text() -> Seq<char> {
    invalid_param("quantisationTable"@, "\"integer between 0 and 8\""@, "quantisationTable"@)
}

pub(crate) fn err_quantisation_table() -> (r: String)
    ensures
        r@ == err_quantisation_table_text(),
{
    proof {
        reveal(err_quantisation_table_text);
        reveal_strlit("quantisationTable");
        reveal_strlit("\"integer between 0 and 8\"");
        reveal_strlit("quantisationTable");
    }
    invalid_parameter_error("quantisationTable", "\"integer between 0 and 8\"", "quantisationTable")
}

/// `compressionLevel` refused: "integer between 0 and 9".
#[verifier::opaque]
pub open spec fn err_compression_level_text() -> Seq<char> {
    invalid_param("compressionLevel"@, "\"integer between 0 and 9\""@, "compressionLevel"@)
}

pub(crate) fn err_compression_level() -> (r: String)
    ensures
        r@ == err_compression_level_text(),
{
    proof {
        reveal(err_compression_level_text);
        reveal_strlit("compressionLevel");
        reveal_strlit("\"integer between 0 and 9\"");
        reveal_strlit("compressionLevel");
    }
    invalid_parameter_error("compressionLevel", "\"integer between 0 and 9\"", "compressionLevel")
}

/// `colours` refused: "integer between 2 and 256".
#[verifier::opaque]
pub open spec fn err_colours_text() -> Seq<char> {
    invalid_param("colours"@, "\"integer between 2 and 256\""@, "colors"@)
}

pub(crate) fn err_colours() -> (r: String)
    ensures
        r@ == err_colours_text(),
{
    proof {
        reveal(err_colours_text);
        reveal_strlit("colours");
        reveal_strlit("\"integer between 2 and 256\"");
        reveal_strlit("colors");
    }
    invalid_parameter_error("colours", "\"integer between 2 and 256\"", "colors")
}

/// `quality` refused: "integer between 0 and 100".
#[verifier::opaque]
pub open spec fn err_quality_0_100_text() -> Seq<char> {
    invalid_param("quality"@, "\"integer between 0 and 100\""@, "quality"@)
}

pub(crate) fn err_quality_0_100() -> (r: String)
    ensures
        r@ == err_quality_0_100_text(),
{
    proof {
        reveal(err_quality_0_100_text);
        reveal_strlit("quality");
        reveal_strlit("\"integer between 0 and 100\"");
        reveal_strlit("quality");
    }
    invalid_parameter_error("quality", "\"integer between 0 and 100\"", "quality")
}

/// `effort` refused: "integer between 1 and 10".
#[verifier::opaque]
pub open spec fn err_effort_1_10_text() -> Seq<char> {
    invalid_param("effort"@, "\"integer between 1 and 10\""@, "effort"@)
}

pub(crate) fn err_effort_1_10() -> (r: String)
    ensures
        r@ == err_effort_1_10_text(),
{
    proof {
        reveal(err_effort_1_10_text);
        reveal_strlit("effort");
        reveal_strlit("\"integer between 1 and 10\"");
        reveal_strlit("effort");
    }
    invalid_parameter_error("effort", "\"integer between 1 and 10\"", "effort")
}

/// `alphaQuality` refused: "integer between 0 and 100".
#[verifier::opaque]
pub open spec fn err_alpha_quality_text() -> Seq<char> {
    invalid_param("alphaQuality"@, "\"integer between 0 and 100\""@, "alphaQuality"@)
}

pub(crate) fn err_alpha_quality() -> (r: String)
    ensures
        r@ == err_alpha_quality_text(),
{
    proof {
        reveal(err_alpha_quality_text);
        reveal_strlit("alphaQuality");
        reveal_strlit("\"integer between 0 and 100\"");
        reveal_strlit("alphaQuality");
    }
    invalid_parameter_error("alphaQuality", "\"integer between 0 and 100\"", "alphaQuality")
}

/// `effort` refused: "integer between 0 and 6".
#[verifier::opaque]
pub open spec fn err_effort_0_6_text() -> Seq<char> {
    invalid_param("effort"@, "\"integer between 0 and 6\""@, "effort"@)
}

pub(crate) fn err_effort_0_6() -> (r: String)
    ensures
        r@ == err_effort_0_6_text(),
{
    proof {
        reveal(err_effort_0_6_text);
        reveal_strlit("effort");
        reveal_strlit("\"integer between 0 and 6\"");
        reveal_strlit("effort");
    }
    invalid_parameter_error("effort", "\"integer between 0 and 6\"", "effort")
}

/// `tileWidth` refused: "integer between 1 and 32768".
#[verifier::opaque]
pub open spec fn err_jp2_tile_width_text() -> Seq<char> {
    invalid_param("tileWidth"@, "\"integer between 1 and 32768\""@, "tile_width"@)
}

pub(crate) fn err_jp2_tile_width() -> (r: String)
    ensures
        r@ == err_jp2_tile_width_text(),
{
    proof {
        reveal(err_jp2_tile_width_text);
        reveal_strlit("tileWidth");
        reveal_strlit("\"integer between 1 and 32768\"");
        reveal_strlit("tile_width");
    }
    invalid_parameter_error("tileWidth", "\"integer between 1 and 32768\"", "tile_width")
}

/// `tileHeight` refused: "integer between 1 and 32768".
#[verifier::opaque]
pub open spec fn err_jp2_tile_height_text() -> Seq<char> {
    invalid_param("tileHeight"@, "\"integer between 1 and 32768\""@, "tile_height"@)
}

pub(crate) fn err_jp2_tile_height() -> (r: String)
    ensures
        r@ == err_jp2_tile_height_text(),
{
    proof {
        reveal(err_jp2_tile_height_text);
        reveal_strlit("tileHeight");
        reveal_strlit("\"integer between 1 and 32768\"");
        reveal_strlit("tile_height");
    }
    invalid_parameter_error("tileHeight", "\"integer between 1 and 32768\"", "tile_height")
}

/// `loop` refused: "integer between 0 and 65535".
#[verifier::opaque]
pub open spec fn err_loop_text() -> Seq<char> {
    invalid_param("loop"@, "\"integer between 0 and 65535\""@, "loop_"@)
}

pub(crate) fn err_loop() -> (r: String)
    ensures
        r@ == err_loop_text(),
{
    proof {
        reveal(err_loop_text);
        reveal_strlit("loop");
        reveal_strlit("\"integer between 0 and 65535\"");
        reveal_strlit("loop_");
    }
    invalid_parameter_error("loop", "\"integer between 0 and 65535\"", "loop_")
}

/// `delay` refused: "integer or an array of integers between 0 and 65535".
#[verifier::opaque]
pub open spec fn err_delay_text() -> Seq<char> {
    invalid_param("delay"@, "\"integer or an array of integers between 0 and 65535\""@, "delay"@)
}

pub(crate) fn err_delay() -> (r: String)
    ensures
        r@ == err_delay_text(),
{
    proof {
        reveal(err_delay_text);
        reveal_strlit("delay");
        reveal_strlit("\"integer or an array of integers between 0 and 65535\"");
        reveal_strlit("delay");
    }
    invalid_parameter_error("delay", "\"integer or an array of integers between 0 and 65535\"", "delay")
}

/// `tileWidth` refused: "integer greater than zero".
#[verifier::opaque]
pub open spec fn err_tiff_tile_width_text() -> Seq<char> {
    invalid_param("tileWidth"@, "\"integer greater than zero\""@, "tile_width"@)
}

pub(crate) fn err_tiff_tile_width() -> (r: String)
    ensures
        r@ == err_tiff_tile_width_text(),
{
    proof {
        reveal(err_tiff_tile_width_text);
        reveal_strlit("tileWidth");
        reveal_strlit("\"integer greater than zero\"");
        reveal_strlit("tile_width");
    }
    invalid_parameter_error("tileWidth", "\"integer greater than zero\"", "tile_width")
}

/// `tileHeight` refused: "integer greater than zero".
#[verifier::opaque]
pub open spec fn err_tiff_tile_height_text() -> Seq<char> {
    invalid_param("tileHeight"@, "\"integer greater than zero\""@, "tile_height"@)
}

pub(crate) fn err_tiff_tile_height() -> (r: String)
    ensures
        r@ == err_tiff_tile_height_text(),
{
    proof {
        reveal(err_tiff_tile_height_text);
        reveal_strlit("tileHeight");
        reveal_strlit("\"integer greater than zero\"");
        reveal_strlit("tile_height");
    }
    invalid_parameter_error("tileHeight", "\"integer greater than zero\"", "tile_height")
}

/// `effort` refused: "integer between 0 and 9".
#[verifier::opaque]
pub open spec fn err_effort_0_9_text() -> Seq<char> {
    invalid_param("effort"@, "\"integer between 0 and 9\""@, "effort"@)
}

pub(crate) fn err_effort_0_9() -> (r: String)
    ensures
        r@ == err_effort_0_9_text(),
{
    proof {
        reveal(err_effort_0_9_text);
        reveal_strlit("effort");
        reveal_strlit("\"integer between 0 and 9\"");
        reveal_strlit("effort");
    }
    invalid_parameter_error("effort", "\"integer between 0 and 9\"", "effort")
}

/// `decodingTier` refused: "integer between 0 and 4".
#[verifier::opaque]
pub open spec fn err_decoding_tier_text() -> Seq<char> {
    invalid_param("decodingTier"@, "\"integer between 0 and 4\""@, "decoding_tier"@)
}

pub(crate) fn err_decoding_tier() -> (r: String)
    ensures
        r@ == err_decoding_tier_text(),
{
    proof {
        reveal(err_decoding_tier_text);
        reveal_strlit("decodingTier");
        reveal_strlit("\"integer between 0 and 4\"");
        reveal_strlit("decoding_tier");
    }
    invalid_parameter_error("decodingTier", "\"integer between 0 and 4\"", "decoding_tier")
}

/// `effort` refused: "integer between 1 and 9".
#[verifier::opaque]
pub open spec fn err_effort_1_9_text() -> Seq<char> {
    invalid_param("effort"@, "\"integer between 1 and 9\""@, "effort"@)
}

pub(crate) fn err_effort_1_9() -> (r: String)
    ensures
        r@ == err_effort_1_9_text(),
{
    proof {
        reveal(err_effort_1_9_text);
        reveal_strlit("effort");
        reveal_strlit("\"integer between 1 and 9\"");
        reveal_strlit("effort");
    }
    invalid_parameter_error("effort", "\"integer between 1 and 9\"", "effort")
}

/// `size` refused: "integer between 1 and 8192".
#[verifier::opaque]
pub open spec fn err_tile_size_text() -> Seq<char> {
    invalid_param("size"@, "\"integer between 1 and 8192\""@, "size"@)
}

pub(crate) fn err_tile_size() -> (r: String)
    ensures
        r@ == err_tile_size_text(),
{
    proof {
        reveal(err_tile_size_text);
        reveal_strlit("size");
        reveal_strlit("\"integer between 1 and 8192\"");
        reveal_strlit("size");
    }
    invalid_parameter_error("size", "\"integer between 1 and 8192\"", "size")
}

/// `overlap` refused: format!("<= size ({:?})", self.options.tileSize).
#[verifier::opaque]
pub open spec fn err_overlap_size_text() -> Seq<char> {
    invalid_param("overlap"@, "format!(\"<= size ({:?})\", self.options.tileSize)"@, "overlap"@)
}

pub(crate) fn err_overlap_size() -> (r: String)
    ensures
        r@ == err_overlap_size_text(),
{
    proof {
        reveal(err_overlap_size_text);
        reveal_strlit("overlap");
        reveal_strlit("format!(\"<= size ({:?})\", self.options.tileSize)");
        reveal_strlit("overlap");
    }
    invalid_parameter_error("overlap", "format!(\"<= size ({:?})\", self.options.tileSize)", "overlap")
}

/// `overlap` refused: "integer between 0 and 8192".
#[verifier::opaque]
pub open spec fn err_overlap_range_text() -> Seq<char> {
    invalid_param("overlap"@, "\"integer between 0 and 8192\""@, "overlap"@)
}

pub(crate) fn err_overlap_range() -> (r: String)
    ensures
        r@ == err_overlap_range_text(),
{
    proof {
        reveal(err_overlap_range_text);
        reveal_strlit("overlap");
        reveal_strlit("\"integer between 0 and 8192\"");
        reveal_strlit("overlap");
    }
    invalid_parameter_error("overlap", "\"integer between 0 and 8192\"", "overlap")
}

/// `angle` refused: "positive/negative multiple of 90".
#[verifier::opaque]
pub open spec fn err_tile_angle_text() -> Seq<char> {
    invalid_param("angle"@, "\"positive/negative multiple of 90\""@, "angle"@)
}

pub(crate) fn err_tile_angle() -> (r: String)
    ensures
        r@ == err_tile_angle_text(),
{
    proof {
        reveal(err_tile_angle_text);
        reveal_strlit("angle");
        reveal_strlit("\"positive/negative multiple of 90\"");
        reveal_strlit("angle");
    }
    invalid_parameter_error("angle", "\"positive/negative multiple of 90\"", "angle")
}

/// `skipBlanks` refused: "integer between -1 and 255/65535".
#[verifier::opaque]
pub open spec fn err_skip_blanks_text() -> Seq<char> {
    invalid_param("skipBlanks"@, "\"integer between -1 and 255/65535\""@, "skip_blanks"@)
}

pub(crate) fn err_skip_blanks() -> (r: String)
    ensures
        r@ == err_skip_blanks_text(),
{
    proof {
        reveal(err_skip_blanks_text);
        reveal_strlit("skipBlanks");
        reveal_strlit("\"integer between -1 and 255/65535\"");
        reveal_strlit("skip_blanks");
    }
    invalid_parameter_error("skipBlanks", "\"integer between -1 and 255/65535\"", "skip_blanks")
}

/// `format` refused: "one of: jpeg, png, webp".
#[verifier::opaque]
pub open spec fn err_tile_format_text() -> Seq<char> {
    invalid_param("format"@, "\"one of: jpeg, png, webp\""@, "format_out"@)
}

pub(crate) fn err_tile_format() -> (r: String)
    ensures
        r@ == err_tile_format_text(),
{
    proof {
        reveal(err_tile_format_text);
        reveal_strlit("format");
        reveal_strlit("\"one of: jpeg, png, webp\"");
        reveal_strlit("format_out");
    }
    invalid_parameter_error("format", "\"one of: jpeg, png, webp\"", "format_out")
}

/// `orientation` refused: "integer between 1 and 8".
#[verifier::opaque]
pub open spec fn err_orientation_text() -> Seq<char> {
    invalid_param("orientation"@, "\"integer between 1 and 8\""@, "orientation"@)
}

pub(crate) fn err_orientation() -> (r: String)
    ensures
        r@ == err_orientation_text(),
{
    proof {
        reveal(err_orientation_text);
        reveal_strlit("orientation");
        reveal_strlit("\"integer between 1 and 8\"");
        reveal_strlit("orientation");
    }
    invalid_parameter_error("orientation", "\"integer between 1 and 8\"", "orientation")
}

// ---------------------------------------------------------------------------
// Palette depth
// ---------------------------------------------------------------------------

/// `ceil(log2(c))` for `c >= 1`.
pub open spec fn ceil_log2(c: nat) -> nat
    decreases c,
{
    if c <= 1 {
        0
    } else {
        1 + ceil_log2(((c + 1) / 2) as nat)
    }
}

/// The largest power of two not above `l`, for `l >= 1`.
pub open spec fn floor_pow2(l: nat) -> nat
    decreases l,
{
    if l <= 1 {
        1
    } else {
        2 * floor_pow2(l / 2)
    }
}

/// The bit depth for a palette of `c` colours: the largest power of two not
/// above `ceil(log2(c))`; 0 for no colours.
pub open spec fn palette_bitdepth(c: nat) -> nat {
    if c == 0 {
        0
    } else {
        floor_pow2(ceil_log2(c))
    }
}

proof fn lemma_ceil_log2_at_most(c: nat, k: nat)
    requires
        c <= vstd::arithmetic::power2::pow2(k),
    ensures
        ceil_log2(c) <= k,
    decreases c,
{
    if c > 1 {
        if k == 0 {
            vstd::arithmetic::power2::lemma2_to64();
        } else {
            vstd::arithmetic::power2::lemma_pow2_unfold(k);
            lemma_ceil_log2_at_most(((c + 1) / 2) as nat, (k - 1) as nat);
        }
    }
}

proof fn lemma_floor_pow2_le(l: nat)
    requires
        l >= 1,
    ensures
        1 <= floor_pow2(l) <= l,
    decreases l,
{
    if l > 1 {
        lemma_floor_pow2_le(l / 2);
    }
}

fn ceil_log2_u64(c: u64) -> (r: u32)
    requires
        1 <= c <= 0x1_0000_0000,
    ensures
        r == ceil_log2(c as nat),
    decreases c,
{
    proof {
        vstd::arithmetic::power2::lemma2_to64();
        lemma_ceil_log2_at_most(c as nat, 32);
    }
    if c <= 1 {
        0
    } else {
        1 + ceil_log2_u64((c + 1) / 2)
    }
}

fn floor_pow2_u32(l: u32) -> (r: u32)
    requires
        1 <= l <= 32,
    ensures
        r == floor_pow2(l as nat),
    decreases l,
{
    proof {
        lemma_floor_pow2_le(l as nat);
    }
    if l <= 1 {
        1
    } else {
        2 * floor_pow2_u32(l / 2)
    }
}

/// A palette of 2 to 256 colours is stored at 1, 2, 4 or 8 bits per pixel.
pub proof fn lemma_palette_bitdepth_range(c: nat)
    requires
        2 <= c <= 256,
    ensures
        palette_bitdepth(c) == 1 || palette_bitdepth(c) == 2 || palette_bitdepth(c) == 4
            || palette_bitdepth(c) == 8,
{
    vstd::arithmetic::power2::lemma2_to64();
    lemma_ceil_log2_at_most(c, 8);
    let l = ceil_log2(c);
    assert(l >= 1);
    reveal_with_fuel(floor_pow2, 4);
    assert(floor_pow2(1) == 1);
    assert(floor_pow2(2) == 2);
    assert(floor_pow2(3) == 2);
    assert(floor_pow2(4) == 4);
    assert(floor_pow2(5) == 4);
    assert(floor_pow2(6) == 4);
    assert(floor_pow2(7) == 4);
    assert(floor_pow2(8) == 8);
}

/// The bit depth for a palette of `colours` colours.
pub fn bitdepth_from_colour_count(colours: u32) -> (r: u32)
    requires
        colours != 1,
    ensures
        r == palette_bitdepth(colours as nat),
{
    if colours == 0 {
        return 0;
    }
    proof {
        vstd::arithmetic::power2::lemma2_to64();
        lemma_ceil_log2_at_most(colours as nat, 32);
        assert(ceil_log2(colours as nat) >= 1);
    }
    let log2 = ceil_log2_u64(colours as u64);
    floor_pow2_u32(log2)
}

// ---------------------------------------------------------------------------
// Option setters, per encoder
// ---------------------------------------------------------------------------

/// The outcome of an option setter on one part: the message when refused,
/// else the updated part.
pub open spec fn setter_outcome<T>(r: Result<(), String>, err: Option<Seq<char>>, after: T, applied: T) -> bool {
    match err {
        Some(m) => r matches Err(e) && e@ == m,
        None => r is Ok && after == applied,
    }
}

/// Why the JPEG options are refused, if they are.
pub open spec fn jpeg_error(o: JpegOptions) -> Option<Seq<char>> {
    if out_of(o.quality, 1, 100) {
        Some(err_quality_1_100_text())
    } else if out_of(o.quantisation_table, 0, 8) {
        Some(err_quantisation_table_text())
    } else {
        None
    }
}

/// The JPEG settings after accepted options: given values replace the
/// current ones; `mozjpeg` turns on trellis quantisation, overshoot
/// deringing, scan optimisation and progressive scan, and picks table 3,
/// each unless given; optimising scans forces progressive scan.
pub open spec fn jpeg_applied(s: JpegSettings, o: JpegOptions) -> JpegSettings {
    let moz = o.mozjpeg == Some(true);
    JpegSettings {
        quality: or(o.quality, s.quality),
        progressive: or(o.progressive, s.progressive) || moz || o.optimise_scans == Some(true),
        chroma_subsampling: or(o.chroma_subsampling, s.chroma_subsampling),
        trellis_quantisation: or(o.trellis_quantisation, moz || s.trellis_quantisation),
        quantisation_table: or(
            o.quantisation_table,
            if moz {
                3
            } else {
                s.quantisation_table
            },
        ),
        overshoot_deringing: or(o.overshoot_deringing, moz || s.overshoot_deringing),
        optimise_scans: or(o.optimise_scans, moz || s.optimise_scans),
        optimise_coding: or(o.optimise_coding, s.optimise_coding),
    }
}

impl JpegSettings {
    /// Applies JPEG options.
    #[verifier::rlimit(60)]
    pub fn apply(&mut self, options: JpegOptions) -> (r: Result<(), String>)
        ensures
            setter_outcome(r, jpeg_error(options), *final(self), jpeg_applied(*old(self), options)),
    {
        let ghost o = options;
        if let Some(quality) = options.quality {
            if !(1 <= quality && quality <= 100) {
                return Err(err_quality_1_100());
            }
            self.quality = quality;
        }
        if let Some(progressive) = options.progressive {
            self.progressive = progressive;
        }
        if let Some(chroma_subsampling) = options.chroma_subsampling {
            self.chroma_subsampling = chroma_subsampling;
        }
        if let Some(optimise_coding) = options.optimise_coding {
            self.optimise_coding = optimise_coding;
        }
        if let Some(mozjpeg) = options.mozjpeg {
            if mozjpeg {
                self.trellis_quantisation = true;
                self.overshoot_deringing = true;
                self.optimise_scans = true;
                self.progressive = true;
                self.quantisation_table = 3;
            }
        }
        if let Some(trellis_quantisation) = options.trellis_quantisation {
            self.trellis_quantisation = trellis_quantisation;
        }
        if let Some(overshoot_deringing) = options.overshoot_deringing {
            self.overshoot_deringing = overshoot_deringing;
        }
        if let Some(optimise_scans) = options.optimise_scans {
            self.optimise_scans = optimise_scans;
            if optimise_scans {
                self.progressive = true;
            }
        }
        if let Some(quantisation_table) = options.quantisation_table {
            if !(0 <= quantisation_table && quantisation_table <= 8) {
                return Err(err_quantisation_table());
            }
            self.quantisation_table = quantisation_table;
        }
        Ok(())
    }
}

/// Every JPEG option given is the one in force afterwards and every option
/// not given keeps its current value, with two exceptions: `mozjpeg` turns
/// on trellis quantisation, overshoot deringing, scan optimisation and
/// progressive scan and picks quantisation table 3 where those are not
/// given, and scan optimisation (asked for or implied by `mozjpeg`) always
/// makes the scan progressive.
pub proof fn lemma_jpeg_options_take_effect(s: JpegSettings, o: JpegOptions)
    ensures
        ({
            let r = jpeg_applied(s, o);
            let moz = o.mozjpeg == Some(true);
            let scans_asked = o.optimise_scans == Some(true) || (moz && o.optimise_scans is None);
            &&& o.quality matches Some(q) ==> r.quality == q
            &&& o.quality is None ==> r.quality == s.quality
            &&& (moz || o.optimise_scans == Some(true)) ==> r.progressive
            &&& !moz && o.optimise_scans != Some(true) ==> match o.progressive {
                Some(p) => r.progressive == p,
                None => r.progressive == s.progressive,
            }
            &&& r.optimise_scans == match o.optimise_scans {
                Some(b) => b,
                None => moz || s.optimise_scans,
            }
            &&& scans_asked ==> r.optimise_scans && r.progressive
            &&& o.chroma_subsampling matches Some(c) ==> r.chroma_subsampling == c
            &&& o.chroma_subsampling is None ==> r.chroma_subsampling == s.chroma_subsampling
            &&& r.trellis_quantisation == match o.trellis_quantisation {
                Some(b) => b,
                None => moz || s.trellis_quantisation,
            }
            &&& r.overshoot_deringing == match o.overshoot_deringing {
                Some(b) => b,
                None => moz || s.overshoot_deringing,
            }
            &&& r.quantisation_table == match o.quantisation_table {
                Some(q) => q,
                None => if moz { 3 } else { s.quantisation_table },
            }
            &&& r.optimise_coding == match o.optimise_coding {
                Some(b) => b,
                None => s.optimise_coding,
            }
        }),
{
}

/// Should PNG output be palette-based: as given, else when any palette
/// option (quality, effort, colours, dither) is given.
pub open spec fn png_palette_spec(o: PngOptions, dither_given: bool) -> bool {
    match o.palette {
        Some(p) => p,
        None => o.quality is Some || o.effort is Some || o.colours is Some || dither_given,
    }
}

impl PngOptions {
    /// Should the output be palette-based? `dither_given` tells whether a
    /// dither level was given beside these options.
    pub fn png_palette(&self, dither_given: bool) -> (r: bool)
        ensures
            r == png_palette_spec(*self, dither_given),
    {
        if let Some(palette) = self.palette {
            return palette;
        }
        if self.quality.is_some() || self.effort.is_some() || self.colours.is_some()
            || dither_given {
            return true;
        }
        false
    }
}

/// Why the PNG options are refused, if they are; `dither_error` is the
/// refusal of the dither level given beside them, checked last and only for
/// palette output.
pub open spec fn png_error(o: PngOptions, dither_given: bool, dither_error: Option<Seq<char>>) -> Option<Seq<char>> {
    if out_of(o.compression_level, 0, 9) {
        Some(err_compression_level_text())
    } else if out_of(o.colours, 2, 256) {
        Some(err_colours_text())
    } else if png_palette_spec(o, dither_given) && out_of(o.quality, 0, 100) {
        Some(err_quality_0_100_text())
    } else if png_palette_spec(o, dither_given) && out_of(o.effort, 1, 10) {
        Some(err_effort_1_10_text())
    } else if png_palette_spec(o, dither_given) {
        dither_error
    } else {
        None
    }
}

/// The PNG settings after accepted options; quality and effort apply only
/// to palette output, and a colour count sets the palette bit depth.
pub open spec fn png_applied(s: PngSettings, o: PngOptions, dither_given: bool) -> PngSettings {
    let palette = png_palette_spec(o, dither_given);
    PngSettings {
        progressive: or(o.progressive, s.progressive),
        compression_level: or(o.compression_level, s.compression_level),
        adaptive_filtering: or(o.adaptive_filtering, s.adaptive_filtering),
        palette,
        quality: if palette {
            or(o.quality, s.quality)
        } else {
            s.quality
        },
        effort: if palette {
            or(o.effort, s.effort)
        } else {
            s.effort
        },
        bitdepth: match o.colours {
            Some(c) => palette_bitdepth(c as nat) as i32,
            None => s.bitdepth,
        },
    }
}

impl PngSettings {
    /// Applies PNG options.
    pub fn apply(&mut self, options: PngOptions, dither_given: bool, dither_error: Option<String>) -> (r: Result<(), String>)
        ensures
            setter_outcome(
                r,
                png_error(options, dither_given, match dither_error { Some(e) => Some(e@), None => None }),
                *final(self),
                png_applied(*old(self), options, dither_given),
            ),
    {
        if let Some(progressive) = options.progressive {
            self.progressive = progressive;
        }
        if let Some(compression_level) = options.compression_level {
            if !(0 <= compression_level && compression_level <= 9) {
                return Err(err_compression_level());
            }
            self.compression_level = compression_level;
        }
        if let Some(adaptive_filtering) = options.adaptive_filtering {
            self.adaptive_filtering = adaptive_filtering;
        }
        if let Some(colours) = options.colours {
            if !(2 <= colours && colours <= 256) {
                return Err(err_colours());
            }
            self.bitdepth = bitdepth_from_colour_count(colours as u32) as i32;
        }
        self.palette = options.png_palette(dither_given);
        if self.palette {
            if let Some(quality) = options.quality {
                if !(0 <= quality && quality <= 100) {
                    return Err(err_quality_0_100());
                }
                self.quality = quality;
            }
            if let Some(effort) = options.effort {
                if !(1 <= effort && effort <= 10) {
                    return Err(err_effort_1_10());
                }
                self.effort = effort;
            }
            if let Some(e) = dither_error {
                return Err(e);
            }
        }
        Ok(())
    }
}

/// Why the JP2 options are refused, if they are.
pub open spec fn jp2_error(o: Jp2Options) -> Option<Seq<char>> {
    if out_of(o.quality, 1, 100) {
        Some(err_quality_1_100_text())
    } else if out_of(o.tile_width, 1, 32768) {
        Some(err_jp2_tile_width_text())
    } else if out_of(o.tile_height, 1, 32768) {
        Some(err_jp2_tile_height_text())
    } else {
        None
    }
}

/// `after` is `before` with accepted JP2 options applied.
pub open spec fn jp2_updated(before: Jp2Settings, after: Jp2Settings, o: Jp2Options) -> bool {
    &&& after.quality == or(o.quality, before.quality)
    &&& after.lossless == or(o.lossless, before.lossless)
    &&& after.tile_height == or(o.tile_height, before.tile_height)
    &&& after.tile_width == or(o.tile_width, before.tile_width)
    &&& after.chroma_subsampling@ == match o.chroma_subsampling {
        Some(c) => chroma_text(c),
        None => before.chroma_subsampling@,
    }
}

impl Jp2Settings {
    /// Applies JP2 options.
    pub fn apply(&mut self, options: Jp2Options) -> (r: Result<(), String>)
        ensures
            match jp2_error(options) {
                Some(m) => r matches Err(e) && e@ == m,
                None => r is Ok && jp2_updated(*old(self), *final(self), options),
            },
    {
        if let Some(quality) = options.quality {
            if !(1 <= quality && quality <= 100) {
                return Err(err_quality_1_100());
            }
            self.quality = quality;
        }
        if let Some(lossless) = options.lossless {
            self.lossless = lossless;
        }
        if let Some(tile_width) = options.tile_width {
            if !(1 <= tile_width && tile_width <= 32768) {
                return Err(err_jp2_tile_width());
            }
            self.tile_width = tile_width;
        }
        if let Some(tile_height) = options.tile_height {
            if !(1 <= tile_height && tile_height <= 32768) {
                return Err(err_jp2_tile_height());
            }
            self.tile_height = tile_height;
        }
        if let Some(chroma_subsampling) = options.chroma_subsampling {
            self.chroma_subsampling = chroma_subsampling.to_text();
        }
        Ok(())
    }
}

/// Why the WebP options are refused, if they are. Every named preset is
/// accepted.
pub open spec fn webp_error(o: WebpOptions) -> Option<Seq<char>> {
    if out_of(o.quality, 1, 100) {
        Some(err_quality_1_100_text())
    } else if out_of(o.alpha_quality, 0, 100) {
        Some(err_alpha_quality_text())
    } else if out_of(o.effort, 0, 6) {
        Some(err_effort_0_6_text())
    } else {
        None
    }
}

/// The WebP settings after accepted options.
pub open spec fn webp_applied(s: WebpSettings, o: WebpOptions) -> WebpSettings {
    WebpSettings {
        quality: or(o.quality, s.quality),
        alpha_quality: or(o.alpha_quality, s.alpha_quality),
        near_lossless: or(o.near_lossless, s.near_lossless),
        lossless: or(o.lossless, s.lossless),
        smart_subsample: or(o.smart_subsample, s.smart_subsample),
        smart_deblock: or(o.smart_deblock, s.smart_deblock),
        preset: or(o.preset, s.preset),
        effort: or(o.effort, s.effort),
        min_size: or(o.min_size, s.min_size),
        mixed: or(o.mixed, s.mixed),
    }
}

impl WebpSettings {
    /// Applies WebP options other than animation.
    pub fn apply(&mut self, options: &WebpOptions) -> (r: Result<(), String>)
        ensures
            setter_outcome(r, webp_error(*options), *final(self), webp_applied(*old(self), *options)),
    {
        if let Some(quality) = options.quality {
            if !(1 <= quality && quality <= 100) {
                return Err(err_quality_1_100());
            }
        }
        if let Some(alpha_quality) = options.alpha_quality {
            if !(0 <= alpha_quality && alpha_quality <= 100) {
                return Err(err_alpha_quality());
            }
        }
        if let Some(effort) = options.effort {
            if !(0 <= effort && effort <= 6) {
                return Err(err_effort_0_6());
            }
        }
        let next = WebpSettings {
            quality: match options.quality {
                Some(v) => v,
                None => self.quality,
            },
            alpha_quality: match options.alpha_quality {
                Some(v) => v,
                None => self.alpha_quality,
            },
            near_lossless: match options.near_lossless {
                Some(v) => v,
                None => self.near_lossless,
            },
            lossless: match options.lossless {
                Some(v) => v,
                None => self.lossless,
            },
            smart_subsample: match options.smart_subsample {
                Some(v) => v,
                None => self.smart_subsample,
            },
            smart_deblock: match options.smart_deblock {
                Some(v) => v,
                None => self.smart_deblock,
            },
            preset: match options.preset {
                Some(v) => v,
                None => self.preset,
            },
            effort: match options.effort {
                Some(v) => v,
                None => self.effort,
            },
            min_size: match options.min_size {
                Some(v) => v,
                None => self.min_size,
            },
            mixed: match options.mixed {
                Some(v) => v,
                None => self.mixed,
            },
        };
        *self = next;
        Ok(())
    }
}

/// Some frame delay lies outside `0..=65535`.
pub open spec fn has_bad_delay(d: Seq<i32>) -> bool {
    exists|i: int| 0 <= i < d.len() && !(0 <= #[trigger] d[i] <= 65535)
}

/// Why animation options are refused, if they are.
pub open spec fn animation_error(loop_: Option<i32>, delay: Option<Seq<i32>>) -> Option<Seq<char>> {
    if out_of(loop_, 0, 65535) {
        Some(err_loop_text())
    } else if delay matches Some(d) && has_bad_delay(d) {
        Some(err_delay_text())
    } else {
        None
    }
}

impl AnimationSettings {
    /// Sets the iteration count and frame delays, when given.
    #[verifier::loop_isolation(false)]
    pub fn try_set_animation_options(&mut self, loop_: Option<i32>, delay: Option<Vec<i32>>) -> (r: Result<(), String>)
        ensures
            match animation_error(loop_, match delay { Some(d) => Some(d@), None => None }) {
                Some(m) => r matches Err(e) && e@ == m,
                None => r is Ok && final(self).loop_ == or(loop_, old(self).loop_)
                    && final(self).delay@ == match delay { Some(d) => d@, None => old(self).delay@ },
            },
    {
        if let Some(l) = loop_ {
            if !(0 <= l && l <= 65535) {
                return Err(err_loop());
            }
            self.loop_ = l;
        }
        let ghost delay_view = match delay {
            Some(ref d) => Some(d@),
            None => None,
        };
        match delay {
            Some(d) => {
                assert(delay_view == Some(d@));
                let mut i: usize = 0;
                while i < d.len()
                    invariant
                        i <= d@.len(),
                        !out_of(loop_, 0, 65535),
                        delay_view == Some(d@),
                        forall|j: int| 0 <= j < i ==> 0 <= #[trigger] d@[j] <= 65535,
                    decreases d@.len() - i,
                {
                    let v = d[i];
                    if !(0 <= v && v <= 65535) {
                        proof {
                            assert(!(0 <= d@[i as int] <= 65535));
                            assert(has_bad_delay(d@));
                            assert(animation_error(loop_, Some(d@)) == Some(err_delay_text()));
                        }
                        return Err(err_delay());
                    }
                    i += 1;
                }
                self.delay = d;
            },
            None => {},
        }
        Ok(())
    }
}

/// Why the GIF colour count or effort is refused, if it is.
pub open spec fn gif_own_error(o: GifOptions) -> Option<Seq<char>> {
    if out_of(o.colours, 2, 256) {
        Some(err_colours_text())
    } else if out_of(o.effort, 1, 10) {
        Some(err_effort_1_10_text())
    } else {
        None
    }
}

/// Why the GIF options are refused, if they are; `float_error` is the
/// refusal of the dither and error thresholds given beside them.
pub open spec fn gif_error(o: GifOptions, float_error: Option<Seq<char>>) -> Option<Seq<char>> {
    if gif_own_error(o) is Some {
        gif_own_error(o)
    } else if float_error is Some {
        float_error
    } else {
        animation_error(o.loop_, match o.delay { Some(d) => Some(d@), None => None })
    }
}

/// The GIF settings after accepted options; a colour count sets the
/// palette bit depth.
pub open spec fn gif_applied(s: GifSettings, o: GifOptions) -> GifSettings {
    GifSettings {
        bitdepth: match o.colours {
            Some(c) => palette_bitdepth(c as nat) as i32,
            None => s.bitdepth,
        },
        effort: or(o.effort, s.effort),
        reuse: or(o.reuse, s.reuse),
        progressive: or(o.progressive, s.progressive),
    }
}

impl GifSettings {
    /// Applies GIF options other than animation.
    pub fn apply(&mut self, options: &GifOptions) -> (r: Result<(), String>)
        ensures
            setter_outcome(r, gif_own_error(*options), *final(self), gif_applied(*old(self), *options)),
    {
        if let Some(reuse) = options.reuse {
            self.reuse = reuse;
        }
        if let Some(progressive) = options.progressive {
            self.progressive = progressive;
        }
        if let Some(colours) = options.colours {
            if !(2 <= colours && colours <= 256) {
                return Err(err_colours());
            }
            self.bitdepth = bitdepth_from_colour_count(colours as u32) as i32;
        }
        if let Some(effort) = options.effort {
            if !(1 <= effort && effort <= 10) {
                return Err(err_effort_1_10());
            }
            self.effort = effort;
        }
        Ok(())
    }
}

/// Why the TIFF options are refused, if they are; `resolution_error` is
/// the refusal of the resolutions given beside them, checked last.
pub open spec fn tiff_error(o: TiffOptions, resolution_error: Option<Seq<char>>) -> Option<Seq<char>> {
    if out_of(o.quality, 1, 100) {
        Some(err_quality_1_100_text())
    } else if o.tile_width matches Some(w) && w <= 0 {
        Some(err_tiff_tile_width_text())
    } else if o.tile_height matches Some(h) && h <= 0 {
        Some(err_tiff_tile_height_text())
    } else {
        resolution_error
    }
}

/// The TIFF settings after accepted options.
pub open spec fn tiff_applied(s: TiffSettings, o: TiffOptions) -> TiffSettings {
    TiffSettings {
        quality: or(o.quality, s.quality),
        pyramid: or(o.pyramid, s.pyramid),
        bitdepth: match o.bitdepth {
            Some(b) => tiff_bits(b),
            None => s.bitdepth,
        },
        miniswhite: or(o.miniswhite, s.miniswhite),
        tile: or(o.tile, s.tile),
        tile_height: or(o.tile_height, s.tile_height),
        tile_width: or(o.tile_width, s.tile_width),
    }
}

impl TiffSettings {
    /// Applies TIFF options.
    pub fn apply(&mut self, options: &TiffOptions, resolution_error: Option<String>) -> (r: Result<(), String>)
        ensures
            setter_outcome(
                r,
                tiff_error(*options, match resolution_error { Some(e) => Some(e@), None => None }),
                *final(self),
                tiff_applied(*old(self), *options),
            ),
    {
        if let Some(quality) = options.quality {
            if !(1 <= quality && quality <= 100) {
                return Err(err_quality_1_100());
            }
            self.quality = quality;
        }
        if let Some(bitdepth) = &options.bitdepth {
            self.bitdepth = bitdepth.bits();
        }
        if let Some(tile) = options.tile {
            self.tile = tile;
        }
        if let Some(tile_width) = options.tile_width {
            if tile_width > 0 {
                self.tile_width = tile_width;
            } else {
                return Err(err_tiff_tile_width());
            }
        }
        if let Some(tile_height) = options.tile_height {
            if tile_height > 0 {
                self.tile_height = tile_height;
            } else {
                return Err(err_tiff_tile_height());
            }
        }
        if let Some(miniswhite) = options.miniswhite {
            self.miniswhite = miniswhite;
        }
        if let Some(pyramid) = options.pyramid {
            self.pyramid = pyramid;
        }
        if let Some(e) = resolution_error {
            return Err(e);
        }
        Ok(())
    }
}

/// Why the HEIF options are refused, if they are.
pub open spec fn heif_error(o: HeifOptions) -> Option<Seq<char>> {
    if out_of(o.quality, 1, 100) {
        Some(err_quality_1_100_text())
    } else if out_of(o.effort, 0, 9) {
        Some(err_effort_0_9_text())
    } else {
        None
    }
}

/// `after` is `before` with accepted HEIF options applied.
pub open spec fn heif_updated(before: HeifSettings, after: HeifSettings, o: HeifOptions) -> bool {
    &&& after.compression == or(o.compression, before.compression)
    &&& after.quality == or(o.quality, before.quality)
    &&& after.lossless == or(o.lossless, before.lossless)
    &&& after.effort == or(o.effort, before.effort)
    &&& after.chroma_subsampling@ == match o.chroma_subsampling {
        Some(c) => chroma_text(c),
        None => before.chroma_subsampling@,
    }
    &&& after.bitdepth == match o.bitdepth {
        Some(b) => bit_depth_bits(b),
        None => before.bitdepth,
    }
}

impl HeifSettings {
    /// Applies HEIF options.
    pub fn apply(&mut self, options: &HeifOptions) -> (r: Result<(), String>)
        ensures
            match heif_error(*options) {
                Some(m) => r matches Err(e) && e@ == m,
                None => r is Ok && heif_updated(*old(self), *final(self), *options),
            },
    {
        if let Some(compression) = options.compression {
            self.compression = compression;
        }
        if let Some(quality) = options.quality {
            if !(1 <= quality && quality <= 100) {
                return Err(err_quality_1_100());
            }
            self.quality = quality;
        }
        if let Some(lossless) = options.lossless {
            self.lossless = lossless;
        }
        if let Some(effort) = options.effort {
            if !(0 <= effort && effort <= 9) {
                return Err(err_effort_0_9());
            }
            self.effort = effort;
        }
        if let Some(chroma_subsampling) = &options.chroma_subsampling {
            self.chroma_subsampling = chroma_subsampling.to_text();
        }
        if let Some(bitdepth) = &options.bitdepth {
            self.bitdepth = bitdepth.bits();
        }
        Ok(())
    }
}

/// Why the JPEG-XL options are refused, if they are: a quality outside
/// 1..=100, else (with no quality) the refusal of the distance given beside
/// them, else a decoding tier or effort out of range, else the animation
/// options.
pub open spec fn jxl_error(o: JxlOptions, distance_error: Option<Seq<char>>) -> Option<Seq<char>> {
    if jxl_own_error(o, distance_error) is Some {
        jxl_own_error(o, distance_error)
    } else {
        animation_error(o.loop_, match o.delay { Some(d) => Some(d@), None => None })
    }
}

/// Why the JPEG-XL options other than animation are refused, if they are.
pub open spec fn jxl_own_error(o: JxlOptions, distance_error: Option<Seq<char>>) -> Option<Seq<char>> {
    if out_of(o.quality, 1, 100) {
        Some(err_quality_1_100_text())
    } else if o.quality is None && distance_error is Some {
        distance_error
    } else if out_of(o.decoding_tier, 0, 4) {
        Some(err_decoding_tier_text())
    } else if out_of(o.effort, 1, 9) {
        Some(err_effort_1_9_text())
    } else {
        None
    }
}

/// The JPEG-XL settings after accepted options.
pub open spec fn jxl_applied(s: JxlSettings, o: JxlOptions) -> JxlSettings {
    JxlSettings {
        decoding_tier: or(o.decoding_tier, s.decoding_tier),
        effort: or(o.effort, s.effort),
        lossless: or(o.lossless, s.lossless),
    }
}

impl JxlSettings {
    /// Applies JPEG-XL options other than animation; `distance_error` is the
    /// refusal, if any, of the distance given beside them.
    pub fn apply(&mut self, options: &JxlOptions, distance_error: Option<String>) -> (r: Result<(), String>)
        ensures
            setter_outcome(
                r,
                jxl_own_error(*options, match distance_error { Some(e) => Some(e@), None => None }),
                *final(self),
                jxl_applied(*old(self), *options),
            ),
    {
        if let Some(q) = options.quality {
            if !(1 <= q && q <= 100) {
                return Err(err_quality_1_100());
            }
        } else if let Some(e) = distance_error {
            return Err(e);
        }
        if let Some(decoding_tier) = options.decoding_tier {
            if !(0 <= decoding_tier && decoding_tier <= 4) {
                return Err(err_decoding_tier());
            }
            self.decoding_tier = decoding_tier;
        }
        if let Some(lossless) = options.lossless {
            self.lossless = lossless;
        }
        if let Some(effort) = options.effort {
            if !(1 <= effort && effort <= 9) {
                return Err(err_effort_1_9());
            }
            self.effort = effort;
        }
        Ok(())
    }
}

/// Why the tile options are refused, if they are; the overlap may not
/// exceed the tile size in force after these options.
pub open spec fn tile_error(s: TileSettings, o: TileOptions) -> Option<Seq<char>> {
    let size = or(o.size, s.size);
    if out_of(o.size, 1, 8192) {
        Some(err_tile_size_text())
    } else if o.overlap matches Some(v) && 0 <= v <= 8192 && v > size {
        Some(err_overlap_size_text())
    } else if out_of(o.overlap, 0, 8192) {
        Some(err_overlap_range_text())
    } else if o.angle matches Some(a) && a % 90 != 0 {
        Some(err_tile_angle_text())
    } else if out_of(o.skip_blanks, -1, 65535) {
        Some(err_skip_blanks_text())
    } else {
        None
    }
}

/// `after` is `before` with accepted tile options applied: a Google layout
/// skips tiles within 5 of blank unless told otherwise.
pub open spec fn tile_updated(before: TileSettings, after: TileSettings, o: TileOptions) -> bool {
    &&& after.size == or(o.size, before.size)
    &&& after.overlap == or(o.overlap, before.overlap)
    &&& after.layout == or(o.layout, before.layout)
    &&& after.angle == or(o.angle, before.angle)
    &&& after.skip_blanks == match o.skip_blanks {
        Some(v) => v,
        None => if o.layout == Some(DzLayout::Google) {
            5
        } else {
            before.skip_blanks
        },
    }
    &&& after.centre == or(o.centre, before.centre)
    &&& after.id == or(o.id, before.id)
    &&& after.basename == or(o.basename, before.basename)
}

impl TileSettings {
    /// Applies tile options.
    pub fn apply(&mut self, options: TileOptions) -> (r: Result<(), String>)
        ensures
            match tile_error(*old(self), options) {
                Some(m) => r matches Err(e) && e@ == m,
                None => r is Ok && tile_updated(*old(self), *final(self), options)
                    && final(self).format == old(self).format,
            },
    {
        if let Some(size) = options.size {
            if !(1 <= size && size <= 8192) {
                return Err(err_tile_size());
            }
            self.size = size;
        }
        if let Some(overlap) = options.overlap {
            if 0 <= overlap && overlap <= 8192 {
                if overlap > self.size {
                    return Err(err_overlap_size());
                }
                self.overlap = overlap;
            } else {
                return Err(err_overlap_range());
            }
        }
        if let Some(layout) = options.layout {
            self.layout = layout;
        }
        if let Some(angle) = options.angle {
            if angle % 90 == 0 {
                self.angle = angle;
            } else {
                return Err(err_tile_angle());
            }
        }
        if let Some(skip_blanks) = options.skip_blanks {
            if !(-1 <= skip_blanks && skip_blanks <= 65535) {
                return Err(err_skip_blanks());
            }
            self.skip_blanks = skip_blanks;
        } else if let Some(layout) = options.layout {
            if layout == DzLayout::Google {
                self.skip_blanks = 5;
            }
        }
        if let Some(centre) = options.centre {
            self.centre = centre;
        }
        if let Some(id) = options.id {
            self.id = id;
        }
        if let Some(basename) = options.basename {
            self.basename = basename;
        }
        Ok(())
    }
}


/// `after` is the value given when one was given, else `before`.
pub open spec fn given_or_kept<T>(given: Option<T>, before: T, after: T) -> bool {
    match given {
        Some(v) => after == v,
        None => after == before,
    }
}

/// Every PNG option given is in force afterwards and every other setting
/// is kept, except that quality and effort change only for palette output,
/// palette output is on when asked for or, when not said, when a palette
/// option (quality, effort, colours, dither) is given, and a colour count
/// sets the palette bit depth.
pub proof fn lemma_png_options_take_effect(s: PngSettings, o: PngOptions, dither_given: bool)
    ensures
        ({
            let r = png_applied(s, o, dither_given);
            let palette = match o.palette {
                Some(p) => p,
                None => o.quality is Some || o.effort is Some || o.colours is Some || dither_given,
            };
            &&& given_or_kept(o.progressive, s.progressive, r.progressive)
            &&& given_or_kept(o.compression_level, s.compression_level, r.compression_level)
            &&& given_or_kept(o.adaptive_filtering, s.adaptive_filtering, r.adaptive_filtering)
            &&& r.palette == palette
            &&& palette ==> given_or_kept(o.quality, s.quality, r.quality)
            &&& palette ==> given_or_kept(o.effort, s.effort, r.effort)
            &&& !palette ==> r.quality == s.quality && r.effort == s.effort
            &&& o.colours is None ==> r.bitdepth == s.bitdepth
            &&& (o.colours matches Some(c) && 2 <= c <= 256) ==> (r.bitdepth == 1 || r.bitdepth == 2
                || r.bitdepth == 4 || r.bitdepth == 8)
        }),
{
    if let Some(c) = o.colours {
        if 2 <= c <= 256 {
            lemma_palette_bitdepth_range(c as nat);
        }
    }
}

/// Every JPEG 2000 option given is in force afterwards and every other
/// setting is kept; chroma subsampling is stored as its libvips text.
pub proof fn lemma_jp2_options_take_effect(before: Jp2Settings, after: Jp2Settings, o: Jp2Options)
    requires
        jp2_updated(before, after, o),
    ensures
        given_or_kept(o.quality, before.quality, after.quality),
        given_or_kept(o.lossless, before.lossless, after.lossless),
        given_or_kept(o.tile_width, before.tile_width, after.tile_width),
        given_or_kept(o.tile_height, before.tile_height, after.tile_height),
        o.chroma_subsampling == Some(ChromaSubsampling::Off) ==> after.chroma_subsampling@
            == "4:4:4"@,
        o.chroma_subsampling == Some(ChromaSubsampling::Two) ==> after.chroma_subsampling@
            == "4:2:0"@,
        o.chroma_subsampling is None ==> after.chroma_subsampling@ == before.chroma_subsampling@,
{
}

/// Every WebP option given is in force afterwards and every other setting
/// is kept.
pub proof fn lemma_webp_options_take_effect(s: WebpSettings, o: WebpOptions)
    ensures
        ({
            let r = webp_applied(s, o);
            &&& given_or_kept(o.quality, s.quality, r.quality)
            &&& given_or_kept(o.alpha_quality, s.alpha_quality, r.alpha_quality)
            &&& given_or_kept(o.near_lossless, s.near_lossless, r.near_lossless)
            &&& given_or_kept(o.lossless, s.lossless, r.lossless)
            &&& given_or_kept(o.smart_subsample, s.smart_subsample, r.smart_subsample)
            &&& given_or_kept(o.smart_deblock, s.smart_deblock, r.smart_deblock)
            &&& given_or_kept(o.preset, s.preset, r.preset)
            &&& given_or_kept(o.effort, s.effort, r.effort)
            &&& given_or_kept(o.min_size, s.min_size, r.min_size)
            &&& given_or_kept(o.mixed, s.mixed, r.mixed)
        }),
{
}

/// Every GIF option given is in force afterwards and every other setting
/// is kept; a colour count sets the palette bit depth to 1, 2, 4 or 8.
pub proof fn lemma_gif_options_take_effect(s: GifSettings, o: GifOptions)
    ensures
        ({
            let r = gif_applied(s, o);
            &&& given_or_kept(o.effort, s.effort, r.effort)
            &&& given_or_kept(o.reuse, s.reuse, r.reuse)
            &&& given_or_kept(o.progressive, s.progressive, r.progressive)
            &&& o.colours is None ==> r.bitdepth == s.bitdepth
            &&& (o.colours matches Some(c) && 2 <= c <= 256) ==> (r.bitdepth == 1 || r.bitdepth == 2
                || r.bitdepth == 4 || r.bitdepth == 8)
        }),
{
    if let Some(c) = o.colours {
        if 2 <= c <= 256 {
            lemma_palette_bitdepth_range(c as nat);
        }
    }
}

/// Every TIFF option given is in force afterwards and every other setting
/// is kept; a bit depth is stored as its number of bits.
pub proof fn lemma_tiff_options_take_effect(s: TiffSettings, o: TiffOptions)
    ensures
        ({
            let r = tiff_applied(s, o);
            &&& given_or_kept(o.quality, s.quality, r.quality)
            &&& given_or_kept(o.pyramid, s.pyramid, r.pyramid)
            &&& given_or_kept(o.miniswhite, s.miniswhite, r.miniswhite)
            &&& given_or_kept(o.tile, s.tile, r.tile)
            &&& given_or_kept(o.tile_width, s.tile_width, r.tile_width)
            &&& given_or_kept(o.tile_height, s.tile_height, r.tile_height)
            &&& o.bitdepth is None ==> r.bitdepth == s.bitdepth
            &&& o.bitdepth == Some(TiffBitDepth::One) ==> r.bitdepth == 1
            &&& o.bitdepth == Some(TiffBitDepth::Two) ==> r.bitdepth == 2
            &&& o.bitdepth == Some(TiffBitDepth::Four) ==> r.bitdepth == 4
            &&& o.bitdepth == Some(TiffBitDepth::Eight) ==> r.bitdepth == 8
        }),
{
}

/// Every HEIF option given is in force afterwards and every other setting
/// is kept; chroma subsampling is stored as its libvips text and a bit
/// depth as its number of bits.
pub proof fn lemma_heif_options_take_effect(before: HeifSettings, after: HeifSettings, o: HeifOptions)
    requires
        heif_updated(before, after, o),
    ensures
        given_or_kept(o.compression, before.compression, after.compression),
        given_or_kept(o.quality, before.quality, after.quality),
        given_or_kept(o.lossless, before.lossless, after.lossless),
        given_or_kept(o.effort, before.effort, after.effort),
        o.chroma_subsampling == Some(ChromaSubsampling::Off) ==> after.chroma_subsampling@
            == "4:4:4"@,
        o.chroma_subsampling == Some(ChromaSubsampling::Two) ==> after.chroma_subsampling@
            == "4:2:0"@,
        o.chroma_subsampling is None ==> after.chroma_subsampling@ == before.chroma_subsampling@,
        o.bitdepth is None ==> after.bitdepth == before.bitdepth,
        o.bitdepth == Some(BitDepth::Eight) ==> after.bitdepth == 8,
        o.bitdepth == Some(BitDepth::Ten) ==> after.bitdepth == 10,
        o.bitdepth == Some(BitDepth::Twelve) ==> after.bitdepth == 12,
{
}

/// Every JPEG-XL option given is in force afterwards and every other
/// setting is kept.
pub proof fn lemma_jxl_options_take_effect(s: JxlSettings, o: JxlOptions)
    ensures
        ({
            let r = jxl_applied(s, o);
            &&& given_or_kept(o.decoding_tier, s.decoding_tier, r.decoding_tier)
            &&& given_or_kept(o.effort, s.effort, r.effort)
            &&& given_or_kept(o.lossless, s.lossless, r.lossless)
        }),
{
}

/// Every tile option given is in force afterwards and every other setting
/// is kept, except that the Google layout, when no blank threshold is
/// given, skips tiles within 5 of blank.
pub proof fn lemma_tile_options_take_effect(before: TileSettings, after: TileSettings, o: TileOptions)
    requires
        tile_updated(before, after, o),
    ensures
        given_or_kept(o.size, before.size, after.size),
        given_or_kept(o.overlap, before.overlap, after.overlap),
        given_or_kept(o.layout, before.layout, after.layout),
        given_or_kept(o.angle, before.angle, after.angle),
        given_or_kept(o.centre, before.centre, after.centre),
        given_or_kept(o.id, before.id, after.id),
        given_or_kept(o.basename, before.basename, after.basename),
        o.skip_blanks matches Some(v) ==> after.skip_blanks == v,
        o.skip_blanks is None && o.layout == Some(DzLayout::Google) ==> after.skip_blanks == 5,
        o.skip_blanks is None && o.layout != Some(DzLayout::Google) ==> after.skip_blanks
            == before.skip_blanks,
{
}

/// A tile size, an overlap of at most that size, a quarter-turn angle and
/// a blank threshold from -1 to 65535 are accepted; an overlap larger than
/// the tile size in force is refused.
pub proof fn lemma_tile_options_accepted(s: TileSettings, o: TileOptions)
    ensures
        ({
            let size = match o.size {
                Some(v) => v,
                None => s.size,
            };
            &&& ((o.size matches Some(v) ==> 1 <= v <= 8192) && (o.overlap matches Some(v) ==> 0
                <= v <= 8192 && v <= size) && (o.angle matches Some(a) ==> a % 90 == 0) && (o.skip_blanks matches Some(
                v) ==> -1 <= v <= 65535)) ==> tile_error(s, o) is None
            &&& ((o.size is None || 1 <= size <= 8192) && (o.overlap matches Some(v) && size < v
                <= 8192)) ==> tile_error(s, o) is Some
        }),
{
}


/// No value is given, or the one given lies in `lo..=hi`.
pub open spec fn within(given: Option<i32>, lo: int, hi: int) -> bool {
    match given {
        Some(v) => lo <= v && v <= hi,
        None => true,
    }
}

/// The ranges each encoder accepts: JPEG quality 1 to 100 and quantisation
/// table 0 to 8; PNG compression level 0 to 9, colours 2 to 256 and, for
/// palette output, quality 0 to 100 and effort 1 to 10; JPEG 2000 quality
/// 1 to 100 and tiles of 1 to 32768 pixels; WebP quality 1 to 100, alpha
/// quality 0 to 100 and effort 0 to 6; GIF colours 2 to 256 and effort 1 to
/// 10; TIFF quality 1 to 100 and positive tile sizes; HEIF quality 1 to 100
/// and effort 0 to 9; JPEG-XL quality 1 to 100, decoding tier 0 to 4 and
/// effort 1 to 9; an animation loop count of 0 to 65535. Options are
/// accepted exactly when every value given is in its range.
pub proof fn lemma_option_ranges(
    jpeg: JpegOptions,
    png: PngOptions,
    dither_given: bool,
    jp2: Jp2Options,
    webp: WebpOptions,
    gif: GifOptions,
    tiff: TiffOptions,
    heif: HeifOptions,
    jxl: JxlOptions,
    loop_: Option<i32>,
)
    ensures
        jpeg_error(jpeg) is None <==> within(jpeg.quality, 1, 100) && within(
            jpeg.quantisation_table,
            0,
            8,
        ),
        png_error(png, dither_given, None) is None <==> within(png.compression_level, 0, 9)
            && within(png.colours, 2, 256) && (png_palette_spec(png, dither_given) ==> within(
            png.quality,
            0,
            100,
        ) && within(png.effort, 1, 10)),
        jp2_error(jp2) is None <==> within(jp2.quality, 1, 100) && within(jp2.tile_width, 1, 32768)
            && within(jp2.tile_height, 1, 32768),
        webp_error(webp) is None <==> within(webp.quality, 1, 100) && within(
            webp.alpha_quality,
            0,
            100,
        ) && within(webp.effort, 0, 6),
        gif_own_error(gif) is None <==> within(gif.colours, 2, 256) && within(gif.effort, 1, 10),
        tiff_error(tiff, None) is None <==> within(tiff.quality, 1, 100) && within(
            tiff.tile_width,
            1,
            i32::MAX as int,
        ) && within(tiff.tile_height, 1, i32::MAX as int),
        heif_error(heif) is None <==> within(heif.quality, 1, 100) && within(heif.effort, 0, 9),
        jxl_own_error(jxl, None) is None <==> within(jxl.quality, 1, 100) && within(
            jxl.decoding_tier,
            0,
            4,
        ) && within(jxl.effort, 1, 9),
        animation_error(loop_, None) is None <==> within(loop_, 0, 65535),
{
}

} // verus!
