use sharp::format::{FormatEnum, FormatOptions, RawOptions};
use sharp::metadata::{Exif, WithIccProfileOptions};
use std::collections::HashMap;
use sharp::output::{
    bitdepth_from_colour_count, foreign_webp_preset_string, AvifOptions, BitDepth, ChromaSubsampling,
    DzLayout, GifOptions, HeifCompression, HeifOptions, Jp2Options, JpegOptions, JxlOptions, OutputSettings,
    PngOptions, TiffBitDepth, TiffOptions, TileOptions, WebpOptions, WebpPreset,
};
use sharp::suffix::{assemble_suffix_string, build_dz_suffix};

/// The message of a refused parameter: `expected` as written in the source,
/// `actual` the source text of the value given.
fn refused(name: &str, expected: &str, actual: &str) -> String {
    format!("Expected {:?} for {:?} but received {:?}", format!("\"{}\"", expected), name, actual)
}

#[test]
fn new_output_settings_defaults() {
    let s = OutputSettings::new();
    assert_eq!(s.format_out, "input");
    assert_eq!(s.jpeg.quality, 80);
    assert_eq!(s.jpeg.chroma_subsampling, "4:2:0");
    assert!(s.jpeg.optimise_coding);
    assert_eq!(s.png.compression_level, 6);
    assert_eq!(s.webp.effort, 4);
    assert_eq!(s.gif.bitdepth, 8);
    assert_eq!(s.tiff.tile_width, 256);
    assert_eq!(s.heif.quality, 50);
    assert_eq!(s.heif.compression, HeifCompression::Av1);
    assert_eq!(s.jxl.effort, 7);
    assert_eq!(s.animation.loop_, -1);
    assert_eq!(s.metadata.keep, 0);
    assert_eq!(s.tile.format, "last");
    assert_eq!(s.tile.id, "https://example.com/iiif");
}

#[test]
fn jpeg_quality_and_mozjpeg() {
    let s = OutputSettings::new()
        .jpeg(Some(JpegOptions { quality: Some(100), mozjpeg: Some(true), ..Default::default() }))
        .unwrap();
    assert_eq!(s.format_out, "jpeg");
    assert_eq!(s.jpeg.quality, 100);
    assert!(s.jpeg.trellis_quantisation && s.jpeg.overshoot_deringing && s.jpeg.optimise_scans);
    assert!(s.jpeg.progressive);
    assert_eq!(s.jpeg.quantisation_table, 3);
    // an explicit table wins over mozjpeg's
    let s = OutputSettings::new()
        .jpeg(Some(JpegOptions { mozjpeg: Some(true), quantisation_table: Some(5), ..Default::default() }))
        .unwrap();
    assert_eq!(s.jpeg.quantisation_table, 5);
}

#[test]
fn jpeg_refusals() {
    let e = OutputSettings::new().jpeg(Some(JpegOptions { quality: Some(0), ..Default::default() })).err().unwrap();
    assert_eq!(e, refused("quality", "integer between 1 and 100", "quality"));
    let e = OutputSettings::new()
        .jpeg(Some(JpegOptions { quantisation_table: Some(9), ..Default::default() }))
        .err()
        .unwrap();
    assert_eq!(e, refused("quantisationTable", "integer between 0 and 8", "quantisationTable"));
}

#[test]
fn unforced_format_keeps_the_current_one() {
    let s = OutputSettings::new()
        .png(Some(PngOptions { force: Some(false), ..Default::default() }), false, None)
        .unwrap();
    assert_eq!(s.format_out, "input");
    let s = s.webp(None).unwrap();
    assert_eq!(s.format_out, "webp");
}

#[test]
fn png_palette_from_colours() {
    let s = OutputSettings::new()
        .png(Some(PngOptions { colours: Some(16), ..Default::default() }), false, None)
        .unwrap();
    assert!(s.png.palette);
    assert_eq!(s.png.bitdepth, 4);
    let s = OutputSettings::new().png(Some(PngOptions::default()), true, None).unwrap();
    assert!(s.png.palette);
    let s = OutputSettings::new().png(Some(PngOptions::default()), false, None).unwrap();
    assert!(!s.png.palette);
}

#[test]
fn png_refusals() {
    let e = OutputSettings::new()
        .png(Some(PngOptions { compression_level: Some(10), ..Default::default() }), false, None)
        .err()
        .unwrap();
    assert_eq!(e, refused("compressionLevel", "integer between 0 and 9", "compressionLevel"));
    let e = OutputSettings::new()
        .png(Some(PngOptions { palette: Some(true), quality: Some(101), ..Default::default() }), false, None)
        .err()
        .unwrap();
    assert_eq!(e, refused("quality", "integer between 0 and 100", "quality"));
    // the dither refusal counts only for palette output
    let ok = OutputSettings::new().png(Some(PngOptions { palette: Some(false), ..Default::default() }), true, Some("bad dither".to_string()));
    assert!(ok.is_ok());
    let e = OutputSettings::new()
        .png(Some(PngOptions::default()), true, Some("bad dither".to_string()))
        .err()
        .unwrap();
    assert_eq!(e, "bad dither");
}

#[test]
fn palette_bit_depths() {
    assert_eq!(bitdepth_from_colour_count(2), 1);
    assert_eq!(bitdepth_from_colour_count(4), 2);
    assert_eq!(bitdepth_from_colour_count(5), 2);
    assert_eq!(bitdepth_from_colour_count(16), 4);
    assert_eq!(bitdepth_from_colour_count(17), 4);
    assert_eq!(bitdepth_from_colour_count(256), 8);
    assert_eq!(bitdepth_from_colour_count(0), 0);
}

#[test]
fn webp_options_and_animation() {
    let s = OutputSettings::new()
        .webp(Some(WebpOptions {
            quality: Some(50),
            lossless: Some(true),
            loop_: Some(3),
            delay: Some(vec![100, 200]),
            ..Default::default()
        }))
        .unwrap();
    assert_eq!(s.webp.quality, 50);
    assert!(s.webp.lossless);
    assert_eq!(s.animation.loop_, 3);
    assert_eq!(s.animation.delay, vec![100, 200]);
}

#[test]
fn webp_named_presets_are_stored() {
    for p in [WebpPreset::Default, WebpPreset::Photo, WebpPreset::Picture, WebpPreset::Drawing, WebpPreset::Icon, WebpPreset::Text] {
        let s = OutputSettings::new().webp(Some(WebpOptions { preset: Some(p), ..Default::default() })).unwrap();
        assert_eq!(s.webp.preset, p);
        assert_eq!(s.format_out, "webp");
    }
}

#[test]
fn webp_refusals() {
    let e = OutputSettings::new()
        .webp(Some(WebpOptions { alpha_quality: Some(-1), ..Default::default() }))
        .err()
        .unwrap();
    assert_eq!(e, refused("alphaQuality", "integer between 0 and 100", "alphaQuality"));
    let e = OutputSettings::new()
        .webp(Some(WebpOptions { delay: Some(vec![10, 70000]), ..Default::default() }))
        .err()
        .unwrap();
    assert_eq!(e, refused("delay", "integer or an array of integers between 0 and 65535", "delay"));
    let e = OutputSettings::new()
        .webp(Some(WebpOptions { loop_: Some(-2), ..Default::default() }))
        .err()
        .unwrap();
    assert_eq!(e, refused("loop", "integer between 0 and 65535", "loop_"));
}

#[test]
fn gif_colours_and_refusals() {
    let s = OutputSettings::new()
        .gif(Some(GifOptions { colours: Some(32), effort: Some(3), ..Default::default() }), None)
        .unwrap();
    assert_eq!(s.format_out, "gif");
    assert_eq!(s.gif.bitdepth, 4);
    assert_eq!(s.gif.effort, 3);
    let e = OutputSettings::new()
        .gif(Some(GifOptions { colours: Some(1), ..Default::default() }), None)
        .err()
        .unwrap();
    assert_eq!(e, refused("colours", "integer between 2 and 256", "colors"));
    let e = OutputSettings::new()
        .gif(Some(GifOptions::default()), Some("bad dither".to_string()))
        .err()
        .unwrap();
    assert_eq!(e, "bad dither");
}

#[test]
fn jp2_tiff_heif_avif_jxl() {
    let s = OutputSettings::new()
        .jp2(Some(Jp2Options { tile_width: Some(1024), chroma_subsampling: Some(ChromaSubsampling::Two), ..Default::default() }))
        .unwrap();
    assert_eq!(s.jp2.tile_width, 1024);
    assert_eq!(s.jp2.chroma_subsampling, "4:2:0");
    let e = OutputSettings::new().jp2(Some(Jp2Options { tile_height: Some(0), ..Default::default() })).err().unwrap();
    assert_eq!(e, refused("tileHeight", "integer between 1 and 32768", "tile_height"));

    let s = OutputSettings::new()
        .tiff(Some(TiffOptions { bitdepth: Some(TiffBitDepth::Two), tile: Some(true), ..Default::default() }), None)
        .unwrap();
    assert_eq!(s.tiff.bitdepth, 2);
    assert!(s.tiff.tile);
    let e = OutputSettings::new()
        .tiff(Some(TiffOptions { tile_width: Some(0), ..Default::default() }), None)
        .err()
        .unwrap();
    assert_eq!(e, refused("tileWidth", "integer greater than zero", "tile_width"));

    let s = OutputSettings::new()
        .heif(Some(HeifOptions { compression: Some(HeifCompression::Hevc), bitdepth: Some(BitDepth::Ten), ..Default::default() }))
        .unwrap();
    assert_eq!(s.format_out, "heif");
    assert_eq!(s.heif.compression, HeifCompression::Hevc);
    assert_eq!(s.heif.bitdepth, 10);
    let s = s.avif(Some(AvifOptions { effort: Some(9), ..Default::default() })).unwrap();
    assert_eq!(s.heif.compression, HeifCompression::Av1);
    assert_eq!(s.heif.effort, 9);
    let e = OutputSettings::new().avif(Some(AvifOptions { effort: Some(10), ..Default::default() })).err().unwrap();
    assert_eq!(e, refused("effort", "integer between 0 and 9", "effort"));

    let s = OutputSettings::new()
        .jxl(Some(JxlOptions { quality: Some(90), decoding_tier: Some(2), ..Default::default() }), None)
        .unwrap();
    assert_eq!(s.format_out, "jxl");
    assert_eq!(s.jxl.decoding_tier, 2);
    let e = OutputSettings::new()
        .jxl(Some(JxlOptions { decoding_tier: Some(5), ..Default::default() }), None)
        .err()
        .unwrap();
    assert_eq!(e, refused("decodingTier", "integer between 0 and 4", "decoding_tier"));
    // the distance counts only without a quality
    assert!(OutputSettings::new()
        .jxl(Some(JxlOptions { quality: Some(50), ..Default::default() }), Some("bad distance".to_string()))
        .is_ok());
}

#[test]
fn tile_takes_the_output_format() {
    let s = OutputSettings::new().png(None, false, None).unwrap().tile(None).unwrap();
    assert_eq!(s.format_out, "dz");
    assert_eq!(s.tile.format, "png");
    let s = OutputSettings::new()
        .tile(Some(TileOptions { size: Some(512), layout: Some(DzLayout::Google), ..Default::default() }))
        .unwrap();
    assert_eq!(s.tile.size, 512);
    assert_eq!(s.tile.skip_blanks, 5);
    assert_eq!(s.tile.format, "last");
}

#[test]
fn tile_refusals() {
    let e = OutputSettings::new().gif(None, None).unwrap().tile(None).err().unwrap();
    assert_eq!(e, refused("format", "one of: jpeg, png, webp", "format_out"));
    let e = OutputSettings::new()
        .tile(Some(TileOptions { angle: Some(45), ..Default::default() }))
        .err()
        .unwrap();
    assert_eq!(e, refused("angle", "positive/negative multiple of 90", "angle"));
    let e = OutputSettings::new()
        .tile(Some(TileOptions { overlap: Some(300), ..Default::default() }))
        .err()
        .unwrap();
    assert_eq!(
        e,
        format!(
            "Expected {:?} for {:?} but received {:?}",
            "format!(\"<= size ({:?})\", self.options.tileSize)",
            "overlap",
            "overlap"
        )
    );
}

#[test]
fn to_format_dispatches_and_refuses() {
    let s = OutputSettings::new().to_format(FormatEnum::Jpg, None).unwrap();
    assert_eq!(s.format_out, "jpeg");
    let s = OutputSettings::new()
        .to_format(FormatEnum::Raw, Some(FormatOptions { raw_options: Some(RawOptions { force: Some(true) }), ..Default::default() }))
        .unwrap();
    assert_eq!(s.format_out, "raw");
    let e = OutputSettings::new().to_format(FormatEnum::Pdf, None).err().unwrap();
    assert_eq!(e, refused("format", "Invalid format", "format"));
    assert_eq!(FormatEnum::Openslide.to_text(), "openslide");
}

#[test]
fn metadata_keep_bits() {
    let s = OutputSettings::new().keep_exif();
    assert_eq!(s.metadata.keep, 1);
    let s = s.keep_icc_profile();
    assert_eq!(s.metadata.keep, 9);
    let s = OutputSettings::new().with_icc_profile("p3", Some(WithIccProfileOptions { attach: Some(false) }));
    assert_eq!(s.metadata.keep, 0);
    assert_eq!(s.metadata.icc_profile, "p3");
    let s = OutputSettings::new().keep_metadata();
    assert_eq!(s.metadata.keep, 31);
}

#[test]
fn with_metadata_orientation() {
    let s = OutputSettings::new().with_metadata(Some(6), None).unwrap();
    assert_eq!(s.metadata.keep, 31);
    assert_eq!(s.metadata.icc_profile, "srgb");
    assert_eq!(s.metadata.orientation, 6);
    let e = OutputSettings::new().with_metadata(Some(9), None).err().unwrap();
    assert_eq!(e, refused("orientation", "integer between 1 and 8", "orientation"));
    let e = OutputSettings::new().with_metadata(None, Some("bad density".to_string())).err().unwrap();
    assert_eq!(e, "bad density");
}

#[test]
fn exif_keys() {
    let exif = Exif {
        ifd0: Some(vec![("Copyright".to_string(), "The National Gallery".to_string())]),
        ifd3: Some(vec![("GPSLatitudeRef".to_string(), "N".to_string())]),
        ..Default::default()
    };
    let s = OutputSettings::new().with_exif(exif.clone());
    assert!(!s.metadata.exif_merge);
    assert_eq!(
        s.metadata.exif,
        vec![
            ("exif-ifd0-Copyright".to_string(), "The National Gallery".to_string()),
            ("exif-ifd3-GPSLatitudeRef".to_string(), "N".to_string()),
        ]
    );
    let s = OutputSettings::new().with_exif_merge(exif);
    assert!(s.metadata.exif_merge);
    assert_eq!(s.metadata.exif.len(), 2);
}

#[test]
fn suffix_strings() {
    assert_eq!(assemble_suffix_string(".png", vec![("a", "1".to_string()), ("b", "2".to_string())]), ".png[a=1,b=2]");
    assert_eq!(assemble_suffix_string(".jpg", vec![]), ".jpg[]");
    let s = OutputSettings::new();
    assert_eq!(
        build_dz_suffix(&s),
        ".jpeg[Q=80,interlace=false,subsample_mode=on,trellis_quant=false,quant_table=0,overshoot_deringing=false,optimize_scans=false,optimize_coding=true]"
    );
    let s = OutputSettings::new().png(None, false, None).unwrap().tile(None).unwrap();
    assert_eq!(build_dz_suffix(&s), ".png[interlace=false,compression=6,filter=none]");
    let s = OutputSettings::new().webp(None).unwrap().tile(Some(TileOptions { layout: Some(DzLayout::Iiif), ..Default::default() })).unwrap();
    assert_eq!(
        build_dz_suffix(&s),
        ".webp[Q=80,alpha_q=100,lossless=false,near_lossless=false,smart_subsample=false,smart_deblock=false,preset=default,min_size=false,mixed=false,effort=4]"
    );
    assert_eq!(foreign_webp_preset_string(WebpPreset::Drawing), "drawing");
    let s = OutputSettings::new()
        .jpeg(Some(JpegOptions { chroma_subsampling: Some("4:4:4".to_string()), ..Default::default() }))
        .unwrap()
        .tile(Some(TileOptions { layout: Some(DzLayout::Zoomify), ..Default::default() }))
        .unwrap();
    assert!(build_dz_suffix(&s).starts_with(".jpg[Q=80,interlace=false,subsample_mode=off,"));
}

#[test]
fn later_exif_pair_replaces_earlier() {
    let s = OutputSettings::new().with_exif(Exif {
        ifd0: Some(vec![
            ("Software".to_string(), "a".to_string()),
            ("Software".to_string(), "b".to_string()),
        ]),
        ..Default::default()
    });
    let written: HashMap<String, String> = s.metadata.exif.iter().cloned().collect();
    assert_eq!(written.len(), 1);
    assert_eq!(written["exif-ifd0-Software"], "b");
}

#[test]
fn exif_fields_are_kept_in_the_output() {
    let exif = Exif {
        ifd0: Some(vec![
            ("Copyright".to_string(), "Test 1".to_string()),
            ("Software".to_string(), "sharp".to_string()),
        ]),
        ..Default::default()
    };
    let s = OutputSettings::new().with_exif(exif.clone());
    assert_eq!(s.metadata.keep, 1);
    let s = OutputSettings::new().keep_icc_profile().with_exif_merge(exif);
    assert_eq!(s.metadata.keep, 9);
    assert!(s.metadata.exif_merge);
}
