//! The argument suffix through which the deep-zoom writer receives the
//! encoder options of its tiles: `ext[name=value,...]`.
use crate::output::{foreign_webp_preset_string, webp_preset_text, DzLayout, OutputSettings};
use crate::text::{int_text, int_to_string, str_eq};
use vstd::prelude::*;

verus! {

broadcast use vstd::string::group_string_axioms;

/// `name=value` pairs joined by commas.
pub open spec fn joined_options(opts: Seq<(Seq<char>, Seq<char>)>) -> Seq<char>
    decreases opts.len(),
{
    if opts.len() == 0 {
        seq![]
    } else if opts.len() == 1 {
        opts[0].0 + "="@ + opts[0].1
    } else {
        joined_options(opts.drop_last()) + ","@ + opts.last().0 + "="@ + opts.last().1
    }
}

/// `ext[name=value,...]`.
pub open spec fn suffix_text(ext: Seq<char>, opts: Seq<(Seq<char>, Seq<char>)>) -> Seq<char> {
    ext + "["@ + joined_options(opts) + "]"@
}

/// The views of name and value pairs.
pub open spec fn options_view(v: Seq<(&str, String)>) -> Seq<(Seq<char>, Seq<char>)> {
    v.map_values(|p: (&str, String)| (p.0@, p.1@))
}

/// Joins the name and value pairs into an argument suffix of `extname`.
pub fn assemble_suffix_string(extname: &str, options: Vec<(&str, String)>) -> (r: String)
    ensures
        r@ == suffix_text(extname@, options_view(options@)),
{
    let mut arguments = String::new();
    let ghost all = options_view(options@);
    let mut i: usize = 0;
    while i < options.len()
        invariant
            i <= options@.len(),
            all == options_view(options@),
            arguments@ == joined_options(all.take(i as int)),
        decreases options@.len() - i,
    {
        let ghost prev = arguments@;
        proof {
            let t = all.take(i as int + 1);
            assert(t.drop_last() =~= all.take(i as int));
            assert(t.last() == all[i as int]);
        }
        if i > 0 {
            arguments.append(",");
        }
        arguments.append(options[i].0);
        arguments.append("=");
        arguments.append(options[i].1.as_str());
        proof {
            reveal_strlit(",");
            reveal_strlit("=");
            if i == 0 {
                assert(arguments@ =~= joined_options(all.take(1)));
            } else {
                assert(arguments@ =~= joined_options(all.take(i as int + 1)));
            }
        }
        i += 1;
    }
    proof {
        assert(all.take(options@.len() as int) =~= all);
    }
    let mut out = String::new();
    out.append(extname);
    out.append("[");
    out.append(arguments.as_str());
    out.append("]");
    proof {
        reveal_strlit("[");
        reveal_strlit("]");
    }
    out
}

/// `true` or `false`.
pub open spec fn bool_text(b: bool) -> Seq<char> {
    if b {
        "true"@
    } else {
        "false"@
    }
}

fn bool_string(b: bool) -> (r: String)
    ensures
        r@ == bool_text(b),
{
    if b {
        "true".to_string()
    } else {
        "false".to_string()
    }
}

/// The options forwarded to PNG tiles.
pub open spec fn png_tile_options(s: OutputSettings) -> Seq<(Seq<char>, Seq<char>)> {
    seq![
        ("interlace"@, bool_text(s.png.progressive)),
        ("compression"@, int_text(s.png.compression_level as int)),
        ("filter"@, if s.png.adaptive_filtering { "all"@ } else { "none"@ }),
    ]
}

/// The options forwarded to WebP tiles.
pub open spec fn webp_tile_options(s: OutputSettings) -> Seq<(Seq<char>, Seq<char>)> {
    seq![
        ("Q"@, int_text(s.webp.quality as int)),
        ("alpha_q"@, int_text(s.webp.alpha_quality as int)),
        ("lossless"@, bool_text(s.webp.lossless)),
        ("near_lossless"@, bool_text(s.webp.near_lossless)),
        ("smart_subsample"@, bool_text(s.webp.smart_subsample)),
        ("smart_deblock"@, bool_text(s.webp.smart_deblock)),
        ("preset"@, webp_preset_text(s.webp.preset)),
        ("min_size"@, bool_text(s.webp.min_size)),
        ("mixed"@, bool_text(s.webp.mixed)),
        ("effort"@, int_text(s.webp.effort as int)),
    ]
}

/// The options forwarded to JPEG tiles.
pub open spec fn jpeg_tile_options(s: OutputSettings) -> Seq<(Seq<char>, Seq<char>)> {
    seq![
        ("Q"@, int_text(s.jpeg.quality as int)),
        ("interlace"@, bool_text(s.jpeg.progressive)),
        ("subsample_mode"@, if s.jpeg.chroma_subsampling@ == "4:4:4"@ { "off"@ } else { "on"@ }),
        ("trellis_quant"@, bool_text(s.jpeg.trellis_quantisation)),
        ("quant_table"@, int_text(s.jpeg.quantisation_table as int)),
        ("overshoot_deringing"@, bool_text(s.jpeg.overshoot_deringing)),
        ("optimize_scans"@, bool_text(s.jpeg.optimise_scans)),
        ("optimize_coding"@, bool_text(s.jpeg.optimise_coding)),
    ]
}

/// The suffix for the tiles of `s`: PNG or WebP when that is the tile
/// format, else JPEG, named `.jpeg` in the Deep Zoom layout and `.jpg` in
/// the others.
pub open spec fn dz_suffix(s: OutputSettings) -> Seq<char> {
    if s.tile.format@ == "png"@ {
        suffix_text(".png"@, png_tile_options(s))
    } else if s.tile.format@ == "webp"@ {
        suffix_text(".webp"@, webp_tile_options(s))
    } else {
        suffix_text(
            if s.tile.layout == DzLayout::Dz {
                ".jpeg"@
            } else {
                ".jpg"@
            },
            jpeg_tile_options(s),
        )
    }
}

/// The suffix for the tiles names the tile encoder by its extension (PNG,
/// WebP, else JPEG, `.jpeg` in the Deep Zoom layout and `.jpg` in the
/// others) and forwards its settings, in this order: for PNG the
/// interlacing, compression level and filter (`all` for adaptive
/// filtering, else `none`); for JPEG the quality, interlacing, chroma
/// subsampling (`off` for 4:4:4, else `on`), trellis quantisation,
/// quantisation table, overshoot deringing, scan optimisation and coding
/// optimisation.
pub proof fn lemma_dz_suffix_options(s: OutputSettings)
    ensures
        s.tile.format@ == "png"@ ==> dz_suffix(s) == suffix_text(
            ".png"@,
            seq![
                ("interlace"@, bool_text(s.png.progressive)),
                ("compression"@, int_text(s.png.compression_level as int)),
                ("filter"@, if s.png.adaptive_filtering { "all"@ } else { "none"@ }),
            ],
        ),
        (s.tile.format@ != "png"@ && s.tile.format@ != "webp"@) ==> dz_suffix(s) == suffix_text(
            if s.tile.layout == DzLayout::Dz { ".jpeg"@ } else { ".jpg"@ },
            seq![
                ("Q"@, int_text(s.jpeg.quality as int)),
                ("interlace"@, bool_text(s.jpeg.progressive)),
                ("subsample_mode"@, if s.jpeg.chroma_subsampling@ == "4:4:4"@ { "off"@ } else { "on"@ }),
                ("trellis_quant"@, bool_text(s.jpeg.trellis_quantisation)),
                ("quant_table"@, int_text(s.jpeg.quantisation_table as int)),
                ("overshoot_deringing"@, bool_text(s.jpeg.overshoot_deringing)),
                ("optimize_scans"@, bool_text(s.jpeg.optimise_scans)),
                ("optimize_coding"@, bool_text(s.jpeg.optimise_coding)),
            ],
        ),
        bool_text(true) == "true"@ && bool_text(false) == "false"@,
{
}

/// Joining `name=value` pairs: one pair is `name=value`, and each further
/// pair adds a comma and its `name=value`.
pub proof fn lemma_joined_options(opts: Seq<(Seq<char>, Seq<char>)>, x: (Seq<char>, Seq<char>))
    ensures
        joined_options(seq![x]) == x.0 + "="@ + x.1,
        opts.len() > 0 ==> joined_options(opts.push(x)) == joined_options(opts) + ","@ + x.0 + "="@
            + x.1,
{
    assert(seq![x][0] == x);
    if opts.len() > 0 {
        assert(opts.push(x).drop_last() =~= opts);
    }
}

/// The argument suffix that forwards the tile encoder options of `s`.
pub fn build_dz_suffix(s: &OutputSettings) -> (r: String)
    ensures
        r@ == dz_suffix(*s),
{
    let mut options: Vec<(&str, String)> = Vec::new();
    let format = s.tile.format.as_str();
    if str_eq(format, "png") {
        options.push(("interlace", bool_string(s.png.progressive)));
        options.push(("compression", int_to_string(s.png.compression_level as i64)));
        options.push(("filter", if s.png.adaptive_filtering { "all".to_string() } else { "none".to_string() }));
        assert(options_view(options@) =~= png_tile_options(*s));
        assemble_suffix_string(".png", options)
    } else if str_eq(format, "webp") {
        options.push(("Q", int_to_string(s.webp.quality as i64)));
        options.push(("alpha_q", int_to_string(s.webp.alpha_quality as i64)));
        options.push(("lossless", bool_string(s.webp.lossless)));
        options.push(("near_lossless", bool_string(s.webp.near_lossless)));
        options.push(("smart_subsample", bool_string(s.webp.smart_subsample)));
        options.push(("smart_deblock", bool_string(s.webp.smart_deblock)));
        options.push(("preset", foreign_webp_preset_string(s.webp.preset)));
        options.push(("min_size", bool_string(s.webp.min_size)));
        options.push(("mixed", bool_string(s.webp.mixed)));
        options.push(("effort", int_to_string(s.webp.effort as i64)));
        assert(options_view(options@) =~= webp_tile_options(*s));
        assemble_suffix_string(".webp", options)
    } else {
        options.push(("Q", int_to_string(s.jpeg.quality as i64)));
        options.push(("interlace", bool_string(s.jpeg.progressive)));
        options.push(
            (
                "subsample_mode",
                if str_eq(s.jpeg.chroma_subsampling.as_str(), "4:4:4") {
                    "off".to_string()
                } else {
                    "on".to_string()
                },
            ),
        );
        options.push(("trellis_quant", bool_string(s.jpeg.trellis_quantisation)));
        options.push(("quant_table", int_to_string(s.jpeg.quantisation_table as i64)));
        options.push(("overshoot_deringing", bool_string(s.jpeg.overshoot_deringing)));
        options.push(("optimize_scans", bool_string(s.jpeg.optimise_scans)));
        options.push(("optimize_coding", bool_string(s.jpeg.optimise_coding)));
        assert(options_view(options@) =~= jpeg_tile_options(*s));
        let extname = if s.tile.layout == DzLayout::Dz {
            ".jpeg"
        } else {
            ".jpg"
        };
        assemble_suffix_string(extname, options)
    }
}

} // verus!
