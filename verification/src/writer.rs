//! Choosing the encoder that writes the output: from the chosen output
//! format, the name of the output file, or the format of the input.
use crate::image_type::{
    is_dz, is_dz_zip, is_gif, is_heif, is_jp2, is_jpeg, is_jxl, is_png, is_tiff, is_v, is_webp,
    image_type_id, type_id, ImageType,
};
use crate::text::{has_suffix, push_str, str_eq};
use vstd::prelude::*;

verus! {

broadcast use vstd::string::group_string_axioms;

/// An encoder of the output.
#[derive(Debug, Clone, Copy, PartialEq, Eq, Structural)]
pub enum Writer {
    Jpeg,
    Jp2,
    Png,
    Webp,
    Gif,
    Tiff,
    Heif,
    Jxl,
    /// Deep-zoom tiles, in a zip container or not.
    Dz { zip: bool },
    /// The libvips native format.
    V,
    /// Raw pixel data.
    Raw,
}

/// The output format recorded after writing with `w`.
pub open spec fn writer_format(w: Writer) -> Seq<char> {
    match w {
        Writer::Jpeg => "jpeg"@,
        Writer::Jp2 => "jp2"@,
        Writer::Png => "png"@,
        Writer::Webp => "webp"@,
        Writer::Gif => "gif"@,
        Writer::Tiff => "tiff"@,
        Writer::Heif => "heif"@,
        Writer::Jxl => "jxl"@,
        Writer::Dz { .. } => "dz"@,
        Writer::V => "v"@,
        Writer::Raw => "raw"@,
    }
}

impl Writer {
    /// The output format recorded after writing with this encoder.
    pub fn format(&self) -> (r: String)
        ensures
            r@ == writer_format(*self),
    {
        match self {
            Writer::Jpeg => "jpeg".to_string(),
            Writer::Jp2 => "jp2".to_string(),
            Writer::Png => "png".to_string(),
            Writer::Webp => "webp".to_string(),
            Writer::Gif => "gif".to_string(),
            Writer::Tiff => "tiff".to_string(),
            Writer::Heif => "heif".to_string(),
            Writer::Jxl => "jxl".to_string(),
            Writer::Dz { .. } => "dz".to_string(),
            Writer::V => "v".to_string(),
            Writer::Raw => "raw".to_string(),
        }
    }
}

/// The encoder for output to a buffer in format `f`, or, when `f` is
/// `input`, in the format `t` of the input; `None` when there is none.
pub open spec fn buffer_writer_spec(f: Seq<char>, t: ImageType) -> Option<Writer> {
    let input = f == "input"@;
    if f == "jpeg"@ || (input && t == ImageType::Jpeg) {
        Some(Writer::Jpeg)
    } else if f == "jp2"@ || (input && t == ImageType::JP2) {
        Some(Writer::Jp2)
    } else if f == "png"@ || (input && (t == ImageType::Png || t == ImageType::SVG)) {
        Some(Writer::Png)
    } else if f == "webp"@ || (input && t == ImageType::Webp) {
        Some(Writer::Webp)
    } else if f == "gif"@ || (input && t == ImageType::GIF) {
        Some(Writer::Gif)
    } else if f == "tiff"@ || (input && t == ImageType::Tiff) {
        Some(Writer::Tiff)
    } else if f == "heif"@ || (input && t == ImageType::HEIF) {
        Some(Writer::Heif)
    } else if f == "dz"@ {
        Some(Writer::Dz { zip: true })
    } else if f == "jxl"@ || (input && t == ImageType::JXL) {
        Some(Writer::Jxl)
    } else if f == "raw"@ || (input && t == ImageType::RAW) {
        Some(Writer::Raw)
    } else {
        None
    }
}

/// The message when no encoder writes a buffer in format `f`.
pub open spec fn unsupported_buffer_text(f: Seq<char>, t: ImageType) -> Seq<char> {
    "Unsupported output format "@ + if f == "input"@ {
        "when trying to match input format of "@ + type_id(t)
    } else {
        f
    }
}

/// Chooses the encoder for output to a buffer.
pub fn buffer_writer(format_out: &str, input_image_type: ImageType) -> (r: Result<Writer, String>)
    ensures
        match buffer_writer_spec(format_out@, input_image_type) {
            Some(w) => r == Ok::<Writer, String>(w),
            None => r matches Err(e) && e@ == unsupported_buffer_text(format_out@, input_image_type),
        },
{
    let t = input_image_type;
    let input = str_eq(format_out, "input");
    if str_eq(format_out, "jpeg") || (input && t == ImageType::Jpeg) {
        Ok(Writer::Jpeg)
    } else if str_eq(format_out, "jp2") || (input && t == ImageType::JP2) {
        Ok(Writer::Jp2)
    } else if str_eq(format_out, "png") || (input && (t == ImageType::Png || t == ImageType::SVG)) {
        Ok(Writer::Png)
    } else if str_eq(format_out, "webp") || (input && t == ImageType::Webp) {
        Ok(Writer::Webp)
    } else if str_eq(format_out, "gif") || (input && t == ImageType::GIF) {
        Ok(Writer::Gif)
    } else if str_eq(format_out, "tiff") || (input && t == ImageType::Tiff) {
        Ok(Writer::Tiff)
    } else if str_eq(format_out, "heif") || (input && t == ImageType::HEIF) {
        Ok(Writer::Heif)
    } else if str_eq(format_out, "dz") {
        Ok(Writer::Dz { zip: true })
    } else if str_eq(format_out, "jxl") || (input && t == ImageType::JXL) {
        Ok(Writer::Jxl)
    } else if str_eq(format_out, "raw") || (input && t == ImageType::RAW) {
        Ok(Writer::Raw)
    } else {
        let mut err = String::new();
        push_str(&mut err, "Unsupported output format ");
        if input {
            push_str(&mut err, "when trying to match input format of ");
            let id = image_type_id(t);
            push_str(&mut err, id.as_str());
        } else {
            push_str(&mut err, format_out);
        }
        proof {
            reveal_strlit("Unsupported output format ");
            reveal_strlit("when trying to match input format of ");
        }
        Err(err)
    }
}

/// The file extensions that name an output format.
pub struct FileKinds {
    pub jpeg: bool,
    pub png: bool,
    pub webp: bool,
    pub gif: bool,
    pub tiff: bool,
    pub jp2: bool,
    pub heif: bool,
    pub jxl: bool,
    pub dz: bool,
    pub dz_zip: bool,
    pub v: bool,
}

/// The output formats that the extension of `file` names.
pub open spec fn file_kinds(file: Seq<char>) -> FileKinds {
    FileKinds {
        jpeg: has_suffix(file, ".jpg"@) || has_suffix(file, ".JPG"@) || has_suffix(file, ".jpeg"@)
            || has_suffix(file, ".JPEG"@),
        png: has_suffix(file, ".png"@) || has_suffix(file, ".PNG"@),
        webp: has_suffix(file, ".webp"@) || has_suffix(file, ".WEBP"@),
        gif: has_suffix(file, ".gif"@) || has_suffix(file, ".GIF"@),
        tiff: has_suffix(file, ".tif"@) || has_suffix(file, ".tiff"@) || has_suffix(file, ".TIF"@)
            || has_suffix(file, ".TIFF"@),
        jp2: has_suffix(file, ".jp2"@) || has_suffix(file, ".jpx"@) || has_suffix(file, ".j2k"@)
            || has_suffix(file, ".j2c"@) || has_suffix(file, ".JP2"@) || has_suffix(file, ".JPX"@)
            || has_suffix(file, ".J2K"@) || has_suffix(file, ".J2C"@),
        heif: has_suffix(file, ".heif"@) || has_suffix(file, ".HEIF"@) || has_suffix(file, ".heic"@)
            || has_suffix(file, ".HEIC"@) || has_suffix(file, ".avif"@) || has_suffix(file, ".AVIF"@),
        jxl: has_suffix(file, ".jxl"@) || has_suffix(file, ".JXL"@),
        dz: has_suffix(file, ".dzi"@) || has_suffix(file, ".DZI"@),
        dz_zip: has_suffix(file, ".zip"@) || has_suffix(file, ".ZIP"@) || has_suffix(file, ".szi"@)
            || has_suffix(file, ".SZI"@),
        v: has_suffix(file, ".v"@) || has_suffix(file, ".V"@) || has_suffix(file, ".vips"@)
            || has_suffix(file, ".VIPS"@),
    }
}

/// The encoder for output to `file` in format `f`: the format when given,
/// else the one the file extension names, else (for an extension that
/// names none of JPEG, PNG, WebP, GIF, TIFF, JPEG 2000, HEIF, Deep Zoom or
/// V) the format `t` of the input; `None` when there is none.
pub open spec fn file_writer_spec(f: Seq<char>, file: Seq<char>, t: ImageType) -> Option<Writer> {
    let k = file_kinds(file);
    let might = f == "input"@;
    let will = might && !(k.jpeg || k.png || k.webp || k.gif || k.tiff || k.jp2 || k.heif || k.dz
        || k.dz_zip || k.v);
    if f == "jpeg"@ || (might && k.jpeg) || (will && t == ImageType::Jpeg) {
        Some(Writer::Jpeg)
    } else if f == "jp2"@ || (might && k.jp2) || (will && t == ImageType::JP2) {
        Some(Writer::Jp2)
    } else if f == "png"@ || (might && k.png) || (will && (t == ImageType::Png || t
        == ImageType::SVG)) {
        Some(Writer::Png)
    } else if f == "webp"@ || (might && k.webp) || (will && t == ImageType::Webp) {
        Some(Writer::Webp)
    } else if f == "gif"@ || (might && k.gif) || (will && t == ImageType::GIF) {
        Some(Writer::Gif)
    } else if f == "tiff"@ || (might && k.tiff) || (will && t == ImageType::Tiff) {
        Some(Writer::Tiff)
    } else if f == "heif"@ || (might && k.heif) || (will && t == ImageType::HEIF) {
        Some(Writer::Heif)
    } else if f == "jxl"@ || (might && k.jxl) || (will && t == ImageType::JXL) {
        Some(Writer::Jxl)
    } else if f == "dz"@ || k.dz || k.dz_zip {
        Some(Writer::Dz { zip: k.dz_zip })
    } else if f == "v"@ || (might && k.v) || (will && t == ImageType::VIPS) {
        Some(Writer::V)
    } else {
        None
    }
}

/// The message when no encoder writes `file`.
pub open spec fn unsupported_file_text(file: Seq<char>) -> Seq<char> {
    "Unsupported output format "@ + file
}

/// Chooses the encoder for output to the file `file_out`.
pub fn file_writer(format_out: &str, file_out: &str, input_image_type: ImageType) -> (r: Result<
    Writer,
    String,
>)
    ensures
        match file_writer_spec(format_out@, file_out@, input_image_type) {
            Some(w) => r == Ok::<Writer, String>(w),
            None => r matches Err(e) && e@ == unsupported_file_text(file_out@),
        },
{
    let t = input_image_type;
    let jpeg = is_jpeg(file_out);
    let png = is_png(file_out);
    let webp = is_webp(file_out);
    let gif = is_gif(file_out);
    let tiff = is_tiff(file_out);
    let jp2 = is_jp2(file_out);
    let heif = is_heif(file_out);
    let jxl = is_jxl(file_out);
    let dz = is_dz(file_out);
    let dz_zip = is_dz_zip(file_out);
    let v = is_v(file_out);
    let might = str_eq(format_out, "input");
    let will = might && !(jpeg || png || webp || gif || tiff || jp2 || heif || dz || dz_zip || v);
    if str_eq(format_out, "jpeg") || (might && jpeg) || (will && t == ImageType::Jpeg) {
        Ok(Writer::Jpeg)
    } else if str_eq(format_out, "jp2") || (might && jp2) || (will && t == ImageType::JP2) {
        Ok(Writer::Jp2)
    } else if str_eq(format_out, "png") || (might && png) || (will && (t == ImageType::Png || t
        == ImageType::SVG)) {
        Ok(Writer::Png)
    } else if str_eq(format_out, "webp") || (might && webp) || (will && t == ImageType::Webp) {
        Ok(Writer::Webp)
    } else if str_eq(format_out, "gif") || (might && gif) || (will && t == ImageType::GIF) {
        Ok(Writer::Gif)
    } else if str_eq(format_out, "tiff") || (might && tiff) || (will && t == ImageType::Tiff) {
        Ok(Writer::Tiff)
    } else if str_eq(format_out, "heif") || (might && heif) || (will && t == ImageType::HEIF) {
        Ok(Writer::Heif)
    } else if str_eq(format_out, "jxl") || (might && jxl) || (will && t == ImageType::JXL) {
        Ok(Writer::Jxl)
    } else if str_eq(format_out, "dz") || dz || dz_zip {
        Ok(Writer::Dz { zip: dz_zip })
    } else if str_eq(format_out, "v") || (might && v) || (will && t == ImageType::VIPS) {
        Ok(Writer::V)
    } else {
        let mut err = String::new();
        push_str(&mut err, "Unsupported output format ");
        push_str(&mut err, file_out);
        proof {
            reveal_strlit("Unsupported output format ");
        }
        Err(err)
    }
}

/// The number of channels reported after writing with `w`: JPEG keeps at
/// most 3 (4 for CMYK output to a buffer), TIFF with JPEG compression at
/// most 3, greyscale raw output 1.
pub open spec fn written_channels_spec(w: Writer, channels: int, to_buffer: bool, cmyk: bool, tiff_jpeg: bool, grey: bool) -> int {
    match w {
        Writer::Jpeg => {
            let cap = if to_buffer && cmyk {
                4
            } else {
                3
            };
            if channels < cap {
                channels
            } else {
                cap
            }
        },
        Writer::Tiff => if tiff_jpeg && channels > 3 {
            3
        } else {
            channels
        },
        Writer::Raw => if grey {
            1
        } else {
            channels
        },
        _ => channels,
    }
}

/// JPEG keeps at most 3 channels (4 for CMYK written to a buffer), TIFF
/// with JPEG compression at most 3, raw output of a greyscale image 1; a
/// cap never adds channels, and every other writer keeps all of them.
pub proof fn lemma_written_channels(w: Writer, channels: int, to_buffer: bool, cmyk: bool, tiff_jpeg: bool, grey: bool)
    ensures
        ({
            let r = written_channels_spec(w, channels, to_buffer, cmyk, tiff_jpeg, grey);
            let jpeg_cap = if to_buffer && cmyk { 4int } else { 3int };
            &&& w == Writer::Jpeg ==> r == if channels < jpeg_cap { channels } else { jpeg_cap }
            &&& w == Writer::Tiff ==> r == if tiff_jpeg && channels > 3 { 3 } else { channels }
            &&& w == Writer::Raw ==> r == if grey { 1 } else { channels }
            &&& (w != Writer::Jpeg && w != Writer::Tiff && w != Writer::Raw) ==> r == channels
        }),
{
}

/// The number of channels reported after writing with `w`.
pub fn written_channels(w: Writer, channels: i32, to_buffer: bool, cmyk: bool, tiff_jpeg: bool, grey: bool) -> (r: i32)
    ensures
        r == written_channels_spec(w, channels as int, to_buffer, cmyk, tiff_jpeg, grey),
{
    match w {
        Writer::Jpeg => {
            let cap: i32 = if to_buffer && cmyk {
                4
            } else {
                3
            };
            if channels < cap {
                channels
            } else {
                cap
            }
        },
        Writer::Tiff => if tiff_jpeg && channels > 3 {
            3
        } else {
            channels
        },
        Writer::Raw => if grey {
            1
        } else {
            channels
        },
        _ => channels,
    }
}


/// The formats that can be named for file output.
pub open spec fn file_format_named(f: Seq<char>) -> bool {
    f == "jpeg"@ || f == "jp2"@ || f == "png"@ || f == "webp"@ || f == "gif"@ || f == "tiff"@ || f
        == "heif"@ || f == "jxl"@ || f == "dz"@
}

/// The formats that can be named for buffer output.
pub open spec fn buffer_format_named(f: Seq<char>) -> bool {
    f == "jpeg"@ || f == "jp2"@ || f == "png"@ || f == "webp"@ || f == "gif"@ || f == "tiff"@ || f
        == "heif"@ || f == "jxl"@ || f == "dz"@ || f == "raw"@
}

/// A format chosen by name is the one written, whatever the file is called
/// and whatever the input was; a file of V format is written as such unless
/// its name ends as a Deep Zoom one.
pub proof fn lemma_named_format_wins(f: Seq<char>, file: Seq<char>, t: ImageType)
    ensures
        file_format_named(f) ==> (file_writer_spec(f, file, t) matches Some(w) && writer_format(w)
            == f),
        buffer_format_named(f) ==> (buffer_writer_spec(f, t) matches Some(w) && writer_format(w)
            == f),
        (f == "v"@ && !file_kinds(file).dz && !file_kinds(file).dz_zip) ==> file_writer_spec(
            f,
            file,
            t,
        ) == Some(Writer::V),
{
    reveal_strlit("jpeg");
    reveal_strlit("jp2");
    reveal_strlit("png");
    reveal_strlit("webp");
    reveal_strlit("gif");
    reveal_strlit("tiff");
    reveal_strlit("heif");
    reveal_strlit("jxl");
    reveal_strlit("dz");
    reveal_strlit("raw");
    reveal_strlit("v");
    reveal_strlit("input");
    if f == "v"@ && !file_kinds(file).dz && !file_kinds(file).dz_zip {
        let k = file_kinds(file);
        assert("v"@.len() == 1);
        assert("input"@.len() == 5);
        assert(f != "input"@);
        assert(!(f == "dz"@ || k.dz || k.dz_zip));
        assert(file_writer_spec(f, file, t) == Some(Writer::V));
    }
}

/// A string that ends with `end` has `end`'s characters at its end.
proof fn lemma_suffix_char(s: Seq<char>, end: Seq<char>, k: int)
    requires
        has_suffix(s, end),
        1 <= k <= end.len(),
    ensures
        s[s.len() - k] == end[end.len() - k],
{
    assert(s.subrange(s.len() - end.len(), s.len() as int)[end.len() - k] == s[s.len() - k]);
}

/// The last characters of a file name that ends with one of the known
/// output extensions.
proof fn lemma_extension_chars(file: Seq<char>)
    ensures
        has_suffix(file, ".jpg"@) ==> file.len() >= 4 && file[file.len() - 1] == 'g' && file[file.len() - 2] == 'p' && file[file.len() - 3] == 'j' && file[file.len() - 4] == '.',
        has_suffix(file, ".JPG"@) ==> file.len() >= 4 && file[file.len() - 1] == 'G' && file[file.len() - 2] == 'P' && file[file.len() - 3] == 'J' && file[file.len() - 4] == '.',
        has_suffix(file, ".jpeg"@) ==> file.len() >= 5 && file[file.len() - 1] == 'g' && file[file.len() - 2] == 'e' && file[file.len() - 3] == 'p' && file[file.len() - 5] == '.',
        has_suffix(file, ".JPEG"@) ==> file.len() >= 5 && file[file.len() - 1] == 'G' && file[file.len() - 2] == 'E' && file[file.len() - 3] == 'P' && file[file.len() - 5] == '.',
        has_suffix(file, ".jp2"@) ==> file.len() >= 4 && file[file.len() - 1] == '2' && file[file.len() - 2] == 'p' && file[file.len() - 3] == 'j' && file[file.len() - 4] == '.',
        has_suffix(file, ".jpx"@) ==> file.len() >= 4 && file[file.len() - 1] == 'x' && file[file.len() - 2] == 'p' && file[file.len() - 3] == 'j' && file[file.len() - 4] == '.',
        has_suffix(file, ".j2k"@) ==> file.len() >= 4 && file[file.len() - 1] == 'k' && file[file.len() - 2] == '2' && file[file.len() - 3] == 'j' && file[file.len() - 4] == '.',
        has_suffix(file, ".j2c"@) ==> file.len() >= 4 && file[file.len() - 1] == 'c' && file[file.len() - 2] == '2' && file[file.len() - 3] == 'j' && file[file.len() - 4] == '.',
        has_suffix(file, ".JP2"@) ==> file.len() >= 4 && file[file.len() - 1] == '2' && file[file.len() - 2] == 'P' && file[file.len() - 3] == 'J' && file[file.len() - 4] == '.',
        has_suffix(file, ".JPX"@) ==> file.len() >= 4 && file[file.len() - 1] == 'X' && file[file.len() - 2] == 'P' && file[file.len() - 3] == 'J' && file[file.len() - 4] == '.',
        has_suffix(file, ".J2K"@) ==> file.len() >= 4 && file[file.len() - 1] == 'K' && file[file.len() - 2] == '2' && file[file.len() - 3] == 'J' && file[file.len() - 4] == '.',
        has_suffix(file, ".J2C"@) ==> file.len() >= 4 && file[file.len() - 1] == 'C' && file[file.len() - 2] == '2' && file[file.len() - 3] == 'J' && file[file.len() - 4] == '.',
        has_suffix(file, ".png"@) ==> file.len() >= 4 && file[file.len() - 1] == 'g' && file[file.len() - 2] == 'n' && file[file.len() - 3] == 'p' && file[file.len() - 4] == '.',
        has_suffix(file, ".PNG"@) ==> file.len() >= 4 && file[file.len() - 1] == 'G' && file[file.len() - 2] == 'N' && file[file.len() - 3] == 'P' && file[file.len() - 4] == '.',
        has_suffix(file, ".webp"@) ==> file.len() >= 5 && file[file.len() - 1] == 'p' && file[file.len() - 2] == 'b' && file[file.len() - 3] == 'e' && file[file.len() - 5] == '.',
        has_suffix(file, ".WEBP"@) ==> file.len() >= 5 && file[file.len() - 1] == 'P' && file[file.len() - 2] == 'B' && file[file.len() - 3] == 'E' && file[file.len() - 5] == '.',
        has_suffix(file, ".gif"@) ==> file.len() >= 4 && file[file.len() - 1] == 'f' && file[file.len() - 2] == 'i' && file[file.len() - 3] == 'g' && file[file.len() - 4] == '.',
        has_suffix(file, ".GIF"@) ==> file.len() >= 4 && file[file.len() - 1] == 'F' && file[file.len() - 2] == 'I' && file[file.len() - 3] == 'G' && file[file.len() - 4] == '.',
        has_suffix(file, ".tif"@) ==> file.len() >= 4 && file[file.len() - 1] == 'f' && file[file.len() - 2] == 'i' && file[file.len() - 3] == 't' && file[file.len() - 4] == '.',
        has_suffix(file, ".tiff"@) ==> file.len() >= 5 && file[file.len() - 1] == 'f' && file[file.len() - 2] == 'f' && file[file.len() - 3] == 'i' && file[file.len() - 5] == '.',
        has_suffix(file, ".TIF"@) ==> file.len() >= 4 && file[file.len() - 1] == 'F' && file[file.len() - 2] == 'I' && file[file.len() - 3] == 'T' && file[file.len() - 4] == '.',
        has_suffix(file, ".TIFF"@) ==> file.len() >= 5 && file[file.len() - 1] == 'F' && file[file.len() - 2] == 'F' && file[file.len() - 3] == 'I' && file[file.len() - 5] == '.',
        has_suffix(file, ".heif"@) ==> file.len() >= 5 && file[file.len() - 1] == 'f' && file[file.len() - 2] == 'i' && file[file.len() - 3] == 'e' && file[file.len() - 5] == '.',
        has_suffix(file, ".HEIF"@) ==> file.len() >= 5 && file[file.len() - 1] == 'F' && file[file.len() - 2] == 'I' && file[file.len() - 3] == 'E' && file[file.len() - 5] == '.',
        has_suffix(file, ".heic"@) ==> file.len() >= 5 && file[file.len() - 1] == 'c' && file[file.len() - 2] == 'i' && file[file.len() - 3] == 'e' && file[file.len() - 5] == '.',
        has_suffix(file, ".HEIC"@) ==> file.len() >= 5 && file[file.len() - 1] == 'C' && file[file.len() - 2] == 'I' && file[file.len() - 3] == 'E' && file[file.len() - 5] == '.',
        has_suffix(file, ".avif"@) ==> file.len() >= 5 && file[file.len() - 1] == 'f' && file[file.len() - 2] == 'i' && file[file.len() - 3] == 'v' && file[file.len() - 5] == '.',
        has_suffix(file, ".AVIF"@) ==> file.len() >= 5 && file[file.len() - 1] == 'F' && file[file.len() - 2] == 'I' && file[file.len() - 3] == 'V' && file[file.len() - 5] == '.',
        has_suffix(file, ".jxl"@) ==> file.len() >= 4 && file[file.len() - 1] == 'l' && file[file.len() - 2] == 'x' && file[file.len() - 3] == 'j' && file[file.len() - 4] == '.',
        has_suffix(file, ".JXL"@) ==> file.len() >= 4 && file[file.len() - 1] == 'L' && file[file.len() - 2] == 'X' && file[file.len() - 3] == 'J' && file[file.len() - 4] == '.',
        has_suffix(file, ".dzi"@) ==> file.len() >= 4 && file[file.len() - 1] == 'i' && file[file.len() - 2] == 'z' && file[file.len() - 3] == 'd' && file[file.len() - 4] == '.',
        has_suffix(file, ".DZI"@) ==> file.len() >= 4 && file[file.len() - 1] == 'I' && file[file.len() - 2] == 'Z' && file[file.len() - 3] == 'D' && file[file.len() - 4] == '.',
        has_suffix(file, ".zip"@) ==> file.len() >= 4 && file[file.len() - 1] == 'p' && file[file.len() - 2] == 'i' && file[file.len() - 3] == 'z' && file[file.len() - 4] == '.',
        has_suffix(file, ".ZIP"@) ==> file.len() >= 4 && file[file.len() - 1] == 'P' && file[file.len() - 2] == 'I' && file[file.len() - 3] == 'Z' && file[file.len() - 4] == '.',
        has_suffix(file, ".szi"@) ==> file.len() >= 4 && file[file.len() - 1] == 'i' && file[file.len() - 2] == 'z' && file[file.len() - 3] == 's' && file[file.len() - 4] == '.',
        has_suffix(file, ".SZI"@) ==> file.len() >= 4 && file[file.len() - 1] == 'I' && file[file.len() - 2] == 'Z' && file[file.len() - 3] == 'S' && file[file.len() - 4] == '.',
        has_suffix(file, ".v"@) ==> file.len() >= 2 && file[file.len() - 1] == 'v' && file[file.len() - 2] == '.' && file[file.len() - 2] == '.',
        has_suffix(file, ".V"@) ==> file.len() >= 2 && file[file.len() - 1] == 'V' && file[file.len() - 2] == '.' && file[file.len() - 2] == '.',
        has_suffix(file, ".vips"@) ==> file.len() >= 5 && file[file.len() - 1] == 's' && file[file.len() - 2] == 'p' && file[file.len() - 3] == 'i' && file[file.len() - 5] == '.',
        has_suffix(file, ".VIPS"@) ==> file.len() >= 5 && file[file.len() - 1] == 'S' && file[file.len() - 2] == 'P' && file[file.len() - 3] == 'I' && file[file.len() - 5] == '.',
{
    reveal_strlit(".jpg");
    if has_suffix(file, ".jpg"@) {
        lemma_suffix_char(file, ".jpg"@, 4);
        lemma_suffix_char(file, ".jpg"@, 1);
        lemma_suffix_char(file, ".jpg"@, 2);
        lemma_suffix_char(file, ".jpg"@, 3);
    }
    reveal_strlit(".JPG");
    if has_suffix(file, ".JPG"@) {
        lemma_suffix_char(file, ".JPG"@, 4);
        lemma_suffix_char(file, ".JPG"@, 1);
        lemma_suffix_char(file, ".JPG"@, 2);
        lemma_suffix_char(file, ".JPG"@, 3);
    }
    reveal_strlit(".jpeg");
    if has_suffix(file, ".jpeg"@) {
        lemma_suffix_char(file, ".jpeg"@, 5);
        lemma_suffix_char(file, ".jpeg"@, 1);
        lemma_suffix_char(file, ".jpeg"@, 2);
        lemma_suffix_char(file, ".jpeg"@, 3);
    }
    reveal_strlit(".JPEG");
    if has_suffix(file, ".JPEG"@) {
        lemma_suffix_char(file, ".JPEG"@, 5);
        lemma_suffix_char(file, ".JPEG"@, 1);
        lemma_suffix_char(file, ".JPEG"@, 2);
        lemma_suffix_char(file, ".JPEG"@, 3);
    }
    reveal_strlit(".jp2");
    if has_suffix(file, ".jp2"@) {
        lemma_suffix_char(file, ".jp2"@, 4);
        lemma_suffix_char(file, ".jp2"@, 1);
        lemma_suffix_char(file, ".jp2"@, 2);
        lemma_suffix_char(file, ".jp2"@, 3);
    }
    reveal_strlit(".jpx");
    if has_suffix(file, ".jpx"@) {
        lemma_suffix_char(file, ".jpx"@, 4);
        lemma_suffix_char(file, ".jpx"@, 1);
        lemma_suffix_char(file, ".jpx"@, 2);
        lemma_suffix_char(file, ".jpx"@, 3);
    }
    reveal_strlit(".j2k");
    if has_suffix(file, ".j2k"@) {
        lemma_suffix_char(file, ".j2k"@, 4);
        lemma_suffix_char(file, ".j2k"@, 1);
        lemma_suffix_char(file, ".j2k"@, 2);
        lemma_suffix_char(file, ".j2k"@, 3);
    }
    reveal_strlit(".j2c");
    if has_suffix(file, ".j2c"@) {
        lemma_suffix_char(file, ".j2c"@, 4);
        lemma_suffix_char(file, ".j2c"@, 1);
        lemma_suffix_char(file, ".j2c"@, 2);
        lemma_suffix_char(file, ".j2c"@, 3);
    }
    reveal_strlit(".JP2");
    if has_suffix(file, ".JP2"@) {
        lemma_suffix_char(file, ".JP2"@, 4);
        lemma_suffix_char(file, ".JP2"@, 1);
        lemma_suffix_char(file, ".JP2"@, 2);
        lemma_suffix_char(file, ".JP2"@, 3);
    }
    reveal_strlit(".JPX");
    if has_suffix(file, ".JPX"@) {
        lemma_suffix_char(file, ".JPX"@, 4);
        lemma_suffix_char(file, ".JPX"@, 1);
        lemma_suffix_char(file, ".JPX"@, 2);
        lemma_suffix_char(file, ".JPX"@, 3);
    }
    reveal_strlit(".J2K");
    if has_suffix(file, ".J2K"@) {
        lemma_suffix_char(file, ".J2K"@, 4);
        lemma_suffix_char(file, ".J2K"@, 1);
        lemma_suffix_char(file, ".J2K"@, 2);
        lemma_suffix_char(file, ".J2K"@, 3);
    }
    reveal_strlit(".J2C");
    if has_suffix(file, ".J2C"@) {
        lemma_suffix_char(file, ".J2C"@, 4);
        lemma_suffix_char(file, ".J2C"@, 1);
        lemma_suffix_char(file, ".J2C"@, 2);
        lemma_suffix_char(file, ".J2C"@, 3);
    }
    reveal_strlit(".png");
    if has_suffix(file, ".png"@) {
        lemma_suffix_char(file, ".png"@, 4);
        lemma_suffix_char(file, ".png"@, 1);
        lemma_suffix_char(file, ".png"@, 2);
        lemma_suffix_char(file, ".png"@, 3);
    }
    reveal_strlit(".PNG");
    if has_suffix(file, ".PNG"@) {
        lemma_suffix_char(file, ".PNG"@, 4);
        lemma_suffix_char(file, ".PNG"@, 1);
        lemma_suffix_char(file, ".PNG"@, 2);
        lemma_suffix_char(file, ".PNG"@, 3);
    }
    reveal_strlit(".webp");
    if has_suffix(file, ".webp"@) {
        lemma_suffix_char(file, ".webp"@, 5);
        lemma_suffix_char(file, ".webp"@, 1);
        lemma_suffix_char(file, ".webp"@, 2);
        lemma_suffix_char(file, ".webp"@, 3);
    }
    reveal_strlit(".WEBP");
    if has_suffix(file, ".WEBP"@) {
        lemma_suffix_char(file, ".WEBP"@, 5);
        lemma_suffix_char(file, ".WEBP"@, 1);
        lemma_suffix_char(file, ".WEBP"@, 2);
        lemma_suffix_char(file, ".WEBP"@, 3);
    }
    reveal_strlit(".gif");
    if has_suffix(file, ".gif"@) {
        lemma_suffix_char(file, ".gif"@, 4);
        lemma_suffix_char(file, ".gif"@, 1);
        lemma_suffix_char(file, ".gif"@, 2);
        lemma_suffix_char(file, ".gif"@, 3);
    }
    reveal_strlit(".GIF");
    if has_suffix(file, ".GIF"@) {
        lemma_suffix_char(file, ".GIF"@, 4);
        lemma_suffix_char(file, ".GIF"@, 1);
        lemma_suffix_char(file, ".GIF"@, 2);
        lemma_suffix_char(file, ".GIF"@, 3);
    }
    reveal_strlit(".tif");
    if has_suffix(file, ".tif"@) {
        lemma_suffix_char(file, ".tif"@, 4);
        lemma_suffix_char(file, ".tif"@, 1);
        lemma_suffix_char(file, ".tif"@, 2);
        lemma_suffix_char(file, ".tif"@, 3);
    }
    reveal_strlit(".tiff");
    if has_suffix(file, ".tiff"@) {
        lemma_suffix_char(file, ".tiff"@, 5);
        lemma_suffix_char(file, ".tiff"@, 1);
        lemma_suffix_char(file, ".tiff"@, 2);
        lemma_suffix_char(file, ".tiff"@, 3);
    }
    reveal_strlit(".TIF");
    if has_suffix(file, ".TIF"@) {
        lemma_suffix_char(file, ".TIF"@, 4);
        lemma_suffix_char(file, ".TIF"@, 1);
        lemma_suffix_char(file, ".TIF"@, 2);
        lemma_suffix_char(file, ".TIF"@, 3);
    }
    reveal_strlit(".TIFF");
    if has_suffix(file, ".TIFF"@) {
        lemma_suffix_char(file, ".TIFF"@, 5);
        lemma_suffix_char(file, ".TIFF"@, 1);
        lemma_suffix_char(file, ".TIFF"@, 2);
        lemma_suffix_char(file, ".TIFF"@, 3);
    }
    reveal_strlit(".heif");
    if has_suffix(file, ".heif"@) {
        lemma_suffix_char(file, ".heif"@, 5);
        lemma_suffix_char(file, ".heif"@, 1);
        lemma_suffix_char(file, ".heif"@, 2);
        lemma_suffix_char(file, ".heif"@, 3);
    }
    reveal_strlit(".HEIF");
    if has_suffix(file, ".HEIF"@) {
        lemma_suffix_char(file, ".HEIF"@, 5);
        lemma_suffix_char(file, ".HEIF"@, 1);
        lemma_suffix_char(file, ".HEIF"@, 2);
        lemma_suffix_char(file, ".HEIF"@, 3);
    }
    reveal_strlit(".heic");
    if has_suffix(file, ".heic"@) {
        lemma_suffix_char(file, ".heic"@, 5);
        lemma_suffix_char(file, ".heic"@, 1);
        lemma_suffix_char(file, ".heic"@, 2);
        lemma_suffix_char(file, ".heic"@, 3);
    }
    reveal_strlit(".HEIC");
    if has_suffix(file, ".HEIC"@) {
        lemma_suffix_char(file, ".HEIC"@, 5);
        lemma_suffix_char(file, ".HEIC"@, 1);
        lemma_suffix_char(file, ".HEIC"@, 2);
        lemma_suffix_char(file, ".HEIC"@, 3);
    }
    reveal_strlit(".avif");
    if has_suffix(file, ".avif"@) {
        lemma_suffix_char(file, ".avif"@, 5);
        lemma_suffix_char(file, ".avif"@, 1);
        lemma_suffix_char(file, ".avif"@, 2);
        lemma_suffix_char(file, ".avif"@, 3);
    }
    reveal_strlit(".AVIF");
    if has_suffix(file, ".AVIF"@) {
        lemma_suffix_char(file, ".AVIF"@, 5);
        lemma_suffix_char(file, ".AVIF"@, 1);
        lemma_suffix_char(file, ".AVIF"@, 2);
        lemma_suffix_char(file, ".AVIF"@, 3);
    }
    reveal_strlit(".jxl");
    if has_suffix(file, ".jxl"@) {
        lemma_suffix_char(file, ".jxl"@, 4);
        lemma_suffix_char(file, ".jxl"@, 1);
        lemma_suffix_char(file, ".jxl"@, 2);
        lemma_suffix_char(file, ".jxl"@, 3);
    }
    reveal_strlit(".JXL");
    if has_suffix(file, ".JXL"@) {
        lemma_suffix_char(file, ".JXL"@, 4);
        lemma_suffix_char(file, ".JXL"@, 1);
        lemma_suffix_char(file, ".JXL"@, 2);
        lemma_suffix_char(file, ".JXL"@, 3);
    }
    reveal_strlit(".dzi");
    if has_suffix(file, ".dzi"@) {
        lemma_suffix_char(file, ".dzi"@, 4);
        lemma_suffix_char(file, ".dzi"@, 1);
        lemma_suffix_char(file, ".dzi"@, 2);
        lemma_suffix_char(file, ".dzi"@, 3);
    }
    reveal_strlit(".DZI");
    if has_suffix(file, ".DZI"@) {
        lemma_suffix_char(file, ".DZI"@, 4);
        lemma_suffix_char(file, ".DZI"@, 1);
        lemma_suffix_char(file, ".DZI"@, 2);
        lemma_suffix_char(file, ".DZI"@, 3);
    }
    reveal_strlit(".zip");
    if has_suffix(file, ".zip"@) {
        lemma_suffix_char(file, ".zip"@, 4);
        lemma_suffix_char(file, ".zip"@, 1);
        lemma_suffix_char(file, ".zip"@, 2);
        lemma_suffix_char(file, ".zip"@, 3);
    }
    reveal_strlit(".ZIP");
    if has_suffix(file, ".ZIP"@) {
        lemma_suffix_char(file, ".ZIP"@, 4);
        lemma_suffix_char(file, ".ZIP"@, 1);
        lemma_suffix_char(file, ".ZIP"@, 2);
        lemma_suffix_char(file, ".ZIP"@, 3);
    }
    reveal_strlit(".szi");
    if has_suffix(file, ".szi"@) {
        lemma_suffix_char(file, ".szi"@, 4);
        lemma_suffix_char(file, ".szi"@, 1);
        lemma_suffix_char(file, ".szi"@, 2);
        lemma_suffix_char(file, ".szi"@, 3);
    }
    reveal_strlit(".SZI");
    if has_suffix(file, ".SZI"@) {
        lemma_suffix_char(file, ".SZI"@, 4);
        lemma_suffix_char(file, ".SZI"@, 1);
        lemma_suffix_char(file, ".SZI"@, 2);
        lemma_suffix_char(file, ".SZI"@, 3);
    }
    reveal_strlit(".v");
    if has_suffix(file, ".v"@) {
        lemma_suffix_char(file, ".v"@, 2);
        lemma_suffix_char(file, ".v"@, 1);
        lemma_suffix_char(file, ".v"@, 2);
    }
    reveal_strlit(".V");
    if has_suffix(file, ".V"@) {
        lemma_suffix_char(file, ".V"@, 2);
        lemma_suffix_char(file, ".V"@, 1);
        lemma_suffix_char(file, ".V"@, 2);
    }
    reveal_strlit(".vips");
    if has_suffix(file, ".vips"@) {
        lemma_suffix_char(file, ".vips"@, 5);
        lemma_suffix_char(file, ".vips"@, 1);
        lemma_suffix_char(file, ".vips"@, 2);
        lemma_suffix_char(file, ".vips"@, 3);
    }
    reveal_strlit(".VIPS");
    if has_suffix(file, ".VIPS"@) {
        lemma_suffix_char(file, ".VIPS"@, 5);
        lemma_suffix_char(file, ".VIPS"@, 1);
        lemma_suffix_char(file, ".VIPS"@, 2);
        lemma_suffix_char(file, ".VIPS"@, 3);
    }
}

/// Names of formats as the writers compare them.
proof fn lemma_format_names()
    ensures
        "input"@ != "jpeg"@ && "input"@ != "jp2"@ && "input"@ != "png"@ && "input"@ != "webp"@
            && "input"@ != "gif"@ && "input"@ != "tiff"@ && "input"@ != "heif"@ && "input"@
            != "jxl"@ && "input"@ != "dz"@ && "input"@ != "v"@,
{
    reveal_strlit("input");
    reveal_strlit("jpeg");
    reveal_strlit("jp2");
    reveal_strlit("png");
    reveal_strlit("webp");
    reveal_strlit("gif");
    reveal_strlit("tiff");
    reveal_strlit("heif");
    reveal_strlit("jxl");
    reveal_strlit("dz");
    reveal_strlit("v");
    assert("input"@.len() == 5);
}

proof fn lemma_extension_jpeg(file: Seq<char>, t: ImageType)
    ensures
        (has_suffix(file, ".jpg"@) || has_suffix(file, ".JPG"@) || has_suffix(file, ".jpeg"@) || has_suffix(file, ".JPEG"@)) ==> file_writer_spec("input"@, file, t) == Some(Writer::Jpeg),
{
    if has_suffix(file, ".jpg"@) || has_suffix(file, ".JPG"@) || has_suffix(file, ".jpeg"@) || has_suffix(file, ".JPEG"@) {
        lemma_extension_chars(file);
        lemma_format_names();
        assert(file_kinds(file).jpeg);

    }
}
proof fn lemma_extension_jp2(file: Seq<char>, t: ImageType)
    ensures
        (has_suffix(file, ".jp2"@) || has_suffix(file, ".jpx"@) || has_suffix(file, ".j2k"@) || has_suffix(file, ".j2c"@) || has_suffix(file, ".JP2"@) || has_suffix(file, ".JPX"@) || has_suffix(file, ".J2K"@) || has_suffix(file, ".J2C"@)) ==> file_writer_spec("input"@, file, t) == Some(Writer::Jp2),
{
    if has_suffix(file, ".jp2"@) || has_suffix(file, ".jpx"@) || has_suffix(file, ".j2k"@) || has_suffix(file, ".j2c"@) || has_suffix(file, ".JP2"@) || has_suffix(file, ".JPX"@) || has_suffix(file, ".J2K"@) || has_suffix(file, ".J2C"@) {
        lemma_extension_chars(file);
        lemma_format_names();
        assert(file_kinds(file).jp2);
        assert(!file_kinds(file).jpeg);
    }
}
proof fn lemma_extension_png(file: Seq<char>, t: ImageType)
    ensures
        (has_suffix(file, ".png"@) || has_suffix(file, ".PNG"@)) ==> file_writer_spec("input"@, file, t) == Some(Writer::Png),
{
    if has_suffix(file, ".png"@) || has_suffix(file, ".PNG"@) {
        lemma_extension_chars(file);
        lemma_format_names();
        assert(file_kinds(file).png);
        assert(!file_kinds(file).jpeg);
        assert(!file_kinds(file).jp2);
    }
}
proof fn lemma_extension_webp(file: Seq<char>, t: ImageType)
    ensures
        (has_suffix(file, ".webp"@) || has_suffix(file, ".WEBP"@)) ==> file_writer_spec("input"@, file, t) == Some(Writer::Webp),
{
    if has_suffix(file, ".webp"@) || has_suffix(file, ".WEBP"@) {
        lemma_extension_chars(file);
        lemma_format_names();
        assert(file_kinds(file).webp);
        assert(!file_kinds(file).jpeg);
        assert(!file_kinds(file).jp2);
        assert(!file_kinds(file).png);
    }
}
proof fn lemma_extension_gif(file: Seq<char>, t: ImageType)
    ensures
        (has_suffix(file, ".gif"@) || has_suffix(file, ".GIF"@)) ==> file_writer_spec("input"@, file, t) == Some(Writer::Gif),
{
    if has_suffix(file, ".gif"@) || has_suffix(file, ".GIF"@) {
        lemma_extension_chars(file);
        lemma_format_names();
        assert(file_kinds(file).gif);
        assert(!file_kinds(file).jpeg);
        assert(!file_kinds(file).jp2);
        assert(!file_kinds(file).png);
        assert(!file_kinds(file).webp);
    }
}
proof fn lemma_extension_tiff(file: Seq<char>, t: ImageType)
    ensures
        (has_suffix(file, ".tif"@) || has_suffix(file, ".tiff"@) || has_suffix(file, ".TIF"@) || has_suffix(file, ".TIFF"@)) ==> file_writer_spec("input"@, file, t) == Some(Writer::Tiff),
{
    if has_suffix(file, ".tif"@) || has_suffix(file, ".tiff"@) || has_suffix(file, ".TIF"@) || has_suffix(file, ".TIFF"@) {
        lemma_extension_chars(file);
        lemma_format_names();
        assert(file_kinds(file).tiff);
        assert(!file_kinds(file).jpeg);
        assert(!file_kinds(file).jp2);
        assert(!file_kinds(file).png);
        assert(!file_kinds(file).webp);
        assert(!file_kinds(file).gif);
    }
}
proof fn lemma_extension_heif(file: Seq<char>, t: ImageType)
    ensures
        (has_suffix(file, ".heif"@) || has_suffix(file, ".HEIF"@) || has_suffix(file, ".heic"@) || has_suffix(file, ".HEIC"@) || has_suffix(file, ".avif"@) || has_suffix(file, ".AVIF"@)) ==> file_writer_spec("input"@, file, t) == Some(Writer::Heif),
{
    if has_suffix(file, ".heif"@) || has_suffix(file, ".HEIF"@) || has_suffix(file, ".heic"@) || has_suffix(file, ".HEIC"@) || has_suffix(file, ".avif"@) || has_suffix(file, ".AVIF"@) {
        lemma_extension_chars(file);
        lemma_format_names();
        assert(file_kinds(file).heif);
        assert(!file_kinds(file).jpeg);
        assert(!file_kinds(file).jp2);
        assert(!file_kinds(file).png);
        assert(!file_kinds(file).webp);
        assert(!file_kinds(file).gif);
        assert(!file_kinds(file).tiff);
    }
}
proof fn lemma_extension_dz(file: Seq<char>, t: ImageType)
    ensures
        (has_suffix(file, ".dzi"@) || has_suffix(file, ".DZI"@)) ==> file_writer_spec("input"@, file, t) == Some(Writer::Dz { zip: false }),
{
    if has_suffix(file, ".dzi"@) || has_suffix(file, ".DZI"@) {
        lemma_extension_chars(file);
        lemma_format_names();
        assert(file_kinds(file).dz);
        assert(!file_kinds(file).jpeg);
        assert(!file_kinds(file).jp2);
        assert(!file_kinds(file).png);
        assert(!file_kinds(file).webp);
        assert(!file_kinds(file).gif);
        assert(!file_kinds(file).tiff);
        assert(!file_kinds(file).heif);
        assert(!file_kinds(file).jxl);
        assert(!file_kinds(file).dz_zip);
    }
}
proof fn lemma_extension_dz_zip(file: Seq<char>, t: ImageType)
    ensures
        (has_suffix(file, ".zip"@) || has_suffix(file, ".ZIP"@) || has_suffix(file, ".szi"@) || has_suffix(file, ".SZI"@)) ==> file_writer_spec("input"@, file, t) == Some(Writer::Dz { zip: true }),
{
    if has_suffix(file, ".zip"@) || has_suffix(file, ".ZIP"@) || has_suffix(file, ".szi"@) || has_suffix(file, ".SZI"@) {
        lemma_extension_chars(file);
        lemma_format_names();
        assert(file_kinds(file).dz_zip);
        assert(!file_kinds(file).jpeg);
        assert(!file_kinds(file).jp2);
        assert(!file_kinds(file).png);
        assert(!file_kinds(file).webp);
        assert(!file_kinds(file).gif);
        assert(!file_kinds(file).tiff);
        assert(!file_kinds(file).heif);
        assert(!file_kinds(file).jxl);
    }
}
proof fn lemma_extension_v(file: Seq<char>, t: ImageType)
    ensures
        (has_suffix(file, ".v"@) || has_suffix(file, ".V"@) || has_suffix(file, ".vips"@) || has_suffix(file, ".VIPS"@)) ==> file_writer_spec("input"@, file, t) == Some(Writer::V),
{
    if has_suffix(file, ".v"@) || has_suffix(file, ".V"@) || has_suffix(file, ".vips"@) || has_suffix(file, ".VIPS"@) {
        lemma_extension_chars(file);
        lemma_format_names();
        assert(file_kinds(file).v);
        assert(!file_kinds(file).jpeg);
        assert(!file_kinds(file).jp2);
        assert(!file_kinds(file).png);
        assert(!file_kinds(file).webp);
        assert(!file_kinds(file).gif);
        assert(!file_kinds(file).tiff);
        assert(!file_kinds(file).heif);
        assert(!file_kinds(file).jxl);
        assert(!file_kinds(file).dz);
        assert(!file_kinds(file).dz_zip);
    }
}

/// Writing to a file without naming a format, an extension that names an
/// output format picks that format's encoder, whatever the input was: a
/// `.gif` file is written as GIF, a `.tif` file as TIFF, a `.zip` file as
/// zipped Deep Zoom tiles, and so on. (An extension naming JPEG XL is left
/// out: such a file takes the input's format when that is one of the
/// others.)
pub proof fn lemma_extension_picks_writer(file: Seq<char>, t: ImageType)
    ensures
        (has_suffix(file, ".jpg"@) || has_suffix(file, ".JPG"@) || has_suffix(file, ".jpeg"@) || has_suffix(file, ".JPEG"@)) ==> file_writer_spec("input"@, file, t) == Some(Writer::Jpeg),
        (has_suffix(file, ".jp2"@) || has_suffix(file, ".jpx"@) || has_suffix(file, ".j2k"@) || has_suffix(file, ".j2c"@) || has_suffix(file, ".JP2"@) || has_suffix(file, ".JPX"@) || has_suffix(file, ".J2K"@) || has_suffix(file, ".J2C"@)) ==> file_writer_spec("input"@, file, t) == Some(Writer::Jp2),
        (has_suffix(file, ".png"@) || has_suffix(file, ".PNG"@)) ==> file_writer_spec("input"@, file, t) == Some(Writer::Png),
        (has_suffix(file, ".webp"@) || has_suffix(file, ".WEBP"@)) ==> file_writer_spec("input"@, file, t) == Some(Writer::Webp),
        (has_suffix(file, ".gif"@) || has_suffix(file, ".GIF"@)) ==> file_writer_spec("input"@, file, t) == Some(Writer::Gif),
        (has_suffix(file, ".tif"@) || has_suffix(file, ".tiff"@) || has_suffix(file, ".TIF"@) || has_suffix(file, ".TIFF"@)) ==> file_writer_spec("input"@, file, t) == Some(Writer::Tiff),
        (has_suffix(file, ".heif"@) || has_suffix(file, ".HEIF"@) || has_suffix(file, ".heic"@) || has_suffix(file, ".HEIC"@) || has_suffix(file, ".avif"@) || has_suffix(file, ".AVIF"@)) ==> file_writer_spec("input"@, file, t) == Some(Writer::Heif),
        (has_suffix(file, ".dzi"@) || has_suffix(file, ".DZI"@)) ==> file_writer_spec("input"@, file, t) == Some(Writer::Dz { zip: false }),
        (has_suffix(file, ".zip"@) || has_suffix(file, ".ZIP"@) || has_suffix(file, ".szi"@) || has_suffix(file, ".SZI"@)) ==> file_writer_spec("input"@, file, t) == Some(Writer::Dz { zip: true }),
        (has_suffix(file, ".v"@) || has_suffix(file, ".V"@) || has_suffix(file, ".vips"@) || has_suffix(file, ".VIPS"@)) ==> file_writer_spec("input"@, file, t) == Some(Writer::V),
{
    lemma_extension_jpeg(file, t);
    lemma_extension_jp2(file, t);
    lemma_extension_png(file, t);
    lemma_extension_webp(file, t);
    lemma_extension_gif(file, t);
    lemma_extension_tiff(file, t);
    lemma_extension_heif(file, t);
    lemma_extension_dz(file, t);
    lemma_extension_dz_zip(file, t);
    lemma_extension_v(file, t);
}

/// Writing to a buffer without naming a format, the encoder is the one for
/// the input's format (PNG for SVG input); an input in a format that cannot
/// be written has none.
pub proof fn lemma_buffer_matches_input(t: ImageType)
    ensures
        buffer_writer_spec("input"@, t) == match t {
            ImageType::Jpeg => Some(Writer::Jpeg),
            ImageType::JP2 => Some(Writer::Jp2),
            ImageType::Png | ImageType::SVG => Some(Writer::Png),
            ImageType::Webp => Some(Writer::Webp),
            ImageType::GIF => Some(Writer::Gif),
            ImageType::Tiff => Some(Writer::Tiff),
            ImageType::HEIF => Some(Writer::Heif),
            ImageType::JXL => Some(Writer::Jxl),
            ImageType::RAW => Some(Writer::Raw),
            _ => None::<Writer>,
        },
{
    lemma_format_names();
    reveal_strlit("raw");
    reveal_strlit("input");
    assert("input"@ != "raw"@) by {
        assert("input"@.len() == 5);
    }
}

/// Matching the input's format, the format recorded as written is the
/// input's own identifier (`png` for SVG input, which is written as PNG).
pub proof fn lemma_matched_format_named_as_input(t: ImageType)
    ensures
        buffer_writer_spec("input"@, t) matches Some(w) ==> writer_format(w) == if t == ImageType::SVG {
            "png"@
        } else {
            type_id(t)
        },
{
    lemma_buffer_matches_input(t);
}

/// Writing to a file whose name has no extension at all, without naming a
/// format, the encoder is the one for the input's format (PNG for SVG
/// input, the native format for libvips input).
pub proof fn lemma_file_without_extension_matches_input(file: Seq<char>, t: ImageType)
    requires
        forall|i: int| 0 <= i < file.len() ==> #[trigger] file[i] != '.',
    ensures
        file_writer_spec("input"@, file, t) == match t {
            ImageType::Jpeg => Some(Writer::Jpeg),
            ImageType::JP2 => Some(Writer::Jp2),
            ImageType::Png | ImageType::SVG => Some(Writer::Png),
            ImageType::Webp => Some(Writer::Webp),
            ImageType::GIF => Some(Writer::Gif),
            ImageType::Tiff => Some(Writer::Tiff),
            ImageType::HEIF => Some(Writer::Heif),
            ImageType::JXL => Some(Writer::Jxl),
            ImageType::VIPS => Some(Writer::V),
            _ => None::<Writer>,
        },
{
    lemma_extension_chars(file);
    lemma_format_names();
    let k = file_kinds(file);
    assert(!k.jpeg && !k.png && !k.webp && !k.gif && !k.tiff && !k.jp2 && !k.heif && !k.jxl
        && !k.dz && !k.dz_zip && !k.v);
}

/// The message when the output file is the input file.
pub open spec fn same_file_text() -> Seq<char> {
    "Cannot use same file for input and output"@
}

/// Refuses to write the output over the input file.
pub fn check_output_file(input_file: &str, file_out: &str) -> (r: Result<(), String>)
    ensures
        if input_file@ == file_out@ {
            r matches Err(e) && e@ == same_file_text()
        } else {
            r is Ok
        },
{
    if str_eq(input_file, file_out) {
        proof {
            reveal_strlit("Cannot use same file for input and output");
        }
        return Err("Cannot use same file for input and output".to_string());
    }
    Ok(())
}

} // verus!
