//! What a finished pipeline reports: the output's size and layout, and the
//! state of the operation cache.
use crate::image_type::{image_type_id, loader_to_type, type_id, loader_type, ImageType};
use crate::input::InputDescriptor;
use vstd::prelude::*;

verus! {

/// What was written.
#[derive(Debug, Clone)]
pub struct OutputInfo {
    pub format: String,
    pub width: i32,
    pub height: i32,
    pub channels: i32,
    /// Sample format of raw output, else 0.
    pub depth: i32,
    pub premultiplied: bool,
    pub crop_offset_left: i32,
    pub crop_offset_top: i32,
    pub attention_x: i32,
    pub attention_y: i32,
    pub trim_offset_left: i32,
    pub trim_offset_top: i32,
    pub page_height: i32,
    pub pages: i32,
}

/// The reported output size: the requested size, or the size of the region
/// extracted before resizing when no resize was asked for in one dimension,
/// or the size of the region extracted after resizing when there is one.
pub open spec fn output_size_spec(
    width: i32,
    height: i32,
    top_offset_pre: i32,
    width_pre: i32,
    height_pre: i32,
    top_offset_post: i32,
    width_post: i32,
    height_post: i32,
) -> (i32, i32) {
    if top_offset_post != -1 {
        (width_post, height_post)
    } else if top_offset_pre != -1 && (width == -1 || height == -1) {
        (width_pre, height_pre)
    } else {
        (width, height)
    }
}

/// The size reported for the output: that of a region extracted after
/// resizing when there is one; else that of a region extracted before
/// resizing when a dimension was left to follow the other; else the size
/// asked for.
pub proof fn lemma_output_size_reported(
    width: i32,
    height: i32,
    top_offset_pre: i32,
    width_pre: i32,
    height_pre: i32,
    top_offset_post: i32,
    width_post: i32,
    height_post: i32,
)
    ensures
        ({
            let r = output_size_spec(width, height, top_offset_pre, width_pre, height_pre, top_offset_post, width_post, height_post);
            &&& top_offset_post != -1 ==> r == (width_post, height_post)
            &&& (top_offset_post == -1 && top_offset_pre != -1 && (width == -1 || height == -1)) ==> r == (width_pre, height_pre)
            &&& (top_offset_post == -1 && (top_offset_pre == -1 || (width != -1 && height != -1))) ==> r == (width, height)
        }),
{
}

/// The reported output size.
pub fn output_size(
    width: i32,
    height: i32,
    top_offset_pre: i32,
    width_pre: i32,
    height_pre: i32,
    top_offset_post: i32,
    width_post: i32,
    height_post: i32,
) -> (r: (i32, i32))
    ensures
        r == output_size_spec(
            width,
            height,
            top_offset_pre,
            width_pre,
            height_pre,
            top_offset_post,
            width_post,
            height_post,
        ),
{
    let mut w = width;
    let mut h = height;
    if top_offset_pre != -1 && (width == -1 || height == -1) {
        w = width_pre;
        h = height_pre;
    }
    if top_offset_post != -1 {
        w = width_post;
        h = height_post;
    }
    (w, h)
}

/// The format of an image as found by a loader's name; unknown when no
/// loader, or an unnamed one, was found.
pub open spec fn type_from_loader(loader: Option<Seq<char>>) -> ImageType {
    match loader {
        Some(name) => match loader_type(name) {
            Some(t) => t,
            None => ImageType::UNKNOWN,
        },
        None => ImageType::UNKNOWN,
    }
}

/// The format of an image from the name of the loader found for it.
pub fn image_type_from_loader(loader: Option<&str>) -> (r: ImageType)
    ensures
        r == type_from_loader(match loader { Some(l) => Some(l@), None => None }),
{
    match loader {
        Some(name) => match loader_to_type(name) {
            Some(t) => t,
            None => ImageType::UNKNOWN,
        },
        None => ImageType::UNKNOWN,
    }
}

/// The format identifier of an input: from its file when it names one,
/// else from its buffer when it has one, else empty. `file_loader` and
/// `buffer_loader` are the loaders found for each.
pub fn get_file_type(input: &InputDescriptor, file_loader: Option<&str>, buffer_loader: Option<&str>) -> (r: String)
    ensures
        r@ == if input.file@.len() > 0 {
            type_id(type_from_loader(match file_loader { Some(l) => Some(l@), None => None }))
        } else if input.buffer@.len() > 0 {
            type_id(type_from_loader(match buffer_loader { Some(l) => Some(l@), None => None }))
        } else {
            seq![]
        },
{
    if input.file.as_str().unicode_len() > 0 {
        return image_type_id(image_type_from_loader(file_loader));
    }
    if input.buffer.len() > 0 {
        return image_type_id(image_type_from_loader(buffer_loader));
    }
    String::new()
}

/// Megabytes of memory in use, at the peak, and allowed to the cache.
#[derive(Debug, Clone, Default)]
pub struct Memory {
    pub current: u64,
    pub high: u64,
    pub max: u64,
}

/// Files open and allowed.
#[derive(Debug, Clone, Default)]
pub struct Files {
    pub current: i32,
    pub max: i32,
}

/// Operations cached and allowed.
#[derive(Debug, Clone, Default)]
pub struct Items {
    pub current: i32,
    pub max: i32,
}

/// The state of the operation cache.
#[derive(Debug, Clone, Default)]
pub struct CacheResult {
    pub memory: Memory,
    pub files: Files,
    pub items: Items,
}

/// The cache limits (memory, files, operations) for caching on or off.
pub fn cache_limits(cache: bool) -> (r: (u64, i32, i32))
    ensures
        r == if cache {
            (50u64, 20i32, 100i32)
        } else {
            (0u64, 0i32, 0i32)
        },
{
    if cache {
        (50, 20, 100)
    } else {
        (0, 0, 0)
    }
}

/// The cache state from the byte counts and counters reported by libvips:
/// memory in whole megabytes.
pub fn cache_result(
    mem_current: u64,
    mem_high: u64,
    mem_max: u64,
    files_current: i32,
    files_max: i32,
    items_current: i32,
    items_max: i32,
) -> (r: CacheResult)
    ensures
        r.memory.current == mem_current / 1048576,
        r.memory.high == mem_high / 1048576,
        r.memory.max == mem_max / 1048576,
        r.files.current == files_current,
        r.files.max == files_max,
        r.items.current == items_current,
        r.items.max == items_max,
{
    CacheResult {
        memory: Memory {
            current: mem_current / 1048576,
            high: mem_high / 1048576,
            max: mem_max / 1048576,
        },
        files: Files { current: files_current, max: files_max },
        items: Items { current: items_current, max: items_max },
    }
}

/// The ways a format can be read or written.
#[derive(Debug, Clone, Default)]
pub struct AvailableFormatInput {
    pub file: bool,
    pub buffer: bool,
    pub stream: bool,
}

#[derive(Debug, Clone, Default)]
pub struct AvailableFormatOutput {
    pub file: bool,
    pub buffer: bool,
    pub stream: bool,
}

/// A format and how it can be read and written.
#[derive(Debug, Clone, Default)]
pub struct AvailableFormat {
    pub id: String,
    pub input: AvailableFormatInput,
    pub output: AvailableFormatOutput,
}

/// The libvips nickname of a colour space, by its code; empty for an
/// unknown code.
pub open spec fn space_name_spec(code: i32) -> Seq<char> {
    if code == 0 { "multiband"@ }
    else if code == 1 { "b-w"@ }
    else if code == 10 { "histogram"@ }
    else if code == 12 { "xyz"@ }
    else if code == 13 { "lab"@ }
    else if code == 15 { "cmyk"@ }
    else if code == 16 { "labq"@ }
    else if code == 17 { "rgb"@ }
    else if code == 18 { "cmc"@ }
    else if code == 19 { "lch"@ }
    else if code == 21 { "labs"@ }
    else if code == 22 { "srgb"@ }
    else if code == 23 { "yxy"@ }
    else if code == 24 { "fourier"@ }
    else if code == 25 { "rgb16"@ }
    else if code == 26 { "grey16"@ }
    else if code == 27 { "matrix"@ }
    else if code == 28 { "scrgb"@ }
    else if code == 29 { "hsv"@ }
    else if code == 30 { "oklab"@ }
    else if code == 31 { "oklch"@ }
    else { seq![] }
}

/// The libvips nickname of a colour space, as metadata reports it.
pub fn space_name(code: i32) -> (r: String)
    ensures
        r@ == space_name_spec(code),
{
    let name = if code == 0 { "multiband" }
    else if code == 1 { "b-w" }
    else if code == 10 { "histogram" }
    else if code == 12 { "xyz" }
    else if code == 13 { "lab" }
    else if code == 15 { "cmyk" }
    else if code == 16 { "labq" }
    else if code == 17 { "rgb" }
    else if code == 18 { "cmc" }
    else if code == 19 { "lch" }
    else if code == 21 { "labs" }
    else if code == 22 { "srgb" }
    else if code == 23 { "yxy" }
    else if code == 24 { "fourier" }
    else if code == 25 { "rgb16" }
    else if code == 26 { "grey16" }
    else if code == 27 { "matrix" }
    else if code == 28 { "scrgb" }
    else if code == 29 { "hsv" }
    else if code == 30 { "oklab" }
    else if code == 31 { "oklch" }
    else { "" };
    proof {
        reveal_strlit("multiband"); reveal_strlit("b-w"); reveal_strlit("histogram");
        reveal_strlit("xyz"); reveal_strlit("lab"); reveal_strlit("cmyk"); reveal_strlit("labq");
        reveal_strlit("rgb"); reveal_strlit("cmc"); reveal_strlit("lch"); reveal_strlit("labs");
        reveal_strlit("srgb"); reveal_strlit("yxy"); reveal_strlit("fourier"); reveal_strlit("rgb16");
        reveal_strlit("grey16"); reveal_strlit("matrix"); reveal_strlit("scrgb"); reveal_strlit("hsv");
        reveal_strlit("oklab"); reveal_strlit("oklch"); reveal_strlit("");
    }
    name.to_string()
}

/// The libvips nickname of a sample format, by its code; empty for an
/// unknown code.
pub open spec fn depth_name_spec(code: i32) -> Seq<char> {
    if code == 0 { "uchar"@ }
    else if code == 1 { "char"@ }
    else if code == 2 { "ushort"@ }
    else if code == 3 { "short"@ }
    else if code == 4 { "uint"@ }
    else if code == 5 { "int"@ }
    else if code == 6 { "float"@ }
    else if code == 7 { "complex"@ }
    else if code == 8 { "double"@ }
    else if code == 9 { "dpcomplex"@ }
    else { seq![] }
}

/// The libvips nickname of a sample format, as metadata reports it.
pub fn depth_name(code: i32) -> (r: String)
    ensures
        r@ == depth_name_spec(code),
{
    let name = if code == 0 { "uchar" }
    else if code == 1 { "char" }
    else if code == 2 { "ushort" }
    else if code == 3 { "short" }
    else if code == 4 { "uint" }
    else if code == 5 { "int" }
    else if code == 6 { "float" }
    else if code == 7 { "complex" }
    else if code == 8 { "double" }
    else if code == 9 { "dpcomplex" }
    else { "" };
    proof {
        reveal_strlit("uchar"); reveal_strlit("char"); reveal_strlit("ushort"); reveal_strlit("short");
        reveal_strlit("uint"); reveal_strlit("int"); reveal_strlit("float"); reveal_strlit("complex");
        reveal_strlit("double"); reveal_strlit("dpcomplex"); reveal_strlit("");
    }
    name.to_string()
}

} // verus!
