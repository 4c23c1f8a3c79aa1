//! Deciding how an input is opened: which source it comes from, which
//! loader options apply to its format, how rendered text is sized, and
//! whether the opened image is within the pixel limit.
use crate::image_type::{image_type_supports_page, image_type_supports_unlimited, supports_page, supports_unlimited, ImageType};
use crate::input::{described, input_error, Input, InputDescriptor, SharpOptions};
use crate::text::str_eq;
use vstd::prelude::*;

verus! {

broadcast use vstd::string::group_string_axioms;

/// Where the pixels of an input come from.
#[derive(Debug, Clone, Copy, PartialEq, Eq, Structural)]
pub enum Source {
    /// Raw pixels in the buffer.
    Raw,
    /// Encoded image data in the buffer.
    Encoded,
    /// A new image, of Gaussian noise or of the background colour.
    Created { noise: bool },
    /// Rendered text.
    Text,
    /// A file.
    File,
}

/// The source of an input: for a buffer, raw pixels when channels are
/// given, else encoded data; otherwise a created image when it has
/// channels, else rendered text when there is text, else the file.
pub open spec fn source_of(d: InputDescriptor) -> Source {
    if d.is_buffer {
        if d.raw_channels > 0 {
            Source::Raw
        } else {
            Source::Encoded
        }
    } else if d.create_channels > 0 {
        Source::Created { noise: d.create_noise_type@ == "gaussian"@ }
    } else if d.text_value@.len() > 0 {
        Source::Text
    } else {
        Source::File
    }
}

/// Where the pixels of the input described by `d` come from.
pub fn input_source(d: &InputDescriptor) -> (r: Source)
    ensures
        r == source_of(*d),
{
    if d.is_buffer {
        if d.raw_channels > 0 {
            Source::Raw
        } else {
            Source::Encoded
        }
    } else if d.create_channels > 0 {
        Source::Created { noise: str_eq(d.create_noise_type.as_str(), "gaussian") }
    } else if d.text_value.as_str().unicode_len() > 0 {
        Source::Text
    } else {
        Source::File
    }
}

/// The sizing of rendered text: (width, height, dpi), each when it is
/// passed to the renderer. A width is passed when positive; a height only
/// with a width, and then no resolution; else a positive resolution.
pub open spec fn text_size_spec(d: InputDescriptor) -> (Option<i32>, Option<i32>, Option<i32>) {
    let width = if d.text_width > 0 {
        Some(d.text_width)
    } else {
        None
    };
    if d.text_width > 0 && d.text_height > 0 {
        (width, Some(d.text_height), None)
    } else if d.text_dpi > 0 {
        (width, None, Some(d.text_dpi))
    } else {
        (width, None, None)
    }
}

/// The width, height and resolution passed to the text renderer.
pub fn text_size(d: &InputDescriptor) -> (r: (Option<i32>, Option<i32>, Option<i32>))
    ensures
        r == text_size_spec(*d),
{
    let width = if d.text_width > 0 {
        Some(d.text_width)
    } else {
        None
    };
    if d.text_width > 0 && d.text_height > 0 {
        (width, Some(d.text_height), None)
    } else if d.text_dpi > 0 {
        (width, None, Some(d.text_dpi))
    } else {
        (width, None, None)
    }
}

/// An accepted input is opened from where it says: a buffer as raw pixels
/// when raw options are given, else as encoded data; otherwise a new image
/// when one is to be created (of Gaussian noise when asked for), else
/// rendered text when there is text, else the file.
pub proof fn lemma_source_of_input(d: InputDescriptor, input: Input, o: SharpOptions)
    requires
        described(d, input, o),
        input_error(input, o) is None,
    ensures
        (input is Buffer && o.raw is Some) ==> source_of(d) == Source::Raw,
        (input is Buffer && o.raw is None) ==> source_of(d) == Source::Encoded,
        !(input is Buffer) ==> (o.create matches Some(c) ==> source_of(d) == (Source::Created {
            noise: c.noise matches Some(n) && n.gaussian == Some(true),
        })),
        (!(input is Buffer) && o.create is None) ==> (o.text matches Some(t) && t.text@.len() > 0
            <==> source_of(d) == Source::Text),
        (input is Path && o.create is None && o.text is None) ==> source_of(d) == Source::File,
{
    reveal_strlit("gaussian");
    if !(input is Buffer) && o.create is Some {
        let c = o.create->Some_0;
        assert(crate::input::create_error(o.create) is None);
        assert(c.channels >= 1);
        assert(d.create_channels == c.channels);
        assert("gaussian"@.len() == 8);
    }
}

/// Text is sized by a width when one is given; a height is used only with
/// a width, and then the resolution is not; otherwise a resolution given is
/// used.
pub proof fn lemma_text_sizing(d: InputDescriptor)
    ensures
        ({
            let (w, h, dpi) = text_size_spec(d);
            &&& d.text_width > 0 ==> w == Some(d.text_width)
            &&& d.text_width <= 0 ==> w is None && h is None
            &&& (d.text_width > 0 && d.text_height > 0) ==> h == Some(d.text_height) && dpi is None
            &&& !(d.text_width > 0 && d.text_height > 0) ==> h is None && (dpi is Some <==> d.text_dpi > 0)
            &&& dpi matches Some(v) ==> v == d.text_dpi
        }),
{
}

/// The loader options of a format that depend on the description: lift the
/// safety limits when asked and the format's loader allows it, and pass the
/// page count and first page when its loader takes them.
pub fn loader_flags(d: &InputDescriptor, image_type: ImageType) -> (r: (bool, bool))
    ensures
        r == (d.unlimited && supports_unlimited(image_type), supports_page(image_type)),
{
    (d.unlimited && image_type_supports_unlimited(&image_type), image_type_supports_page(&image_type))
}

/// The message for an input over its pixel limit.
pub open spec fn pixel_limit_text() -> Seq<char> {
    "Input image exceeds pixel limit"@
}

/// Refuses an opened image of `width` by `height` pixels when a limit is set
/// and the image has more pixels than the limit.
pub fn check_pixel_limit(limit: usize, width: i32, height: i32) -> (r: Result<(), String>)
    ensures
        if limit > 0 && width * height > limit {
            r matches Err(e) && e@ == pixel_limit_text()
        } else {
            r is Ok
        },
{
    let w: i64 = width as i64;
    let h: i64 = height as i64;
    assert(-0x4000_0000_0000_0000 <= w * h <= 0x4000_0000_0000_0000) by (nonlinear_arith)
        requires
            -0x8000_0000 <= w <= 0x7fff_ffff,
            -0x8000_0000 <= h <= 0x7fff_ffff,
    ;
    let pixels: i64 = w * h;
    if limit > 0 && pixels > 0 && pixels as u64 > limit as u64 {
        proof {
            reveal_strlit("Input image exceeds pixel limit");
        }
        return Err("Input image exceeds pixel limit".to_string());
    }
    Ok(())
}

} // verus!
