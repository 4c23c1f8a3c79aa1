//! Images composited over the processed image: how each is read, blended
//! and placed.
use crate::input::{
    create_input_descriptor, described, input_error, no_sharp_options, Create, CreateRaw, CreateText,
    FailOn, Input, InputDescriptor, SharpOptions,
};
use crate::output::or;
use crate::resize::{gravity_code, Gravity};
use crate::text::{invalid_param, invalid_parameter_error};
use vstd::prelude::*;

verus! {

broadcast use vstd::string::group_string_axioms;

/// How an overlay is blended with what lies below it.
#[derive(Debug, Clone, Copy, PartialEq, Eq, Structural)]
pub enum BlendMode {
    Clear,
    Source,
    Over,
    In,
    Out,
    Atop,
    Dest,
    DestOver,
    DestIn,
    DestOut,
    DestAtop,
    Xor,
    Add,
    Saturate,
    Multiply,
    Screen,
    Overlay,
    Darken,
    Lighten,
    ColourDodge,
    ColourBurn,
    HardLight,
    SoftLight,
    Difference,
    Exclusion,
}

/// An image to composite, with how to read and place it; its density is
/// set beside.
#[derive(Debug)]
pub struct OverlayOptions {
    pub input: Input,
    /// Blend mode (default over).
    pub blend: Option<BlendMode>,
    /// Where to place it when no offsets are given (default centre).
    pub gravity: Option<Gravity>,
    pub top: Option<i32>,
    pub left: Option<i32>,
    /// Repeat it across the whole image (default false).
    pub tile: Option<bool>,
    /// It is already premultiplied by alpha (default false).
    pub premultiplied: Option<bool>,
    pub animated: Option<bool>,
    pub fail_on: Option<FailOn>,
    pub limit_input_pixels: Option<usize>,
    pub auto_orient: Option<bool>,
    pub create: Option<Create>,
    pub raw: Option<CreateRaw>,
    pub text: Option<CreateText>,
}

/// One overlay, ready to composite.
#[derive(Debug, Clone)]
pub struct Composite {
    pub input: InputDescriptor,
    pub mode: BlendMode,
    pub gravity: i32,
    pub left: i32,
    pub top: i32,
    /// Both offsets were given.
    pub has_offset: bool,
    pub tile: bool,
    pub premultiplied: bool,
}

/// The input options with which an overlay is read.
pub open spec fn overlay_input_options(o: OverlayOptions) -> SharpOptions {
    SharpOptions {
        animated: o.animated,
        fail_on: o.fail_on,
        limit_input_pixels: o.limit_input_pixels,
        auto_orient: o.auto_orient,
        create: o.create,
        raw: o.raw,
        text: o.text,
        ..no_sharp_options()
    }
}

/// `c` is the overlay `o`, read and placed.
pub open spec fn composited(c: Composite, o: OverlayOptions) -> bool {
    &&& described(c.input, o.input, overlay_input_options(o))
    &&& c.mode == or(o.blend, BlendMode::Over)
    &&& c.tile == or(o.tile, false)
    &&& c.left == or(o.left, 0)
    &&& c.top == or(o.top, 0)
    &&& c.has_offset == (o.top is Some && o.left is Some)
    &&& c.gravity == gravity_code(or(o.gravity, Gravity::Centre))
    &&& c.premultiplied == or(o.premultiplied, false)
}

/// An overlay is blended over the image unless another mode is given,
/// placed at the centre unless a gravity is given, at an offset only when
/// both `left` and `top` are given, not tiled and not premultiplied unless
/// asked; it is read with the input options given for it.
pub proof fn lemma_overlay_defaults(c: Composite, o: OverlayOptions)
    requires
        composited(c, o),
    ensures
        o.blend is None ==> c.mode == BlendMode::Over,
        o.blend matches Some(m) ==> c.mode == m,
        o.gravity is None ==> c.gravity == 0,
        c.has_offset <==> (o.left is Some && o.top is Some),
        o.left matches Some(l) ==> c.left == l,
        o.top matches Some(t) ==> c.top == t,
        c.tile == (o.tile == Some(true)),
        c.premultiplied == (o.premultiplied == Some(true)),
        o.limit_input_pixels matches Some(l) ==> c.input.limit_input_pixels == l,
        o.animated == Some(true) ==> c.input.pages == -1,
{
}

/// The first refusal among the overlays, if any.
pub open spec fn first_overlay_error(os: Seq<OverlayOptions>) -> Option<Seq<char>>
    decreases os.len(),
{
    if os.len() == 0 {
        None
    } else if input_error(os[0].input, overlay_input_options(os[0])) is Some {
        input_error(os[0].input, overlay_input_options(os[0]))
    } else {
        first_overlay_error(os.drop_first())
    }
}

/// Overlays are accepted when each one is, and otherwise refused with the
/// refusal of the first overlay refused.
pub proof fn lemma_first_overlay_error(os: Seq<OverlayOptions>)
    ensures
        first_overlay_error(os) is None <==> forall|i: int|
            0 <= i < os.len() ==> #[trigger] input_error(os[i].input, overlay_input_options(os[i])) is None,
        first_overlay_error(os) matches Some(m) ==> exists|k: int|
            0 <= k < os.len() && #[trigger] input_error(os[k].input, overlay_input_options(os[k])) == Some(m),
    decreases os.len(),
{
    if os.len() > 0 {
        let rest = os.drop_first();
        lemma_first_overlay_error(rest);
        assert forall|i: int| 0 < i < os.len() implies #[trigger] os[i] == rest[i - 1] by {}
        if input_error(os[0].input, overlay_input_options(os[0])) is None {
            if first_overlay_error(rest) is Some {
                let m = first_overlay_error(rest)->Some_0;
                let k = choose|k: int|
                    0 <= k < rest.len() && #[trigger] input_error(rest[k].input, overlay_input_options(rest[k])) == Some(m);
                assert(os[k + 1] == rest[k]);
            } else {
                assert forall|i: int| 0 <= i < os.len() implies #[trigger] input_error(os[i].input, overlay_input_options(os[i])) is None by {
                    if i > 0 {
                        assert(os[i] == rest[i - 1]);
                    }
                }
            }
        }
    }
}

/// `images to composite` refused: "array".
pub open spec fn err_no_overlays_text() -> Seq<char> {
    invalid_param("images to composite"@, "\"array\""@, "images"@)
}

/// Reads and places the images to composite, in order; at least one is
/// needed.
pub fn composite(images: Vec<OverlayOptions>) -> (r: Result<Vec<Composite>, String>)
    ensures
        if images@.len() == 0 {
            r matches Err(e) && e@ == err_no_overlays_text()
        } else {
            match first_overlay_error(images@) {
                Some(m) => r matches Err(e) && e@ == m,
                None => r matches Ok(cs) && cs@.len() == images@.len() && forall|i: int|
                    0 <= i < cs@.len() ==> composited(#[trigger] cs@[i], images@[i]),
            }
        },
{
    if images.len() == 0 {
        proof {
            reveal_strlit("images to composite");
            reveal_strlit("\"array\"");
            reveal_strlit("images");
        }
        return Err(invalid_parameter_error("images to composite", "\"array\"", "images"));
    }
    let ghost all = images@;
    let mut rest = images;
    let mut out: Vec<Composite> = Vec::new();
    while rest.len() > 0
        invariant
            all == images@,
            all.len() > 0,
            all == all.take(out@.len() as int) + rest@,
            out@.len() <= all.len(),
            first_overlay_error(all) == first_overlay_error(rest@),
            forall|i: int| 0 <= i < out@.len() ==> composited(#[trigger] out@[i], all[i]),
        decreases rest@.len(),
    {
        let ghost before = rest@;
        let o = rest.remove(0);
        assert(before[0] == o);
        assert(before.drop_first() =~= rest@);
        assert(all.take(out@.len() as int + 1) =~= all.take(out@.len() as int).push(o));
        assert(all[out@.len() as int] == o);
        let ghost og = o;
        let options = SharpOptions {
            auto_orient: o.auto_orient,
            fail_on: o.fail_on,
            limit_input_pixels: o.limit_input_pixels,
            unlimited: None,
            sequential_read: None,
            ignore_icc: None,
            pages: None,
            page: None,
            subifd: None,
            level: None,
            animated: o.animated,
            raw: o.raw,
            create: o.create,
            text: o.text,
            join: None,
        };
        assert(options == overlay_input_options(og));
        let gravity = match o.gravity {
            Some(g) => g.code(),
            None => 0,
        };
        match create_input_descriptor(o.input, Some(options)) {
            Ok(d) => {
                out.push(
                    Composite {
                        input: d,
                        mode: match o.blend {
                            Some(b) => b,
                            None => BlendMode::Over,
                        },
                        gravity,
                        left: match o.left {
                            Some(v) => v,
                            None => 0,
                        },
                        top: match o.top {
                            Some(v) => v,
                            None => 0,
                        },
                        has_offset: o.top.is_some() && o.left.is_some(),
                        tile: match o.tile {
                            Some(t) => t,
                            None => false,
                        },
                        premultiplied: match o.premultiplied {
                            Some(p) => p,
                            None => false,
                        },
                    },
                );
            },
            Err(e) => {
                assert(first_overlay_error(before) == input_error(og.input, overlay_input_options(og)));
                return Err(e);
            },
        }
    }
    assert(all.take(out@.len() as int) =~= all);
    Ok(out)
}

} // verus!
