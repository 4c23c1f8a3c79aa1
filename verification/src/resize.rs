//! Resizing, extraction, extension and rotation settings, and the crop or
//! embed that brings a resized image to the requested size.
use crate::geometry::{
    calculate_crop, calculate_embed_position, crop_position, embed_position, lemma_crop_gravity,
    lemma_crop_inside, lemma_embed_gravity, lemma_embed_inside, toward_east, toward_north,
    toward_south, toward_west,
};
use crate::output::or;
use crate::text::{invalid_param, invalid_parameter_error};
use vstd::prelude::*;

verus! {

/// How the image fits the requested dimensions.
#[derive(Debug, Clone, Copy, PartialEq, Eq, Structural)]
pub enum Fit {
    /// Preserve the aspect ratio and letterbox.
    Contain,
    /// Preserve the aspect ratio and crop.
    Cover,
    /// Stretch to both dimensions.
    Fill,
    /// As large as possible within both dimensions.
    Inside,
    /// As small as possible while covering both dimensions.
    Outside,
}

/// What the pipeline does to reach the requested dimensions.
#[derive(Debug, Clone, Copy, PartialEq, Eq, Structural)]
pub enum Canvas {
    Crop,
    Embed,
    Max,
    Min,
    IgnoreAspect,
}

/// The canvas behaviour of a fit.
pub open spec fn fit_canvas(f: Fit) -> Canvas {
    match f {
        Fit::Contain => Canvas::Embed,
        Fit::Cover => Canvas::Crop,
        Fit::Fill => Canvas::IgnoreAspect,
        Fit::Inside => Canvas::Max,
        Fit::Outside => Canvas::Min,
    }
}

/// Resampling kernels.
#[derive(Debug, Clone, Copy, PartialEq, Eq, Structural)]
pub enum Kernel {
    Nearest,
    Linear,
    Cubic,
    Mitchell,
    Lanczos2,
    Lanczos3,
    Mks2013,
    Mks2021,
}

/// How new edge pixels are made.
#[derive(Debug, Clone, Copy, PartialEq, Eq, Structural)]
pub enum Extend {
    Black,
    Copy,
    Repeat,
    Mirror,
    White,
    Background,
}

/// Gravities, by code 0 (centre) to 8.
#[derive(Debug, Clone, Copy, PartialEq, Eq, Structural)]
pub enum Gravity {
    Centre,
    North,
    East,
    South,
    West,
    Northeast,
    Southeast,
    Southwest,
    Northwest,
}

/// The code of a gravity.
pub open spec fn gravity_code(g: Gravity) -> i32 {
    match g {
        Gravity::Centre => 0,
        Gravity::North => 1,
        Gravity::East => 2,
        Gravity::South => 3,
        Gravity::West => 4,
        Gravity::Northeast => 5,
        Gravity::Southeast => 6,
        Gravity::Southwest => 7,
        Gravity::Northwest => 8,
    }
}

impl Gravity {
    /// The code of this gravity.
    pub fn code(&self) -> (r: i32)
        ensures
            r == gravity_code(*self),
    {
        match self {
            Gravity::Centre => 0,
            Gravity::North => 1,
            Gravity::East => 2,
            Gravity::South => 3,
            Gravity::West => 4,
            Gravity::Northeast => 5,
            Gravity::Southeast => 6,
            Gravity::Southwest => 7,
            Gravity::Northwest => 8,
        }
    }
}

/// Positions, by code 1 (top) to 8 (left top).
#[derive(Debug, Clone, Copy, PartialEq, Eq, Structural)]
pub enum Position {
    Top,
    Right,
    Bottom,
    Left,
    RightTop,
    RightBottom,
    LeftBottom,
    LeftTop,
}

/// The code of a position.
pub open spec fn position_code(p: Position) -> i32 {
    match p {
        Position::Top => 1,
        Position::Right => 2,
        Position::Bottom => 3,
        Position::Left => 4,
        Position::RightTop => 5,
        Position::RightBottom => 6,
        Position::LeftBottom => 7,
        Position::LeftTop => 8,
    }
}

impl Position {
    /// The code of this position.
    pub fn code(&self) -> (r: i32)
        ensures
            r == position_code(*self),
    {
        match self {
            Position::Top => 1,
            Position::Right => 2,
            Position::Bottom => 3,
            Position::Left => 4,
            Position::RightTop => 5,
            Position::RightBottom => 6,
            Position::LeftBottom => 7,
            Position::LeftTop => 8,
        }
    }
}

/// A region to extract.
#[derive(Debug, Clone, Copy)]
pub struct Region {
    /// Offset from the left edge.
    pub left: u32,
    /// Offset from the top edge.
    pub top: u32,
    pub width: u32,
    pub height: u32,
}

/// Resize options other than the background colour, which is set beside.
#[derive(Debug, Clone, Default)]
pub struct ResizeOptions {
    pub width: i32,
    pub height: i32,
    /// How the image fits both dimensions (default cover).
    pub fit: Option<Fit>,
    /// Position when the fit is cover or contain (default centre).
    pub position: Option<Position>,
    /// Kernel for reduction (default lanczos3).
    pub kernel: Option<Kernel>,
    /// Do not enlarge smaller images (default false).
    pub without_enlargement: Option<bool>,
    /// Do not reduce larger images (default false).
    pub without_reduction: Option<bool>,
    /// Use shrink-on-load more eagerly (default true).
    pub fast_shrink_on_load: Option<bool>,
}

/// Extension options other than the background colour, which is set beside.
#[derive(Debug, Clone, Default)]
pub struct ExtendOptions {
    pub top: Option<i32>,
    pub left: Option<i32>,
    pub bottom: Option<i32>,
    pub right: Option<i32>,
    /// How the new edges are made (default background).
    pub extend_with: Option<Extend>,
}

/// The integer and flag settings of resizing, extraction, extension and
/// rotation. An unset size or offset is -1.
#[derive(Debug, Clone, Copy)]
pub struct GeometrySettings {
    pub top_offset_pre: i32,
    pub left_offset_pre: i32,
    pub width_pre: i32,
    pub height_pre: i32,
    pub top_offset_post: i32,
    pub left_offset_post: i32,
    pub width_post: i32,
    pub height_post: i32,
    pub width: i32,
    pub height: i32,
    pub canvas: Canvas,
    pub position: i32,
    /// Rotation by a multiple of 90 degrees.
    pub angle: i32,
    /// Rotation by any other whole number of degrees; 0 for none.
    pub rotation_angle: i32,
    pub rotate_before: bool,
    pub orient_before: bool,
    pub flip: bool,
    pub flop: bool,
    pub extend_top: i32,
    pub extend_bottom: i32,
    pub extend_left: i32,
    pub extend_right: i32,
    pub extend_with: Extend,
    pub without_enlargement: bool,
    pub without_reduction: bool,
    pub kernel: Kernel,
    pub fast_shrink_on_load: bool,
    /// Trim edges of the background colour.
    pub trim: bool,
}

/// The geometry settings of a new pipeline.
pub open spec fn initial_geometry(g: GeometrySettings) -> bool {
    &&& g.top_offset_pre == -1 && g.left_offset_pre == -1 && g.width_pre == -1 && g.height_pre
        == -1
    &&& g.top_offset_post == -1 && g.left_offset_post == -1 && g.width_post == -1
        && g.height_post == -1
    &&& g.width == -1 && g.height == -1 && g.canvas == Canvas::Crop && g.position == 0
    &&& g.angle == 0 && g.rotation_angle == 0 && !g.rotate_before && !g.orient_before
    &&& !g.flip && !g.flop
    &&& g.extend_top == 0 && g.extend_bottom == 0 && g.extend_left == 0 && g.extend_right == 0
    &&& g.extend_with == Extend::Background
    &&& !g.without_enlargement && !g.without_reduction && g.kernel == Kernel::Lanczos3
    &&& g.fast_shrink_on_load && !g.trim
}

impl GeometrySettings {
    /// The geometry settings of a new pipeline.
    pub fn new() -> (r: GeometrySettings)
        ensures
            initial_geometry(r),
    {
        GeometrySettings {
            top_offset_pre: -1,
            left_offset_pre: -1,
            width_pre: -1,
            height_pre: -1,
            top_offset_post: -1,
            left_offset_post: -1,
            width_post: -1,
            height_post: -1,
            width: -1,
            height: -1,
            canvas: Canvas::Crop,
            position: 0,
            angle: 0,
            rotation_angle: 0,
            rotate_before: false,
            orient_before: false,
            flip: false,
            flop: false,
            extend_top: 0,
            extend_bottom: 0,
            extend_left: 0,
            extend_right: 0,
            extend_with: Extend::Background,
            without_enlargement: false,
            without_reduction: false,
            kernel: Kernel::Lanczos3,
            fast_shrink_on_load: true,
            trim: false,
        }
    }
}

/// What brings the resized image to the requested size.
#[derive(Debug, Clone, Copy, PartialEq, Eq, Structural)]
pub enum CanvasAction {
    /// Nothing: the size already matches, or the canvas keeps it.
    Keep,
    /// Embed in a larger canvas at (left, top).
    Embed { left: i32, top: i32, width: i32, height: i32 },
    /// Extract the region at (left, top).
    Crop { left: i32, top: i32, width: i32, height: i32 },
    /// Crop to the most interesting region, by entropy or by attention.
    SmartCrop { width: i32, height: i32, entropy: bool },
}

/// The requested size, the image size when not given.
pub open spec fn resolved(requested: i32, actual: i32) -> i32 {
    if requested <= 0 {
        actual
    } else {
        requested
    }
}

/// The larger of two numbers.
pub open spec fn max_i32(a: i32, b: i32) -> i32 {
    if a < b {
        b
    } else {
        a
    }
}

/// The smaller of two numbers.
pub open spec fn min_i32(a: i32, b: i32) -> i32 {
    if a < b {
        a
    } else {
        b
    }
}

/// The final size and the step that brings an image of `in_w` by `in_h` to
/// the requested `width` by `height` (0 or less: keep that dimension):
/// embed under the gravity `position`, or crop, at a gravity (codes below
/// 9) or by a strategy (16 for entropy, else attention), never beyond the
/// image.
pub open spec fn canvas_plan_spec(in_w: i32, in_h: i32, width: i32, height: i32, canvas: Canvas, position: i32) -> (i32, i32, CanvasAction) {
    let w = resolved(width, in_w);
    let h = resolved(height, in_h);
    if in_w == w && in_h == h {
        (w, h, CanvasAction::Keep)
    } else if canvas == Canvas::Embed {
        let (l, t) = embed_position(in_w as int, in_h as int, w as int, h as int, position as int);
        (w, h, CanvasAction::Embed { left: l as i32, top: t as i32, width: max_i32(in_w, w), height: max_i32(in_h, h) })
    } else if canvas == Canvas::Crop {
        let cw = min_i32(w, in_w);
        let ch = min_i32(h, in_h);
        if position < 9 {
            let (l, t) = crop_position(in_w as int, in_h as int, cw as int, ch as int, position as int);
            (cw, ch, CanvasAction::Crop { left: l as i32, top: t as i32, width: cw, height: ch })
        } else {
            (cw, ch, CanvasAction::SmartCrop { width: cw, height: ch, entropy: position == 16 })
        }
    } else {
        (w, h, CanvasAction::Keep)
    }
}

/// The final size and the crop or embed that brings an image of `in_width`
/// by `in_height` to the requested size.
pub fn canvas_plan(in_width: i32, in_height: i32, width: i32, height: i32, canvas: Canvas, position: i32) -> (r: (i32, i32, CanvasAction))
    requires
        in_width > 0,
        in_height > 0,
    ensures
        r == canvas_plan_spec(in_width, in_height, width, height, canvas, position),
{
    let w = if width <= 0 {
        in_width
    } else {
        width
    };
    let h = if height <= 0 {
        in_height
    } else {
        height
    };
    if in_width == w && in_height == h {
        return (w, h, CanvasAction::Keep);
    }
    if canvas == Canvas::Embed {
        let (left, top) = calculate_embed_position(in_width, in_height, w, h, position);
        let ew = if in_width < w {
            w
        } else {
            in_width
        };
        let eh = if in_height < h {
            h
        } else {
            in_height
        };
        (w, h, CanvasAction::Embed { left, top, width: ew, height: eh })
    } else if canvas == Canvas::Crop {
        let cw = if w > in_width {
            in_width
        } else {
            w
        };
        let ch = if h > in_height {
            in_height
        } else {
            h
        };
        if position < 9 {
            let (left, top) = calculate_crop(in_width, in_height, cw, ch, position);
            (cw, ch, CanvasAction::Crop { left, top, width: cw, height: ch })
        } else {
            (cw, ch, CanvasAction::SmartCrop { width: cw, height: ch, entropy: position == 16 })
        }
    } else {
        (w, h, CanvasAction::Keep)
    }
}


/// A resize has been asked for.
pub open spec fn resize_expected(g: GeometrySettings) -> bool {
    g.width != -1 || g.height != -1
}

/// A rotation has been asked for: by an angle that is not a multiple of
/// 360, by the EXIF orientation of the input (`auto_orient`), or by a free
/// angle.
pub open spec fn rotation_expected(g: GeometrySettings, auto_orient: bool) -> bool {
    g.angle % 360 != 0 || auto_orient || g.rotation_angle != 0
}

/// `name` refused: "positive integer".
pub open spec fn err_positive_text(name: Seq<char>) -> Seq<char> {
    invalid_param(name, "\"positive integer\""@, name)
}

fn err_positive(name: &str) -> (r: String)
    requires
        name@ == "width"@ || name@ == "height"@ || name@ == "top"@ || name@ == "bottom"@ || name@
            == "left"@ || name@ == "right"@,
    ensures
        r@ == err_positive_text(name@),
{
    proof {
        reveal_strlit("width");
        reveal_strlit("height");
        reveal_strlit("top");
        reveal_strlit("bottom");
        reveal_strlit("left");
        reveal_strlit("right");
        reveal_strlit("\"positive integer\"");
    }
    invalid_parameter_error(name, "\"positive integer\"", name)
}

/// The geometry after accepted resize options; a rotation asked for
/// happens before the resize.
pub open spec fn resized(g: GeometrySettings, o: ResizeOptions, auto_orient: bool) -> GeometrySettings {
    GeometrySettings {
        width: requested_size(o.width),
        height: requested_size(o.height),
        canvas: match o.fit {
            Some(f) => fit_canvas(f),
            None => g.canvas,
        },
        position: match o.position {
            Some(p) => position_code(p),
            None => g.position,
        },
        kernel: or(o.kernel, g.kernel),
        without_enlargement: or(o.without_enlargement, g.without_enlargement),
        without_reduction: or(o.without_reduction, g.without_reduction),
        fast_shrink_on_load: or(o.fast_shrink_on_load, g.fast_shrink_on_load),
        rotate_before: g.rotate_before || (rotation_expected(g, auto_orient) && (o.width > 0
            || o.height > 0)),
        ..g
    }
}

/// A requested dimension as stored: 0 asks for none, which is kept as -1
/// and scaled from the other dimension to keep the aspect ratio when the
/// image is resized.
pub open spec fn requested_size(v: i32) -> i32 {
    if v == 0 {
        -1i32
    } else {
        v
    }
}

/// Resize options with only the dimensions given.
pub open spec fn size_only(width: i32, height: i32) -> ResizeOptions {
    ResizeOptions {
        width,
        height,
        fit: None,
        position: None,
        kernel: None,
        without_enlargement: None,
        without_reduction: None,
        fast_shrink_on_load: None,
    }
}

/// The outcome of resizing with `o` when the input is auto-oriented or not:
/// a negative dimension is refused; a dimension of 0 is left to be scaled
/// from the other one, keeping the aspect ratio.
pub open spec fn resize_outcome(g: GeometrySettings, o: ResizeOptions, auto_orient: bool, r: Result<GeometrySettings, String>) -> bool {
    if o.width < 0 {
        r matches Err(e) && e@ == err_positive_text("width"@)
    } else if o.height < 0 {
        r matches Err(e) && e@ == err_positive_text("height"@)
    } else {
        r == Ok::<GeometrySettings, String>(resized(g, o, auto_orient))
    }
}

/// The geometry after extracting `region`: after the resize when one has
/// been asked for or a region was already extracted before it, else before
/// the resize; a rotation asked for then happens before the extraction
/// unless both extractions are set.
pub open spec fn extracted(g: GeometrySettings, region: Region, auto_orient: bool) -> GeometrySettings {
    let post = resize_expected(g) || g.width_pre != -1;
    let h = if post {
        GeometrySettings {
            left_offset_post: region.left as i32,
            top_offset_post: region.top as i32,
            width_post: region.width as i32,
            height_post: region.height as i32,
            ..g
        }
    } else {
        GeometrySettings {
            left_offset_pre: region.left as i32,
            top_offset_pre: region.top as i32,
            width_pre: region.width as i32,
            height_pre: region.height as i32,
            ..g
        }
    };
    GeometrySettings {
        rotate_before: h.rotate_before || (rotation_expected(g, auto_orient) && !resize_expected(g)
            && (h.width_pre == -1 || h.width_post == -1)),
        ..h
    }
}

/// The geometry after a rotation by `angle` degrees: a multiple of 90 turns,
/// any other angle rotates freely; a positive angle asked for before is
/// forgotten.
pub open spec fn rotated(g: GeometrySettings, angle: i32) -> GeometrySettings {
    if angle % 90 == 0 {
        GeometrySettings { angle, rotation_angle: 0, ..g }
    } else {
        GeometrySettings { angle: 0, rotation_angle: angle, ..g }
    }
}

impl GeometrySettings {
    /// Has a resize been asked for?
    pub fn resize_is_expected(&self) -> (r: bool)
        ensures
            r == resize_expected(*self),
    {
        self.width != -1 || self.height != -1
    }

    /// Has a rotation been asked for, given whether the input is
    /// auto-oriented?
    pub fn rotation_is_expected(&self, auto_orient: bool) -> (r: bool)
        ensures
            r == rotation_expected(*self, auto_orient),
    {
        self.angle % 360 != 0 || auto_orient || self.rotation_angle != 0
    }

    /// Resize to `width` by `height`, with default options.
    pub fn resize(self, width: i32, height: i32, auto_orient: bool) -> (r: Result<GeometrySettings, String>)
        ensures
            resize_outcome(self, size_only(width, height), auto_orient, r),
    {
        self.resize_with_opts(
            ResizeOptions {
                width,
                height,
                fit: None,
                position: None,
                kernel: None,
                without_enlargement: None,
                without_reduction: None,
                fast_shrink_on_load: None,
            },
            auto_orient,
        )
    }

    /// Resize with these options: a dimension of 0 is scaled from the other
    /// one to keep the aspect ratio; negative dimensions are refused.
    #[verifier::rlimit(40)]
    pub fn resize_with_opts(self, options: ResizeOptions, auto_orient: bool) -> (r: Result<GeometrySettings, String>)
        ensures
            resize_outcome(self, options, auto_orient, r),
    {
        if options.width < 0 {
            return Err(err_positive("width"));
        }
        if options.height < 0 {
            return Err(err_positive("height"));
        }
        let canvas = match options.fit {
            Some(Fit::Contain) => Canvas::Embed,
            Some(Fit::Cover) => Canvas::Crop,
            Some(Fit::Fill) => Canvas::IgnoreAspect,
            Some(Fit::Inside) => Canvas::Max,
            Some(Fit::Outside) => Canvas::Min,
            None => self.canvas,
        };
        let position = match options.position {
            Some(p) => p.code(),
            None => self.position,
        };
        let kernel = match options.kernel {
            Some(k) => k,
            None => self.kernel,
        };
        let without_enlargement = match options.without_enlargement {
            Some(v) => v,
            None => self.without_enlargement,
        };
        let without_reduction = match options.without_reduction {
            Some(v) => v,
            None => self.without_reduction,
        };
        let fast_shrink_on_load = match options.fast_shrink_on_load {
            Some(v) => v,
            None => self.fast_shrink_on_load,
        };
        let rotate_before = self.rotate_before || (self.rotation_is_expected(auto_orient) && (
        options.width > 0 || options.height > 0));
        let width: i32 = if options.width == 0 {
            -1
        } else {
            options.width
        };
        let height: i32 = if options.height == 0 {
            -1
        } else {
            options.height
        };
        assert(width == requested_size(options.width) && height == requested_size(options.height));
        Ok(
            GeometrySettings {
                width,
                height,
                canvas,
                position,
                kernel,
                without_enlargement,
                without_reduction,
                fast_shrink_on_load,
                rotate_before,
                ..self
            },
        )
    }

    /// Extend the edges by the given numbers of pixels, each at least 0.
    pub fn extend(self, extend: ExtendOptions) -> (r: Result<GeometrySettings, String>)
        ensures
            if extend.top matches Some(v) && v < 0 {
                r matches Err(e) && e@ == err_positive_text("top"@)
            } else if extend.bottom matches Some(v) && v < 0 {
                r matches Err(e) && e@ == err_positive_text("bottom"@)
            } else if extend.left matches Some(v) && v < 0 {
                r matches Err(e) && e@ == err_positive_text("left"@)
            } else if extend.right matches Some(v) && v < 0 {
                r matches Err(e) && e@ == err_positive_text("right"@)
            } else {
                r == Ok::<GeometrySettings, String>(GeometrySettings {
                    extend_top: or(extend.top, self.extend_top),
                    extend_bottom: or(extend.bottom, self.extend_bottom),
                    extend_left: or(extend.left, self.extend_left),
                    extend_right: or(extend.right, self.extend_right),
                    extend_with: or(extend.extend_with, self.extend_with),
                    ..self
                })
            },
    {
        let top = match extend.top {
            Some(v) => {
                if v < 0 {
                    return Err(err_positive("top"));
                }
                v
            },
            None => self.extend_top,
        };
        let bottom = match extend.bottom {
            Some(v) => {
                if v < 0 {
                    return Err(err_positive("bottom"));
                }
                v
            },
            None => self.extend_bottom,
        };
        let left = match extend.left {
            Some(v) => {
                if v < 0 {
                    return Err(err_positive("left"));
                }
                v
            },
            None => self.extend_left,
        };
        let right = match extend.right {
            Some(v) => {
                if v < 0 {
                    return Err(err_positive("right"));
                }
                v
            },
            None => self.extend_right,
        };
        let extend_with = match extend.extend_with {
            Some(w) => w,
            None => self.extend_with,
        };
        Ok(
            GeometrySettings {
                extend_top: top,
                extend_bottom: bottom,
                extend_left: left,
                extend_right: right,
                extend_with,
                ..self
            },
        )
    }

    /// Extract a region, before or after the resize.
    pub fn extract(self, region: Region, auto_orient: bool) -> (r: GeometrySettings)
        ensures
            r == extracted(self, region, auto_orient),
    {
        let post = self.resize_is_expected() || self.width_pre != -1;
        let h = if post {
            GeometrySettings {
                left_offset_post: region.left as i32,
                top_offset_post: region.top as i32,
                width_post: region.width as i32,
                height_post: region.height as i32,
                ..self
            }
        } else {
            GeometrySettings {
                left_offset_pre: region.left as i32,
                top_offset_pre: region.top as i32,
                width_pre: region.width as i32,
                height_pre: region.height as i32,
                ..self
            }
        };
        let rotate_before = h.rotate_before || (self.rotation_is_expected(auto_orient)
            && !h.resize_is_expected() && (h.width_pre == -1 || h.width_post == -1));
        GeometrySettings { rotate_before, ..h }
    }

    /// Trim edges of the background colour; `threshold_error` is the
    /// refusal, if any, of the threshold given beside. A rotation asked for
    /// happens before the trim.
    pub fn trim(self, threshold_error: Option<String>, auto_orient: bool) -> (r: Result<GeometrySettings, String>)
        ensures
            match threshold_error {
                Some(m) => r matches Err(e) && e@ == m@,
                None => r == Ok::<GeometrySettings, String>(GeometrySettings {
                    trim: true,
                    rotate_before: self.rotate_before || rotation_expected(self, auto_orient),
                    ..self
                }),
            },
    {
        match threshold_error {
            Some(e) => {
                return Err(e);
            },
            None => {},
        }
        let mut g = self;
        g.trim = true;
        if self.rotation_is_expected(auto_orient) {
            g.rotate_before = true;
        }
        Ok(g)
    }

    /// Rotate by `angle` degrees; the background of a free rotation is set
    /// beside.
    pub fn rotate(self, angle: i32) -> (r: GeometrySettings)
        ensures
            r == rotated(self, angle),
    {
        let mut g = self;
        // Only one rotation occurs per pipeline: an earlier one is dropped.
        g.angle = 0;
        g.rotation_angle = 0;
        if angle % 90 == 0 {
            g.angle = angle;
        } else {
            g.rotation_angle = angle;
        }
        g
    }

    /// Mirror vertically, or not.
    pub fn flip(self, flip: bool) -> (r: GeometrySettings)
        ensures
            r == (GeometrySettings { flip, ..self }),
    {
        let mut g = self;
        g.flip = flip;
        g
    }

    /// Mirror horizontally, or not.
    pub fn flop(self, flop: bool) -> (r: GeometrySettings)
        ensures
            r == (GeometrySettings { flop, ..self }),
    {
        let mut g = self;
        g.flop = flop;
        g
    }
}


impl GeometrySettings {
    /// The geometry of one image of an icon: `size` square, contained.
    pub fn icon_size(self, size: u16) -> (r: GeometrySettings)
        ensures
            r == (GeometrySettings { width: size as i32, height: size as i32, canvas: Canvas::Embed, ..self }),
    {
        GeometrySettings { width: size as i32, height: size as i32, canvas: Canvas::Embed, ..self }
    }
}


/// The step chosen to reach the requested size stays within bounds: a
/// crop (at a gravity or by a strategy) takes a non-empty region inside the
/// image, and an embed into a canvas no smaller than the image places the
/// whole image inside the canvas.
pub proof fn lemma_canvas_plan_bounds(in_w: i32, in_h: i32, width: i32, height: i32, canvas: Canvas, position: i32)
    requires
        in_w > 0,
        in_h > 0,
    ensures
        match canvas_plan_spec(in_w, in_h, width, height, canvas, position).2 {
            CanvasAction::Crop { left, top, width: cw, height: ch } => 0 < cw && 0 < ch && 0
                <= left && left + cw <= in_w && 0 <= top && top + ch <= in_h,
            CanvasAction::SmartCrop { width: cw, height: ch, .. } => 0 < cw <= in_w && 0 < ch
                <= in_h,
            CanvasAction::Embed { left, top, width: ew, height: eh } => (in_w <= resolved(width, in_w)
                && in_h <= resolved(height, in_h)) ==> (0 <= left && left + in_w <= ew && 0 <= top
                && top + in_h <= eh),
            CanvasAction::Keep => true,
        },
{
    let w = resolved(width, in_w);
    let h = resolved(height, in_h);
    if !(in_w == w && in_h == h) {
        if canvas == Canvas::Embed {
            if in_w <= w && in_h <= h {
                lemma_embed_inside(in_w as int, in_h as int, w as int, h as int, position as int);
            }
            let (l, t) = embed_position(in_w as int, in_h as int, w as int, h as int, position as int);
            assert(i32::MIN <= l <= i32::MAX && i32::MIN <= t <= i32::MAX) by {
                lemma_embed_range(in_w as int, in_h as int, w as int, h as int, position as int);
            }
        } else if canvas == Canvas::Crop {
            let cw = min_i32(w, in_w);
            let ch = min_i32(h, in_h);
            lemma_crop_inside(in_w as int, in_h as int, cw as int, ch as int, position as int);
        }
    }
}

/// Embed offsets between two positive sizes lie between their differences.
proof fn lemma_embed_range(in_w: int, in_h: int, out_w: int, out_h: int, gravity: int)
    requires
        0 < in_w <= i32::MAX,
        0 < in_h <= i32::MAX,
        0 < out_w <= i32::MAX,
        0 < out_h <= i32::MAX,
    ensures
        ({
            let (l, t) = embed_position(in_w, in_h, out_w, out_h, gravity);
            -i32::MAX <= l <= i32::MAX && -i32::MAX <= t <= i32::MAX
        }),
{
}


/// Extraction before any resize sets the region cut before resizing.
pub proof fn lemma_extract_before_resize(g: GeometrySettings, region: Region, auto_orient: bool)
    requires
        initial_geometry(g),
    ensures
        ({
            let h = extracted(g, region, auto_orient);
            &&& h.left_offset_pre == region.left as i32 && h.top_offset_pre == region.top as i32
            &&& h.width_pre == region.width as i32 && h.height_pre == region.height as i32
            &&& h.width_post == -1 && h.height_post == -1
        }),
{
}

/// Extraction after a resize sets the region cut after resizing, leaving
/// the size asked for.
pub proof fn lemma_extract_after_resize(g: GeometrySettings, o: ResizeOptions, region: Region, auto_orient: bool)
    requires
        o.width > 0,
        o.height > 0,
    ensures
        ({
            let r = resized(g, o, auto_orient);
            let h = extracted(r, region, auto_orient);
            &&& h.left_offset_post == region.left as i32 && h.top_offset_post == region.top as i32
            &&& h.width_post == region.width as i32 && h.height_post == region.height as i32
            &&& h.width_pre == g.width_pre && h.height_pre == g.height_pre
            &&& h.width == o.width && h.height == o.height
        }),
{
}

/// Two extractions around a resize: the first region is cut before
/// resizing and the second after it, in that fixed order.
pub proof fn lemma_extract_resize_extract(
    g: GeometrySettings,
    first: Region,
    o: ResizeOptions,
    second: Region,
    auto_orient: bool,
)
    requires
        initial_geometry(g),
        o.width > 0,
        o.height > 0,
    ensures
        ({
            let h = extracted(resized(extracted(g, first, auto_orient), o, auto_orient), second, auto_orient);
            &&& h.left_offset_pre == first.left as i32 && h.top_offset_pre == first.top as i32
            &&& h.width_pre == first.width as i32 && h.height_pre == first.height as i32
            &&& h.left_offset_post == second.left as i32 && h.top_offset_post == second.top as i32
            &&& h.width_post == second.width as i32 && h.height_post == second.height as i32
        }),
{
}

/// Only the last resize counts: a later resize replaces the size, fit,
/// position and kernel of an earlier one.
pub proof fn lemma_last_resize_wins(g: GeometrySettings, o1: ResizeOptions, o2: ResizeOptions, auto_orient: bool)
    requires
        o1.width > 0,
        o1.height > 0,
        o2.width > 0,
        o2.height > 0,
        o2.fit is Some,
        o2.position is Some,
        o2.kernel is Some,
    ensures
        ({
            let twice = resized(resized(g, o1, auto_orient), o2, auto_orient);
            let once = resized(g, o2, auto_orient);
            &&& twice.width == once.width && twice.height == once.height
            &&& twice.canvas == once.canvas && twice.position == once.position
            &&& twice.kernel == once.kernel
        }),
{
}

/// Only one rotation occurs per pipeline: a later rotation replaces an
/// earlier one, whatever its angle.
pub proof fn lemma_last_rotation_wins(g: GeometrySettings, first: i32, second: i32)
    ensures
        rotated(rotated(g, first), second) == rotated(g, second),
{
}

/// The canvas step brings the image to the requested size (the image's own
/// size for a dimension not given): a crop of an image at least that large
/// cuts exactly that size, and an embed of an image at most that large
/// makes a canvas of exactly that size.
pub proof fn lemma_canvas_plan_size(in_w: i32, in_h: i32, width: i32, height: i32, canvas: Canvas, position: i32)
    requires
        in_w > 0,
        in_h > 0,
    ensures
        ({
            let (fw, fh, action) = canvas_plan_spec(in_w, in_h, width, height, canvas, position);
            let w = resolved(width, in_w);
            let h = resolved(height, in_h);
            &&& (canvas == Canvas::Crop && w <= in_w && h <= in_h) ==> fw == w && fh == h && match action {
                CanvasAction::Keep => in_w == w && in_h == h,
                CanvasAction::Crop { width: cw, height: ch, .. } => cw == w && ch == h,
                CanvasAction::SmartCrop { width: cw, height: ch, .. } => cw == w && ch == h,
                CanvasAction::Embed { .. } => false,
            }
            &&& (canvas == Canvas::Embed && in_w <= w && in_h <= h) ==> fw == w && fh == h && match action {
                CanvasAction::Keep => in_w == w && in_h == h,
                CanvasAction::Embed { width: ew, height: eh, .. } => ew == w && eh == h,
                _ => false,
            }
        }),
{
}


/// A crop at a gravity keeps the part of the image against the edges the
/// gravity names and an embed puts the image against those edges of the
/// canvas (centred along an axis the gravity does not name); a position of
/// 9 or more asks for a crop by content, by entropy for 16 and by attention
/// otherwise.
pub proof fn lemma_canvas_plan_gravity(in_w: i32, in_h: i32, width: i32, height: i32, canvas: Canvas, position: i32)
    requires
        in_w > 0,
        in_h > 0,
    ensures
        ({
            let (fw, fh, action) = canvas_plan_spec(in_w, in_h, width, height, canvas, position);
            let g = position as int;
            &&& action matches CanvasAction::Crop { left, top, width: cw, height: ch } ==> {
                &&& canvas == Canvas::Crop && position < 9
                &&& toward_east(g) ==> left + cw == in_w
                &&& toward_west(g) ==> left == 0
                &&& !toward_east(g) && !toward_west(g) ==> (2 * left == in_w - cw || 2 * left == in_w
                    - cw + 1)
                &&& toward_north(g) ==> top == 0
                &&& toward_south(g) ==> top + ch == in_h
                &&& !toward_north(g) && !toward_south(g) ==> (2 * top == in_h - ch || 2 * top == in_h
                    - ch + 1)
            }
            &&& action matches CanvasAction::Embed { left, top, width: ew, height: eh } ==> {
                &&& canvas == Canvas::Embed
                &&& (in_w <= resolved(width, in_w) && toward_east(g)) ==> left + in_w == ew
                &&& toward_west(g) ==> left == 0
                &&& (in_h <= resolved(height, in_h) && toward_south(g)) ==> top + in_h == eh
                &&& toward_north(g) ==> top == 0
            }
            &&& action matches CanvasAction::SmartCrop { entropy, .. } ==> canvas == Canvas::Crop
                && position >= 9 && entropy == (position == 16)
            &&& (canvas == Canvas::Crop && position >= 9 && !(in_w == resolved(width, in_w) && in_h
                == resolved(height, in_h))) ==> action is SmartCrop
        }),
{
    let w = resolved(width, in_w);
    let h = resolved(height, in_h);
    if !(in_w == w && in_h == h) {
        if canvas == Canvas::Embed {
            if in_w <= w && in_h <= h {
                lemma_embed_gravity(in_w as int, in_h as int, w as int, h as int, position as int);
            }
            let (l, t) = embed_position(in_w as int, in_h as int, w as int, h as int, position as int);
            assert(i32::MIN <= l <= i32::MAX && i32::MIN <= t <= i32::MAX) by {
                lemma_embed_range(in_w as int, in_h as int, w as int, h as int, position as int);
            }
        } else if canvas == Canvas::Crop {
            let cw = min_i32(w, in_w);
            let ch = min_i32(h, in_h);
            lemma_crop_gravity(in_w as int, in_h as int, cw as int, ch as int, position as int);
            lemma_crop_inside(in_w as int, in_h as int, cw as int, ch as int, position as int);
        }
    }
}


/// Each named gravity's code names exactly the edges in its name: east
/// touches the east edge only, north-east the north and east edges, centre
/// none.
pub proof fn lemma_gravity_codes(g: Gravity)
    ensures
        ({
            let c = gravity_code(g) as int;
            &&& toward_north(c) == (g == Gravity::North || g == Gravity::Northeast || g
                == Gravity::Northwest)
            &&& toward_south(c) == (g == Gravity::South || g == Gravity::Southeast || g
                == Gravity::Southwest)
            &&& toward_east(c) == (g == Gravity::East || g == Gravity::Northeast || g
                == Gravity::Southeast)
            &&& toward_west(c) == (g == Gravity::West || g == Gravity::Northwest || g
                == Gravity::Southwest)
            &&& 0 <= c <= 8
        }),
{
}


/// Resizing asks for each dimension given (0 leaving it to follow the
/// other, kept as -1); `cover` crops, `contain` embeds, `fill` ignores the
/// aspect ratio, `inside` keeps within and `outside` covers the size; a
/// position names the edges it says (right: the east edge only, right-top:
/// the east and north edges); any other option given is used and options
/// not given are kept.
pub proof fn lemma_resize_options(g: GeometrySettings, o: ResizeOptions, auto_orient: bool)
    ensures
        ({
            let r = resized(g, o, auto_orient);
            &&& o.width > 0 ==> r.width == o.width
            &&& o.width == 0 ==> r.width == -1
            &&& o.height > 0 ==> r.height == o.height
            &&& o.height == 0 ==> r.height == -1
            &&& o.fit == Some(Fit::Cover) ==> r.canvas == Canvas::Crop
            &&& o.fit == Some(Fit::Contain) ==> r.canvas == Canvas::Embed
            &&& o.fit == Some(Fit::Fill) ==> r.canvas == Canvas::IgnoreAspect
            &&& o.fit == Some(Fit::Inside) ==> r.canvas == Canvas::Max
            &&& o.fit == Some(Fit::Outside) ==> r.canvas == Canvas::Min
            &&& o.fit is None ==> r.canvas == g.canvas
            &&& o.position is None ==> r.position == g.position
            &&& o.position matches Some(p) ==> {
                let c = r.position as int;
                &&& toward_east(c) == (p == Position::Right || p == Position::RightTop || p
                    == Position::RightBottom)
                &&& toward_west(c) == (p == Position::Left || p == Position::LeftTop || p
                    == Position::LeftBottom)
                &&& toward_north(c) == (p == Position::Top || p == Position::RightTop || p
                    == Position::LeftTop)
                &&& toward_south(c) == (p == Position::Bottom || p == Position::RightBottom || p
                    == Position::LeftBottom)
            }
            &&& o.kernel matches Some(k) ==> r.kernel == k
            &&& o.kernel is None ==> r.kernel == g.kernel
            &&& o.without_enlargement matches Some(b) ==> r.without_enlargement == b
            &&& o.without_reduction matches Some(b) ==> r.without_reduction == b
        }),
{
}

/// A rotation by a multiple of 90 degrees is a quarter-turn rotation; any
/// other angle is a free rotation, and the quarter turns are then dropped.
pub proof fn lemma_rotation_kinds(g: GeometrySettings, angle: i32)
    ensures
        angle % 90 == 0 ==> rotated(g, angle).angle == angle && rotated(g, angle).rotation_angle == 0,
        angle % 90 != 0 ==> rotated(g, angle).angle == 0 && rotated(g, angle).rotation_angle == angle,
{
}

} // verus!
