//! Placement arithmetic: where a smaller image sits inside a larger one for
//! each gravity, rotations implied by EXIF orientation and by angles, and
//! the bounding box kept by a trim.
use crate::text::push_str;
use vstd::prelude::*;

verus! {

broadcast use vstd::string::group_string_axioms;

/// Integer halving that rounds toward zero, as `/ 2` does on `i32`.
pub open spec fn half(v: int) -> int {
    if v >= 0 {
        v / 2
    } else {
        -((-v) / 2)
    }
}

/// The remainder of `a` by a positive `b` with the sign of `a`, as `%`
/// computes on machine integers.
pub open spec fn rem(a: int, b: int) -> int {
    if a >= 0 {
        a % b
    } else {
        -((-a) % b)
    }
}

/// Does `v` fit in an `i32`?
pub open spec fn fits_i32(v: int) -> bool {
    i32::MIN <= v <= i32::MAX
}

/// Gravity codes: 1 north, 2 east, 3 south, 4 west, 5 north-east,
/// 6 south-east, 7 south-west, 8 north-west, anything else centre.
/// Which differences each gravity uses: (uses the width difference, uses the
/// height difference).
pub open spec fn gravity_axes(gravity: int) -> (bool, bool) {
    if gravity == 1 || gravity == 5 {
        (true, false)
    } else if gravity == 4 || gravity == 7 {
        (false, true)
    } else if gravity == 8 {
        (false, false)
    } else {
        (true, true)
    }
}

/// The (left, top) of an image of `in` size embedded in a canvas of `out`
/// size under the given gravity.
pub open spec fn embed_position(in_w: int, in_h: int, out_w: int, out_h: int, gravity: int) -> (
    int,
    int,
) {
    let dw = out_w - in_w;
    let dh = out_h - in_h;
    if gravity == 1 {
        (half(dw), 0)
    } else if gravity == 2 {
        (dw, half(dh))
    } else if gravity == 3 {
        (half(dw), dh)
    } else if gravity == 4 {
        (0, half(dh))
    } else if gravity == 5 {
        (dw, 0)
    } else if gravity == 6 {
        (dw, dh)
    } else if gravity == 7 {
        (0, dh)
    } else if gravity == 8 {
        (0, 0)
    } else {
        (half(dw), half(dh))
    }
}

/// Calculates the (left, top) coordinates of the input image within the
/// output canvas, applying the given gravity during an embed.
pub fn calculate_embed_position(
    in_width: i32,
    in_height: i32,
    out_width: i32,
    out_height: i32,
    gravity: i32,
) -> (r: (i32, i32))
    requires
        gravity_axes(gravity as int).0 ==> fits_i32(out_width - in_width),
        gravity_axes(gravity as int).1 ==> fits_i32(out_height - in_height),
    ensures
        (r.0 as int, r.1 as int) == embed_position(
            in_width as int,
            in_height as int,
            out_width as int,
            out_height as int,
            gravity as int,
        ),
{
    let mut left: i32 = 0;
    let mut top: i32 = 0;
    match gravity {
        1 => {
            left = (out_width - in_width) / 2;
        },
        2 => {
            left = out_width - in_width;
            top = (out_height - in_height) / 2;
        },
        3 => {
            left = (out_width - in_width) / 2;
            top = out_height - in_height;
        },
        4 => {
            top = (out_height - in_height) / 2;
        },
        5 => {
            left = out_width - in_width;
        },
        6 => {
            left = out_width - in_width;
            top = out_height - in_height;
        },
        7 => {
            top = out_height - in_height;
        },
        8 => {},
        _ => {
            left = (out_width - in_width) / 2;
            top = (out_height - in_height) / 2;
        },
    }
    (left, top)
}

/// The (left, top) of an `out`-sized region cropped from an image of `in`
/// size under the given gravity; centring rounds up.
pub open spec fn crop_position(in_w: int, in_h: int, out_w: int, out_h: int, gravity: int) -> (
    int,
    int,
) {
    let dw = in_w - out_w;
    let dh = in_h - out_h;
    if gravity == 1 {
        (half(dw + 1), 0)
    } else if gravity == 2 {
        (dw, half(dh + 1))
    } else if gravity == 3 {
        (half(dw + 1), dh)
    } else if gravity == 4 {
        (0, half(dh + 1))
    } else if gravity == 5 {
        (dw, 0)
    } else if gravity == 6 {
        (dw, dh)
    } else if gravity == 7 {
        (0, dh)
    } else if gravity == 8 {
        (0, 0)
    } else {
        (half(dw + 1), half(dh + 1))
    }
}

/// Calculates the (left, top) coordinates of the output image within the
/// input image, applying the given gravity during a crop.
pub fn calculate_crop(in_width: i32, in_height: i32, out_width: i32, out_height: i32, gravity: i32) -> (r: (
    i32,
    i32,
))
    requires
        gravity_axes(gravity as int).0 ==> fits_i32(in_width - out_width + 1),
        gravity_axes(gravity as int).0 ==> fits_i32(in_width - out_width),
        gravity_axes(gravity as int).1 ==> fits_i32(in_height - out_height + 1),
        gravity_axes(gravity as int).1 ==> fits_i32(in_height - out_height),
    ensures
        (r.0 as int, r.1 as int) == crop_position(
            in_width as int,
            in_height as int,
            out_width as int,
            out_height as int,
            gravity as int,
        ),
{
    let mut left: i32 = 0;
    let mut top: i32 = 0;
    match gravity {
        1 => {
            left = (in_width - out_width + 1) / 2;
        },
        2 => {
            left = in_width - out_width;
            top = (in_height - out_height + 1) / 2;
        },
        3 => {
            left = (in_width - out_width + 1) / 2;
            top = in_height - out_height;
        },
        4 => {
            top = (in_height - out_height + 1) / 2;
        },
        5 => {
            left = in_width - out_width;
        },
        6 => {
            left = in_width - out_width;
            top = in_height - out_height;
        },
        7 => {
            top = in_height - out_height;
        },
        8 => {},
        _ => {
            left = (in_width - out_width + 1) / 2;
            top = (in_height - out_height + 1) / 2;
        },
    }
    (left, top)
}

/// The smaller of two integers.
pub open spec fn min_int(a: int, b: int) -> int {
    if a < b {
        a
    } else {
        b
    }
}

/// Calculates the (left, top) coordinates of the output image within the
/// input image from the requested offsets, clamped so that the region ends
/// inside the input.
pub fn calculate_crop2(
    in_width: i32,
    in_height: i32,
    out_width: i32,
    out_height: i32,
    x: i32,
    y: i32,
) -> (r: (i32, i32))
    requires
        fits_i32(in_width - out_width),
        fits_i32(in_height - out_height),
    ensures
        r.0 == min_int(x as int, in_width - out_width),
        r.1 == min_int(y as int, in_height - out_height),
{
    let mut left: i32 = 0;
    let mut top: i32 = 0;
    if x < (in_width - out_width) {
        left = x;
    } else if x >= (in_width - out_width) {
        left = in_width - out_width;
    }
    if y < (in_height - out_height) {
        top = y;
    } else if y >= (in_height - out_height) {
        top = in_height - out_height;
    }
    (left, top)
}

/// A rotation by a multiple of 90 degrees.
#[derive(Debug, PartialEq, Eq, Clone, Copy, Structural)]
pub enum Angle {
    D0,
    D90,
    D180,
    D270,
}

/// The rotation and mirroring that undo an EXIF orientation.
pub open spec fn exif_rotation(orientation: int) -> (Angle, bool) {
    if orientation == 6 {
        (Angle::D90, false)
    } else if orientation == 3 {
        (Angle::D180, false)
    } else if orientation == 8 {
        (Angle::D270, false)
    } else if orientation == 2 {
        (Angle::D0, true)
    } else if orientation == 7 {
        (Angle::D270, true)
    } else if orientation == 4 {
        (Angle::D180, true)
    } else if orientation == 5 {
        (Angle::D90, true)
    } else {
        (Angle::D0, false)
    }
}

/// Calculates the angle of rotation and need-to-flop for the given EXIF
/// orientation; no rotation by default.
pub fn calculate_exif_rotation_and_flop(exif_orientation: i32) -> (r: (Angle, bool))
    ensures
        r == exif_rotation(exif_orientation as int),
{
    let mut rotate = Angle::D0;
    let mut flop = false;
    match exif_orientation {
        6 => rotate = Angle::D90,
        3 => rotate = Angle::D180,
        8 => rotate = Angle::D270,
        2 => flop = true,
        7 => {
            flop = true;
            rotate = Angle::D270;
        },
        4 => {
            flop = true;
            rotate = Angle::D180;
        },
        5 => {
            flop = true;
            rotate = Angle::D90;
        },
        _ => {},
    }
    (rotate, flop)
}

/// The rotation for an angle in degrees, taken modulo 360; angles that are
/// not a multiple of 90 give no rotation.
pub open spec fn angle_rotation(angle: int) -> Angle {
    let a = angle % 360;
    if a == 90 {
        Angle::D90
    } else if a == 180 {
        Angle::D180
    } else if a == 270 {
        Angle::D270
    } else {
        Angle::D0
    }
}

/// Calculates the rotation for the given angle; any positive or negative
/// multiple of 90 is supported.
pub fn calculate_angle_rotation(angle: i32) -> (r: Angle)
    ensures
        r == angle_rotation(angle as int),
{
    let mut angle = angle % 360;
    if angle < 0 {
        angle += 360;
    }
    match angle {
        90 => Angle::D90,
        180 => Angle::D180,
        270 => Angle::D270,
        _ => Angle::D0,
    }
}

/// Refuses an operation on an image of more than one page.
pub fn multi_page_unsupported(pages: i32, op: &str) -> (r: Result<(), String>)
    ensures
        pages > 1 ==> (r matches Err(e) && e@ == op@ + " is not supported for multi-page images"@),
        pages <= 1 ==> r is Ok,
{
    if pages > 1 {
        let mut msg = op.to_string();
        push_str(&mut msg, " is not supported for multi-page images");
        Err(msg)
    } else {
        Ok(())
    }
}

/// A rectangle found by a trim: left, top, width, height.
pub type TrimBox = (i32, i32, i32, i32);

/// A box of positive area.
pub open spec fn non_empty(b: TrimBox) -> bool {
    b.2 > 0 && b.3 > 0
}

/// The smallest box holding both boxes.
pub open spec fn union_box(a: TrimBox, b: TrimBox) -> (int, int, int, int) {
    let left = min_int(a.0 as int, b.0 as int);
    let top = min_int(a.1 as int, b.1 as int);
    let right = if a.0 + a.2 > b.0 + b.2 {
        a.0 + a.2
    } else {
        b.0 + b.2
    };
    let bottom = if a.1 + a.3 > b.1 + b.3 {
        a.1 + a.3
    } else {
        b.1 + b.3
    };
    (left, top, right - left, bottom - top)
}

/// The region a trim keeps, given the box found on the colour channels and,
/// for an image with alpha, the box found on the alpha channel: the union of
/// both when both are non-empty, else whichever is non-empty (alpha first),
/// else nothing (the image is kept whole).
pub open spec fn trim_region(colour: TrimBox, alpha: Option<TrimBox>) -> Option<
    (int, int, int, int),
> {
    match alpha {
        Some(a) if non_empty(a) => if non_empty(colour) {
            Some(union_box(colour, a))
        } else {
            Some((a.0 as int, a.1 as int, a.2 as int, a.3 as int))
        },
        _ => if non_empty(colour) {
            Some((colour.0 as int, colour.1 as int, colour.2 as int, colour.3 as int))
        } else {
            None
        },
    }
}

/// Both boxes' far edges fit in `i32`.
pub open spec fn trim_boxes_fit(colour: TrimBox, alpha: Option<TrimBox>) -> bool {
    match alpha {
        Some(a) => fits_i32(colour.0 + colour.2) && fits_i32(colour.1 + colour.3) && fits_i32(
            a.0 + a.2,
        ) && fits_i32(a.1 + a.3) && fits_i32(union_box(colour, a).2) && fits_i32(
            union_box(colour, a).3,
        ),
        None => true,
    }
}

/// Chooses the region that a trim keeps from the boxes found on the colour
/// and alpha channels.
pub fn trim_bounds(colour: TrimBox, alpha: Option<TrimBox>) -> (r: Option<TrimBox>)
    requires
        trim_boxes_fit(colour, alpha),
    ensures
        match (r, trim_region(colour, alpha)) {
            (Some(b), Some(s)) => (b.0 as int, b.1 as int, b.2 as int, b.3 as int) == s,
            (None, None) => true,
            _ => false,
        },
{
    let (left, top, width, height) = colour;
    if let Some((left_a, top_a, width_a, height_a)) = alpha {
        if width_a > 0 && height_a > 0 {
            if width > 0 && height > 0 {
                let left_b = if left < left_a {
                    left
                } else {
                    left_a
                };
                let top_b = if top < top_a {
                    top
                } else {
                    top_a
                };
                let right = if left + width > left_a + width_a {
                    left + width
                } else {
                    left_a + width_a
                };
                let bottom = if top + height > top_a + height_a {
                    top + height
                } else {
                    top_a + height_a
                };
                return Some((left_b, top_b, right - left_b, bottom - top_b));
            } else {
                return Some((left_a, top_a, width_a, height_a));
            }
        }
    }
    if width > 0 && height > 0 {
        return Some((left, top, width, height));
    }
    None
}


/// A region no larger than the image, cropped at any gravity, lies within
/// the image.
pub proof fn lemma_crop_inside(in_w: int, in_h: int, out_w: int, out_h: int, gravity: int)
    requires
        0 <= out_w <= in_w,
        0 <= out_h <= in_h,
    ensures
        ({
            let (left, top) = crop_position(in_w, in_h, out_w, out_h, gravity);
            0 <= left && left + out_w <= in_w && 0 <= top && top + out_h <= in_h
        }),
{
}

/// An image no larger than the canvas, embedded at any gravity, lies within
/// the canvas.
pub proof fn lemma_embed_inside(in_w: int, in_h: int, out_w: int, out_h: int, gravity: int)
    requires
        0 <= in_w <= out_w,
        0 <= in_h <= out_h,
    ensures
        ({
            let (left, top) = embed_position(in_w, in_h, out_w, out_h, gravity);
            0 <= left && left + in_w <= out_w && 0 <= top && top + in_h <= out_h
        }),
{
}

/// Rotations by angles that differ by whole turns are the same.
pub proof fn lemma_angle_rotation_periodic(angle: int, turns: int)
    ensures
        angle_rotation(angle + 360 * turns) == angle_rotation(angle),
{
    assert((angle + 360 * turns) % 360 == angle % 360) by {
        vstd::arithmetic::div_mod::lemma_mod_multiples_vanish(turns, angle, 360);
    }
}

/// A multiple of 90 degrees, negative ones included, gives the rotation of
/// its remainder in `0..360`: 90, 180 and 270 turn, the rest do not.
pub proof fn lemma_angle_rotation_quarter(angle: int)
    requires
        angle % 90 == 0,
    ensures
        angle_rotation(angle) == if angle % 360 == 90 {
            Angle::D90
        } else if angle % 360 == 180 {
            Angle::D180
        } else if angle % 360 == 270 {
            Angle::D270
        } else {
            Angle::D0
        },
        angle % 360 == 0 || angle % 360 == 90 || angle % 360 == 180 || angle % 360 == 270,
{
    assert(angle % 360 == 0 || angle % 360 == 90 || angle % 360 == 180 || angle % 360 == 270) by {
        let q = angle / 90;
        assert(angle == 90 * q);
        vstd::arithmetic::div_mod::lemma_fundamental_div_mod(q, 4);
        let k = q / 4;
        let m = q % 4;
        assert(angle == 360 * k + 90 * m) by (nonlinear_arith)
            requires
                angle == 90 * q,
                q == 4 * k + m,
        ;
        vstd::arithmetic::div_mod::lemma_mod_multiples_vanish(k, 90 * m, 360);
        assert(0 <= m < 4);
        assert((90 * m) % 360 == 90 * m) by {
            vstd::arithmetic::div_mod::lemma_small_mod((90 * m) as nat, 360);
        }
    }
}

/// The trim keeps a region that holds both the colour box and the alpha
/// box when both are non-empty.
pub proof fn lemma_trim_covers(colour: TrimBox, alpha: TrimBox)
    requires
        non_empty(colour),
        non_empty(alpha),
    ensures
        ({
            let r = trim_region(colour, Some(alpha))->Some_0;
            &&& r.0 <= colour.0 && colour.0 + colour.2 <= r.0 + r.2
            &&& r.1 <= colour.1 && colour.1 + colour.3 <= r.1 + r.3
            &&& r.0 <= alpha.0 && alpha.0 + alpha.2 <= r.0 + r.2
            &&& r.1 <= alpha.1 && alpha.1 + alpha.3 <= r.1 + r.3
        }),
{
}

/// Gravities whose region touches the east (right) edge: east, north-east
/// and south-east.
pub open spec fn toward_east(gravity: int) -> bool {
    gravity == 2 || gravity == 5 || gravity == 6
}

/// Gravities whose region touches the west (left) edge: west, south-west
/// and north-west.
pub open spec fn toward_west(gravity: int) -> bool {
    gravity == 4 || gravity == 7 || gravity == 8
}

/// Gravities whose region touches the north (top) edge: north, north-east
/// and north-west.
pub open spec fn toward_north(gravity: int) -> bool {
    gravity == 1 || gravity == 5 || gravity == 8
}

/// Gravities whose region touches the south (bottom) edge: south,
/// south-east and south-west.
pub open spec fn toward_south(gravity: int) -> bool {
    gravity == 3 || gravity == 6 || gravity == 7
}

/// A crop at a gravity takes its window against the edges the gravity
/// names: its right edge on the image's right edge toward the east, its
/// left edge on the image's left edge toward the west, and likewise top and
/// bottom; along an axis the gravity does not name, the window is centred,
/// an odd spare pixel going before it.
pub proof fn lemma_crop_gravity(in_w: int, in_h: int, out_w: int, out_h: int, gravity: int)
    requires
        out_w <= in_w,
        out_h <= in_h,
    ensures
        ({
            let (left, top) = crop_position(in_w, in_h, out_w, out_h, gravity);
            &&& toward_east(gravity) ==> left + out_w == in_w
            &&& toward_west(gravity) ==> left == 0
            &&& !toward_east(gravity) && !toward_west(gravity) ==> (2 * left == in_w - out_w || 2
                * left == in_w - out_w + 1)
            &&& toward_north(gravity) ==> top == 0
            &&& toward_south(gravity) ==> top + out_h == in_h
            &&& !toward_north(gravity) && !toward_south(gravity) ==> (2 * top == in_h - out_h || 2
                * top == in_h - out_h + 1)
        }),
{
}

/// An embed at a gravity places the image against the edges of the canvas
/// that the gravity names; along an axis the gravity does not name, the
/// image is centred, an odd spare pixel going after it.
pub proof fn lemma_embed_gravity(in_w: int, in_h: int, out_w: int, out_h: int, gravity: int)
    requires
        in_w <= out_w,
        in_h <= out_h,
    ensures
        ({
            let (left, top) = embed_position(in_w, in_h, out_w, out_h, gravity);
            &&& toward_east(gravity) ==> left + in_w == out_w
            &&& toward_west(gravity) ==> left == 0
            &&& !toward_east(gravity) && !toward_west(gravity) ==> (2 * left == out_w - in_w || 2
                * left == out_w - in_w - 1)
            &&& toward_north(gravity) ==> top == 0
            &&& toward_south(gravity) ==> top + in_h == out_h
            &&& !toward_north(gravity) && !toward_south(gravity) ==> (2 * top == out_h - in_h || 2
                * top == out_h - in_h - 1)
        }),
{
}

/// The sides of an image.
pub enum Side {
    Top,
    Bottom,
    Left,
    Right,
}

/// The point at distance `t` from the centre toward a side, in coordinates
/// whose x grows to the right and y downward.
pub open spec fn toward(side: Side, t: int) -> (int, int) {
    match side {
        Side::Top => (0, -t),
        Side::Bottom => (0, t),
        Side::Left => (-t, 0),
        Side::Right => (t, 0),
    }
}

/// What an EXIF orientation tag records: the side of the upright scene on
/// which the stored image's first row lies, and the side on which its first
/// column lies.
pub open spec fn exif_first_row_and_column(orientation: int) -> (Side, Side) {
    if orientation == 2 {
        (Side::Top, Side::Right)
    } else if orientation == 3 {
        (Side::Bottom, Side::Right)
    } else if orientation == 4 {
        (Side::Bottom, Side::Left)
    } else if orientation == 5 {
        (Side::Left, Side::Top)
    } else if orientation == 6 {
        (Side::Right, Side::Top)
    } else if orientation == 7 {
        (Side::Right, Side::Bottom)
    } else if orientation == 8 {
        (Side::Left, Side::Bottom)
    } else {
        (Side::Top, Side::Left)
    }
}

/// Where a point `(u, v)` of the stored image, taken about its centre,
/// belongs in the upright scene: the stored top edge (`v == -1`) lies on
/// the first row's side and the stored left edge (`u == -1`) on the first
/// column's side.
pub open spec fn upright_point(orientation: int, u: int, v: int) -> (int, int) {
    let (row, column) = exif_first_row_and_column(orientation);
    let r = toward(row, -v);
    let c = toward(column, -u);
    (r.0 + c.0, r.1 + c.1)
}

/// Turning a point about the centre by a clockwise rotation.
pub open spec fn rotate_point(angle: Angle, x: int, y: int) -> (int, int) {
    match angle {
        Angle::D0 => (x, y),
        Angle::D90 => (-y, x),
        Angle::D180 => (-x, -y),
        Angle::D270 => (y, -x),
    }
}

/// Mirroring a point left to right when `flop` is set.
pub open spec fn flop_point(flop: bool, x: int, y: int) -> (int, int) {
    if flop {
        (-x, y)
    } else {
        (x, y)
    }
}

/// The rotation and then the flop chosen for an EXIF orientation bring
/// every point of the stored image to its place in the upright scene, so
/// auto-orientation shows the picture upright; an orientation outside
/// 1 to 8 asks for nothing.
pub proof fn lemma_exif_rotation_uprights(orientation: int, u: int, v: int)
    ensures
        ({
            let (angle, flop) = exif_rotation(orientation);
            let (x, y) = rotate_point(angle, u, v);
            flop_point(flop, x, y) == upright_point(orientation, u, v)
        }),
        !(1 <= orientation <= 8) ==> exif_rotation(orientation) == (Angle::D0, false),
{
}

/// The trim keeps the smallest region holding what was found: each edge of
/// the region is an edge of the colour box or of the alpha box, and when
/// only one box is non-empty the region is that box; when neither is, the
/// image is kept whole.
pub proof fn lemma_trim_tightest(colour: TrimBox, alpha: Option<TrimBox>)
    ensures
        match (trim_region(colour, alpha), alpha) {
            (Some(r), Some(a)) if non_empty(colour) && non_empty(a) => {
                &&& (r.0 == colour.0 || r.0 == a.0) && (r.1 == colour.1 || r.1 == a.1)
                &&& (r.0 + r.2 == colour.0 + colour.2 || r.0 + r.2 == a.0 + a.2)
                &&& (r.1 + r.3 == colour.1 + colour.3 || r.1 + r.3 == a.1 + a.3)
            },
            (Some(r), Some(a)) if non_empty(a) => r == (a.0 as int, a.1 as int, a.2 as int, a.3 as int),
            (Some(r), _) => non_empty(colour) && r == (colour.0 as int, colour.1 as int, colour.2 as int, colour.3 as int),
            (None, _) => !non_empty(colour) && (alpha matches Some(a) ==> !non_empty(a)),
        },
{
}

/// The message for an image too small to trim.
pub open spec fn trim_size_text() -> Seq<char> {
    "Image to trim must be at least 3x3 pixels"@
}

/// Refuses to trim an image narrower and lower than 3 pixels.
pub fn check_trim_size(width: i32, height: i32) -> (r: Result<(), String>)
    ensures
        if width < 3 && height < 3 {
            r matches Err(e) && e@ == trim_size_text()
        } else {
            r is Ok
        },
{
    if width < 3 && height < 3 {
        proof {
            reveal_strlit("Image to trim must be at least 3x3 pixels");
        }
        return Err("Image to trim must be at least 3x3 pixels".to_string());
    }
    Ok(())
}

} // verus!
