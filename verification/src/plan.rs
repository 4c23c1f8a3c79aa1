//! Integer decisions taken while a pipeline runs: how many pages to
//! process, whether rotation and orientation happen before extraction, how
//! auto-orientation swaps the target size, and the size of extended edges.
use crate::geometry::Angle;
use crate::text::{int_text, int_to_string, push_str};
use vstd::prelude::*;

verus! {

/// The number of pages to process: as asked, or, when all were asked for
/// (-1), the pages from the first one asked for to the end of the document
/// when it says how many it has, else 1.
pub open spec fn pages_spec(pages: i32, n_pages: Option<i32>, page: i32) -> int {
    if pages == -1 {
        match n_pages {
            Some(n) => n - page,
            None => 1,
        }
    } else {
        pages as int
    }
}

/// Asking for all pages (-1) processes every page from the first one asked
/// for to the last the document declares (the pages asked for and the
/// pages before them make up the whole document), one page when it
/// declares none; any other count is processed as asked.
pub proof fn lemma_pages_counted(pages: i32, n_pages: Option<i32>, page: i32)
    ensures
        pages == -1 ==> (n_pages matches Some(n) ==> pages_spec(pages, n_pages, page) + page == n),
        (pages == -1 && n_pages is None) ==> pages_spec(pages, n_pages, page) == 1,
        pages != -1 ==> pages_spec(pages, n_pages, page) == pages,
{
}

/// Every page's region is the same crop, moved down by one page height per
/// page: the regions of consecutive pages are a page apart, and the first
/// is the crop itself.
pub proof fn lemma_page_regions_stack(page_height: int, left: i32, top: i32, width: i32, height: i32, i: int)
    requires
        0 <= i,
    ensures
        page_region(0, page_height, left, top, width, height) == (left as int, top as int, width as int, height as int),
        page_region(i + 1, page_height, left, top, width, height).1 == page_region(i, page_height, left, top, width, height).1 + page_height,
        page_region(i + 1, page_height, left, top, width, height).0 == left,
        page_region(i + 1, page_height, left, top, width, height).2 == width,
        page_region(i + 1, page_height, left, top, width, height).3 == height,
{
    assert(page_height * (i + 1) == page_height * i + page_height) by (nonlinear_arith);
}

/// A single frame delay stands for every page's delay; otherwise the
/// delays are written as given. A still image (one page, no delays, no loop
/// asked for) is marked to play once; a loop count asked for is written as
/// asked; -1 keeps the input's.
pub proof fn lemma_animation_written(n_pages: int, delay: Seq<i32>, loop_: i32)
    requires
        n_pages >= 0,
    ensures
        delay.len() == 1 ==> frame_delays(n_pages, delay).len() == n_pages && forall|i: int|
            0 <= i < n_pages ==> #[trigger] frame_delays(n_pages, delay)[i] == delay[0],
        delay.len() != 1 ==> frame_delays(n_pages, delay) == delay,
        (n_pages == 1 && delay.len() == 0 && loop_ == -1) ==> written_loop(n_pages, delay, loop_)
            == Some(1i32),
        loop_ != -1 ==> written_loop(n_pages, delay, loop_) == Some(loop_),
        (loop_ == -1 && !(n_pages == 1 && delay.len() == 0)) ==> written_loop(n_pages, delay, loop_)
            is None,
{
}

/// The number of pages to process; `n_pages` is the count the document
/// declares, if any.
pub fn pages_to_render(pages: i32, n_pages: Option<i32>, page: i32) -> (r: i32)
    requires
        pages == -1 ==> (n_pages matches Some(n) ==> i32::MIN <= n - page <= i32::MAX),
    ensures
        r == pages_spec(pages, n_pages, page),
{
    if pages == -1 {
        match n_pages {
            Some(n) => n - page,
            None => 1,
        }
    } else {
        pages
    }
}

/// Whether to rotate and mirror before extracting, and whether to apply the
/// EXIF orientation then too: rotation comes first when asked for and
/// there is something to rotate or mirror (`free_rotation` tells whether an
/// angle that is not a multiple of 90 is set); orientation comes first with
/// it, or when asked for, when there is an orientation to apply.
pub open spec fn orientation_plan_spec(
    rotate_before: bool,
    orient_before: bool,
    rotation: Angle,
    flip: bool,
    flop: bool,
    free_rotation: bool,
    auto_rotation: Angle,
    auto_flop: bool,
) -> (bool, bool) {
    let rotate_first = rotate_before && (rotation != Angle::D0 || flip || flop || free_rotation);
    let orient_first = (rotate_first || orient_before) && (auto_rotation != Angle::D0 || auto_flop);
    (rotate_first, orient_first)
}

/// Rotating before extraction happens only when asked for and there is a
/// rotation or mirroring to do; the EXIF orientation, when there is one to
/// apply, then goes first with it; with neither asked for, both wait until
/// after extraction.
pub proof fn lemma_orientation_order(
    rotate_before: bool,
    orient_before: bool,
    rotation: Angle,
    flip: bool,
    flop: bool,
    free_rotation: bool,
    auto_rotation: Angle,
    auto_flop: bool,
)
    ensures
        ({
            let (rotate_first, orient_first) = orientation_plan_spec(rotate_before, orient_before, rotation, flip, flop, free_rotation, auto_rotation, auto_flop);
            let something_to_orient = auto_rotation != Angle::D0 || auto_flop;
            &&& rotate_first <==> rotate_before && (rotation != Angle::D0 || flip || flop || free_rotation)
            &&& (rotate_first && something_to_orient) ==> orient_first
            &&& (orient_before && something_to_orient) ==> orient_first
            &&& !something_to_orient ==> !orient_first
            &&& (!rotate_before && !orient_before) ==> !rotate_first && !orient_first
        }),
{
}

/// Whether rotation, and orientation, happen before extraction.
pub fn orientation_plan(
    rotate_before: bool,
    orient_before: bool,
    rotation: Angle,
    flip: bool,
    flop: bool,
    free_rotation: bool,
    auto_rotation: Angle,
    auto_flop: bool,
) -> (r: (bool, bool))
    ensures
        r == orientation_plan_spec(
            rotate_before,
            orient_before,
            rotation,
            flip,
            flop,
            free_rotation,
            auto_rotation,
            auto_flop,
        ),
{
    let rotate_first = rotate_before && (rotation != Angle::D0 || flip || flop || free_rotation);
    let orient_first = (rotate_first || orient_before) && (auto_rotation != Angle::D0 || auto_flop);
    (rotate_first, orient_first)
}

/// The target size to resize to before a pending auto-orientation: swapped
/// for a quarter turn, so the result matches rotating first.
pub fn oriented_target(auto_rotation: Angle, width: i32, height: i32) -> (r: (i32, i32))
    ensures
        r == if auto_rotation == Angle::D90 || auto_rotation == Angle::D270 {
            (height, width)
        } else {
            (width, height)
        },
{
    if auto_rotation == Angle::D90 || auto_rotation == Angle::D270 {
        (height, width)
    } else {
        (width, height)
    }
}

/// Are any edges to be extended?
pub fn extends_edges(top: i32, bottom: i32, left: i32, right: i32) -> (r: bool)
    ensures
        r == (top > 0 || bottom > 0 || left > 0 || right > 0),
{
    top > 0 || bottom > 0 || left > 0 || right > 0
}

/// The size of an image of `width` by `height` (the page height for
/// multi-page images) with its edges extended.
pub fn extended_size(width: i32, height: i32, top: i32, bottom: i32, left: i32, right: i32) -> (r: (i32, i32))
    requires
        i32::MIN <= width + left <= i32::MAX,
        i32::MIN <= width + left + right <= i32::MAX,
        i32::MIN <= height + top <= i32::MAX,
        i32::MIN <= height + top + bottom <= i32::MAX,
    ensures
        r.0 == width + left + right,
        r.1 == height + top + bottom,
{
    (width + left + right, height + top + bottom)
}

/// The message given when a channel that the image lacks is asked for.
pub open spec fn missing_channel_text(channel: i32, bands: i32) -> Seq<char> {
    "Cannot extract channel "@ + int_text(channel as int) + " from  image with channels 0-"@
        + int_text(bands - 1)
}

/// The band to extract from an image with `bands` bands: the one asked
/// for when the image has it; the last one when the alpha channel (3) is
/// asked for and the image has alpha in another place; else an error.
pub fn resolve_extract_channel(channel: i32, bands: i32, has_alpha: bool) -> (r: Result<i32, String>)
    requires
        0 <= channel,
        1 <= bands,
    ensures
        channel < bands ==> r == Ok::<i32, String>(channel),
        channel >= bands && channel == 3 && has_alpha ==> r == Ok::<i32, String>((bands - 1) as i32),
        channel >= bands && !(channel == 3 && has_alpha) ==> (r matches Err(e) && e@
            == missing_channel_text(channel, bands)),
{
    if channel < bands {
        Ok(channel)
    } else if channel == 3 && has_alpha {
        Ok(bands - 1)
    } else {
        let mut e = String::new();
        push_str(&mut e, "Cannot extract channel ");
        let c = int_to_string(channel as i64);
        push_str(&mut e, c.as_str());
        push_str(&mut e, " from  image with channels 0-");
        let b = int_to_string((bands - 1) as i64);
        push_str(&mut e, b.as_str());
        proof {
            reveal_strlit("Cannot extract channel ");
            reveal_strlit(" from  image with channels 0-");
        }
        assert(e@ =~= missing_channel_text(channel, bands));
        Err(e)
    }
}

/// `n` made odd by setting its lowest bit.
pub open spec fn odd_up(n: int) -> int {
    if n % 2 == 0 { n + 1 } else { n }
}

/// How many copies of a tile of `tile` pixels it takes to cover `whole`.
pub open spec fn tiles_to_cover(whole: int, tile: int) -> int {
    (whole + tile - 1) / tile
}

/// The tile count is the fewest tiles that cover the whole, and making a
/// count odd adds at most one tile.
pub proof fn lemma_tiles_cover(whole: int, tile: int, n: int)
    requires
        1 <= tile,
        0 <= whole,
    ensures
        tiles_to_cover(whole, tile) * tile >= whole,
        (tiles_to_cover(whole, tile) - 1) * tile < whole || whole == 0,
        odd_up(n) % 2 == 1,
        odd_up(n) == n || odd_up(n) == n + 1,
{
    let c = tiles_to_cover(whole, tile);
    vstd::arithmetic::div_mod::lemma_fundamental_div_mod(whole + tile - 1, tile);
    let r = (whole + tile - 1) % tile;
    assert(0 <= r < tile) by {
        vstd::arithmetic::div_mod::lemma_mod_bound(whole + tile - 1, tile);
    }
    assert(c * tile == whole + tile - 1 - r) by (nonlinear_arith)
        requires
            whole + tile - 1 == tile * c + r,
    ;
    assert((c - 1) * tile == c * tile - tile) by (nonlinear_arith);
}

/// How often an overlay of `overlay_width` by `overlay_height` is repeated
/// across and down to cover an image of `width` by `height`; the counts are
/// made odd where the gravity centres the tiles on that axis (centre,
/// north or south across; centre, east or west down), so that one tile
/// sits in the middle.
pub fn tile_counts(width: i32, height: i32, overlay_width: i32, overlay_height: i32, gravity: i32) -> (r: (i32, i32))
    requires
        1 <= overlay_width <= width,
        1 <= overlay_height <= height,
    ensures
        r.0 == if gravity == 0 || gravity == 1 || gravity == 3 {
            odd_up(tiles_to_cover(width as int, overlay_width as int))
        } else {
            tiles_to_cover(width as int, overlay_width as int)
        },
        r.1 == if gravity == 0 || gravity == 2 || gravity == 4 {
            odd_up(tiles_to_cover(height as int, overlay_height as int))
        } else {
            tiles_to_cover(height as int, overlay_height as int)
        },
{
    let w: i64 = width as i64;
    let h: i64 = height as i64;
    let ow: i64 = overlay_width as i64;
    let oh: i64 = overlay_height as i64;
    let mut across: i64 = (w + ow - 1) / ow;
    let mut down: i64 = (h + oh - 1) / oh;
    assert(across <= w) by (nonlinear_arith)
        requires
            across as int == (w + ow - 1) as int / ow as int,
            1 <= ow <= w,
    ;
    assert(down <= h) by (nonlinear_arith)
        requires
            down as int == (h + oh - 1) as int / oh as int,
            1 <= oh <= h,
    ;
    if (gravity == 0 || gravity == 1 || gravity == 3) && across % 2 == 0 {
        across = across + 1;
    }
    if (gravity == 0 || gravity == 2 || gravity == 4) && down % 2 == 0 {
        down = down + 1;
    }
    (across as i32, down as i32)
}

/// The frame delays written with `n_pages` pages: a single delay stands for
/// every frame; otherwise the delays as given.
pub open spec fn frame_delays(n_pages: int, delay: Seq<i32>) -> Seq<i32> {
    if delay.len() == 1 {
        Seq::new(n_pages as nat, |i: int| delay[0])
    } else {
        delay
    }
}

/// The loop count written, if any: a still image (one page, no delays, no
/// loop asked for) is marked to play once; otherwise the loop asked for,
/// unless that is -1 (keep the input's).
pub open spec fn written_loop(n_pages: int, delay: Seq<i32>, loop_: i32) -> Option<i32> {
    if n_pages == 1 && delay.len() == 0 && loop_ == -1 {
        Some(1)
    } else if loop_ != -1 {
        Some(loop_)
    } else {
        None
    }
}

/// The animation properties to write on an output of `n_pages` pages:
/// whether to record the page height (only for more than one page, or a
/// still image could turn into an animation later), the frame delays (none
/// when empty), and the loop count, if any.
pub fn animation_properties(n_pages: i32, delay: &Vec<i32>, loop_: i32) -> (r: (bool, Vec<i32>, Option<i32>))
    requires
        delay@.len() == 1 ==> n_pages >= 1,
    ensures
        r.0 == (n_pages > 1),
        r.1@ == frame_delays(n_pages as int, delay@),
        r.2 == written_loop(n_pages as int, delay@, loop_),
{
    let mut delays: Vec<i32> = Vec::new();
    if delay.len() == 1 {
        let d = delay[0];
        let mut i: i32 = 0;
        while i < n_pages
            invariant
                0 <= i <= n_pages,
                delays@ == Seq::new(i as nat, |k: int| d),
            decreases n_pages - i,
        {
            delays.push(d);
            i = i + 1;
            assert(delays@ =~= Seq::new(i as nat, |k: int| d));
        }
        assert(delays@ =~= frame_delays(n_pages as int, delay@));
    } else {
        delays = delay.clone();
        assert(delays@ =~= frame_delays(n_pages as int, delay@));
    }
    let written = if n_pages == 1 && delay.len() == 0 && loop_ == -1 {
        Some(1)
    } else if loop_ != -1 {
        Some(loop_)
    } else {
        None
    };
    (n_pages > 1, delays, written)
}

/// The region of page `i` of an image whose pages of `page_height` rows
/// are stacked, cropped to `width` by `height` at (`left`, `top`) within
/// the page.
pub open spec fn page_region(i: int, page_height: int, left: i32, top: i32, width: i32, height: i32) -> (int, int, int, int) {
    (left as int, page_height * i + top, width as int, height as int)
}

/// The regions to extract, one per page, when cropping each of `n_pages`
/// stacked pages to the same region.
pub fn page_regions(n_pages: i32, page_height: i32, left: i32, top: i32, width: i32, height: i32) -> (r: Vec<(i32, i32, i32, i32)>)
    requires
        0 <= n_pages,
        0 <= page_height,
        0 <= top,
        page_height * n_pages + top <= i32::MAX,
    ensures
        r@.len() == n_pages,
        forall|i: int| 0 <= i < n_pages ==> {
            let (a, b, c, d) = #[trigger] r@[i];
            (a as int, b as int, c as int, d as int) == page_region(i, page_height as int, left, top, width, height)
        },
{
    let mut regions: Vec<(i32, i32, i32, i32)> = Vec::new();
    let mut i: i32 = 0;
    while i < n_pages
        invariant
            0 <= i <= n_pages,
            0 <= page_height,
            0 <= top,
            page_height * n_pages + top <= i32::MAX,
            regions@.len() == i,
            forall|k: int| 0 <= k < i ==> {
                let (a, b, c, d) = #[trigger] regions@[k];
                (a as int, b as int, c as int, d as int) == page_region(k, page_height as int, left, top, width, height)
            },
        decreases n_pages - i,
    {
        assert(page_height * i <= page_height * n_pages) by (nonlinear_arith)
            requires
                0 <= page_height,
                0 <= i <= n_pages,
        ;
        assert(0 <= page_height * i) by (nonlinear_arith)
            requires
                0 <= page_height,
                0 <= i,
        ;
        let y = page_height * i + top;
        regions.push((left, y, width, height));
        i = i + 1;
    }
    regions
}

/// The message for an SVG image over the pixel limit, after scaling or not.
pub open spec fn svg_limit_text(scaled: bool) -> Seq<char> {
    if scaled {
        "Input SVG image will exceed 32767x32767 pixel limit when scaled"@
    } else {
        "Input SVG image exceeds 32767x32767 pixel limit"@
    }
}

/// Refuses an SVG image wider or higher than 32767 pixels; `scaled` says
/// whether it was scaled on load.
pub fn check_svg_size(width: i32, height: i32, scaled: bool) -> (r: Result<(), String>)
    ensures
        if width > 32767 || height > 32767 {
            r matches Err(e) && e@ == svg_limit_text(scaled)
        } else {
            r is Ok
        },
{
    if width > 32767 || height > 32767 {
        proof {
            reveal_strlit("Input SVG image will exceed 32767x32767 pixel limit when scaled");
            reveal_strlit("Input SVG image exceeds 32767x32767 pixel limit");
        }
        if scaled {
            return Err("Input SVG image will exceed 32767x32767 pixel limit when scaled".to_string());
        } else {
            return Err("Input SVG image exceeds 32767x32767 pixel limit".to_string());
        }
    }
    Ok(())
}

/// The message for an overlay larger than the image.
pub open spec fn overlay_size_text() -> Seq<char> {
    "Image to composite must have same dimensions or smaller"@
}

/// Refuses an overlay of `overlay_width` by `overlay_height` that is wider
/// or higher than the image of `width` by `height` it goes over.
pub fn check_overlay_size(width: i32, height: i32, overlay_width: i32, overlay_height: i32) -> (r: Result<(), String>)
    ensures
        if overlay_width > width || overlay_height > height {
            r matches Err(e) && e@ == overlay_size_text()
        } else {
            r is Ok
        },
{
    if overlay_width > width || overlay_height > height {
        proof {
            reveal_strlit("Image to composite must have same dimensions or smaller");
        }
        return Err("Image to composite must have same dimensions or smaller".to_string());
    }
    Ok(())
}

} // verus!
