use vstd::prelude::*;

verus! {

/// The screen area captured for a drag selection: the top-left corner and the
/// signed extent, exactly as computed from the two corners of the drag.
#[derive(Clone, Copy, Debug, PartialEq, Eq)]
pub struct CaptureRect {
    pub x: i32,
    pub y: i32,
    pub width: i32,
    pub height: i32,
}

/// The smaller of two coordinates.
pub open spec fn coord_min(a: int, b: int) -> int {
    if a < b { a } else { b }
}

/// The larger of two coordinates.
pub open spec fn coord_max(a: int, b: int) -> int {
    if a < b { b } else { a }
}

/// The distance between two coordinates.
pub open spec fn coord_dist(a: int, b: int) -> int {
    coord_max(a, b) - coord_min(a, b)
}

/// One axis of the selection: the first captured coordinate lies one past the
/// smaller end, and the extent leaves out the border line at both ends.
pub open spec fn axis_start(a: int, b: int) -> int {
    coord_min(a, b) + 1
}

pub open spec fn axis_extent(a: int, b: int) -> int {
    coord_dist(a, b) - 2
}

/// Whether the arithmetic of one axis stays within `i32`.
pub open spec fn axis_fits(a: int, b: int) -> bool {
    &&& coord_dist(a, b) <= i32::MAX
    &&& coord_min(a, b) < i32::MAX
}

/// The capture rectangle of a drag from `(sx, sy)` to `(ex, ey)`.
pub open spec fn selection_rect_spec(sx: int, sy: int, ex: int, ey: int) -> (int, int, int, int) {
    (axis_start(sx, ex), axis_start(sy, ey), axis_extent(sx, ex), axis_extent(sy, ey))
}

pub open spec fn rect_tuple(r: CaptureRect) -> (int, int, int, int) {
    (r.x as int, r.y as int, r.width as int, r.height as int)
}

/// The area to capture for a selection dragged from `(start_x, start_y)` to
/// `(end_x, end_y)`, in either direction.
pub fn selection_rect(start_x: i32, start_y: i32, end_x: i32, end_y: i32) -> (r: CaptureRect)
    requires
        axis_fits(start_x as int, end_x as int),
        axis_fits(start_y as int, end_y as int),
    ensures
        rect_tuple(r) == selection_rect_spec(start_x as int, start_y as int, end_x as int, end_y as int),
{
    let x1: i32;
    let width: i32;
    let y1: i32;
    let height: i32;
    if start_x < end_x {
        x1 = start_x + 1;
        width = end_x - start_x - 2;
    } else {
        x1 = end_x + 1;
        width = start_x - end_x - 2;
    }
    if start_y < end_y {
        y1 = start_y + 1;
        height = end_y - start_y - 2;
    } else {
        y1 = end_y + 1;
        height = start_y - end_y - 2;
    }
    CaptureRect { x: x1, y: y1, width, height }
}

/// A signed extent as the unsigned size the capture takes: present exactly when
/// the extent is not negative.
pub fn extent_as_size(extent: i32) -> (size: Option<u32>)
    ensures
        size is Some <==> extent >= 0,
        size matches Some(s) ==> s as int == extent as int,
{
    if extent >= 0 {
        Some(extent as u32)
    } else {
        None
    }
}

/// The arguments of an area capture, `(x, y, width, height)`; `None` when the
/// selection is too small to have a non-negative extent on both axes.
pub fn capture_area(r: &CaptureRect) -> (area: Option<(i32, i32, u32, u32)>)
    ensures
        area is Some <==> (r.width >= 0 && r.height >= 0),
        area matches Some(a) ==> a.0 == r.x && a.1 == r.y && a.2 as int == r.width as int
            && a.3 as int == r.height as int,
{
    match (extent_as_size(r.width), extent_as_size(r.height)) {
        (Some(w), Some(h)) => Some((r.x, r.y, w, h)),
        _ => None,
    }
}

/// The capture rectangle does not depend on the direction of the drag:
/// swapping the start and end corners gives the same rectangle.
pub proof fn lemma_selection_direction_free(sx: int, sy: int, ex: int, ey: int)
    ensures
        selection_rect_spec(sx, sy, ex, ey) == selection_rect_spec(ex, ey, sx, sy),
{
}

/// The captured area lies strictly inside the dragged box: it starts one past the
/// smaller corner and ends one before the larger one, on both axes.
pub proof fn lemma_selection_inset(sx: int, sy: int, ex: int, ey: int)
    ensures
        ({
            let (x, y, w, h) = selection_rect_spec(sx, sy, ex, ey);
            &&& x == coord_min(sx, ex) + 1
            &&& x + w == coord_max(sx, ex) - 1
            &&& y == coord_min(sy, ey) + 1
            &&& y + h == coord_max(sy, ey) - 1
        }),
{
}

} // verus!
