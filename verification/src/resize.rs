//! Window border resize detection.
//!
//! Classifies a cursor position against the window bounds: near which edge or
//! corner it lies, which cursor icon that calls for, and which native resize
//! direction a drag from there should start.

use vstd::prelude::*;

verus! {

/// Distance from the window edge within which the cursor counts as near it.
pub const RESIZE_MARGIN: i64 = 8;

/// Which edge or corner of the window the cursor is near, if any.
#[derive(Debug, Clone, Copy, PartialEq, Eq, Structural)]
pub enum ResizeEdge {
    NoEdge,
    North,
    South,
    East,
    West,
    NorthEast,
    NorthWest,
    SouthEast,
    SouthWest,
}

/// The native "begin interactive resize" direction token.
#[derive(Debug, Clone, Copy, PartialEq, Eq, Structural)]
pub enum SurfaceEdge {
    North,
    South,
    East,
    West,
    NorthEast,
    NorthWest,
    SouthEast,
    SouthWest,
}

pub open spec fn spec_near_left(x: i64) -> bool {
    (x as int) < RESIZE_MARGIN as int
}

pub open spec fn spec_near_right(x: i64, width: i32) -> bool {
    (x as int) > width as int - RESIZE_MARGIN as int
}

pub open spec fn spec_near_top(y: i64) -> bool {
    (y as int) < RESIZE_MARGIN as int
}

pub open spec fn spec_near_bottom(y: i64, height: i32) -> bool {
    (y as int) > height as int - RESIZE_MARGIN as int
}

/// The classification of a cursor position: a corner where both a horizontal
/// and a vertical flag hold, a single edge where exactly one holds, `NoEdge`
/// otherwise (including contradictory flag patterns on tiny windows).
pub open spec fn spec_detect_edge(x: i64, y: i64, width: i32, height: i32) -> ResizeEdge {
    let nl = spec_near_left(x);
    let nr = spec_near_right(x, width);
    let nt = spec_near_top(y);
    let nb = spec_near_bottom(y, height);
    if nl && !nr && nt && !nb {
        ResizeEdge::NorthWest
    } else if !nl && nr && nt && !nb {
        ResizeEdge::NorthEast
    } else if nl && !nr && !nt && nb {
        ResizeEdge::SouthWest
    } else if !nl && nr && !nt && nb {
        ResizeEdge::SouthEast
    } else if nl && !nr && !nt && !nb {
        ResizeEdge::West
    } else if !nl && nr && !nt && !nb {
        ResizeEdge::East
    } else if !nl && !nr && nt && !nb {
        ResizeEdge::North
    } else if !nl && !nr && !nt && nb {
        ResizeEdge::South
    } else {
        ResizeEdge::NoEdge
    }
}

/// Detects which edge of the window the cursor is near based on coordinates.
pub fn detect_edge(x: i64, y: i64, width: i32, height: i32) -> (r: ResizeEdge)
    ensures
        r == spec_detect_edge(x, y, width, height),
{
    let near_left = x < RESIZE_MARGIN;
    let near_right = x > (width as i64) - RESIZE_MARGIN;
    let near_top = y < RESIZE_MARGIN;
    let near_bottom = y > (height as i64) - RESIZE_MARGIN;

    match (near_left, near_right, near_top, near_bottom) {
        (true, false, true, false) => ResizeEdge::NorthWest,
        (false, true, true, false) => ResizeEdge::NorthEast,
        (true, false, false, true) => ResizeEdge::SouthWest,
        (false, true, false, true) => ResizeEdge::SouthEast,
        (true, false, false, false) => ResizeEdge::West,
        (false, true, false, false) => ResizeEdge::East,
        (false, false, true, false) => ResizeEdge::North,
        (false, false, false, true) => ResizeEdge::South,
        _ => ResizeEdge::NoEdge,
    }
}

/// The cursor-icon name shown for each classification.
pub open spec fn spec_cursor_name(e: ResizeEdge) -> Seq<char> {
    match e {
        ResizeEdge::NoEdge => "default"@,
        ResizeEdge::North | ResizeEdge::South => "ns-resize"@,
        ResizeEdge::East | ResizeEdge::West => "ew-resize"@,
        ResizeEdge::NorthEast | ResizeEdge::SouthWest => "nesw-resize"@,
        ResizeEdge::NorthWest | ResizeEdge::SouthEast => "nwse-resize"@,
    }
}

/// The native resize direction for each classification; `NoEdge` offers none.
pub open spec fn spec_to_surface_edge(e: ResizeEdge) -> Option<SurfaceEdge> {
    match e {
        ResizeEdge::NoEdge => Option::None,
        ResizeEdge::North => Option::Some(SurfaceEdge::North),
        ResizeEdge::South => Option::Some(SurfaceEdge::South),
        ResizeEdge::East => Option::Some(SurfaceEdge::East),
        ResizeEdge::West => Option::Some(SurfaceEdge::West),
        ResizeEdge::NorthEast => Option::Some(SurfaceEdge::NorthEast),
        ResizeEdge::NorthWest => Option::Some(SurfaceEdge::NorthWest),
        ResizeEdge::SouthEast => Option::Some(SurfaceEdge::SouthEast),
        ResizeEdge::SouthWest => Option::Some(SurfaceEdge::SouthWest),
    }
}

impl ResizeEdge {
    /// Converts the resize edge to a native surface-edge token.
    pub fn to_surface_edge(self) -> (r: Option<SurfaceEdge>)
        ensures
            r == spec_to_surface_edge(self),
    {
        match self {
            ResizeEdge::NoEdge => Option::None,
            ResizeEdge::North => Option::Some(SurfaceEdge::North),
            ResizeEdge::South => Option::Some(SurfaceEdge::South),
            ResizeEdge::East => Option::Some(SurfaceEdge::East),
            ResizeEdge::West => Option::Some(SurfaceEdge::West),
            ResizeEdge::NorthEast => Option::Some(SurfaceEdge::NorthEast),
            ResizeEdge::NorthWest => Option::Some(SurfaceEdge::NorthWest),
            ResizeEdge::SouthEast => Option::Some(SurfaceEdge::SouthEast),
            ResizeEdge::SouthWest => Option::Some(SurfaceEdge::SouthWest),
        }
    }

    /// Returns the appropriate cursor name for this edge.
    pub fn cursor_name(self) -> (r: &'static str)
        ensures
            r@ == spec_cursor_name(self),
    {
        match self {
            ResizeEdge::NoEdge => "default",
            ResizeEdge::North | ResizeEdge::South => "ns-resize",
            ResizeEdge::East | ResizeEdge::West => "ew-resize",
            ResizeEdge::NorthEast | ResizeEdge::SouthWest => "nesw-resize",
            ResizeEdge::NorthWest | ResizeEdge::SouthEast => "nwse-resize",
        }
    }
}

/// A cursor strictly inside the margins on both axes is near no edge.
pub proof fn lemma_interior_is_no_edge(x: i64, y: i64, width: i32, height: i32)
    requires
        RESIZE_MARGIN as int <= x as int <= width as int - RESIZE_MARGIN as int,
        RESIZE_MARGIN as int <= y as int <= height as int - RESIZE_MARGIN as int,
    ensures
        spec_detect_edge(x, y, width, height) == ResizeEdge::NoEdge,
{
}

/// Every classification other than `NoEdge` maps to a native resize token and
/// to one of the four resize cursor icons; `NoEdge` maps to no token and to
/// the default cursor.
pub proof fn lemma_mappings_total(e: ResizeEdge)
    ensures
        spec_to_surface_edge(e) is Some <==> e != ResizeEdge::NoEdge,
        e == ResizeEdge::NoEdge ==> spec_cursor_name(e) == "default"@,
        e != ResizeEdge::NoEdge ==> (spec_cursor_name(e) == "ns-resize"@
            || spec_cursor_name(e) == "ew-resize"@
            || spec_cursor_name(e) == "nesw-resize"@
            || spec_cursor_name(e) == "nwse-resize"@),
        e != ResizeEdge::NoEdge ==> spec_cursor_name(e) != "default"@,
{
    reveal_strlit("default");
    reveal_strlit("ns-resize");
    reveal_strlit("ew-resize");
    reveal_strlit("nesw-resize");
    reveal_strlit("nwse-resize");
    assert("default"@.len() == 7);
    assert("ns-resize"@.len() == 9);
    assert("ew-resize"@.len() == 9);
    assert("nesw-resize"@.len() == 11);
    assert("nwse-resize"@.len() == 11);
}

/// Corner priority: near the left and the top at once classifies as the
/// north-west corner, never as the north or the west edge alone, whenever the
/// window is wider and taller than twice the margin.
pub proof fn lemma_corner_priority(x: i64, y: i64, width: i32, height: i32)
    requires
        (x as int) < RESIZE_MARGIN as int,
        (y as int) < RESIZE_MARGIN as int,
        width as int > 2 * RESIZE_MARGIN as int,
        height as int > 2 * RESIZE_MARGIN as int,
    ensures
        spec_detect_edge(x, y, width, height) == ResizeEdge::NorthWest,
{
}

/// Horizontal symmetry: with the vertical coordinate centered, a cursor past
/// the right margin classifies as `East`, and the mirrored coordinate on the
/// left as `West`.
pub proof fn lemma_horizontal_symmetry(x: i64, mx: i64, y: i64, width: i32, height: i32)
    requires
        width as int > 2 * RESIZE_MARGIN as int,
        RESIZE_MARGIN as int <= y as int <= height as int - RESIZE_MARGIN as int,
        (x as int) > width as int - RESIZE_MARGIN as int,
        mx as int == width as int - x as int,
    ensures
        spec_detect_edge(x, y, width, height) == ResizeEdge::East,
        spec_detect_edge(mx, y, width, height) == ResizeEdge::West,
{
}

/// Tracks the classification under the pointer, one cell per window: motion
/// recomputes it, leaving the window resets it, and a beginning drag reads it
/// to decide whether a native resize starts.
pub struct ResizeTracker {
    pub current: ResizeEdge,
}

impl ResizeTracker {
    /// A fresh tracker: the pointer is near no edge.
    pub fn new() -> (t: Self)
        ensures
            t.current == ResizeEdge::NoEdge,
    {
        ResizeTracker { current: ResizeEdge::NoEdge }
    }

    /// A pointer-motion event: reclassify the position and report the cursor
    /// icon the window should now show.
    pub fn on_motion(&mut self, x: i64, y: i64, width: i32, height: i32) -> (cursor: &'static str)
        ensures
            final(self).current == spec_detect_edge(x, y, width, height),
            cursor@ == spec_cursor_name(final(self).current),
    {
        let edge = detect_edge(x, y, width, height);
        self.current = edge;
        edge.cursor_name()
    }

    /// A pointer-leave event: the cursor is no longer near any edge.
    pub fn on_leave(&mut self)
        ensures
            final(self).current == ResizeEdge::NoEdge,
    {
        self.current = ResizeEdge::NoEdge;
    }

    /// A beginning drag: the native resize direction to request, or `None`
    /// when the drag should be ignored.
    pub fn on_drag_begin(&self) -> (r: Option<SurfaceEdge>)
        ensures
            r == spec_to_surface_edge(self.current),
    {
        self.current.to_surface_edge()
    }
}

} // verus!
