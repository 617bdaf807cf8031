use rustyterm::resize::{detect_edge, ResizeEdge, SurfaceEdge};

#[test]
fn test_detect_edge_corners() {
    // Top-left corner
    assert_eq!(detect_edge(2, 2, 800, 600), ResizeEdge::NorthWest);

    // Top-right corner
    assert_eq!(detect_edge(798, 2, 800, 600), ResizeEdge::NorthEast);

    // Bottom-left corner
    assert_eq!(detect_edge(2, 598, 800, 600), ResizeEdge::SouthWest);

    // Bottom-right corner
    assert_eq!(detect_edge(798, 598, 800, 600), ResizeEdge::SouthEast);
}

#[test]
fn test_detect_edge_sides() {
    // Left edge
    assert_eq!(detect_edge(2, 300, 800, 600), ResizeEdge::West);

    // Right edge
    assert_eq!(detect_edge(798, 300, 800, 600), ResizeEdge::East);

    // Top edge
    assert_eq!(detect_edge(400, 2, 800, 600), ResizeEdge::North);

    // Bottom edge
    assert_eq!(detect_edge(400, 598, 800, 600), ResizeEdge::South);
}

#[test]
fn test_detect_edge_center() {
    assert_eq!(detect_edge(400, 300, 800, 600), ResizeEdge::NoEdge);
}

#[test]
fn test_cursor_names() {
    assert_eq!(ResizeEdge::NoEdge.cursor_name(), "default");
    assert_eq!(ResizeEdge::North.cursor_name(), "ns-resize");
    assert_eq!(ResizeEdge::South.cursor_name(), "ns-resize");
    assert_eq!(ResizeEdge::East.cursor_name(), "ew-resize");
    assert_eq!(ResizeEdge::West.cursor_name(), "ew-resize");
    assert_eq!(ResizeEdge::NorthEast.cursor_name(), "nesw-resize");
    assert_eq!(ResizeEdge::SouthWest.cursor_name(), "nesw-resize");
    assert_eq!(ResizeEdge::NorthWest.cursor_name(), "nwse-resize");
    assert_eq!(ResizeEdge::SouthEast.cursor_name(), "nwse-resize");
}

#[test]
fn test_interior_is_no_edge() {
    // Strictly inside the margins on both axes.
    assert_eq!(detect_edge(9, 9, 800, 600), ResizeEdge::NoEdge);
    assert_eq!(detect_edge(791, 591, 800, 600), ResizeEdge::NoEdge);
}

#[test]
fn test_corner_priority_over_single_edges() {
    // Near left and top at once: the corner wins, never North or West alone.
    assert_eq!(detect_edge(7, 7, 800, 600), ResizeEdge::NorthWest);
    assert_eq!(detect_edge(0, 0, 17, 17), ResizeEdge::NorthWest);
}

#[test]
fn test_horizontal_symmetry() {
    // Near the right boundary with the vertical coordinate centered: East;
    // the mirrored coordinate on the left: West.
    assert_eq!(detect_edge(795, 300, 800, 600), ResizeEdge::East);
    assert_eq!(detect_edge(800 - 795, 300, 800, 600), ResizeEdge::West);
}

#[test]
fn test_contradictory_flags_give_no_edge() {
    // A window narrower than twice the margin makes both horizontal flags
    // true at once; that contradictory pattern classifies as no edge.
    assert_eq!(detect_edge(5, 300, 10, 600), ResizeEdge::NoEdge);
}

#[test]
fn test_out_of_bounds_coordinates() {
    // Coordinates are not validated; far outside still classifies.
    assert_eq!(detect_edge(-100, 300, 800, 600), ResizeEdge::West);
    assert_eq!(detect_edge(10000, 300, 800, 600), ResizeEdge::East);
}

#[test]
fn test_surface_edge_mapping() {
    assert_eq!(ResizeEdge::NoEdge.to_surface_edge(), None);
    assert_eq!(ResizeEdge::North.to_surface_edge(), Some(SurfaceEdge::North));
    assert_eq!(ResizeEdge::South.to_surface_edge(), Some(SurfaceEdge::South));
    assert_eq!(ResizeEdge::East.to_surface_edge(), Some(SurfaceEdge::East));
    assert_eq!(ResizeEdge::West.to_surface_edge(), Some(SurfaceEdge::West));
    assert_eq!(ResizeEdge::NorthEast.to_surface_edge(), Some(SurfaceEdge::NorthEast));
    assert_eq!(ResizeEdge::NorthWest.to_surface_edge(), Some(SurfaceEdge::NorthWest));
    assert_eq!(ResizeEdge::SouthEast.to_surface_edge(), Some(SurfaceEdge::SouthEast));
    assert_eq!(ResizeEdge::SouthWest.to_surface_edge(), Some(SurfaceEdge::SouthWest));
}

#[test]
fn test_northeast_drag_scenario() {
    // A pointer at (798, 2) in an 800x600 window: NorthEast, nesw cursor,
    // and a drag from there begins a NorthEast native resize.
    let edge = detect_edge(798, 2, 800, 600);
    assert_eq!(edge, ResizeEdge::NorthEast);
    assert_eq!(edge.cursor_name(), "nesw-resize");

    let mut tracker = rustyterm::resize::ResizeTracker::new();
    let cursor = tracker.on_motion(798, 2, 800, 600);
    assert_eq!(cursor, "nesw-resize");
    assert_eq!(tracker.on_drag_begin(), Some(SurfaceEdge::NorthEast));

    tracker.on_leave();
    assert_eq!(tracker.current, ResizeEdge::NoEdge);
    assert_eq!(tracker.on_drag_begin(), None);
}
