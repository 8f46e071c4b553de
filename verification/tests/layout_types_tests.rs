use lumen::layout::{EdgeSizes, Line, Rectangle, TextStyle, Viewport};

#[test]
fn test_rectangle_contains() {
    let rect = Rectangle::new(10, 20, 30, 40);
    assert!(rect.contains(10, 20)); // Top-left
    assert!(rect.contains(39, 59)); // Bottom-right - 1
    assert!(!rect.contains(9, 20)); // Left of rect
    assert!(!rect.contains(40, 20)); // Right of rect
}

#[test]
fn test_rectangle_intersects() {
    let rect1 = Rectangle::new(10, 10, 20, 20);
    let rect2 = Rectangle::new(20, 20, 20, 20); // Overlaps
    let rect3 = Rectangle::new(50, 50, 10, 10); // No overlap

    assert!(rect1.intersects(&rect2));
    assert!(rect2.intersects(&rect1));
    assert!(!rect1.intersects(&rect3));
}

#[test]
fn test_viewport() {
    let mut viewport = Viewport::new(80, 24);
    assert_eq!(viewport.width, 80);
    assert_eq!(viewport.height, 24);
    assert_eq!(viewport.scroll_y, 0);

    viewport.scroll_by(10);
    assert_eq!(viewport.scroll_y, 10);

    viewport.scroll_by(-5);
    assert_eq!(viewport.scroll_y, 5);

    viewport.scroll_by(-10); // Should clamp to 0
    assert_eq!(viewport.scroll_y, 0);
}

#[test]
fn test_line_width() {
    let mut line = Line::new();
    line.add_segment("Hello".to_string(), TextStyle::default());
    line.add_segment(" ".to_string(), TextStyle::default());
    line.add_segment("World".to_string(), TextStyle::default());

    assert_eq!(line.width(), 11); // 5 + 1 + 5
}

#[test]
fn test_edge_sizes() {
    let zero = EdgeSizes::zero();
    assert_eq!(zero.top, 0);
    assert_eq!(zero.left, 0);

    let all = EdgeSizes::all(2);
    assert_eq!(all.top, 2);
    assert_eq!(all.right, 2);

    let vertical = EdgeSizes::vertical(3);
    assert_eq!(vertical.top, 3);
    assert_eq!(vertical.bottom, 3);
    assert_eq!(vertical.left, 0);
}

#[test]
fn rectangle_edges_are_half_open() {
    let rect = Rectangle::new(0, 0, 2, 2);
    assert!(rect.contains(1, 1));
    assert!(!rect.contains(2, 1));
    assert!(!rect.contains(1, 2));
    let empty = Rectangle::new(5, 5, 0, 0);
    assert!(!empty.contains(5, 5));
    // No overflow at the far corner of the coordinate space.
    let far = Rectangle::new(65535, 65535, 65535, 65535);
    assert!(far.contains(65535, 65535));
    assert!(!far.contains(65534, 65535));
    assert!(far.intersects(&Rectangle::new(65000, 65000, 1000, 1000)));
    assert!(!Rectangle::new(0, 0, 10, 10).intersects(&Rectangle::new(10, 0, 5, 5)));
}

#[test]
fn edge_sizes_horizontal() {
    let h = EdgeSizes::horizontal(4);
    assert_eq!(h, EdgeSizes { top: 0, right: 4, bottom: 0, left: 4 });
}

#[test]
fn scroll_to_is_unclamped() {
    let mut viewport = Viewport::new(80, 24);
    viewport.scroll_to(100);
    assert_eq!(viewport.scroll_y, 100);
}

#[test]
fn scroll_to_clamped_stops_at_document_end() {
    let mut viewport = Viewport::new(80, 24);
    viewport.scroll_to_clamped(100, 50);
    assert_eq!(viewport.scroll_y, 26);
    viewport.scroll_to_clamped(10, 50);
    assert_eq!(viewport.scroll_y, 10);
    // A document shorter than the viewport cannot scroll.
    viewport.scroll_to_clamped(10, 20);
    assert_eq!(viewport.scroll_y, 0);
}

#[test]
fn scroll_by_clamped_stays_in_range() {
    let mut viewport = Viewport::new(80, 24);
    viewport.scroll_by_clamped(5, 50);
    assert_eq!(viewport.scroll_y, 5);
    viewport.scroll_by_clamped(-10, 50);
    assert_eq!(viewport.scroll_y, 0);
    viewport.scroll_by_clamped(1000, 50);
    assert_eq!(viewport.scroll_y, 26);
    viewport.scroll_by_clamped(1, 10);
    assert_eq!(viewport.scroll_y, 0);
    // Large offsets do not wrap around.
    let mut far = Viewport::new(80, 24);
    far.scroll_to(60000);
    far.scroll_by_clamped(32767, 65535);
    assert_eq!(far.scroll_y, 65511);
    far.scroll_to(60000);
    far.scroll_by(32767);
    assert_eq!(far.scroll_y, 65535);
}

#[test]
fn viewport_contains_point_follows_scroll() {
    let mut viewport = Viewport::new(80, 24);
    assert!(viewport.contains_point(0, 0));
    assert!(!viewport.contains_point(0, 24));
    viewport.scroll_to(10);
    assert!(!viewport.contains_point(0, 9));
    assert!(viewport.contains_point(79, 33));
    assert_eq!(viewport.visible_rect(), Rectangle::new(0, 10, 80, 24));
}

#[test]
fn line_width_counts_characters() {
    let mut line = Line::new();
    assert!(line.is_empty());
    assert_eq!(line.width(), 0);
    line.add_segment("héllo".to_string(), TextStyle::default());
    assert!(!line.is_empty());
    assert_eq!(line.width(), 5);
    line.add_segment_with_link("x".to_string(), TextStyle::default(), Some("u".to_string()));
    assert_eq!(line.segments[1].link_url.as_deref(), Some("u"));
    assert_eq!(line.width(), 6);
}
