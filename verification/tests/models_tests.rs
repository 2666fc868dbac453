use uiautomator::models::{normalize_display_rotation, Rect};

#[test]
fn test_rect_width() {
    let rect = Rect::new(10, 20, 100, 200);
    assert_eq!(rect.width(), 90);
}

#[test]
fn test_rect_height() {
    let rect = Rect::new(10, 20, 100, 200);
    assert_eq!(rect.height(), 180);
}

#[test]
fn test_rect_center() {
    let rect = Rect::new(10, 20, 100, 200);
    assert_eq!(rect.center(), (55, 110));
}

#[test]
fn test_rect_center_odd_dimensions() {
    let rect = Rect::new(0, 0, 101, 201);
    assert_eq!(rect.center(), (50, 100));
}

#[test]
fn test_rect_zero_size() {
    let rect = Rect::new(50, 50, 50, 50);
    assert_eq!(rect.width(), 0);
    assert_eq!(rect.height(), 0);
    assert_eq!(rect.center(), (50, 50));
}

#[test]
fn rect_inverted_edges_give_zero_size() {
    let rect = Rect::new(100, 200, 10, 20);
    assert_eq!(rect.width(), 0);
    assert_eq!(rect.height(), 0);
}

#[test]
fn rect_center_near_u32_max_does_not_overflow() {
    let rect = Rect::new(u32::MAX - 1, 0, u32::MAX, 2);
    assert_eq!(rect.center(), (u32::MAX - 1, 1));
}

#[test]
fn rotation_surface_index_is_turned_into_degrees() {
    assert_eq!(normalize_display_rotation(0), 0);
    assert_eq!(normalize_display_rotation(1), 90);
    assert_eq!(normalize_display_rotation(2), 180);
    assert_eq!(normalize_display_rotation(3), 270);
}

#[test]
fn rotation_in_degrees_is_kept() {
    assert_eq!(normalize_display_rotation(90), 90);
    assert_eq!(normalize_display_rotation(270), 270);
}

#[test]
fn rotation_normalization_is_idempotent() {
    for raw in [0u32, 1, 2, 3, 4, 90, 180, 270, 360, 45] {
        let once = normalize_display_rotation(raw);
        assert_eq!(normalize_display_rotation(once), once);
    }
}
