use gpt_screenshot::geometry::{capture_area, extent_as_size, selection_rect, CaptureRect};

#[test]
fn selection_dragged_down_right() {
    let r = selection_rect(10, 20, 110, 220);
    assert_eq!(r, CaptureRect { x: 11, y: 21, width: 98, height: 198 });
}

#[test]
fn selection_dragged_up_left_is_the_same() {
    let a = selection_rect(10, 20, 110, 220);
    let b = selection_rect(110, 220, 10, 20);
    assert_eq!(a, b);
}

#[test]
fn selection_mixed_directions() {
    let r = selection_rect(300, 40, 100, 90);
    assert_eq!(r, CaptureRect { x: 101, y: 41, width: 198, height: 48 });
}

#[test]
fn selection_is_inset_by_one_pixel() {
    let r = selection_rect(-50, -30, 50, 30);
    assert_eq!(r.x, -49);
    assert_eq!(r.x + r.width, 49);
    assert_eq!(r.y, -29);
    assert_eq!(r.y + r.height, 29);
}

#[test]
fn selection_of_a_point_has_negative_extent() {
    let r = selection_rect(7, 7, 7, 7);
    assert_eq!(r, CaptureRect { x: 8, y: 8, width: -2, height: -2 });
    assert_eq!(capture_area(&r), None);
}

#[test]
fn selection_two_pixels_wide_is_empty_but_capturable() {
    let r = selection_rect(0, 0, 2, 2);
    assert_eq!(r.width, 0);
    assert_eq!(capture_area(&r), Some((1, 1, 0, 0)));
}

#[test]
fn capture_area_of_a_normal_selection() {
    let r = selection_rect(10, 20, 110, 220);
    assert_eq!(capture_area(&r), Some((11, 21, 98, 198)));
}

#[test]
fn capture_area_refuses_one_negative_extent() {
    let r = selection_rect(0, 0, 100, 1);
    assert_eq!(r.height, -1);
    assert_eq!(capture_area(&r), None);
}

#[test]
fn extent_sizes() {
    assert_eq!(extent_as_size(0), Some(0));
    assert_eq!(extent_as_size(i32::MAX), Some(i32::MAX as u32));
    assert_eq!(extent_as_size(-1), None);
}

#[test]
fn selection_at_the_edges_of_i32() {
    let r = selection_rect(i32::MIN, 0, -1, 0);
    assert_eq!(r.x, i32::MIN + 1);
    assert_eq!(r.width, i32::MAX - 2);
}
