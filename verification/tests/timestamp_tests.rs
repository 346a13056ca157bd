use gpt_screenshot::timestamp::{screenshot_filename, screenshot_filename_at};

#[test]
fn filename_of_a_known_moment() {
    assert_eq!(
        screenshot_filename_at(2023, 11, 25, 21, 24, 45),
        Some("screenshot_20231125_212445.png".to_string())
    );
}

#[test]
fn filename_pads_small_fields() {
    assert_eq!(
        screenshot_filename_at(2024, 1, 2, 3, 4, 5),
        Some("screenshot_20240102_030405.png".to_string())
    );
}

#[test]
fn filename_of_an_early_year_is_zero_padded() {
    assert_eq!(
        screenshot_filename_at(5, 6, 7, 0, 0, 0),
        Some("screenshot_00050607_000000.png".to_string())
    );
}

#[test]
fn filename_of_a_year_before_zero_has_a_sign() {
    assert_eq!(
        screenshot_filename_at(-4, 2, 29, 23, 59, 59),
        Some("screenshot_-00040229_235959.png".to_string())
    );
}

#[test]
fn filename_of_a_year_past_9999_has_a_plus() {
    assert_eq!(
        screenshot_filename_at(12345, 12, 31, 12, 0, 0),
        Some("screenshot_+123451231_120000.png".to_string())
    );
}

#[test]
fn filename_on_leap_days() {
    assert!(screenshot_filename_at(2024, 2, 29, 0, 0, 0).is_some());
    assert!(screenshot_filename_at(2000, 2, 29, 0, 0, 0).is_some());
    assert_eq!(screenshot_filename_at(2023, 2, 29, 0, 0, 0), None);
    assert_eq!(screenshot_filename_at(1900, 2, 29, 0, 0, 0), None);
}

#[test]
fn filename_refuses_impossible_moments() {
    assert_eq!(screenshot_filename_at(2023, 4, 31, 0, 0, 0), None);
    assert_eq!(screenshot_filename_at(2023, 0, 1, 0, 0, 0), None);
    assert_eq!(screenshot_filename_at(2023, 13, 1, 0, 0, 0), None);
    assert_eq!(screenshot_filename_at(2023, 1, 0, 0, 0, 0), None);
    assert_eq!(screenshot_filename_at(2023, 1, 1, 24, 0, 0), None);
    assert_eq!(screenshot_filename_at(2023, 1, 1, 0, 60, 0), None);
    assert_eq!(screenshot_filename_at(2023, 1, 1, 0, 0, 60), None);
    assert_eq!(screenshot_filename_at(400000, 1, 1, 0, 0, 0), None);
    assert_eq!(screenshot_filename_at(-400000, 1, 1, 0, 0, 0), None);
}

#[test]
fn filename_at_the_calendar_limits() {
    assert_eq!(
        screenshot_filename_at(262142, 12, 31, 0, 0, 0),
        Some("screenshot_+2621421231_000000.png".to_string())
    );
    assert_eq!(screenshot_filename_at(262143, 1, 1, 0, 0, 0), None);
    assert!(screenshot_filename_at(-262143, 1, 1, 0, 0, 0).is_some());
    assert_eq!(screenshot_filename_at(-262144, 12, 31, 0, 0, 0), None);
}

#[test]
fn filename_from_stamp_text() {
    assert_eq!(screenshot_filename("x"), "screenshot_x.png");
    assert_eq!(screenshot_filename(""), "screenshot_.png");
}

#[test]
fn filename_of_year_zero_and_far_past() {
    assert_eq!(
        screenshot_filename_at(0, 1, 1, 0, 0, 0),
        Some("screenshot_00000101_000000.png".to_string())
    );
    assert_eq!(
        screenshot_filename_at(-10000, 3, 4, 5, 6, 7),
        Some("screenshot_-100000304_050607.png".to_string())
    );
    assert_eq!(
        screenshot_filename_at(10000, 1, 1, 0, 0, 0),
        Some("screenshot_+100000101_000000.png".to_string())
    );
}
