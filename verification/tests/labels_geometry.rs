use animated_rows::geometry::{alpha_of, slide_frame, slide_x, split_frame};
use animated_rows::label::{make_row, synthetic_rows, u64_to_decimal};

#[test]
fn decimal_notation_of_small_and_large_numbers() {
    assert_eq!(u64_to_decimal(0), "0");
    assert_eq!(u64_to_decimal(7), "7");
    assert_eq!(u64_to_decimal(10), "10");
    assert_eq!(u64_to_decimal(100), "100");
    assert_eq!(u64_to_decimal(12345), "12345");
    assert_eq!(u64_to_decimal(u64::MAX), "18446744073709551615");
}

#[test]
fn a_row_label_is_prefix_then_index() {
    let row = make_row("GE-Proton9-", "/some/path/", 42);
    assert_eq!(row.version, "GE-Proton9-42");
    assert_eq!(row.path, "/some/path/42");
}

#[test]
fn synthetic_rows_are_labelled_by_index() {
    let rows = synthetic_rows("GE-Proton-", "/some/path/", 100);
    assert_eq!(rows.len(), 100);
    assert_eq!(rows[0].version, "GE-Proton-0");
    assert_eq!(rows[7].version, "GE-Proton-7");
    assert_eq!(rows[99].version, "GE-Proton-99");
    assert_eq!(rows[99].path, "/some/path/99");
}

#[test]
fn no_rows_for_a_zero_count() {
    let rows = synthetic_rows("v", "/p", 0);
    assert!(rows.is_empty());
}

#[test]
fn slide_covers_the_span_linearly_with_progress() {
    assert_eq!(slide_x(1000, 500, 0), 1000);
    assert_eq!(slide_x(1000, 500, 500_000), 750);
    assert_eq!(slide_x(1000, 500, 1_000_000), 500);
    // A zero span stays put.
    assert_eq!(slide_x(300, 300, 123_456), 300);
}

#[test]
fn alpha_fades_in_linearly() {
    assert_eq!(alpha_of(0), 0);
    assert_eq!(alpha_of(500_000), 127);
    assert_eq!(alpha_of(1_000_000), 255);
}

#[test]
fn full_width_frame_slides_in_from_the_right() {
    let f = slide_frame(100, 800, 0);
    assert_eq!(f.x, 900);
    assert_eq!(f.alpha, 0);
    let f = slide_frame(100, 800, 500_000);
    assert_eq!(f.x, 500);
    assert_eq!(f.alpha, 127);
    let f = slide_frame(100, 800, 1_000_000);
    assert_eq!(f.x, 100);
    assert_eq!(f.alpha, 255);
}

#[test]
fn split_frame_slides_both_halves_into_place() {
    let f = split_frame(100, 800, 0);
    assert_eq!(f.half_width, 400);
    assert_eq!(f.x_left, 500);
    assert_eq!(f.x_right, 900);
    assert_eq!(f.alpha, 0);
    let f = split_frame(100, 800, 1_000_000);
    assert_eq!(f.x_left, 100);
    assert_eq!(f.x_right, 500);
    assert_eq!(f.alpha, 255);
}
