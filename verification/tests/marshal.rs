use gfx_primitives::points::point_count;
use gfx_primitives::text::{ends_in_only_nul, native_char, nul_terminated};
use gfx_primitives::marshal;
use gfx_primitives::status::{outcome, succeeded, SUCCESS};
use gfx_primitives::{Color, Error, NativeCall};

#[test]
fn point_count_of_equal_buffers() {
    assert_eq!(point_count(&[0, 10, 5], &[0, 0, 10]), Some(3));
    assert_eq!(point_count(&[7], &[9]), Some(1));
    assert_eq!(point_count(&[], &[]), Some(0));
}

#[test]
fn point_count_of_unequal_buffers() {
    assert_eq!(point_count(&[0, 10, 5], &[0, 0]), None);
    assert_eq!(point_count(&[0, 10], &[0, 0, 10]), None);
    assert_eq!(point_count(&[], &[1]), None);
}

#[test]
fn native_char_keeps_the_low_byte() {
    assert_eq!(native_char('A'), 0x41);
    assert_eq!(native_char('\0'), 0);
    assert_eq!(native_char('\u{7f}'), 0x7f);
    assert_eq!(native_char('\u{e9}'), 0xe9);
    assert_eq!(native_char('\u{ff}'), 0xff);
    assert_eq!(native_char('\u{100}'), 0);
    assert_eq!(native_char('\u{20ac}'), 0xac);
    assert_eq!(native_char('\u{10ffff}'), 0xff);
}

#[test]
fn nul_terminated_appends_one_nul() {
    assert_eq!(nul_terminated("Hi"), Some(vec![b'H', b'i', 0]));
    assert_eq!(nul_terminated(""), Some(vec![0]));
    assert_eq!(nul_terminated("\u{e9}"), Some(vec![0xc3, 0xa9, 0]));
}

#[test]
fn nul_terminated_rejects_an_embedded_nul() {
    assert_eq!(nul_terminated("a\0b"), None);
    assert_eq!(nul_terminated("\0"), None);
    assert_eq!(nul_terminated("ab\0"), None);
    assert_eq!(nul_terminated("\0ab"), None);
}

#[test]
fn status_zero_is_success() {
    assert_eq!(SUCCESS, 0);
    assert!(succeeded(0));
    assert!(!succeeded(-1));
    assert!(!succeeded(1));
    assert!(!succeeded(i32::MIN));
    assert!(!succeeded(i32::MAX));
}

#[test]
fn outcome_of_success_is_ok() {
    assert_eq!(outcome(0, String::from("stale text")), Ok(()));
    assert_eq!(outcome(0, String::new()), Ok(()));
}

#[test]
fn outcome_of_failure_carries_the_diagnostic() {
    assert_eq!(
        outcome(-1, String::from("Invalid renderer")),
        Err(Error::NativeCallFailed(String::from("Invalid renderer")))
    );
    assert_eq!(outcome(1, String::from("x")), Err(Error::NativeCallFailed(String::from("x"))));
    assert_eq!(outcome(i32::MIN, String::new()), Err(Error::NativeCallFailed(String::new())));
}

#[test]
fn error_message() {
    assert_eq!(Error::NativeCallFailed(String::from("Invalid renderer")).message(), "Invalid renderer");
    assert_eq!(Error::Unimplemented.message(), "not implemented");
}

#[test]
fn marshal_pixel_and_straight_lines() {
    assert_eq!(
        marshal::pixel(10, 10, (255u8, 0u8, 0u8, 255u8)),
        NativeCall::PixelColor { x: 10, y: 10, color: 0xFF00_00FF }
    );
    assert_eq!(
        marshal::hline(1, 2, 3, 0x0403_0201u32),
        NativeCall::HlineColor { x1: 1, x2: 2, y: 3, color: 0x0403_0201 }
    );
    assert_eq!(
        marshal::vline(1, 2, 3, Color::RGB(1, 2, 3)),
        NativeCall::VlineColor { x: 1, y1: 2, y2: 3, color: 0xFF03_0201 }
    );
    assert_eq!(
        marshal::line(-1, -2, 3, 4, 7u32),
        NativeCall::LineColor { x1: -1, y1: -2, x2: 3, y2: 4, color: 7 }
    );
    assert_eq!(
        marshal::aa_line(-1, -2, 3, 4, 7u32),
        NativeCall::AalineColor { x1: -1, y1: -2, x2: 3, y2: 4, color: 7 }
    );
    assert_eq!(
        marshal::thick_line(-1, -2, 3, 4, 9, 7u32),
        NativeCall::ThickLineColor { x1: -1, y1: -2, x2: 3, y2: 4, width: 9, color: 7 }
    );
}

#[test]
fn marshal_rectangles() {
    assert_eq!(
        marshal::rectangle(1, 2, 3, 4, 5u32),
        NativeCall::RectangleColor { x1: 1, y1: 2, x2: 3, y2: 4, color: 5 }
    );
    assert_eq!(
        marshal::rounded_rectangle(1, 2, 3, 4, 6, 5u32),
        NativeCall::RoundedRectangleColor { x1: 1, y1: 2, x2: 3, y2: 4, rad: 6, color: 5 }
    );
    assert_eq!(
        marshal::box_(1, 2, 3, 4, 5u32),
        NativeCall::BoxColor { x1: 1, y1: 2, x2: 3, y2: 4, color: 5 }
    );
    assert_eq!(
        marshal::rounded_box(1, 2, 3, 4, 6, 5u32),
        NativeCall::RoundedBoxColor { x1: 1, y1: 2, x2: 3, y2: 4, rad: 6, color: 5 }
    );
}

#[test]
fn marshal_circles_and_ellipses() {
    assert_eq!(marshal::circle(1, 2, 3, 4u32), NativeCall::CircleColor { x: 1, y: 2, rad: 3, color: 4 });
    assert_eq!(marshal::aa_circle(1, 2, 3, 4u32), NativeCall::AacircleColor { x: 1, y: 2, rad: 3, color: 4 });
    assert_eq!(
        marshal::filled_circle(1, 2, 3, 4u32),
        NativeCall::FilledCircleColor { x: 1, y: 2, rad: 3, color: 4 }
    );
    assert_eq!(
        marshal::ellipse(1, 2, 3, 4, 5u32),
        NativeCall::EllipseColor { x: 1, y: 2, rx: 3, ry: 4, color: 5 }
    );
    assert_eq!(
        marshal::aa_ellipse(1, 2, 3, 4, 5u32),
        NativeCall::AaellipseColor { x: 1, y: 2, rx: 3, ry: 4, color: 5 }
    );
    assert_eq!(
        marshal::filled_ellipse(1, 2, 3, 4, 5u32),
        NativeCall::FilledEllipseColor { x: 1, y: 2, rx: 3, ry: 4, color: 5 }
    );
}

#[test]
fn marshal_arcs_and_pies() {
    assert_eq!(
        marshal::arc(1, 2, 3, 0, 90, 5u32),
        NativeCall::ArcColor { x: 1, y: 2, rad: 3, start: 0, end: 90, color: 5 }
    );
    assert_eq!(
        marshal::pie(1, 2, 3, -45, 270, 5u32),
        NativeCall::PieColor { x: 1, y: 2, rad: 3, start: -45, end: 270, color: 5 }
    );
    assert_eq!(
        marshal::filled_pie(1, 2, 3, -45, 270, 5u32),
        NativeCall::FilledPieColor { x: 1, y: 2, rad: 3, start: -45, end: 270, color: 5 }
    );
}

#[test]
fn marshal_triangles() {
    assert_eq!(
        marshal::trigon(1, 2, 3, 4, 5, 6, 7u32),
        NativeCall::TrigonColor { x1: 1, y1: 2, x2: 3, y2: 4, x3: 5, y3: 6, color: 7 }
    );
    assert_eq!(
        marshal::aa_trigon(1, 2, 3, 4, 5, 6, 7u32),
        NativeCall::AatrigonColor { x1: 1, y1: 2, x2: 3, y2: 4, x3: 5, y3: 6, color: 7 }
    );
    assert_eq!(
        marshal::filled_trigon(1, 2, 3, 4, 5, 6, 7u32),
        NativeCall::FilledTrigonColor { x1: 1, y1: 2, x2: 3, y2: 4, x3: 5, y3: 6, color: 7 }
    );
}

#[test]
fn marshal_polygons_count_their_points() {
    let vx: [i16; 3] = [0, 10, 5];
    let vy: [i16; 3] = [0, 0, 10];
    assert_eq!(
        marshal::polygon(&vx, &vy, 0xFF00_00FFu32),
        NativeCall::PolygonColor { vx: &vx, vy: &vy, n: 3, color: 0xFF00_00FF }
    );
    assert_eq!(
        marshal::aa_polygon(&vx, &vy, 0xFF00_00FFu32),
        NativeCall::AapolygonColor { vx: &vx, vy: &vy, n: 3, color: 0xFF00_00FF }
    );
    assert_eq!(
        marshal::filled_polygon(&vx, &vy, 0xFF00_00FFu32),
        NativeCall::FilledPolygonColor { vx: &vx, vy: &vy, n: 3, color: 0xFF00_00FF }
    );
    assert_eq!(
        marshal::polygon(&[], &[], 1u32),
        NativeCall::PolygonColor { vx: &[], vy: &[], n: 0, color: 1 }
    );
}

#[test]
fn marshal_bezier_keeps_the_step_count() {
    let vx: [i16; 4] = [0, 10, 20, 30];
    let vy: [i16; 4] = [5, -5, 5, -5];
    assert_eq!(
        marshal::bezier(&vx, &vy, 16, (0u8, 255u8, 0u8, 128u8)),
        NativeCall::BezierColor { vx: &vx, vy: &vy, n: 4, s: 16, color: 0x8000_FF00 }
    );
    assert_eq!(
        marshal::bezier(&vx, &vy, -1, 2u32),
        NativeCall::BezierColor { vx: &vx, vy: &vy, n: 4, s: -1, color: 2 }
    );
}

#[test]
fn marshal_character_narrows_to_one_byte() {
    assert_eq!(
        marshal::character(1, 2, 'A', 3u32),
        NativeCall::CharacterColor { x: 1, y: 2, c: 0x41, color: 3 }
    );
    assert_eq!(
        marshal::character(1, 2, '\u{20ac}', 3u32),
        NativeCall::CharacterColor { x: 1, y: 2, c: 0xac, color: 3 }
    );
}

#[test]
fn marshal_string_ends_the_text_with_nul() {
    assert_eq!(
        marshal::string(0, 0, "Hi", 0xFF00_00FFu32),
        NativeCall::StringColor { x: 0, y: 0, text: vec![b'H', b'i', 0], color: 0xFF00_00FF }
    );
    assert_eq!(
        marshal::string(-3, 4, "", 1u32),
        NativeCall::StringColor { x: -3, y: 4, text: vec![0], color: 1 }
    );
}

#[test]
fn marshal_takes_a_wide_integer_color() {
    let wide: isize = 0xFF00_00FF;
    assert_eq!(marshal::pixel(1, 2, wide), NativeCall::PixelColor { x: 1, y: 2, color: 0xFF00_00FF });
}

#[test]
fn a_text_ends_in_its_only_nul() {
    assert!(ends_in_only_nul(&[0]));
    assert!(ends_in_only_nul(&[b'H', b'i', 0]));
    assert!(!ends_in_only_nul(&[]));
    assert!(!ends_in_only_nul(&[b'H', b'i']));
    assert!(!ends_in_only_nul(&[b'H', 0, b'i', 0]));
    assert!(!ends_in_only_nul(&[0, 0]));
    assert!(!ends_in_only_nul(&[0, b'H']));
}

#[test]
fn marshalled_calls_are_well_formed() {
    let vx: [i16; 3] = [0, 10, 5];
    let vy: [i16; 3] = [0, 0, 10];
    assert!(marshal::pixel(1, 2, 3u32).is_well_formed());
    assert!(marshal::polygon(&vx, &vy, 3u32).is_well_formed());
    assert!(marshal::aa_polygon(&vx, &vy, 3u32).is_well_formed());
    assert!(marshal::filled_polygon(&vx, &vy, 3u32).is_well_formed());
    assert!(marshal::bezier(&vx, &vy, 4, 3u32).is_well_formed());
    assert!(marshal::string(1, 2, "Hi", 3u32).is_well_formed());
    assert!(marshal::string(1, 2, "", 3u32).is_well_formed());
}

#[test]
fn a_wrong_count_or_text_is_not_well_formed() {
    let vx: [i16; 3] = [0, 10, 5];
    let vy: [i16; 3] = [0, 0, 10];
    let short: [i16; 2] = [0, 0];
    assert!(!NativeCall::PolygonColor { vx: &vx, vy: &vy, n: 2, color: 0 }.is_well_formed());
    assert!(!NativeCall::PolygonColor { vx: &vx, vy: &vy, n: 4, color: 0 }.is_well_formed());
    assert!(!NativeCall::AapolygonColor { vx: &vx, vy: &vy, n: -3, color: 0 }.is_well_formed());
    assert!(!NativeCall::FilledPolygonColor { vx: &vx, vy: &short, n: 3, color: 0 }.is_well_formed());
    assert!(!NativeCall::FilledPolygonColor { vx: &vx, vy: &short, n: 2, color: 0 }.is_well_formed());
    assert!(!NativeCall::BezierColor { vx: &short, vy: &vy, n: 2, s: 4, color: 0 }.is_well_formed());
    assert!(NativeCall::BezierColor { vx: &short, vy: &short, n: 2, s: 4, color: 0 }.is_well_formed());
    assert!(!NativeCall::StringColor { x: 0, y: 0, text: vec![b'H', b'i'], color: 0 }.is_well_formed());
    assert!(!NativeCall::StringColor { x: 0, y: 0, text: vec![], color: 0 }.is_well_formed());
    assert!(!NativeCall::StringColor { x: 0, y: 0, text: vec![0, b'H', 0], color: 0 }.is_well_formed());
    assert!(NativeCall::StringColor { x: 0, y: 0, text: vec![b'H', 0], color: 0 }.is_well_formed());
}
