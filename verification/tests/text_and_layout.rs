use leptix_primitives::focus_guards::{cleanup_removes_guards, count_after_cleanup, count_after_install};
use leptix_primitives::layout::{Direction, Orientation, Side};
use leptix_primitives::separator::{
    label_prevents_mouse_down, link_key_clicks, separator_aria_orientation, separator_role,
};
use leptix_primitives::slot::AttrValue;
use leptix_primitives::text::{decimal_text, join_with, str_contains, str_equals};

#[test]
fn defaults_are_left_to_right_and_horizontal() {
    assert_eq!(Direction::default(), Direction::LeftToRight);
    assert_eq!(Orientation::default(), Orientation::Horizontal);
}

#[test]
fn attribute_texts() {
    assert_eq!(Direction::LeftToRight.as_str(), "ltr");
    assert_eq!(Direction::RightToLeft.as_str(), "rtl");
    assert_eq!(Orientation::Horizontal.as_str(), "horizontal");
    assert_eq!(Orientation::Vertical.as_str(), "vertical");
    assert_eq!(Side::Top.css_name(), "top");
    assert_eq!(Side::Right.css_name(), "right");
    assert_eq!(Side::Bottom.css_name(), "bottom");
    assert_eq!(Side::Left.css_name(), "left");
}

#[test]
fn toolbar_separator_crosses_the_toolbar() {
    assert_eq!(Orientation::Horizontal.flipped(), Orientation::Vertical);
    assert_eq!(Orientation::Vertical.flipped(), Orientation::Horizontal);
}

#[test]
fn separator_roles() {
    assert_eq!(separator_role(true), "none");
    assert_eq!(separator_role(false), "separator");
    assert_eq!(separator_aria_orientation(true, Orientation::Vertical), None);
    assert_eq!(separator_aria_orientation(false, Orientation::Vertical), Some("vertical"));
}

#[test]
fn label_and_link() {
    assert!(label_prevents_mouse_down(true, 2));
    assert!(!label_prevents_mouse_down(true, 1));
    assert!(!label_prevents_mouse_down(false, 3));
    assert!(link_key_clicks(" "));
    assert!(!link_key_clicks("Enter"));
}

#[test]
fn decimal_text_matches_formatting() {
    for n in [0usize, 7, 9, 10, 42, 100, 1234567, usize::MAX] {
        assert_eq!(decimal_text(n), format!("{}", n));
    }
}

#[test]
fn string_helpers() {
    assert!(str_equals("abc", "abc"));
    assert!(!str_equals("abc", "abd"));
    assert!(!str_equals("ab", "abc"));
    assert!(str_contains("fade-out 2s", "fade-out"));
    assert!(str_contains("x", ""));
    assert!(!str_contains("fade", "fade-out"));
    assert_eq!(join_with("a", "-", "b"), "a-b");
}

#[test]
fn focus_guard_counting() {
    assert_eq!(count_after_install(None), 1);
    assert_eq!(count_after_install(Some(2)), 3);
    assert!(cleanup_removes_guards(Some(1)));
    assert!(!cleanup_removes_guards(Some(2)));
    assert!(!cleanup_removes_guards(None));
    assert_eq!(count_after_cleanup(Some(2)), Some(1));
    assert_eq!(count_after_cleanup(None), None);
}

#[test]
fn trim_matches_the_standard_library() {
    let spaces = [
        '\u{9}', '\u{a}', '\u{b}', '\u{c}', '\u{d}', ' ', '\u{85}', '\u{a0}', '\u{1680}',
        '\u{2000}', '\u{2005}', '\u{200a}', '\u{2028}', '\u{2029}', '\u{202f}', '\u{205f}',
        '\u{3000}',
    ];
    for c in spaces {
        assert!(c.is_whitespace());
        let s = format!("{c}{c}a{c}b{c}");
        assert_eq!(leptix_primitives::text::trim(&s), s.trim());
        assert_eq!(leptix_primitives::text::trim(&s), format!("a{c}b"));
    }
    for s in ["", "   ", "x", " x", "x ", "\u{200b}x\u{200b}", "\u{1}x"] {
        assert_eq!(leptix_primitives::text::trim(s), s.trim());
    }
}

#[test]
fn toolbar_attributes() {
    assert_eq!(
        leptix_primitives::separator::toolbar_attrs(Orientation::Vertical, Direction::RightToLeft),
        vec![
            ("role".to_string(), AttrValue::Text("toolbar".to_string())),
            ("aria-orientation".to_string(), AttrValue::Text("vertical".to_string())),
            ("dir".to_string(), AttrValue::Text("rtl".to_string())),
        ]
    );
}
