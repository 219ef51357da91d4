use css_values::num::Num;
use css_values::rect_parser;
use css_values::rect_string_parser;
use css_values::UiRect;
use css_values::Val;

fn px(d: u8) -> Val {
    Val::Px(Num { neg: false, int_digits: vec![d], frac_digits: vec![] })
}

#[test]
fn test_rect_parser() {
    assert_eq!(
        rect_parser("auto auto auto auto"),
        Some((UiRect::all(Val::Auto), 19))
    );
    assert_eq!(rect_parser("auto auto auto"), Some((UiRect::all(Val::Auto), 14)));
    assert_eq!(rect_parser("auto auto"), Some((UiRect::all(Val::Auto), 9)));
    assert_eq!(rect_parser("auto"), Some((UiRect::all(Val::Auto), 4)));
    assert_eq!(
        rect_parser("1px 2px 3px 4px"),
        Some((UiRect::new(px(4), px(2), px(1), px(3)), 15))
    );
    assert_eq!(
        rect_parser("1px 2px 3px"),
        Some((UiRect::new(px(2), px(2), px(1), px(3)), 11))
    );
    assert_eq!(
        rect_parser("1px 2px"),
        Some((UiRect::new(px(2), px(2), px(1), px(1)), 7))
    );
    assert_eq!(rect_parser("1px"), Some((UiRect::all(px(1)), 3)));
}

#[test]
fn test_rect_expansion_equalities() {
    // One, two, three and four equal values expand to the same rectangle.
    let one = rect_string_parser("1px");
    let two = rect_string_parser("1px 1px");
    let three = rect_string_parser("1px 1px 1px");
    let four = rect_string_parser("1px 1px 1px 1px");
    assert_eq!(one, Some(UiRect::all(px(1))));
    assert_eq!(one, two);
    assert_eq!(two, three);
    assert_eq!(three, four);
}

#[test]
fn test_rect_side_order() {
    // Non-symmetric input checks the side mapping, not just the arity.
    let r = rect_string_parser("1px 2px 3px 4px").unwrap();
    assert_eq!(r.top, px(1));
    assert_eq!(r.right, px(2));
    assert_eq!(r.bottom, px(3));
    assert_eq!(r.left, px(4));
}

#[test]
fn test_rect_failures() {
    // Five dimension values fail cleanly instead of truncating to four.
    assert_eq!(rect_string_parser("1px 2px 3px 4px 5px"), None);
    assert_eq!(rect_string_parser("1px 2px foo"), None);
    assert_eq!(rect_string_parser(""), None);
    assert_eq!(rect_string_parser("1 2 3 4"), None);
}

#[test]
fn test_rect_parse_is_pure() {
    let a = rect_string_parser("1px 2px 3px 4px");
    let b = rect_string_parser("1px 2px 3px 4px");
    assert_eq!(a, b);
}
