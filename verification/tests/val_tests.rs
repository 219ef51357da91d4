use css_values::num::Num;
use css_values::val_parser;
use css_values::val_string_parser;
use css_values::Val;

fn num(neg: bool, int_digits: &[u8], frac_digits: &[u8]) -> Num {
    Num { neg, int_digits: int_digits.to_vec(), frac_digits: frac_digits.to_vec() }
}

#[test]
fn test_val_string_parser() {
    assert_eq!(val_parser("  auto"), Some((Val::Auto, 6)));
    assert_eq!(val_parser("auto  "), Some((Val::Auto, 6)));
    assert_eq!(val_parser("  auto  "), Some((Val::Auto, 8)));
    assert_eq!(val_parser("auto"), Some((Val::Auto, 4)));
    assert_eq!(val_parser("1px"), Some((Val::Px(num(false, &[1], &[])), 3)));
    assert_eq!(val_parser("1.0px"), Some((Val::Px(num(false, &[1], &[0])), 5)));
    assert_eq!(val_parser("1.0%"), Some((Val::Percent(num(false, &[1], &[0])), 4)));
    assert_eq!(val_parser("1.0vw"), Some((Val::Vw(num(false, &[1], &[0])), 5)));
    assert_eq!(val_parser("1.32vh"), Some((Val::Vh(num(false, &[1], &[3, 2])), 6)));
    assert_eq!(val_parser("1.0vmin"), Some((Val::VMin(num(false, &[1], &[0])), 7)));
    assert_eq!(val_parser("1.32vmax"), Some((Val::VMax(num(false, &[1], &[3, 2])), 8)));
    assert!(val_parser("1.32").is_none());
}

#[test]
fn test_val_suffix_forms() {
    for s in ["1000", ".1", "1.", "10.", "1.1", "42.42", "0", "0.0", ".0", "0."] {
        let with_px = val_string_parser(&format!("{}px", s));
        assert!(matches!(with_px, Some(Val::Px(_))), "{}px", s);
        let with_pc = val_string_parser(&format!("{}%", s));
        assert!(matches!(with_pc, Some(Val::Percent(_))), "{}%", s);
        let with_vw = val_string_parser(&format!("{}vw", s));
        assert!(matches!(with_vw, Some(Val::Vw(_))), "{}vw", s);
        let with_vh = val_string_parser(&format!("{}vh", s));
        assert!(matches!(with_vh, Some(Val::Vh(_))), "{}vh", s);
        let with_vmin = val_string_parser(&format!("{}vmin", s));
        assert!(matches!(with_vmin, Some(Val::VMin(_))), "{}vmin", s);
        let with_vmax = val_string_parser(&format!("{}vmax", s));
        assert!(matches!(with_vmax, Some(Val::VMax(_))), "{}vmax", s);
        // The bare numeral has no implicit unit: it must fail.
        assert_eq!(val_string_parser(s), None, "{}", s);
    }
}

#[test]
fn test_val_negative_and_leftover() {
    assert_eq!(
        val_string_parser("-3.25px"),
        Some(Val::Px(num(true, &[3], &[2, 5])))
    );
    assert_eq!(val_string_parser("12pt"), None);
    assert_eq!(val_string_parser("px"), None);
    assert_eq!(val_string_parser(""), None);
    assert_eq!(val_string_parser("1px extra"), None);
    assert_eq!(val_string_parser("  1px  "), Some(Val::Px(num(false, &[1], &[]))));
}

#[test]
fn test_val_parse_is_pure() {
    let a = val_string_parser("1.32vh");
    let b = val_string_parser("1.32vh");
    assert_eq!(a, b);
    let c = val_parser(" auto ");
    let d = val_parser(" auto ");
    assert_eq!(c, d);
}
