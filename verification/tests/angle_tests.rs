use css_values::angle_parser;
use css_values::angle_string_parser;
use css_values::num::Num;
use css_values::Angle;

fn num(neg: bool, int_digits: &[u8], frac_digits: &[u8]) -> Num {
    Num { neg, int_digits: int_digits.to_vec(), frac_digits: frac_digits.to_vec() }
}

fn num_f32(n: &Num) -> f32 {
    let mut s = String::new();
    if n.neg {
        s.push('-');
    }
    for d in &n.int_digits {
        s.push((48 + d) as char);
    }
    s.push('.');
    for d in &n.frac_digits {
        s.push((48 + d) as char);
    }
    s.parse::<f32>().unwrap()
}

#[test]
fn test_angle_parser_units() {
    let n180 = num(false, &[1, 8, 0], &[]);
    assert_eq!(angle_parser("180deg"), Some((Angle::Deg(n180.clone()), 6)));
    assert_eq!(angle_parser("180rad"), Some((Angle::Rad(n180.clone()), 6)));
    assert_eq!(angle_parser("180"), Some((Angle::Rad(n180), 3)));
}

#[test]
fn test_angle_unit_law_cases() {
    // For every literal d: d++"rad" parses the same as bare d, and d++"deg"
    // carries the same literal tagged degrees.
    for d in ["180", ".1", "1.", "1.1", "42.42", "0", "0.0", ".0", "0.", "-45"] {
        let deg = angle_string_parser(&format!("{}deg", d));
        let rad = angle_string_parser(&format!("{}rad", d));
        let bare = angle_string_parser(d);
        assert_eq!(rad, bare, "{}", d);
        // The degree form carries the very same literal, tagged degrees;
        // converting it to float radians is the binding layer's concern.
        match (deg, bare) {
            (Some(Angle::Deg(a)), Some(Angle::Rad(b))) => {
                assert_eq!(a, b, "{}", d);
                assert!(num_f32(&a).to_radians().is_finite(), "{}", d);
            },
            other => panic!("unexpected results for {}: {:?}", d, other),
        }
    }
}

#[test]
fn test_angle_whitespace_and_failures() {
    assert_eq!(
        angle_string_parser("  1.5rad  "),
        Some(Angle::Rad(num(false, &[1], &[5])))
    );
    assert_eq!(angle_string_parser("1rad x"), None);
    assert_eq!(angle_string_parser("deg"), None);
    assert_eq!(angle_string_parser("-"), None);
    assert_eq!(angle_string_parser("."), None);
    assert_eq!(angle_string_parser(""), None);
    // The suffix must follow the literal immediately.
    assert_eq!(angle_string_parser("1 deg"), None);
}

#[test]
fn test_angle_parse_is_pure() {
    let a = angle_string_parser("12.5deg");
    let b = angle_string_parser("12.5deg");
    assert_eq!(a, b);
}
