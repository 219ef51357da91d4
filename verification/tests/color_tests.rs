use css_values::color_parser;
use css_values::color_string_parser;
use css_values::css_color_lookup;
use css_values::from_half_hex;
use css_values::from_hex;
use css_values::num::Num;
use css_values::Color;

fn num_f32(n: &Num) -> f32 {
    let mut s = String::new();
    if n.neg {
        s.push('-');
    }
    for d in &n.int_digits {
        s.push((48 + d) as char);
    }
    s.push('.');
    for d in &n.frac_digits {
        s.push((48 + d) as char);
    }
    s.parse::<f32>().unwrap()
}

fn rgba_f32(c: &Color) -> (f32, f32, f32, f32) {
    match c {
        Color::RgbaU8 { r, g, b, a } => (
            *r as f32 / 255.0,
            *g as f32 / 255.0,
            *b as f32 / 255.0,
            *a as f32 / 255.0,
        ),
        Color::Rgba { r, g, b, a } => (num_f32(r), num_f32(g), num_f32(b), num_f32(a)),
        Color::Hsla { .. } => panic!("expected an RGB-space color"),
    }
}

#[test]
fn test_color_parser() {
    let red = Color::rgb_u8(255, 0, 0);
    assert_eq!(color_parser("  red"), Some((red.clone(), 5)));
    assert_eq!(color_parser("red  "), Some((red.clone(), 5)));
    assert_eq!(color_parser(" red "), Some((red, 5)));
}

#[test]
fn test_color_red_equivalence() {
    // All these denote the same opaque pure red.
    let hex6 = color_string_parser("#FF0000").unwrap();
    let hex8 = color_string_parser("#FF0000FF").unwrap();
    let hex3 = color_string_parser("#F00").unwrap();
    let hex3_lower = color_string_parser("#f00").unwrap();
    let named = color_string_parser("red").unwrap();
    let functional = color_string_parser("rgb(1.0, 0, 0)").unwrap();
    assert_eq!(hex6, Color::rgb_u8(255, 0, 0));
    assert_eq!(hex6, hex8);
    assert_eq!(hex6, hex3);
    assert_eq!(hex6, hex3_lower);
    assert_eq!(hex6, named);
    assert_eq!(rgba_f32(&hex6), (1.0, 0.0, 0.0, 1.0));
    assert_eq!(rgba_f32(&functional), (1.0, 0.0, 0.0, 1.0));
}

#[test]
fn test_color_functional_forms() {
    match color_string_parser("rgba(1.0, 0, 0, 0.5)").unwrap() {
        Color::Rgba { r, g, b, a } => {
            assert_eq!(num_f32(&r), 1.0);
            assert_eq!(num_f32(&g), 0.0);
            assert_eq!(num_f32(&b), 0.0);
            assert_eq!(num_f32(&a), 0.5);
        },
        other => panic!("unexpected {:?}", other),
    }
    match color_string_parser("hsl(0, 1.0, 0.5)").unwrap() {
        Color::Hsla { h, s, l, a } => {
            assert_eq!(num_f32(&h), 0.0);
            assert_eq!(num_f32(&s), 1.0);
            assert_eq!(num_f32(&l), 0.5);
            assert_eq!(num_f32(&a), 1.0);
        },
        other => panic!("unexpected {:?}", other),
    }
    match color_string_parser("hsla( 0 , 1.0 , 0.5 , 1 )").unwrap() {
        Color::Hsla { a, .. } => assert_eq!(num_f32(&a), 1.0),
        other => panic!("unexpected {:?}", other),
    }
    // A function form must open right after its name and close after its
    // channels.
    assert_eq!(color_string_parser("rgb (1, 0, 0)"), None);
    assert_eq!(color_string_parser("rgb(1, 0)"), None);
    assert_eq!(color_string_parser("rgb(1, 0, 0"), None);
}

#[test]
fn test_color_hex_forms() {
    assert_eq!(
        color_string_parser("#8A2BE2"),
        Some(Color::rgb_u8(0x8A, 0x2B, 0xE2))
    );
    assert_eq!(
        color_string_parser("#8a2be2"),
        Some(Color::rgb_u8(0x8A, 0x2B, 0xE2))
    );
    assert_eq!(
        color_string_parser("#11223344"),
        Some(Color::rgba_u8(0x11, 0x22, 0x33, 0x44))
    );
    assert_eq!(color_string_parser("#abc"), Some(Color::rgb_u8(0xAA, 0xBB, 0xCC)));
    // Only three, six or eight digits are valid.
    assert_eq!(color_string_parser("#FFFF"), None);
    assert_eq!(color_string_parser("#FFFFF"), None);
    assert_eq!(color_string_parser("#FFFFFFF"), None);
    assert_eq!(color_string_parser("#"), None);
    assert_eq!(color_string_parser("#GG0000"), None);
}

#[test]
fn test_color_names() {
    assert_eq!(color_string_parser("fuchsia"), Some(Color::rgb_u8(255, 0, 255)));
    assert_eq!(color_string_parser("rebeccapurple"), Some(Color::rgb_u8(0x66, 0x33, 0x99)));
    // Names fold ASCII case before lookup.
    assert_eq!(color_string_parser("Red"), color_string_parser("red"));
    assert_eq!(color_string_parser("notacolor"), None);
    assert_eq!(color_string_parser(""), None);
    assert_eq!(color_string_parser("red blue"), None);
}

#[test]
fn test_css_color_lookup() {
    assert_eq!(css_color_lookup("red"), Some(Color::rgb_u8(255, 0, 0)));
    assert_eq!(css_color_lookup("RED"), Some(Color::rgb_u8(255, 0, 0)));
    assert_eq!(css_color_lookup("aliceblue"), Some(Color::rgb_u8(0xF0, 0xF8, 0xFF)));
    assert_eq!(css_color_lookup("notacolor"), None);
    assert_eq!(css_color_lookup(" red"), None);
}

#[test]
fn test_from_hex() {
    assert_eq!(from_hex("FF"), Some(255));
    assert_eq!(from_hex("ff"), Some(255));
    assert_eq!(from_hex("0A"), Some(10));
    assert_eq!(from_hex("00"), Some(0));
    assert_eq!(from_hex("F"), Some(15));
    assert_eq!(from_hex("GG"), None);
    assert_eq!(from_hex("FFF"), None);
    assert_eq!(from_hex(""), None);
}

#[test]
fn test_from_half_hex() {
    assert_eq!(from_half_hex("F"), Some(255));
    assert_eq!(from_half_hex("f"), Some(255));
    assert_eq!(from_half_hex("7"), Some(119));
    assert_eq!(from_half_hex("0"), Some(0));
    assert_eq!(from_half_hex("G"), None);
    assert_eq!(from_half_hex("FF"), None);
    assert_eq!(from_half_hex(""), None);
}

#[test]
fn test_color_parse_is_pure() {
    let a = color_string_parser("rgba(0.1, 0.2, 0.3, 0.4)");
    let b = color_string_parser("rgba(0.1, 0.2, 0.3, 0.4)");
    assert_eq!(a, b);
}
