use css_values::num::scan_num;
use css_values::num::Num;

#[test]
fn test_scan_num_whole_literals() {
    // A whole decimal literal is consumed in full, digits recovered exactly.
    let cases: Vec<(&str, bool, Vec<u8>, Vec<u8>)> = vec![
        ("0", false, vec![0], vec![]),
        ("0.0", false, vec![0], vec![0]),
        (".5", false, vec![], vec![5]),
        ("5.", false, vec![5], vec![]),
        ("-3.25", true, vec![3], vec![2, 5]),
        ("42.42", false, vec![4, 2], vec![4, 2]),
        ("1000", false, vec![1, 0, 0, 0], vec![]),
    ];
    for (s, neg, int_digits, frac_digits) in cases {
        let expected = Num { neg, int_digits, frac_digits };
        assert_eq!(scan_num(s.as_bytes(), 0), Some((expected, s.len())), "{}", s);
    }
}

#[test]
fn test_scan_num_failures() {
    for s in ["", "-", ".", "-.", "..", "abc", "deg", " 5"] {
        assert_eq!(scan_num(s.as_bytes(), 0), None, "{:?}", s);
    }
}

#[test]
fn test_scan_num_longest_prefix() {
    let n = Num { neg: false, int_digits: vec![1, 2], frac_digits: vec![5] };
    assert_eq!(scan_num(b"12.5deg", 0), Some((n, 4)));
    let m = Num { neg: false, int_digits: vec![5], frac_digits: vec![] };
    assert_eq!(scan_num(b"5.x", 0), Some((m, 2)));
    let k = Num { neg: true, int_digits: vec![7], frac_digits: vec![] };
    assert_eq!(scan_num(b"ab-7cd", 2), Some((k, 4)));
}
