//! The numeric literal scanner.
//!
//! A literal is a signed decimal in one of the forms `-?D+`, `-?D+.D*`,
//! `-?.D+` (with `D` a decimal digit): an optional minus sign, then digits
//! with at most one decimal point and at least one digit somewhere. The
//! scanner consumes the longest such prefix.
//!
//! The scanned value is kept exactly: the sign and the digit strings on
//! either side of the point. Its mathematical value is the rational number
//! `num_numer(n) / pow10(num_scale(n))`; nothing in this crate rounds it to
//! a machine float.

use vstd::prelude::*;

use crate::text::digit_p;
use crate::text::is_digit;
use crate::text::lemma_seek_while;
use crate::text::lemma_seek_while_append;
use crate::text::lemma_seek_while_shift;
use crate::text::lemma_seek_while_is;
use crate::text::seek_while;
use crate::text::skip_digits;

verus! {

/// A numeric literal, exactly as written: sign, integer-part digits and
/// fraction-part digits, each digit as its value `0..=9`.
#[derive(Debug, Clone, PartialEq, Eq)]
pub struct Num {
    pub neg: bool,
    pub int_digits: Vec<u8>,
    pub frac_digits: Vec<u8>,
}

/// The mathematical model of a [`Num`].
pub struct NumV {
    pub neg: bool,
    pub int_digits: Seq<u8>,
    pub frac_digits: Seq<u8>,
}

impl View for Num {
    type V = NumV;

    open spec fn view(&self) -> NumV {
        NumV { neg: self.neg, int_digits: self.int_digits@, frac_digits: self.frac_digits@ }
    }
}

/// A well-formed literal: every digit is below ten and there is at least one.
pub open spec fn num_wf(n: NumV) -> bool {
    &&& forall|i: int| 0 <= i < n.int_digits.len() ==> n.int_digits[i] < 10
    &&& forall|i: int| 0 <= i < n.frac_digits.len() ==> n.frac_digits[i] < 10
    &&& n.int_digits.len() + n.frac_digits.len() >= 1
}

/// ASCII digit bytes turned into their values.
pub open spec fn digit_vals(s: Seq<u8>) -> Seq<u8> {
    s.map(|i: int, b: u8| (b - 48) as u8)
}

/// The integer denoted by a big-endian sequence of digit values.
pub open spec fn digits_val(ds: Seq<u8>) -> int
    decreases ds.len(),
{
    if ds.len() == 0 {
        0
    } else {
        digits_val(ds.drop_last()) * 10 + ds.last()
    }
}

pub open spec fn pow10(k: nat) -> int
    decreases k,
{
    if k == 0 {
        1
    } else {
        10 * pow10((k - 1) as nat)
    }
}

/// The numerator of the literal's exact rational value.
pub open spec fn num_numer(n: NumV) -> int {
    let m = digits_val(n.int_digits + n.frac_digits);
    if n.neg {
        -m
    } else {
        m
    }
}

/// The power of ten the numerator is scaled down by.
pub open spec fn num_scale(n: NumV) -> nat {
    n.frac_digits.len()
}

/// Two literals denote the same rational number.
pub open spec fn num_equiv(a: NumV, b: NumV) -> bool {
    num_numer(a) * pow10(num_scale(b)) == num_numer(b) * pow10(num_scale(a))
}

/// Where the scanner stops and what it yields, scanning `s` from `pos`:
/// an optional minus sign, then the longest digit run, then — if a decimal
/// point follows — the point and the longest digit run after it. It fails
/// when no digit was seen at all.
pub open spec fn spec_scan_num(s: Seq<u8>, pos: int) -> Option<(NumV, int)>
    recommends
        0 <= pos <= s.len(),
{
    let neg = pos < s.len() && s[pos] == 45;
    let p1 = if neg {
        pos + 1
    } else {
        pos
    };
    let ie = seek_while(s, p1, digit_p());
    if ie < s.len() && s[ie] == 46 {
        let fe = seek_while(s, ie + 1, digit_p());
        if (ie - p1) + (fe - (ie + 1)) > 0 {
            Some(
                (
                    NumV {
                        neg,
                        int_digits: digit_vals(s.subrange(p1, ie)),
                        frac_digits: digit_vals(s.subrange(ie + 1, fe)),
                    },
                    fe,
                ),
            )
        } else {
            None
        }
    } else if ie > p1 {
        Some(
            (
                NumV {
                    neg,
                    int_digits: digit_vals(s.subrange(p1, ie)),
                    frac_digits: Seq::empty(),
                },
                ie,
            ),
        )
    } else {
        None
    }
}

/// How an executable scan result corresponds to the specified one.
pub open spec fn num_res_matches(r: Option<(Num, usize)>, sr: Option<(NumV, int)>) -> bool {
    match (r, sr) {
        (Some((n, e)), Some((nv, se))) => n@ == nv && e as int == se,
        (None, None) => true,
        _ => false,
    }
}

pub proof fn lemma_scan_num_bounds(s: Seq<u8>, pos: int)
    requires
        0 <= pos <= s.len(),
    ensures
        match spec_scan_num(s, pos) {
            Some((n, e)) => pos <= e <= s.len() && num_wf(n),
            None => true,
        },
{
    let neg = pos < s.len() && s[pos] == 45;
    let p1: int = if neg {
        pos + 1
    } else {
        pos
    };
    lemma_seek_while(s, p1, digit_p());
    let ie = seek_while(s, p1, digit_p());
    if ie < s.len() && s[ie] == 46 {
        lemma_seek_while(s, ie + 1, digit_p());
    }
}

/// Copy the digit bytes of `s[from..to]` out as digit values.
fn collect_digits(s: &[u8], from: usize, to: usize) -> (v: Vec<u8>)
    requires
        from <= to <= s@.len(),
        forall|i: int| from <= i < to ==> is_digit(s@[i]),
    ensures
        v@ == digit_vals(s@.subrange(from as int, to as int)),
{
    let mut v: Vec<u8> = Vec::new();
    let mut i = from;
    while i < to
        invariant
            from <= i <= to <= s@.len(),
            forall|j: int| from <= j < to ==> is_digit(s@[j]),
            v@ == digit_vals(s@.subrange(from as int, i as int)),
        decreases to - i,
    {
        let b = s[i];
        v.push(b - 48);
        proof {
            assert(s@.subrange(from as int, i + 1 as int).drop_last() =~= s@.subrange(
                from as int,
                i as int,
            ));
            assert(v@ =~= digit_vals(s@.subrange(from as int, i + 1 as int)));
        }
        i = i + 1;
    }
    v
}

/// Scan one numeric literal in `s` starting at `pos`; on success return the
/// literal and the position just past it.
pub fn scan_num(s: &[u8], pos: usize) -> (r: Option<(Num, usize)>)
    requires
        pos <= s@.len(),
    ensures
        num_res_matches(r, spec_scan_num(s@, pos as int)),
{
    proof {
        lemma_scan_num_bounds(s@, pos as int);
    }
    let neg = pos < s.len() && s[pos] == 45;
    let p1 = if neg {
        pos + 1
    } else {
        pos
    };
    proof {
        lemma_seek_while(s@, p1 as int, digit_p());
    }
    let ie = skip_digits(s, p1);
    if ie < s.len() && s[ie] == 46 {
        proof {
            lemma_seek_while(s@, ie + 1 as int, digit_p());
        }
        let fe = skip_digits(s, ie + 1);
        if (ie - p1) + (fe - (ie + 1)) > 0 {
            let int_digits = collect_digits(s, p1, ie);
            let frac_digits = collect_digits(s, ie + 1, fe);
            Some((Num { neg, int_digits, frac_digits }, fe))
        } else {
            None
        }
    } else if ie > p1 {
        let int_digits = collect_digits(s, p1, ie);
        Some((Num { neg, int_digits, frac_digits: Vec::new() }, ie))
    } else {
        None
    }
}

/// The byte string `s` is one whole decimal literal, with `k` marking the
/// decimal point within the unsigned part (`k` equal to its length when
/// there is none): an optional minus sign, digits with at most one point,
/// and at least one digit somewhere.
/// The literal with its optional minus sign removed.
pub open spec fn unsigned_part(s: Seq<u8>) -> Seq<u8> {
    if s.len() > 0 && s[0] == 45 {
        s.skip(1)
    } else {
        s
    }
}

pub open spec fn literal_shape(s: Seq<u8>, k: int) -> bool {
    let u = unsigned_part(s);
    &&& 0 <= k <= u.len()
    &&& forall|i: int| 0 <= i < k ==> is_digit(u[i])
    &&& if k == u.len() {
        k >= 1
    } else {
        u[k] == 46 && u.len() >= 2 && (forall|i: int| k < i < u.len() ==> is_digit(u[i]))
    }
}

/// The byte string `s` is one whole decimal literal.
pub open spec fn is_literal(s: Seq<u8>) -> bool {
    exists|k: int| literal_shape(s, k)
}

/// The scanner law for whole literals: a valid decimal literal is consumed
/// in full, with no residual input, and the scan recovers exactly its sign
/// and its digits on either side of the point.
pub proof fn lemma_scan_num_literal(s: Seq<u8>, k: int)
    requires
        literal_shape(s, k),
    ensures
        ({
            let neg = s.len() > 0 && s[0] == 45;
            let u = unsigned_part(s);
            let frac = if k == u.len() {
                Seq::<u8>::empty()
            } else {
                u.skip(k + 1)
            };
            spec_scan_num(s, 0) == Some(
                (
                    NumV {
                        neg,
                        int_digits: digit_vals(u.take(k)),
                        frac_digits: digit_vals(frac),
                    },
                    s.len() as int,
                ),
            )
        }),
{
    let neg = s.len() > 0 && s[0] == 45;
    let u = unsigned_part(s);
    let p1: int = if neg {
        1
    } else {
        0
    };
    assert(forall|i: int| 0 <= i < u.len() ==> u[i] == s[p1 + i]);
    assert forall|i: int| p1 <= i < p1 + k implies digit_p()(s[i]) by {
        assert(u[i - p1] == s[i]);
        assert(is_digit(u[i - p1]));
    }
    lemma_seek_while_is(s, p1, digit_p(), p1 + k);
    let ie = p1 + k;
    if k == u.len() {
        assert(ie == s.len());
        assert(s.subrange(p1, ie) =~= u.take(k));
        assert(digit_vals(Seq::<u8>::empty()) =~= Seq::<u8>::empty());
    } else {
        assert(s[ie] == u[k]);
        assert(s[ie] == 46);
        assert forall|i: int| ie + 1 <= i < s.len() implies digit_p()(s[i]) by {
            assert(u[i - p1] == s[i]);
            assert(is_digit(u[i - p1]));
        }
        lemma_seek_while_is(s, ie + 1, digit_p(), s.len() as int);
        assert(s.subrange(p1, ie) =~= u.take(k));
        assert(s.subrange(ie + 1, s.len() as int) =~= u.skip(k + 1));
    }
}

/// Scanning is unchanged by appending text that starts with neither a digit
/// nor a decimal point, when the scan already consumed the whole string.
pub proof fn lemma_scan_num_append(s: Seq<u8>, t: Seq<u8>)
    requires
        spec_scan_num(s, 0) matches Some(p) && p.1 == s.len(),
        t.len() > 0,
        !is_digit(t[0]),
        t[0] != 46,
    ensures
        spec_scan_num(s + t, 0) == spec_scan_num(s, 0),
{
    let c = s + t;
    assert(s.len() > 0) by {
        if s.len() == 0 {
            lemma_seek_while_is(s, 0, digit_p(), 0);
        }
    }
    assert(c[0] == s[0]);
    let neg = s[0] == 45;
    let p1: int = if neg {
        1
    } else {
        0
    };
    lemma_seek_while(s, p1, digit_p());
    let ie = seek_while(s, p1, digit_p());
    lemma_seek_while_append(s, t, p1, digit_p());
    assert(seek_while(c, p1, digit_p()) == ie);
    if ie < s.len() && s[ie] == 46 {
        assert(c[ie] == s[ie]);
        lemma_seek_while(s, ie + 1, digit_p());
        lemma_seek_while_append(s, t, ie + 1, digit_p());
        let fe = seek_while(s, ie + 1, digit_p());
        assert(seek_while(c, ie + 1, digit_p()) == fe);
        assert(c.subrange(p1, ie) =~= s.subrange(p1, ie));
        assert(c.subrange(ie + 1, fe) =~= s.subrange(ie + 1, fe));
    } else {
        if ie < s.len() {
            assert(c[ie] == s[ie]);
        } else {
            assert(c[ie] == t[0]);
        }
        assert(c.subrange(p1, ie) =~= s.subrange(p1, ie));
    }
}

proof fn lemma_digits_val_leading_zero(ds: Seq<u8>)
    ensures
        digits_val(seq![0u8] + ds) == digits_val(ds),
    decreases ds.len(),
{
    if ds.len() == 0 {
        assert(seq![0u8] + ds =~= seq![0u8]);
        assert(seq![0u8].drop_last() =~= Seq::<u8>::empty());
        assert(seq![0u8].last() == 0);
        assert(digits_val(Seq::<u8>::empty()) == 0);
        assert(digits_val(seq![0u8]) == 0);
    } else {
        assert((seq![0u8] + ds).drop_last() =~= seq![0u8] + ds.drop_last());
        assert((seq![0u8] + ds).last() == ds.last());
        assert((seq![0u8] + ds).len() != 0);
        lemma_digits_val_leading_zero(ds.drop_last());
        assert(digits_val(seq![0u8] + ds) == digits_val(seq![0u8] + ds.drop_last()) * 10
            + ds.last());
        assert(digits_val(ds) == digits_val(ds.drop_last()) * 10 + ds.last());
    }
}

/// A leading zero does not change the number a literal denotes.
pub proof fn lemma_num_equiv_leading_zero(n: NumV)
    ensures
        num_equiv(
            NumV {
                neg: n.neg,
                int_digits: seq![0u8] + n.int_digits,
                frac_digits: n.frac_digits,
            },
            n,
        ),
{
    assert((seq![0u8] + n.int_digits) + n.frac_digits =~= seq![0u8] + (n.int_digits
        + n.frac_digits));
    lemma_digits_val_leading_zero(n.int_digits + n.frac_digits);
}

/// A trailing zero in the fraction does not change the number a literal
/// denotes: `0.50` and `0.5` are the same rational.
pub proof fn lemma_num_equiv_trailing_zero(n: NumV)
    ensures
        num_equiv(
            NumV {
                neg: n.neg,
                int_digits: n.int_digits,
                frac_digits: n.frac_digits.push(0u8),
            },
            n,
        ),
{
    let m = NumV { neg: n.neg, int_digits: n.int_digits, frac_digits: n.frac_digits.push(0u8) };
    let ds = n.int_digits + n.frac_digits;
    assert(m.int_digits + m.frac_digits =~= ds.push(0u8));
    assert(ds.push(0u8).drop_last() =~= ds);
    assert(digits_val(ds.push(0u8)) == digits_val(ds) * 10);
    assert(num_scale(m) == num_scale(n) + 1);
    assert(pow10(num_scale(m)) == 10 * pow10(num_scale(n)));
    let v = digits_val(ds);
    let p = pow10(num_scale(n));
    assert(num_numer(m) == if n.neg {
        -(v * 10)
    } else {
        v * 10
    });
    assert(num_numer(n) == if n.neg {
        -v
    } else {
        v
    });
    assert((v * 10) * p == v * (10 * p)) by (nonlinear_arith);
    assert((-(v * 10)) * p == (-v) * (10 * p)) by (nonlinear_arith);
    assert(num_numer(m) * pow10(num_scale(n)) == num_numer(n) * pow10(num_scale(m)));
}

/// The scanner sees only the suffix it scans: scanning `s` from `pos` is
/// scanning `s.skip(pos)` from its start, with the stop position shifted.
pub proof fn lemma_scan_num_shift(s: Seq<u8>, pos: int)
    requires
        0 <= pos <= s.len(),
    ensures
        ({
            let t = s.skip(pos);
            match (spec_scan_num(s, pos), spec_scan_num(t, 0)) {
                (Some((n, e)), Some((n2, e2))) => n == n2 && e == pos + e2,
                (None, None) => true,
                _ => false,
            }
        }),
{
    let t = s.skip(pos);
    assert(forall|i: int| 0 <= i < t.len() ==> t[i] == s[pos + i]);
    let neg = pos < s.len() && s[pos] == 45;
    let p1: int = if neg {
        pos + 1
    } else {
        pos
    };
    let q1: int = p1 - pos;
    lemma_seek_while_shift(s, pos, q1, digit_p());
    let ie = seek_while(s, p1, digit_p());
    let ie2 = seek_while(t, q1, digit_p());
    lemma_seek_while(s, p1, digit_p());
    assert(ie == pos + ie2);
    if ie < s.len() && s[ie] == 46 {
        lemma_seek_while(s, ie + 1, digit_p());
        lemma_seek_while_shift(s, pos, ie2 + 1, digit_p());
        let fe = seek_while(s, ie + 1, digit_p());
        let fe2 = seek_while(t, ie2 + 1, digit_p());
        assert(fe == pos + fe2);
        assert(s.subrange(p1, ie) =~= t.subrange(q1, ie2));
        assert(s.subrange(ie + 1, fe) =~= t.subrange(ie2 + 1, fe2));
    } else {
        assert(s.subrange(p1, ie) =~= t.subrange(q1, ie2));
    }
}

/// A whole literal standing inside a larger string, followed by a byte that
/// is neither a digit nor a decimal point, scans to exactly that literal.
pub proof fn lemma_scan_num_embedded(s: Seq<u8>, pos: int, d: Seq<u8>, k: int)
    requires
        0 <= pos,
        pos + d.len() < s.len(),
        s.subrange(pos, pos + d.len()) == d,
        literal_shape(d, k),
        !is_digit(s[pos + d.len()]),
        s[pos + d.len()] != 46,
    ensures
        spec_scan_num(d, 0) is Some,
        spec_scan_num(s, pos) == Some(
            (spec_scan_num(d, 0)->Some_0.0, pos + d.len()),
        ),
{
    lemma_scan_num_literal(d, k);
    let rest = s.skip(pos + d.len());
    assert(rest[0] == s[pos + d.len()]);
    lemma_scan_num_append(d, rest);
    assert(s.skip(pos) =~= d + rest);
    lemma_scan_num_shift(s, pos);
}

/// The first byte of a literal is a minus sign, a digit or a decimal point.
pub proof fn lemma_literal_first_byte(d: Seq<u8>, k: int)
    requires
        literal_shape(d, k),
    ensures
        d.len() > 0,
        d[0] == 45 || is_digit(d[0]) || d[0] == 46,
{
    if d[0] != 45 {
        assert(unsigned_part(d)[0] == d[0]);
    }
}

/// The literal `1`: the default for an omitted alpha channel.
pub open spec fn num_one() -> NumV {
    NumV { neg: false, int_digits: seq![1u8], frac_digits: Seq::empty() }
}

impl Num {
    /// An equal copy of the literal.
    pub fn dup(&self) -> (r: Num)
        ensures
            r@ == self@,
    {
        let r = Num {
            neg: self.neg,
            int_digits: self.int_digits.clone(),
            frac_digits: self.frac_digits.clone(),
        };
        proof {
            assert(r.int_digits@ =~= self.int_digits@);
            assert(r.frac_digits@ =~= self.frac_digits@);
        }
        r
    }

    /// The literal `1`.
    pub fn one() -> (n: Num)
        ensures
            n@ == num_one(),
    {
        let n = Num { neg: false, int_digits: vec![1u8], frac_digits: Vec::new() };
        proof {
            assert(n@.int_digits =~= num_one().int_digits);
            assert(n@.frac_digits =~= num_one().frac_digits);
        }
        n
    }
}

} // verus!
