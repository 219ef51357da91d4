//! The angle grammar.
//!
//! An angle string is a numeric literal followed by the suffix `deg`
//! (degrees), the suffix `rad` (radians), or no suffix at all, which means
//! radians. The suffixed alternatives are tried before the bare literal, so
//! `12.5deg` is never read as the bare literal `12.5` with `deg` left over.
//!
//! The parsed angle keeps the literal and its unit exactly as written;
//! turning a degree literal into machine-float radians is the numeric
//! binding layer's concern, not the grammar's.

use vstd::prelude::*;
use vstd::string::StringSliceAdditionalSpecFns;

use crate::num::spec_scan_num;
use crate::num::literal_shape;
use crate::num::lemma_scan_num_append;
use crate::num::lemma_scan_num_literal;
use crate::num::Num;
use crate::num::NumV;
use crate::text::all_ws_from;
use crate::text::is_ws;
use crate::text::lemma_all_ws_iff;
use crate::text::lemma_seek_while_is;
use crate::text::seek_while;
use crate::text::skip_ws;
use crate::text::tag_at;
use crate::text::has_tag;
use crate::text::ws_p;
use crate::num::scan_num;

verus! {

/// An angle value: a numeric literal tagged with the unit it was written in.
#[derive(Debug, Clone, PartialEq, Eq)]
pub enum Angle {
    Deg(Num),
    Rad(Num),
}

/// The mathematical model of an [`Angle`].
pub enum AngleV {
    Deg(NumV),
    Rad(NumV),
}

impl View for Angle {
    type V = AngleV;

    open spec fn view(&self) -> AngleV {
        match self {
            Angle::Deg(n) => AngleV::Deg(n@),
            Angle::Rad(n) => AngleV::Rad(n@),
        }
    }
}

/// The angle grammar at `pos`: leading whitespace, then a literal, then
/// `deg`, `rad` or nothing, in that order of preference.
pub open spec fn spec_angle(s: Seq<u8>, pos: int) -> Option<(AngleV, int)>
    recommends
        0 <= pos <= s.len(),
{
    let w = seek_while(s, pos, ws_p());
    match spec_scan_num(s, w) {
        None => None,
        Some((n, e)) => {
            if tag_at(s, e, "deg".spec_bytes()) {
                Some((AngleV::Deg(n), e + "deg".spec_bytes().len()))
            } else if tag_at(s, e, "rad".spec_bytes()) {
                Some((AngleV::Rad(n), e + "rad".spec_bytes().len()))
            } else {
                Some((AngleV::Rad(n), e))
            }
        },
    }
}

/// The whole-string angle parse: the grammar must consume everything except
/// trailing whitespace, else the parse fails.
pub open spec fn spec_angle_string(s: Seq<u8>) -> Option<AngleV> {
    match spec_angle(s, 0) {
        None => None,
        Some((a, e)) => {
            if all_ws_from(s, e) {
                Some(a)
            } else {
                None
            }
        },
    }
}

/// How an executable angle parse corresponds to the specified one.
pub open spec fn angle_res_matches(r: Option<(Angle, usize)>, sr: Option<(AngleV, int)>) -> bool {
    match (r, sr) {
        (Some((a, e)), Some((av, se))) => a@ == av && e as int == se,
        (None, None) => true,
        _ => false,
    }
}

/// Parser for an angle value string.
///
/// Supported forms, tried in this order after leading whitespace:
/// * `60deg` / `10.234deg` / `-45deg` — a literal in degrees;
/// * `3.1415rad` — a literal in radians;
/// * `3.1415` — a bare literal, read as radians.
///
/// On success the result carries the position just past the consumed prefix.
pub fn angle_parser(input: &str) -> (r: Option<(Angle, usize)>)
    ensures
        angle_res_matches(r, spec_angle(input.spec_bytes(), 0)),
        r matches Some(p) ==> p.1 <= input.spec_bytes().len(),
{
    let s = input.as_bytes();
    let m = s.len();
    let w = skip_ws(s, 0);
    proof {
        crate::num::lemma_scan_num_bounds(s@, w as int);
    }
    match scan_num(s, w) {
        None => None,
        Some((n, e)) => {
            if has_tag(s, e, "deg") {
                Some((Angle::Deg(n), e + "deg".len()))
            } else if has_tag(s, e, "rad") {
                Some((Angle::Rad(n), e + "rad".len()))
            } else {
                Some((Angle::Rad(n), e))
            }
        },
    }
}

/// Wrapper for [`angle_parser`] that accepts only a whole string: leftover
/// input other than whitespace makes the parse fail.
pub fn angle_string_parser(input: &str) -> (r: Option<Angle>)
    ensures
        match (r, spec_angle_string(input.spec_bytes())) {
            (Some(a), Some(av)) => a@ == av,
            (None, None) => true,
            _ => false,
        },
{
    let s = input.as_bytes();
    match angle_parser(input) {
        None => None,
        Some((a, e)) => {
            proof {
                lemma_all_ws_iff(s@, e as int);
            }
            assert(e <= s.len());
            let e2 = skip_ws(s, e);
            if e2 == s.len() {
                Some(a)
            } else {
                None
            }
        },
    }
}

/// The unit law of the angle grammar: for every decimal literal `d`, the
/// string `d ++ "deg"` parses as that literal tagged degrees, while
/// `d ++ "rad"` and bare `d` parse alike, as the literal tagged radians —
/// a unit-less angle string defaults to radians.
pub proof fn lemma_angle_units(d: Seq<u8>, k: int)
    requires
        literal_shape(d, k),
    ensures
        spec_scan_num(d, 0) is Some,
        spec_scan_num(d, 0) matches Some(p) ==> {
            &&& spec_angle_string(d + "deg".spec_bytes()) == Some(AngleV::Deg(p.0))
            &&& spec_angle_string(d + "rad".spec_bytes()) == Some(AngleV::Rad(p.0))
            &&& spec_angle_string(d) == Some(AngleV::Rad(p.0))
        },
{
    reveal_strlit("deg");
    reveal_strlit("rad");
    assert(vstd::string::is_ascii("deg"));
    assert(vstd::string::is_ascii("rad"));
    vstd::string::is_ascii_spec_bytes("deg");
    vstd::string::is_ascii_spec_bytes("rad");
    let dg = "deg".spec_bytes();
    let rd = "rad".spec_bytes();
    assert(dg.len() == 3 && dg[0] == 100 && dg[1] == 101 && dg[2] == 103);
    assert(rd.len() == 3 && rd[0] == 114 && rd[1] == 97 && rd[2] == 100);
    lemma_scan_num_literal(d, k);
    let n = spec_scan_num(d, 0)->Some_0.0;
    // The first byte of a literal is a sign, a digit or a point: no whitespace.
    assert(!is_ws(d[0]));
    lemma_seek_while_is(d, 0, ws_p(), 0);
    // Bare literal: no suffix fits after the end of the string.
    assert(spec_angle(d, 0) == Some((AngleV::Rad(n), d.len() as int)));
    // With a suffix appended, the scan stops where the bare literal ended.
    lemma_scan_num_append(d, dg);
    lemma_scan_num_append(d, rd);
    let cd = d + dg;
    let cr = d + rd;
    assert(cd[0] == d[0] && cr[0] == d[0]);
    lemma_seek_while_is(cd, 0, ws_p(), 0);
    lemma_seek_while_is(cr, 0, ws_p(), 0);
    assert(cd.subrange(d.len() as int, d.len() as int + 3) =~= dg);
    assert(tag_at(cd, d.len() as int, dg));
    assert(cr.subrange(d.len() as int, d.len() as int + 3) =~= rd);
    assert(!tag_at(cr, d.len() as int, dg)) by {
        if tag_at(cr, d.len() as int, dg) {
            assert(cr.subrange(d.len() as int, d.len() as int + 3)[0] == dg[0]);
        }
    }
    assert(tag_at(cr, d.len() as int, rd));
    assert(spec_angle(cd, 0) == Some((AngleV::Deg(n), cd.len() as int)));
    assert(spec_angle(cr, 0) == Some((AngleV::Rad(n), cr.len() as int)));
}

/// Parsing is pure: any two results that meet the whole-string angle parse
/// contract for one and the same input are equal, so repeated calls of
/// [`angle_string_parser`] on identical input return identical output.
pub proof fn lemma_angle_parse_pure(s: Seq<u8>, r1: Option<AngleV>, r2: Option<AngleV>)
    requires
        r1 == spec_angle_string(s),
        r2 == spec_angle_string(s),
    ensures
        r1 == r2,
{
}

} // verus!
