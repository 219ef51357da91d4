//! The dimension (`Val`) grammar.
//!
//! A dimension string is the keyword `auto`, or a numeric literal followed
//! immediately by one of the unit suffixes `px`, `%`, `vw`, `vh`, `vmin`,
//! `vmax`, tried in that fixed order. Surrounding whitespace is consumed.
//! Unlike the angle grammar there is no unit-less fallback: a bare numeral
//! is a parse failure. That asymmetry is deliberate.

use vstd::prelude::*;
use vstd::string::StringSliceAdditionalSpecFns;

use crate::num::lemma_scan_num_append;
use crate::num::lemma_scan_num_bounds;
use crate::num::lemma_scan_num_literal;
use crate::num::literal_shape;
use crate::num::scan_num;
use crate::num::spec_scan_num;
use crate::num::unsigned_part;
use crate::num::Num;
use crate::num::NumV;
use crate::text::all_ws_from;
use crate::text::has_tag;
use crate::text::is_digit;
use crate::text::is_ws;
use crate::text::lemma_all_ws_iff;
use crate::text::lemma_seek_while_is;
use crate::text::lemma_tag_at_byte;
use crate::text::seek_while;
use crate::text::skip_ws;
use crate::text::tag_at;
use crate::text::ws_p;

verus! {

/// A single dimension value: automatic sizing, or a numeric literal tagged
/// with its unit — pixels, percent, or a viewport-relative unit.
#[derive(Debug, Clone, PartialEq, Eq)]
pub enum Val {
    Auto,
    Px(Num),
    Percent(Num),
    Vw(Num),
    Vh(Num),
    VMin(Num),
    VMax(Num),
}

/// The mathematical model of a [`Val`].
pub enum ValV {
    Auto,
    Px(NumV),
    Percent(NumV),
    Vw(NumV),
    Vh(NumV),
    VMin(NumV),
    VMax(NumV),
}

impl View for Val {
    type V = ValV;

    open spec fn view(&self) -> ValV {
        match self {
            Val::Auto => ValV::Auto,
            Val::Px(n) => ValV::Px(n@),
            Val::Percent(n) => ValV::Percent(n@),
            Val::Vw(n) => ValV::Vw(n@),
            Val::Vh(n) => ValV::Vh(n@),
            Val::VMin(n) => ValV::VMin(n@),
            Val::VMax(n) => ValV::VMax(n@),
        }
    }
}

impl Val {
    /// An equal copy of the value.
    pub fn dup(&self) -> (r: Val)
        ensures
            r@ == self@,
    {
        match self {
            Val::Auto => Val::Auto,
            Val::Px(n) => Val::Px(n.dup()),
            Val::Percent(n) => Val::Percent(n.dup()),
            Val::Vw(n) => Val::Vw(n.dup()),
            Val::Vh(n) => Val::Vh(n.dup()),
            Val::VMin(n) => Val::VMin(n.dup()),
            Val::VMax(n) => Val::VMax(n.dup()),
        }
    }
}

/// The dimension grammar at `pos`: leading whitespace, then `auto` or a
/// literal with one of the six unit suffixes, then trailing whitespace.
pub open spec fn spec_val(s: Seq<u8>, pos: int) -> Option<(ValV, int)>
    recommends
        0 <= pos <= s.len(),
{
    let w = seek_while(s, pos, ws_p());
    if tag_at(s, w, "auto".spec_bytes()) {
        Some((ValV::Auto, seek_while(s, w + "auto".spec_bytes().len(), ws_p())))
    } else {
        match spec_scan_num(s, w) {
            None => None,
            Some((n, e)) => {
                if tag_at(s, e, "px".spec_bytes()) {
                    Some((ValV::Px(n), seek_while(s, e + "px".spec_bytes().len(), ws_p())))
                } else if tag_at(s, e, "%".spec_bytes()) {
                    Some((ValV::Percent(n), seek_while(s, e + "%".spec_bytes().len(), ws_p())))
                } else if tag_at(s, e, "vw".spec_bytes()) {
                    Some((ValV::Vw(n), seek_while(s, e + "vw".spec_bytes().len(), ws_p())))
                } else if tag_at(s, e, "vh".spec_bytes()) {
                    Some((ValV::Vh(n), seek_while(s, e + "vh".spec_bytes().len(), ws_p())))
                } else if tag_at(s, e, "vmin".spec_bytes()) {
                    Some((ValV::VMin(n), seek_while(s, e + "vmin".spec_bytes().len(), ws_p())))
                } else if tag_at(s, e, "vmax".spec_bytes()) {
                    Some((ValV::VMax(n), seek_while(s, e + "vmax".spec_bytes().len(), ws_p())))
                } else {
                    None
                }
            },
        }
    }
}

/// The whole-string dimension parse: the grammar must consume everything
/// except trailing whitespace, else the parse fails.
pub open spec fn spec_val_string(s: Seq<u8>) -> Option<ValV> {
    match spec_val(s, 0) {
        None => None,
        Some((v, e)) => {
            if all_ws_from(s, e) {
                Some(v)
            } else {
                None
            }
        },
    }
}

/// How an executable dimension parse corresponds to the specified one.
pub open spec fn val_res_matches(r: Option<(Val, usize)>, sr: Option<(ValV, int)>) -> bool {
    match (r, sr) {
        (Some((v, e)), Some((vv, se))) => v@ == vv && e as int == se,
        (None, None) => true,
        _ => false,
    }
}

/// The dimension grammar, scanning the bytes of the input from `pos`.
pub fn val_at(s: &[u8], pos: usize) -> (r: Option<(Val, usize)>)
    requires
        pos <= s@.len(),
    ensures
        val_res_matches(r, spec_val(s@, pos as int)),
        r matches Some(p) ==> pos <= p.1 <= s@.len(),
{
    let m = s.len();
    let w = skip_ws(s, pos);
    if has_tag(s, w, "auto") {
        let e = skip_ws(s, w + "auto".len());
        Some((Val::Auto, e))
    } else {
        proof {
            lemma_scan_num_bounds(s@, w as int);
        }
        match scan_num(s, w) {
            None => None,
            Some((n, e)) => {
                if has_tag(s, e, "px") {
                    let e2 = skip_ws(s, e + "px".len());
                    Some((Val::Px(n), e2))
                } else if has_tag(s, e, "%") {
                    let e2 = skip_ws(s, e + "%".len());
                    Some((Val::Percent(n), e2))
                } else if has_tag(s, e, "vw") {
                    let e2 = skip_ws(s, e + "vw".len());
                    Some((Val::Vw(n), e2))
                } else if has_tag(s, e, "vh") {
                    let e2 = skip_ws(s, e + "vh".len());
                    Some((Val::Vh(n), e2))
                } else if has_tag(s, e, "vmin") {
                    let e2 = skip_ws(s, e + "vmin".len());
                    Some((Val::VMin(n), e2))
                } else if has_tag(s, e, "vmax") {
                    let e2 = skip_ws(s, e + "vmax".len());
                    Some((Val::VMax(n), e2))
                } else {
                    None
                }
            },
        }
    }
}

/// Parser for a dimension value string.
///
/// The syntax is CSS-inspired:
///
/// * `auto` — automatic sizing;
/// * `12px` — pixels;
/// * `12%` — percent;
/// * `12vw` / `12vh` / `12vmin` / `12vmax` — viewport-relative units.
///
/// On success the result carries the position just past the consumed prefix,
/// trailing whitespace included.
pub fn val_parser(input: &str) -> (r: Option<(Val, usize)>)
    ensures
        val_res_matches(r, spec_val(input.spec_bytes(), 0)),
        r matches Some(p) ==> p.1 <= input.spec_bytes().len(),
{
    let s = input.as_bytes();
    val_at(s, 0)
}

/// Wrapper for [`val_parser`] that accepts only a whole string: leftover
/// input other than whitespace makes the parse fail.
pub fn val_string_parser(input: &str) -> (r: Option<Val>)
    ensures
        match (r, spec_val_string(input.spec_bytes())) {
            (Some(v), Some(vv)) => v@ == vv,
            (None, None) => true,
            _ => false,
        },
{
    let s = input.as_bytes();
    match val_parser(input) {
        None => None,
        Some((v, e)) => {
            proof {
                lemma_all_ws_iff(s@, e as int);
            }
            let e2 = skip_ws(s, e);
            if e2 == s.len() {
                Some(v)
            } else {
                None
            }
        },
    }
}

/// The unit law of the dimension grammar: for every decimal literal `d`,
/// each suffixed form parses as the correspondingly tagged literal, while
/// the bare literal — with no suffix and no `auto` keyword — always fails.
pub proof fn lemma_val_units(d: Seq<u8>, k: int)
    requires
        literal_shape(d, k),
    ensures
        spec_scan_num(d, 0) is Some,
        spec_scan_num(d, 0) matches Some(p) ==> {
            &&& spec_val_string(d + "px".spec_bytes()) == Some(ValV::Px(p.0))
            &&& spec_val_string(d + "%".spec_bytes()) == Some(ValV::Percent(p.0))
            &&& spec_val_string(d + "vw".spec_bytes()) == Some(ValV::Vw(p.0))
            &&& spec_val_string(d + "vh".spec_bytes()) == Some(ValV::Vh(p.0))
            &&& spec_val_string(d + "vmin".spec_bytes()) == Some(ValV::VMin(p.0))
            &&& spec_val_string(d + "vmax".spec_bytes()) == Some(ValV::VMax(p.0))
        },
        spec_val_string(d) == None::<ValV>,
{
    reveal_strlit("auto");
    reveal_strlit("px");
    reveal_strlit("%");
    reveal_strlit("vw");
    reveal_strlit("vh");
    reveal_strlit("vmin");
    reveal_strlit("vmax");
    assert(vstd::string::is_ascii("auto"));
    assert(vstd::string::is_ascii("px"));
    assert(vstd::string::is_ascii("%"));
    assert(vstd::string::is_ascii("vw"));
    assert(vstd::string::is_ascii("vh"));
    assert(vstd::string::is_ascii("vmin"));
    assert(vstd::string::is_ascii("vmax"));
    vstd::string::is_ascii_spec_bytes("auto");
    vstd::string::is_ascii_spec_bytes("px");
    vstd::string::is_ascii_spec_bytes("%");
    vstd::string::is_ascii_spec_bytes("vw");
    vstd::string::is_ascii_spec_bytes("vh");
    vstd::string::is_ascii_spec_bytes("vmin");
    vstd::string::is_ascii_spec_bytes("vmax");
    let au = "auto".spec_bytes();
    assert(au.len() == 4 && au[0] == 97);
    assert("px".spec_bytes().len() == 2 && "px".spec_bytes()[0] == 112 && "px".spec_bytes()[1]
        == 120);
    assert("%".spec_bytes().len() == 1 && "%".spec_bytes()[0] == 37);
    assert("vw".spec_bytes().len() == 2 && "vw".spec_bytes()[0] == 118 && "vw".spec_bytes()[1]
        == 119);
    assert("vh".spec_bytes().len() == 2 && "vh".spec_bytes()[0] == 118 && "vh".spec_bytes()[1]
        == 104);
    assert("vmin".spec_bytes().len() == 4 && "vmin".spec_bytes()[0] == 118 && "vmin".spec_bytes()[1]
        == 109 && "vmin".spec_bytes()[2] == 105 && "vmin".spec_bytes()[3] == 110);
    assert("vmax".spec_bytes().len() == 4 && "vmax".spec_bytes()[0] == 118 && "vmax".spec_bytes()[1]
        == 109 && "vmax".spec_bytes()[2] == 97 && "vmax".spec_bytes()[3] == 120);
    lemma_scan_num_literal(d, k);
    let n = spec_scan_num(d, 0)->Some_0.0;
    // The first byte of a literal is a sign, a digit or a point: neither
    // whitespace nor the letter that opens `auto`.
    assert(d[0] == 45 || is_digit(d[0]) || d[0] == 46) by {
        if d[0] != 45 {
            assert(unsigned_part(d)[0] == d[0]);
        }
    }
    assert(!is_ws(d[0]));
    lemma_seek_while_is(d, 0, ws_p(), 0);
    // The bare literal: `auto` cannot match and no suffix fits at the end.
    if tag_at(d, 0, au) {
        assert(d.subrange(0, 4)[0] == au[0]);
    }
    assert(spec_val(d, 0) == None::<(ValV, int)>);
    lemma_val_units_suffix(d, "px".spec_bytes(), au);
    lemma_val_units_suffix(d, "%".spec_bytes(), au);
    lemma_val_units_suffix(d, "vw".spec_bytes(), au);
    lemma_val_units_suffix(d, "vh".spec_bytes(), au);
    lemma_val_units_suffix(d, "vmin".spec_bytes(), au);
    lemma_val_units_suffix(d, "vmax".spec_bytes(), au);
    let c1 = d + "px".spec_bytes();
    assert(tag_at(c1, d.len() as int, "px".spec_bytes()));
    let c2 = d + "%".spec_bytes();
    assert(tag_at(c2, d.len() as int, "%".spec_bytes()));
    assert(!tag_at(c2, d.len() as int, "px".spec_bytes()));
    let c3 = d + "vw".spec_bytes();
    assert(tag_at(c3, d.len() as int, "vw".spec_bytes()));
    lemma_tag_at_byte(c3, d.len() as int, "px".spec_bytes(), 0);
    let c4 = d + "vh".spec_bytes();
    assert(tag_at(c4, d.len() as int, "vh".spec_bytes()));
    lemma_tag_at_byte(c4, d.len() as int, "px".spec_bytes(), 0);
    lemma_tag_at_byte(c4, d.len() as int, "vw".spec_bytes(), 1);
    let c5 = d + "vmin".spec_bytes();
    assert(tag_at(c5, d.len() as int, "vmin".spec_bytes()));
    lemma_tag_at_byte(c5, d.len() as int, "px".spec_bytes(), 0);
    lemma_tag_at_byte(c5, d.len() as int, "vw".spec_bytes(), 1);
    lemma_tag_at_byte(c5, d.len() as int, "vh".spec_bytes(), 1);
    let c6 = d + "vmax".spec_bytes();
    assert(tag_at(c6, d.len() as int, "vmax".spec_bytes()));
    lemma_tag_at_byte(c6, d.len() as int, "px".spec_bytes(), 0);
    lemma_tag_at_byte(c6, d.len() as int, "vw".spec_bytes(), 1);
    lemma_tag_at_byte(c6, d.len() as int, "vh".spec_bytes(), 1);
    lemma_tag_at_byte(c6, d.len() as int, "vmin".spec_bytes(), 2);
}

/// Shared part of the unit law: appending a letter or `%` suffix to a whole
/// literal moves neither the leading-whitespace scan nor the literal scan,
/// `auto` still cannot match, and the suffix bytes stand right after the
/// literal.
proof fn lemma_val_units_suffix(d: Seq<u8>, t: Seq<u8>, au: Seq<u8>)
    requires
        spec_scan_num(d, 0) matches Some(p) && p.1 == d.len(),
        d.len() > 0,
        !is_ws(d[0]),
        d[0] != 97,
        t.len() > 0,
        !is_digit(t[0]),
        t[0] != 46,
        au.len() == 4,
        au[0] == 97,
    ensures
        seek_while(d + t, 0, ws_p()) == 0,
        !tag_at(d + t, 0, au),
        spec_scan_num(d + t, 0) == spec_scan_num(d, 0),
        (d + t).subrange(d.len() as int, d.len() as int + t.len()) == t,
        all_ws_from(d + t, d.len() as int + t.len()),
{
    let c = d + t;
    assert(c[0] == d[0]);
    lemma_seek_while_is(c, 0, ws_p(), 0);
    if tag_at(c, 0, au) {
        assert(c.subrange(0, 4)[0] == au[0]);
    }
    lemma_scan_num_append(d, t);
    assert(c.subrange(d.len() as int, d.len() as int + t.len()) =~= t);
}

/// Parsing is pure: any two results that meet the whole-string dimension
/// parse contract for one and the same input are equal, so repeated calls of
/// [`val_string_parser`] on identical input return identical output.
pub proof fn lemma_val_parse_pure(s: Seq<u8>, r1: Option<ValV>, r2: Option<ValV>)
    requires
        r1 == spec_val_string(s),
        r2 == spec_val_string(s),
    ensures
        r1 == r2,
{
}

} // verus!
