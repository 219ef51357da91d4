//! The rectangle shorthand grammar.
//!
//! A rectangle string is one to four whitespace-separated dimension values
//! that together make up the whole string. The values expand to the four
//! sides by the CSS box-shorthand rule:
//!
//! * four values — top | right | bottom | left;
//! * three values — top | left and right | bottom;
//! * two values — top and bottom | left and right;
//! * one value — all four sides.
//!
//! The longest arity wins, and every arity must consume the whole string:
//! an input with five dimension values fails cleanly rather than being
//! truncated to four.

use vstd::prelude::*;
use vstd::string::StringSliceAdditionalSpecFns;

use crate::val::spec_val;
use crate::val::val_at;
use crate::val::Val;
use crate::val::ValV;

verus! {

/// A four-sided rectangle of dimension values.
#[derive(Debug, Clone, PartialEq, Eq)]
pub struct UiRect {
    pub left: Val,
    pub right: Val,
    pub top: Val,
    pub bottom: Val,
}

/// The mathematical model of a [`UiRect`].
pub struct UiRectV {
    pub left: ValV,
    pub right: ValV,
    pub top: ValV,
    pub bottom: ValV,
}

impl View for UiRect {
    type V = UiRectV;

    open spec fn view(&self) -> UiRectV {
        UiRectV {
            left: self.left@,
            right: self.right@,
            top: self.top@,
            bottom: self.bottom@,
        }
    }
}

/// A rectangle with the same value on all four sides.
pub open spec fn spec_rect_all(v: ValV) -> UiRectV {
    UiRectV { left: v, right: v, top: v, bottom: v }
}

impl UiRect {
    /// A rectangle from its four sides, given in the order left, right,
    /// top, bottom.
    pub fn new(left: Val, right: Val, top: Val, bottom: Val) -> (r: UiRect)
        ensures
            r@ == (UiRectV { left: left@, right: right@, top: top@, bottom: bottom@ }),
    {
        UiRect { left, right, top, bottom }
    }

    /// A rectangle with the same value on all four sides.
    pub fn all(v: Val) -> (r: UiRect)
        ensures
            r@ == spec_rect_all(v@),
    {
        let a = v.dup();
        let b = v.dup();
        let c = v.dup();
        UiRect { left: a, right: b, top: c, bottom: v }
    }
}

/// The rectangle grammar: parse dimension values greedily, up to four, and
/// accept only when they exhaust the string. Because every value consumes
/// the whitespace around it, this is exactly the longest-first trial of the
/// four-, three-, two- and one-value forms, each required to consume the
/// whole string.
pub open spec fn spec_rect(s: Seq<u8>) -> Option<UiRectV> {
    match spec_val(s, 0) {
        None => None,
        Some((v1, e1)) => {
            if e1 == s.len() {
                Some(spec_rect_all(v1))
            } else {
                match spec_val(s, e1) {
                    None => None,
                    Some((v2, e2)) => {
                        if e2 == s.len() {
                            Some(UiRectV { left: v2, right: v2, top: v1, bottom: v1 })
                        } else {
                            match spec_val(s, e2) {
                                None => None,
                                Some((v3, e3)) => {
                                    if e3 == s.len() {
                                        Some(UiRectV { left: v2, right: v2, top: v1, bottom: v3 })
                                    } else {
                                        match spec_val(s, e3) {
                                            None => None,
                                            Some((v4, e4)) => {
                                                if e4 == s.len() {
                                                    Some(
                                                        UiRectV {
                                                            left: v4,
                                                            right: v2,
                                                            top: v1,
                                                            bottom: v3,
                                                        },
                                                    )
                                                } else {
                                                    None
                                                }
                                            },
                                        }
                                    }
                                },
                            }
                        }
                    },
                }
            }
        },
    }
}

/// Parser for a rectangle shorthand string of one to four dimension values.
///
/// On success the whole string was consumed; the result carries its length.
pub fn rect_parser(input: &str) -> (r: Option<(UiRect, usize)>)
    ensures
        match (r, spec_rect(input.spec_bytes())) {
            (Some((v, e)), Some(sv)) => v@ == sv && e as int == input.spec_bytes().len(),
            (None, None) => true,
            _ => false,
        },
{
    let s = input.as_bytes();
    let m = s.len();
    match val_at(s, 0) {
        None => None,
        Some((v1, e1)) => {
            if e1 == m {
                Some((UiRect::all(v1), e1))
            } else {
                match val_at(s, e1) {
                    None => None,
                    Some((v2, e2)) => {
                        if e2 == m {
                            let left = v2.dup();
                            let bottom = v1.dup();
                            Some((UiRect::new(left, v2, v1, bottom), e2))
                        } else {
                            match val_at(s, e2) {
                                None => None,
                                Some((v3, e3)) => {
                                    if e3 == m {
                                        let left = v2.dup();
                                        Some((UiRect::new(left, v2, v1, v3), e3))
                                    } else {
                                        match val_at(s, e3) {
                                            None => None,
                                            Some((v4, e4)) => {
                                                if e4 == m {
                                                    Some((UiRect::new(v4, v2, v1, v3), e4))
                                                } else {
                                                    None
                                                }
                                            },
                                        }
                                    }
                                },
                            }
                        }
                    },
                }
            }
        },
    }
}

/// Wrapper for [`rect_parser`] that returns the rectangle alone. The grammar
/// already accepts only whole strings, so nothing further is trimmed.
pub fn rect_string_parser(input: &str) -> (r: Option<UiRect>)
    ensures
        match (r, spec_rect(input.spec_bytes())) {
            (Some(v), Some(sv)) => v@ == sv,
            (None, None) => true,
            _ => false,
        },
{
    match rect_parser(input) {
        None => None,
        Some((v, _)) => Some(v),
    }
}

/// Parsing is pure: any two results that meet the whole-string rectangle
/// parse contract for one and the same input are equal, so repeated calls of
/// [`rect_string_parser`] on identical input return identical output.
pub proof fn lemma_rect_parse_pure(s: Seq<u8>, r1: Option<UiRectV>, r2: Option<UiRectV>)
    requires
        r1 == spec_rect(s),
        r2 == spec_rect(s),
    ensures
        r1 == r2,
{
}

} // verus!
