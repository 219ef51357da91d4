//! The color grammar.
//!
//! A color string is, after surrounding whitespace, one of eight forms,
//! tried in this order: the function notations `rgb(r, g, b)`,
//! `rgba(r, g, b, a)`, `hsl(h, s, l)`, `hsla(h, s, l, a)` with
//! comma-separated numeric channels; hex notation `#` followed by exactly
//! eight, six or three hexadecimal digits, longest first since the forms
//! share their prefix; and a named color looked up in the CSS table.
//!
//! Byte-valued channels (hex digits, named colors) are kept as bytes;
//! literal channels (function notation) are kept as exact literals. An
//! omitted alpha channel defaults to fully opaque: the byte 255, or the
//! literal `1`.

use vstd::prelude::*;
use vstd::string::StringSliceAdditionalSpecFns;

use crate::color_names::css_rgb;
use crate::color_names::lookup_folded;
use crate::num::lemma_literal_first_byte;
use crate::num::lemma_scan_num_embedded;
use crate::num::literal_shape;
use crate::num::num_one;
use crate::num::scan_num;
use crate::num::spec_scan_num;
use crate::num::Num;
use crate::num::NumV;
use crate::text::all_ws_from;
use crate::text::fold_lower;
use crate::text::has_tag;
use crate::text::is_hex;
use crate::text::is_digit;
use crate::text::lemma_all_ws_iff;
use crate::text::lemma_seek_while_is;
use crate::text::seek_while;
use crate::text::skip_ws;
use crate::text::tag_at;
use crate::text::to_lower_bytes;
use crate::text::trim_end;
use crate::text::trim_end_ws;
use crate::text::ws_p;

verus! {

/// A color value in one of the shapes a successful parse produces: literal
/// RGB channels, literal HSL channels, or byte RGB channels. Alpha is always
/// present; parses that omit it fill in fully opaque.
#[derive(Debug, Clone, PartialEq, Eq)]
pub enum Color {
    Rgba { r: Num, g: Num, b: Num, a: Num },
    Hsla { h: Num, s: Num, l: Num, a: Num },
    RgbaU8 { r: u8, g: u8, b: u8, a: u8 },
}

/// The mathematical model of a [`Color`].
pub enum ColorV {
    Rgba { r: NumV, g: NumV, b: NumV, a: NumV },
    Hsla { h: NumV, s: NumV, l: NumV, a: NumV },
    RgbaU8 { r: u8, g: u8, b: u8, a: u8 },
}

impl View for Color {
    type V = ColorV;

    open spec fn view(&self) -> ColorV {
        match self {
            Color::Rgba { r, g, b, a } => ColorV::Rgba { r: r@, g: g@, b: b@, a: a@ },
            Color::Hsla { h, s, l, a } => ColorV::Hsla { h: h@, s: s@, l: l@, a: a@ },
            Color::RgbaU8 { r, g, b, a } => ColorV::RgbaU8 { r: *r, g: *g, b: *b, a: *a },
        }
    }
}

impl Color {
    /// An RGB color from literal channels, fully opaque.
    pub fn rgb(r: Num, g: Num, b: Num) -> (c: Color)
        ensures
            c@ == (ColorV::Rgba { r: r@, g: g@, b: b@, a: num_one() }),
    {
        Color::Rgba { r, g, b, a: Num::one() }
    }

    /// An RGBA color from literal channels.
    pub fn rgba(r: Num, g: Num, b: Num, a: Num) -> (c: Color)
        ensures
            c@ == (ColorV::Rgba { r: r@, g: g@, b: b@, a: a@ }),
    {
        Color::Rgba { r, g, b, a }
    }

    /// An HSL color from literal channels, fully opaque.
    pub fn hsl(h: Num, s: Num, l: Num) -> (c: Color)
        ensures
            c@ == (ColorV::Hsla { h: h@, s: s@, l: l@, a: num_one() }),
    {
        Color::Hsla { h, s, l, a: Num::one() }
    }

    /// An HSLA color from literal channels.
    pub fn hsla(h: Num, s: Num, l: Num, a: Num) -> (c: Color)
        ensures
            c@ == (ColorV::Hsla { h: h@, s: s@, l: l@, a: a@ }),
    {
        Color::Hsla { h, s, l, a }
    }

    /// An RGB color from byte channels, fully opaque.
    pub fn rgb_u8(r: u8, g: u8, b: u8) -> (c: Color)
        ensures
            c@ == (ColorV::RgbaU8 { r, g, b, a: 255u8 }),
    {
        Color::RgbaU8 { r, g, b, a: 255 }
    }

    /// An RGBA color from byte channels.
    pub fn rgba_u8(r: u8, g: u8, b: u8, a: u8) -> (c: Color)
        ensures
            c@ == (ColorV::RgbaU8 { r, g, b, a }),
    {
        Color::RgbaU8 { r, g, b, a }
    }
}

/// The value of one hexadecimal digit byte.
pub open spec fn hex_val(b: u8) -> int
    recommends
        is_hex(b),
{
    if 48 <= b <= 57 {
        b - 48
    } else if 65 <= b <= 70 {
        b - 55
    } else {
        b - 87
    }
}

/// The byte written as two hexadecimal digits at `i` and `i + 1`.
pub open spec fn hex_pair(s: Seq<u8>, i: int) -> u8
    recommends
        0 <= i,
        i + 1 < s.len(),
        is_hex(s[i]),
        is_hex(s[i + 1]),
{
    (hex_val(s[i]) * 16 + hex_val(s[i + 1])) as u8
}

/// The byte a single hexadecimal digit stands for when duplicated:
/// `F` reads as `FF`, that is 255.
pub open spec fn hex_dup(b: u8) -> u8
    recommends
        is_hex(b),
{
    (hex_val(b) * 17) as u8
}

/// `count` hexadecimal digits stand at `pos`.
pub open spec fn hex_run_at(s: Seq<u8>, pos: int, count: int) -> bool {
    0 <= pos && pos + count <= s.len() && forall|i: int| pos <= i < pos + count ==> is_hex(s[i])
}

/// What a whole string means to [`from_hex`]: one or two hexadecimal
/// digits, read as one byte.
pub open spec fn spec_from_hex(s: Seq<u8>) -> Option<u8> {
    if s.len() == 2 && is_hex(s[0]) && is_hex(s[1]) {
        Some(hex_pair(s, 0))
    } else if s.len() == 1 && is_hex(s[0]) {
        Some((hex_val(s[0])) as u8)
    } else {
        None
    }
}

/// What a whole string means to [`from_half_hex`]: exactly one hexadecimal
/// digit, duplicated and read as one byte.
pub open spec fn spec_from_half_hex(s: Seq<u8>) -> Option<u8> {
    if s.len() == 1 && is_hex(s[0]) {
        Some(hex_dup(s[0]))
    } else {
        None
    }
}

/// The value of one hexadecimal digit byte.
fn hex_val_b(b: u8) -> (v: u8)
    requires
        is_hex(b),
    ensures
        v as int == hex_val(b),
        v <= 15,
{
    if b <= 57 {
        b - 48
    } else if b <= 70 {
        b - 55
    } else {
        b - 87
    }
}

/// Parses a byte hex string, like `FF`.
pub fn from_hex(input: &str) -> (r: Option<u8>)
    ensures
        r == spec_from_hex(input.spec_bytes()),
{
    let s = input.as_bytes();
    if s.len() == 2 && is_hex_b(s[0]) && is_hex_b(s[1]) {
        Some(hex_val_b(s[0]) * 16 + hex_val_b(s[1]))
    } else if s.len() == 1 && is_hex_b(s[0]) {
        Some(hex_val_b(s[0]))
    } else {
        None
    }
}

/// Parses a hex string character interpreted as a byte, like `F` -> `FF` -> 255.
pub fn from_half_hex(input: &str) -> (r: Option<u8>)
    ensures
        r == spec_from_half_hex(input.spec_bytes()),
{
    let s = input.as_bytes();
    if s.len() == 1 && is_hex_b(s[0]) {
        Some(hex_val_b(s[0]) * 17)
    } else {
        None
    }
}

/// Is the byte a hexadecimal digit?
fn is_hex_b(b: u8) -> (r: bool)
    ensures
        r == is_hex(b),
{
    (48 <= b && b <= 57) || (65 <= b && b <= 70) || (97 <= b && b <= 102)
}

/// Do `count` hexadecimal digits stand at `pos`?
fn hex_run(s: &[u8], pos: usize, count: usize) -> (r: bool)
    requires
        pos <= s@.len(),
    ensures
        r == hex_run_at(s@, pos as int, count as int),
{
    if s.len() - pos < count {
        return false;
    }
    let m = s.len();
    let mut i: usize = 0;
    while i < count
        invariant
            0 <= i <= count,
            m == s@.len(),
            pos + count <= m,
            forall|j: int| pos <= j < pos + i ==> is_hex(s@[j]),
        decreases count - i,
    {
        if !is_hex_b(s[pos + i]) {
            return false;
        }
        i = i + 1;
    }
    true
}

/// The byte written as two hexadecimal digits at `i` and `i + 1`.
fn hex_pair_at(s: &[u8], i: usize) -> (b: u8)
    requires
        i + 1 < s@.len(),
        is_hex(s@[i as int]),
        is_hex(s@[i as int + 1]),
    ensures
        b == hex_pair(s@, i as int),
{
    hex_val_b(s[i]) * 16 + hex_val_b(s[i + 1])
}

/// One comma-separated numeric channel after `pos`: optional whitespace, a
/// comma, optional whitespace, then a literal.
pub open spec fn spec_comma_num(s: Seq<u8>, pos: int) -> Option<(NumV, int)>
    recommends
        0 <= pos <= s.len(),
{
    let w = seek_while(s, pos, ws_p());
    if w < s.len() && s[w] == 44 {
        let w2 = seek_while(s, w + 1, ws_p());
        spec_scan_num(s, w2)
    } else {
        None
    }
}

/// Three comma-separated numeric channels at `pos`.
pub open spec fn spec_args3(s: Seq<u8>, pos: int) -> Option<((NumV, NumV, NumV), int)>
    recommends
        0 <= pos <= s.len(),
{
    let w = seek_while(s, pos, ws_p());
    match spec_scan_num(s, w) {
        None => None,
        Some((n1, e1)) => match spec_comma_num(s, e1) {
            None => None,
            Some((n2, e2)) => match spec_comma_num(s, e2) {
                None => None,
                Some((n3, e3)) => Some(((n1, n2, n3), e3)),
            },
        },
    }
}

/// Four comma-separated numeric channels at `pos`.
pub open spec fn spec_args4(s: Seq<u8>, pos: int) -> Option<((NumV, NumV, NumV, NumV), int)>
    recommends
        0 <= pos <= s.len(),
{
    match spec_args3(s, pos) {
        None => None,
        Some(((n1, n2, n3), e3)) => match spec_comma_num(s, e3) {
            None => None,
            Some((n4, e4)) => Some(((n1, n2, n3, n4), e4)),
        },
    }
}

/// The head of a function form: the name followed immediately by `(`.
pub open spec fn spec_fn_open(s: Seq<u8>, pos: int, name: Seq<u8>) -> Option<int> {
    if tag_at(s, pos, name) && tag_at(s, pos + name.len(), "(".spec_bytes()) {
        Some(pos + name.len() + "(".spec_bytes().len())
    } else {
        None
    }
}

/// The tail of a function form: optional whitespace, then `)`.
pub open spec fn spec_fn_close(s: Seq<u8>, pos: int) -> Option<int>
    recommends
        0 <= pos <= s.len(),
{
    let w = seek_while(s, pos, ws_p());
    if w < s.len() && s[w] == 41 {
        Some(w + 1)
    } else {
        None
    }
}

/// A whole three-channel function form named `name` at `pos`.
pub open spec fn spec_color_fn3(s: Seq<u8>, pos: int, name: Seq<u8>) -> Option<
    ((NumV, NumV, NumV), int),
>
    recommends
        0 <= pos <= s.len(),
{
    match spec_fn_open(s, pos, name) {
        None => None,
        Some(q) => match spec_args3(s, q) {
            None => None,
            Some((args, e)) => match spec_fn_close(s, e) {
                None => None,
                Some(end) => Some((args, end)),
            },
        },
    }
}

/// A whole four-channel function form named `name` at `pos`.
pub open spec fn spec_color_fn4(s: Seq<u8>, pos: int, name: Seq<u8>) -> Option<
    ((NumV, NumV, NumV, NumV), int),
>
    recommends
        0 <= pos <= s.len(),
{
    match spec_fn_open(s, pos, name) {
        None => None,
        Some(q) => match spec_args4(s, q) {
            None => None,
            Some((args, e)) => match spec_fn_close(s, e) {
                None => None,
                Some(end) => Some((args, end)),
            },
        },
    }
}

/// The hex forms at `pos`: `#` then exactly eight, six or three hexadecimal
/// digits, longest first since the forms share their prefix — an eight-digit
/// color must not be read as a six-digit one with digits left over.
pub open spec fn spec_color_hex(s: Seq<u8>, pos: int) -> Option<(ColorV, int)>
    recommends
        0 <= pos <= s.len(),
{
    if tag_at(s, pos, "#".spec_bytes()) {
        let h = pos + "#".spec_bytes().len();
        if hex_run_at(s, h, 8) {
            Some(
                (
                    ColorV::RgbaU8 {
                        r: hex_pair(s, h),
                        g: hex_pair(s, h + 2),
                        b: hex_pair(s, h + 4),
                        a: hex_pair(s, h + 6),
                    },
                    h + 8,
                ),
            )
        } else if hex_run_at(s, h, 6) {
            Some(
                (
                    ColorV::RgbaU8 {
                        r: hex_pair(s, h),
                        g: hex_pair(s, h + 2),
                        b: hex_pair(s, h + 4),
                        a: 255u8,
                    },
                    h + 6,
                ),
            )
        } else if hex_run_at(s, h, 3) {
            Some(
                (
                    ColorV::RgbaU8 {
                        r: hex_dup(s[h]),
                        g: hex_dup(s[h + 1]),
                        b: hex_dup(s[h + 2]),
                        a: 255u8,
                    },
                    h + 3,
                ),
            )
        } else {
            None
        }
    } else {
        None
    }
}

/// The named form: everything up to trailing whitespace, folded to lower
/// case and looked up in the CSS table; a hit consumes the whole string.
pub open spec fn spec_color_name(s: Seq<u8>, pos: int) -> Option<(ColorV, int)>
    recommends
        0 <= pos <= s.len(),
{
    let e = trim_end_ws(s, pos);
    match css_rgb(fold_lower(s.subrange(pos, e))) {
        None => None,
        Some((r, g, b)) => Some((ColorV::RgbaU8 { r, g, b, a: 255u8 }, s.len() as int)),
    }
}

/// The eight alternatives of the color grammar at `pos`, in order.
pub open spec fn spec_color_alt(s: Seq<u8>, pos: int) -> Option<(ColorV, int)>
    recommends
        0 <= pos <= s.len(),
{
    match spec_color_fn3(s, pos, "rgb".spec_bytes()) {
        Some(((r, g, b), e)) => Some((ColorV::Rgba { r, g, b, a: num_one() }, e)),
        None => match spec_color_fn4(s, pos, "rgba".spec_bytes()) {
            Some(((r, g, b, a), e)) => Some((ColorV::Rgba { r, g, b, a }, e)),
            None => match spec_color_fn3(s, pos, "hsl".spec_bytes()) {
                Some(((h, sa, l), e)) => Some((ColorV::Hsla { h, s: sa, l, a: num_one() }, e)),
                None => match spec_color_fn4(s, pos, "hsla".spec_bytes()) {
                    Some(((h, sa, l, a), e)) => Some((ColorV::Hsla { h, s: sa, l, a }, e)),
                    None => match spec_color_hex(s, pos) {
                        Some(ce) => Some(ce),
                        None => spec_color_name(s, pos),
                    },
                },
            },
        },
    }
}

/// The color grammar at `pos`: leading whitespace, one of the eight
/// alternatives, trailing whitespace.
pub open spec fn spec_color(s: Seq<u8>, pos: int) -> Option<(ColorV, int)>
    recommends
        0 <= pos <= s.len(),
{
    let w = seek_while(s, pos, ws_p());
    match spec_color_alt(s, w) {
        None => None,
        Some((c, e)) => Some((c, seek_while(s, e, ws_p()))),
    }
}

/// The whole-string color parse: the grammar must consume everything except
/// trailing whitespace, else the parse fails.
pub open spec fn spec_color_string(s: Seq<u8>) -> Option<ColorV> {
    match spec_color(s, 0) {
        None => None,
        Some((c, e)) => {
            if all_ws_from(s, e) {
                Some(c)
            } else {
                None
            }
        },
    }
}

/// One comma-separated numeric channel.
fn comma_num(s: &[u8], pos: usize) -> (r: Option<(Num, usize)>)
    requires
        pos <= s@.len(),
    ensures
        match (r, spec_comma_num(s@, pos as int)) {
            (Some((n, e)), Some((nv, se))) => n@ == nv && e as int == se && e <= s@.len(),
            (None, None) => true,
            _ => false,
        },
{
    let w = skip_ws(s, pos);
    if w < s.len() && s[w] == 44 {
        let w2 = skip_ws(s, w + 1);
        proof {
            crate::num::lemma_scan_num_bounds(s@, w2 as int);
        }
        scan_num(s, w2)
    } else {
        None
    }
}

/// Three comma-separated numeric channels.
fn args3(s: &[u8], pos: usize) -> (r: Option<((Num, Num, Num), usize)>)
    requires
        pos <= s@.len(),
    ensures
        match (r, spec_args3(s@, pos as int)) {
            (Some((n, e)), Some((nv, se))) => n.0@ == nv.0 && n.1@ == nv.1 && n.2@ == nv.2 && e
                as int == se && e <= s@.len(),
            (None, None) => true,
            _ => false,
        },
{
    let w = skip_ws(s, pos);
    proof {
        crate::num::lemma_scan_num_bounds(s@, w as int);
    }
    match scan_num(s, w) {
        None => None,
        Some((n1, e1)) => match comma_num(s, e1) {
            None => None,
            Some((n2, e2)) => match comma_num(s, e2) {
                None => None,
                Some((n3, e3)) => Some(((n1, n2, n3), e3)),
            },
        },
    }
}

/// Four comma-separated numeric channels.
fn args4(s: &[u8], pos: usize) -> (r: Option<((Num, Num, Num, Num), usize)>)
    requires
        pos <= s@.len(),
    ensures
        match (r, spec_args4(s@, pos as int)) {
            (Some((n, e)), Some((nv, se))) => n.0@ == nv.0 && n.1@ == nv.1 && n.2@ == nv.2 && n.3@
                == nv.3 && e as int == se && e <= s@.len(),
            (None, None) => true,
            _ => false,
        },
{
    match args3(s, pos) {
        None => None,
        Some(((n1, n2, n3), e3)) => match comma_num(s, e3) {
            None => None,
            Some((n4, e4)) => Some(((n1, n2, n3, n4), e4)),
        },
    }
}

/// The head of a function form: the name followed immediately by `(`.
fn fn_open(s: &[u8], pos: usize, name: &str) -> (r: Option<usize>)
    requires
        pos <= s@.len(),
    ensures
        match (r, spec_fn_open(s@, pos as int, name.spec_bytes())) {
            (Some(e), Some(se)) => e as int == se && e <= s@.len(),
            (None, None) => true,
            _ => false,
        },
{
    let m = s.len();
    if has_tag(s, pos, name) {
        let q = pos + name.len();
        if has_tag(s, q, "(") {
            Some(q + "(".len())
        } else {
            None
        }
    } else {
        None
    }
}

/// The tail of a function form: optional whitespace, then `)`.
fn fn_close(s: &[u8], pos: usize) -> (r: Option<usize>)
    requires
        pos <= s@.len(),
    ensures
        match (r, spec_fn_close(s@, pos as int)) {
            (Some(e), Some(se)) => e as int == se && e <= s@.len(),
            (None, None) => true,
            _ => false,
        },
{
    let w = skip_ws(s, pos);
    if w < s.len() && s[w] == 41 {
        Some(w + 1)
    } else {
        None
    }
}

/// A whole three-channel function form named `name`.
fn color_fn3(s: &[u8], pos: usize, name: &str) -> (r: Option<((Num, Num, Num), usize)>)
    requires
        pos <= s@.len(),
    ensures
        match (r, spec_color_fn3(s@, pos as int, name.spec_bytes())) {
            (Some((n, e)), Some((nv, se))) => n.0@ == nv.0 && n.1@ == nv.1 && n.2@ == nv.2 && e
                as int == se && e <= s@.len(),
            (None, None) => true,
            _ => false,
        },
{
    match fn_open(s, pos, name) {
        None => None,
        Some(q) => match args3(s, q) {
            None => None,
            Some((ns, e)) => match fn_close(s, e) {
                None => None,
                Some(end) => Some((ns, end)),
            },
        },
    }
}

/// A whole four-channel function form named `name`.
fn color_fn4(s: &[u8], pos: usize, name: &str) -> (r: Option<((Num, Num, Num, Num), usize)>)
    requires
        pos <= s@.len(),
    ensures
        match (r, spec_color_fn4(s@, pos as int, name.spec_bytes())) {
            (Some((n, e)), Some((nv, se))) => n.0@ == nv.0 && n.1@ == nv.1 && n.2@ == nv.2 && n.3@
                == nv.3 && e as int == se && e <= s@.len(),
            (None, None) => true,
            _ => false,
        },
{
    match fn_open(s, pos, name) {
        None => None,
        Some(q) => match args4(s, q) {
            None => None,
            Some((ns, e)) => match fn_close(s, e) {
                None => None,
                Some(end) => Some((ns, end)),
            },
        },
    }
}

/// How an executable color parse corresponds to the specified one.
pub open spec fn color_res_matches(r: Option<(Color, usize)>, sr: Option<(ColorV, int)>) -> bool {
    match (r, sr) {
        (Some((c, e)), Some((cv, se))) => c@ == cv && e as int == se,
        (None, None) => true,
        _ => false,
    }
}

/// The hex forms: `#` then exactly eight, six or three hexadecimal digits.
fn color_hex(s: &[u8], pos: usize) -> (r: Option<(Color, usize)>)
    requires
        pos <= s@.len(),
    ensures
        color_res_matches(r, spec_color_hex(s@, pos as int)),
        r matches Some(p) ==> p.1 <= s@.len(),
{
    let m = s.len();
    if has_tag(s, pos, "#") {
        let h = pos + "#".len();
        if hex_run(s, h, 8) {
            let c = Color::rgba_u8(
                hex_pair_at(s, h),
                hex_pair_at(s, h + 2),
                hex_pair_at(s, h + 4),
                hex_pair_at(s, h + 6),
            );
            Some((c, h + 8))
        } else if hex_run(s, h, 6) {
            let c = Color::rgb_u8(hex_pair_at(s, h), hex_pair_at(s, h + 2), hex_pair_at(s, h + 4));
            Some((c, h + 6))
        } else if hex_run(s, h, 3) {
            let c = Color::rgb_u8(
                hex_val_b(s[h]) * 17,
                hex_val_b(s[h + 1]) * 17,
                hex_val_b(s[h + 2]) * 17,
            );
            Some((c, h + 3))
        } else {
            None
        }
    } else {
        None
    }
}

/// The named form: fold the rest of the input to lower case, trim trailing
/// whitespace, and look it up in the CSS table.
fn color_name(s: &[u8], pos: usize) -> (r: Option<(Color, usize)>)
    requires
        pos <= s@.len(),
    ensures
        color_res_matches(r, spec_color_name(s@, pos as int)),
        r matches Some(p) ==> p.1 <= s@.len(),
{
    let e = trim_end(s, pos);
    let folded = to_lower_bytes(s, pos, e);
    match lookup_folded(folded.as_slice()) {
        None => None,
        Some((r, g, b)) => Some((Color::rgb_u8(r, g, b), s.len())),
    }
}

/// Parser for a color value string.
///
/// The syntax is CSS-inspired:
///
/// * `red`, `blue` — CSS color names, matched without regard to ASCII case;
/// * `#f0f`, `#ff00ff` — hex color, three or six digits;
/// * `#ff00ff00` — hex color with alpha, eight digits;
/// * `rgb(1.0, 0.0, 0.0)` / `rgba(1.0, 0.0, 0.0, 1.0)` — literal RGB
///   channels, with or without alpha;
/// * `hsl(0.0, 1.0, 0.5)` / `hsla(0.0, 1.0, 0.5, 1.0)` — literal HSL
///   channels, with or without alpha.
///
/// On success the result carries the position just past the consumed prefix,
/// trailing whitespace included.
pub fn color_parser(input: &str) -> (r: Option<(Color, usize)>)
    ensures
        color_res_matches(r, spec_color(input.spec_bytes(), 0)),
        r matches Some(p) ==> p.1 <= input.spec_bytes().len(),
{
    let s = input.as_bytes();
    let w = skip_ws(s, 0);
    let alt = color_alt(s, w);
    match alt {
        None => None,
        Some((c, e)) => {
            let e2 = skip_ws(s, e);
            Some((c, e2))
        },
    }
}

/// The eight alternatives of the color grammar, in order.
fn color_alt(s: &[u8], pos: usize) -> (r: Option<(Color, usize)>)
    requires
        pos <= s@.len(),
    ensures
        color_res_matches(r, spec_color_alt(s@, pos as int)),
        r matches Some(p) ==> p.1 <= s@.len(),
{
    match color_fn3(s, pos, "rgb") {
        Some(((cr, cg, cb), e)) => Some((Color::rgb(cr, cg, cb), e)),
        None => match color_fn4(s, pos, "rgba") {
            Some(((cr, cg, cb, ca), e)) => Some((Color::rgba(cr, cg, cb, ca), e)),
            None => match color_fn3(s, pos, "hsl") {
                Some(((ch, cs, cl), e)) => Some((Color::hsl(ch, cs, cl), e)),
                None => match color_fn4(s, pos, "hsla") {
                    Some(((ch, cs, cl, ca), e)) => Some((Color::hsla(ch, cs, cl, ca), e)),
                    None => match color_hex(s, pos) {
                        Some(ce) => Some(ce),
                        None => color_name(s, pos),
                    },
                },
            },
        },
    }
}

/// Wrapper for [`color_parser`] that accepts only a whole string: leftover
/// input other than whitespace makes the parse fail.
pub fn color_string_parser(input: &str) -> (r: Option<Color>)
    ensures
        match (r, spec_color_string(input.spec_bytes())) {
            (Some(c), Some(cv)) => c@ == cv,
            (None, None) => true,
            _ => false,
        },
{
    let s = input.as_bytes();
    match color_parser(input) {
        None => None,
        Some((c, e)) => {
            proof {
                lemma_all_ws_iff(s@, e as int);
            }
            let e2 = skip_ws(s, e);
            if e2 == s.len() {
                Some(c)
            } else {
                None
            }
        },
    }
}

/// Look a color name up as the color grammar would: folded to ASCII lower
/// case, whole string, whitespace not tolerated.
pub fn css_color_lookup(name: &str) -> (r: Option<Color>)
    ensures
        match (r, css_rgb(fold_lower(name.spec_bytes()))) {
            (Some(c), Some(t)) => c@ == (ColorV::RgbaU8 { r: t.0, g: t.1, b: t.2, a: 255u8 }),
            (None, None) => true,
            _ => false,
        },
{
    let s = name.as_bytes();
    let folded = to_lower_bytes(s, 0, s.len());
    proof {
        assert(s@.subrange(0, s@.len() as int) =~= s@);
    }
    match lookup_folded(folded.as_slice()) {
        None => None,
        Some((r, g, b)) => Some(Color::rgb_u8(r, g, b)),
    }
}

/// On an input that opens with `#`, the four function forms cannot match,
/// so the color grammar reduces to the hex forms followed by the name form.
proof fn lemma_color_alt_on_hash(s: Seq<u8>)
    requires
        s.len() >= 1,
        s[0] == 35,
    ensures
        spec_color_fn3(s, 0, "rgb".spec_bytes()) is None,
        spec_color_fn4(s, 0, "rgba".spec_bytes()) is None,
        spec_color_fn3(s, 0, "hsl".spec_bytes()) is None,
        spec_color_fn4(s, 0, "hsla".spec_bytes()) is None,
        tag_at(s, 0, "#".spec_bytes()),
        seek_while(s, 0, ws_p()) == 0,
        "#".spec_bytes().len() == 1,
{
    reveal_strlit("rgb");
    reveal_strlit("rgba");
    reveal_strlit("hsl");
    reveal_strlit("hsla");
    reveal_strlit("#");
    assert(vstd::string::is_ascii("rgb"));
    assert(vstd::string::is_ascii("rgba"));
    assert(vstd::string::is_ascii("hsl"));
    assert(vstd::string::is_ascii("hsla"));
    assert(vstd::string::is_ascii("#"));
    vstd::string::is_ascii_spec_bytes("rgb");
    vstd::string::is_ascii_spec_bytes("rgba");
    vstd::string::is_ascii_spec_bytes("hsl");
    vstd::string::is_ascii_spec_bytes("hsla");
    vstd::string::is_ascii_spec_bytes("#");
    assert(!tag_at(s, 0, "rgb".spec_bytes())) by {
        if "rgb".spec_bytes().len() <= s.len() {
            crate::text::lemma_tag_at_byte(s, 0, "rgb".spec_bytes(), 0);
        }
    }
    assert(!tag_at(s, 0, "rgba".spec_bytes())) by {
        if "rgba".spec_bytes().len() <= s.len() {
            crate::text::lemma_tag_at_byte(s, 0, "rgba".spec_bytes(), 0);
        }
    }
    assert(!tag_at(s, 0, "hsl".spec_bytes())) by {
        if "hsl".spec_bytes().len() <= s.len() {
            crate::text::lemma_tag_at_byte(s, 0, "hsl".spec_bytes(), 0);
        }
    }
    assert(!tag_at(s, 0, "hsla".spec_bytes())) by {
        if "hsla".spec_bytes().len() <= s.len() {
            crate::text::lemma_tag_at_byte(s, 0, "hsla".spec_bytes(), 0);
        }
    }
    assert(s.subrange(0, 1) =~= "#".spec_bytes());
    assert(!crate::text::is_ws(35u8));
    crate::text::lemma_seek_while_is(s, 0, ws_p(), 0);
}

/// A whole-string hex form: when the hex forms match a `#`-opening string
/// exactly to its end, the color grammar as a whole returns their color.
proof fn lemma_color_string_via_hex(s: Seq<u8>, c: ColorV)
    requires
        s.len() >= 1,
        s[0] == 35,
        spec_color_hex(s, 0) == Some((c, s.len() as int)),
    ensures
        spec_color_string(s) == Some(c),
{
    lemma_color_alt_on_hash(s);
}

/// The duplication law of three-digit hex colors: for all hexadecimal
/// digits `a`, `b`, `c`, the color `#abc` parses, each digit duplicated to
/// a byte and alpha fully opaque, and equals the six-digit color `#aabbcc`.
#[verifier::rlimit(100)]
pub proof fn lemma_color_hex3_duplication(a: u8, b: u8, c: u8)
    requires
        is_hex(a),
        is_hex(b),
        is_hex(c),
    ensures
        spec_color_string(seq![35u8, a, b, c]) == Some(
            ColorV::RgbaU8 { r: hex_dup(a), g: hex_dup(b), b: hex_dup(c), a: 255u8 },
        ),
        spec_color_string(seq![35u8, a, a, b, b, c, c]) == spec_color_string(
            seq![35u8, a, b, c],
        ),
{
    let short = seq![35u8, a, b, c];
    let long = seq![35u8, a, a, b, b, c, c];
    lemma_color_alt_on_hash(short);
    let dup = ColorV::RgbaU8 { r: hex_dup(a), g: hex_dup(b), b: hex_dup(c), a: 255u8 };
    assert(spec_color_hex(short, 0) == Some((dup, 4int))) by {
        lemma_color_alt_on_hash(short);
        assert(!hex_run_at(short, 1, 8));
        assert(!hex_run_at(short, 1, 6));
        assert(hex_run_at(short, 1, 3));
    }
    assert(spec_color_hex(long, 0) == Some((dup, 7int))) by {
        lemma_color_alt_on_hash(long);
        assert(!hex_run_at(long, 1, 8));
        assert(hex_run_at(long, 1, 6));
        assert(hex_pair(long, 1) == hex_dup(a));
        assert(hex_pair(long, 3) == hex_dup(b));
        assert(hex_pair(long, 5) == hex_dup(c));
    }
    lemma_color_string_via_hex(short, dup);
    lemma_color_string_via_hex(long, dup);
}

/// The alpha-default law of hex colors: for all hexadecimal digits, the
/// six-digit color parses with alpha fully opaque, and equals the
/// eight-digit color with an explicit `FF` alpha appended.
#[verifier::rlimit(100)]
pub proof fn lemma_color_hex_alpha_default(d1: u8, d2: u8, d3: u8, d4: u8, d5: u8, d6: u8)
    requires
        is_hex(d1),
        is_hex(d2),
        is_hex(d3),
        is_hex(d4),
        is_hex(d5),
        is_hex(d6),
    ensures
        ({
            let six = seq![35u8, d1, d2, d3, d4, d5, d6];
            let eight = seq![35u8, d1, d2, d3, d4, d5, d6, 70u8, 70u8];
            &&& spec_color_string(six) == Some(
                ColorV::RgbaU8 {
                    r: hex_pair(six, 1),
                    g: hex_pair(six, 3),
                    b: hex_pair(six, 5),
                    a: 255u8,
                },
            )
            &&& spec_color_string(eight) == spec_color_string(six)
        }),
{
    let six = seq![35u8, d1, d2, d3, d4, d5, d6];
    let eight = seq![35u8, d1, d2, d3, d4, d5, d6, 70u8, 70u8];
    let c = ColorV::RgbaU8 { r: hex_pair(six, 1), g: hex_pair(six, 3), b: hex_pair(six, 5), a: 255u8 };
    assert(spec_color_hex(six, 0) == Some((c, 7int))) by {
        lemma_color_alt_on_hash(six);
        assert(!hex_run_at(six, 1, 8));
        assert(hex_run_at(six, 1, 6));
    }
    assert(spec_color_hex(eight, 0) == Some((c, 9int))) by {
        lemma_color_alt_on_hash(eight);
        assert(hex_run_at(eight, 1, 8));
        assert(hex_pair(eight, 1) == hex_pair(six, 1));
        assert(hex_pair(eight, 3) == hex_pair(six, 3));
        assert(hex_pair(eight, 5) == hex_pair(six, 5));
        assert(hex_pair(eight, 7) == 255u8);
    }
    lemma_color_string_via_hex(six, c);
    lemma_color_string_via_hex(eight, c);
}

/// One `", "`-separated channel standing at `pos`: a comma, one space, then
/// a whole literal ended by the byte after it.
proof fn lemma_comma_num_at(s: Seq<u8>, pos: int, d: Seq<u8>, k: int)
    requires
        0 <= pos,
        pos + 2 + d.len() < s.len(),
        s[pos] == 44,
        s[pos + 1] == 32,
        s.subrange(pos + 2, pos + 2 + d.len()) == d,
        literal_shape(d, k),
        !is_digit(s[pos + 2 + d.len()]),
        s[pos + 2 + d.len()] != 46,
    ensures
        spec_scan_num(d, 0) is Some,
        spec_comma_num(s, pos) == Some(
            (spec_scan_num(d, 0)->Some_0.0, pos + 2 + d.len()),
        ),
{
    lemma_literal_first_byte(d, k);
    lemma_seek_while_is(s, pos, ws_p(), pos);
    assert(s[pos + 2] == d[0]) by {
        assert(s.subrange(pos + 2, pos + 2 + d.len())[0] == d[0]);
    }
    lemma_seek_while_is(s, pos + 1, ws_p(), pos + 2);
    lemma_scan_num_embedded(s, pos + 2, d, k);
}

/// The first channel of a function form: a whole literal standing right at
/// `pos`, ended by the byte after it.
proof fn lemma_first_num_at(s: Seq<u8>, pos: int, d: Seq<u8>, k: int)
    requires
        0 <= pos,
        pos + d.len() < s.len(),
        s.subrange(pos, pos + d.len()) == d,
        literal_shape(d, k),
        !is_digit(s[pos + d.len()]),
        s[pos + d.len()] != 46,
    ensures
        spec_scan_num(d, 0) is Some,
        seek_while(s, pos, ws_p()) == pos,
        spec_scan_num(s, pos) == Some(
            (spec_scan_num(d, 0)->Some_0.0, pos + d.len()),
        ),
{
    lemma_literal_first_byte(d, k);
    assert(s[pos] == d[0]) by {
        assert(s.subrange(pos, pos + d.len())[0] == d[0]);
    }
    lemma_seek_while_is(s, pos, ws_p(), pos);
    lemma_scan_num_embedded(s, pos, d, k);
}

/// The three-channel function form built from a name and three whole
/// literals parses to exactly the three scanned literals and consumes the
/// whole string.
#[verifier::rlimit(100)]
proof fn lemma_color_fn3_literals(
    nm: Seq<u8>,
    r: Seq<u8>,
    kr: int,
    g: Seq<u8>,
    kg: int,
    b: Seq<u8>,
    kb: int,
)
    requires
        literal_shape(r, kr),
        literal_shape(g, kg),
        literal_shape(b, kb),
    ensures
        ({
            let s = nm + "(".spec_bytes() + r + ", ".spec_bytes() + g + ", ".spec_bytes() + b
                + ")".spec_bytes();
            match (spec_scan_num(r, 0), spec_scan_num(g, 0), spec_scan_num(b, 0)) {
                (Some(pr), Some(pg), Some(pb)) => spec_color_fn3(s, 0, nm) == Some(
                    ((pr.0, pg.0, pb.0), s.len() as int),
                ),
                _ => false,
            }
        }),
{
    reveal_strlit("(");
    reveal_strlit(", ");
    reveal_strlit(")");
    assert(vstd::string::is_ascii("("));
    assert(vstd::string::is_ascii(", "));
    assert(vstd::string::is_ascii(")"));
    vstd::string::is_ascii_spec_bytes("(");
    vstd::string::is_ascii_spec_bytes(", ");
    vstd::string::is_ascii_spec_bytes(")");
    let op = "(".spec_bytes();
    let cm = ", ".spec_bytes();
    let cl = ")".spec_bytes();
    assert(op.len() == 1 && op[0] == 40);
    assert(cm.len() == 2 && cm[0] == 44 && cm[1] == 32);
    assert(cl.len() == 1 && cl[0] == 41);
    let s = nm + op + r + cm + g + cm + b + cl;
    let ln = nm.len() as int;
    let q = ln + 1;
    let e1 = q + r.len();
    let e2 = e1 + 2 + g.len();
    let e3 = e2 + 2 + b.len();
    assert(s.len() == e3 + 1);
    assert(s.subrange(0, ln) =~= nm);
    assert(s.subrange(ln, q) =~= op);
    assert(s[ln] == 40) by {
        assert(s.subrange(ln, q)[0] == op[0]);
    }
    assert(s.subrange(q, e1) =~= r);
    assert(s.subrange(e1, e1 + 2) =~= cm);
    assert(s[e1] == 44 && s[e1 + 1] == 32) by {
        assert(s.subrange(e1, e1 + 2)[0] == cm[0]);
        assert(s.subrange(e1, e1 + 2)[1] == cm[1]);
    }
    assert(s.subrange(e1 + 2, e2) =~= g);
    assert(s.subrange(e2, e2 + 2) =~= cm);
    assert(s[e2] == 44 && s[e2 + 1] == 32) by {
        assert(s.subrange(e2, e2 + 2)[0] == cm[0]);
        assert(s.subrange(e2, e2 + 2)[1] == cm[1]);
    }
    assert(s.subrange(e2 + 2, e3) =~= b);
    assert(s[e3] == 41) by {
        assert(s.subrange(e3, e3 + 1) =~= cl);
        assert(s.subrange(e3, e3 + 1)[0] == cl[0]);
    }
    // the head: the name, then the opening parenthesis
    assert(tag_at(s, 0, nm));
    assert(tag_at(s, ln, op));
    assert(spec_fn_open(s, 0, nm) == Some(q));
    // the three channels
    lemma_first_num_at(s, q, r, kr);
    lemma_comma_num_at(s, e1, g, kg);
    lemma_comma_num_at(s, e2, b, kb);
    // the closing parenthesis ends the string
    lemma_seek_while_is(s, e3, ws_p(), e3);
    assert(spec_fn_close(s, e3) == Some(e3 + 1));
}

/// The four-channel function form built from a name and four whole
/// literals parses to exactly the four scanned literals and consumes the
/// whole string.
#[verifier::rlimit(100)]
proof fn lemma_color_fn4_literals(
    nm: Seq<u8>,
    r: Seq<u8>,
    kr: int,
    g: Seq<u8>,
    kg: int,
    b: Seq<u8>,
    kb: int,
    a: Seq<u8>,
    ka: int,
)
    requires
        literal_shape(r, kr),
        literal_shape(g, kg),
        literal_shape(b, kb),
        literal_shape(a, ka),
    ensures
        ({
            let s = nm + "(".spec_bytes() + r + ", ".spec_bytes() + g + ", ".spec_bytes() + b
                + ", ".spec_bytes() + a + ")".spec_bytes();
            match (
                spec_scan_num(r, 0),
                spec_scan_num(g, 0),
                spec_scan_num(b, 0),
                spec_scan_num(a, 0),
            ) {
                (Some(pr), Some(pg), Some(pb), Some(pa)) => spec_color_fn4(s, 0, nm) == Some(
                    ((pr.0, pg.0, pb.0, pa.0), s.len() as int),
                ),
                _ => false,
            }
        }),
{
    reveal_strlit("(");
    reveal_strlit(", ");
    reveal_strlit(")");
    assert(vstd::string::is_ascii("("));
    assert(vstd::string::is_ascii(", "));
    assert(vstd::string::is_ascii(")"));
    vstd::string::is_ascii_spec_bytes("(");
    vstd::string::is_ascii_spec_bytes(", ");
    vstd::string::is_ascii_spec_bytes(")");
    let op = "(".spec_bytes();
    let cm = ", ".spec_bytes();
    let cl = ")".spec_bytes();
    assert(op.len() == 1 && op[0] == 40);
    assert(cm.len() == 2 && cm[0] == 44 && cm[1] == 32);
    assert(cl.len() == 1 && cl[0] == 41);
    let s = nm + op + r + cm + g + cm + b + cm + a + cl;
    let ln = nm.len() as int;
    let q = ln + 1;
    let e1 = q + r.len();
    let e2 = e1 + 2 + g.len();
    let e3 = e2 + 2 + b.len();
    let e4 = e3 + 2 + a.len();
    assert(s.len() == e4 + 1);
    assert(s.subrange(0, ln) =~= nm);
    assert(s.subrange(ln, q) =~= op);
    assert(s[ln] == 40) by {
        assert(s.subrange(ln, q)[0] == op[0]);
    }
    assert(s.subrange(q, e1) =~= r);
    assert(s.subrange(e1, e1 + 2) =~= cm);
    assert(s[e1] == 44 && s[e1 + 1] == 32) by {
        assert(s.subrange(e1, e1 + 2)[0] == cm[0]);
        assert(s.subrange(e1, e1 + 2)[1] == cm[1]);
    }
    assert(s.subrange(e1 + 2, e2) =~= g);
    assert(s.subrange(e2, e2 + 2) =~= cm);
    assert(s[e2] == 44 && s[e2 + 1] == 32) by {
        assert(s.subrange(e2, e2 + 2)[0] == cm[0]);
        assert(s.subrange(e2, e2 + 2)[1] == cm[1]);
    }
    assert(s.subrange(e2 + 2, e3) =~= b);
    assert(s.subrange(e3, e3 + 2) =~= cm);
    assert(s[e3] == 44 && s[e3 + 1] == 32) by {
        assert(s.subrange(e3, e3 + 2)[0] == cm[0]);
        assert(s.subrange(e3, e3 + 2)[1] == cm[1]);
    }
    assert(s.subrange(e3 + 2, e4) =~= a);
    assert(s[e4] == 41) by {
        assert(s.subrange(e4, e4 + 1) =~= cl);
        assert(s.subrange(e4, e4 + 1)[0] == cl[0]);
    }
    assert(tag_at(s, 0, nm));
    assert(tag_at(s, ln, op));
    assert(spec_fn_open(s, 0, nm) == Some(q));
    lemma_first_num_at(s, q, r, kr);
    lemma_comma_num_at(s, e1, g, kg);
    lemma_comma_num_at(s, e2, b, kb);
    lemma_comma_num_at(s, e3, a, ka);
    lemma_seek_while_is(s, e4, ws_p(), e4);
    assert(spec_fn_close(s, e4) == Some(e4 + 1));
}

/// The functional-form law at `rgba`: for all decimal literals, the string
/// `rgba(r, g, b, a)` parses as a color carrying exactly the four literals
/// as RGB channels with explicit alpha.
pub proof fn lemma_color_rgba_literals(
    r: Seq<u8>,
    kr: int,
    g: Seq<u8>,
    kg: int,
    b: Seq<u8>,
    kb: int,
    a: Seq<u8>,
    ka: int,
)
    requires
        literal_shape(r, kr),
        literal_shape(g, kg),
        literal_shape(b, kb),
        literal_shape(a, ka),
    ensures
        ({
            let s = "rgba".spec_bytes() + "(".spec_bytes() + r + ", ".spec_bytes() + g
                + ", ".spec_bytes() + b + ", ".spec_bytes() + a + ")".spec_bytes();
            match (
                spec_scan_num(r, 0),
                spec_scan_num(g, 0),
                spec_scan_num(b, 0),
                spec_scan_num(a, 0),
            ) {
                (Some(pr), Some(pg), Some(pb), Some(pa)) => spec_color_string(s) == Some(
                    ColorV::Rgba { r: pr.0, g: pg.0, b: pb.0, a: pa.0 },
                ),
                _ => false,
            }
        }),
{
    reveal_strlit("rgba");
    reveal_strlit("rgb");
    reveal_strlit("(");
    assert(vstd::string::is_ascii("rgba"));
    assert(vstd::string::is_ascii("rgb"));
    assert(vstd::string::is_ascii("("));
    vstd::string::is_ascii_spec_bytes("rgba");
    vstd::string::is_ascii_spec_bytes("rgb");
    vstd::string::is_ascii_spec_bytes("(");
    let nm = "rgba".spec_bytes();
    assert(nm.len() == 4 && nm[0] == 114 && nm[3] == 97);
    lemma_color_fn4_literals(nm, r, kr, g, kg, b, kb, a, ka);
    let s = nm + "(".spec_bytes() + r + ", ".spec_bytes() + g + ", ".spec_bytes() + b
        + ", ".spec_bytes() + a + ")".spec_bytes();
    assert(s[0] == 114 && s[3] == 97) by {
        assert(s.subrange(0, 4) =~= nm);
        assert(s.subrange(0, 4)[0] == nm[0]);
        assert(s.subrange(0, 4)[3] == nm[3]);
    }
    // the three-channel `rgb` form cannot open: no `(` follows its name
    crate::text::lemma_tag_at_byte(s, 3, "(".spec_bytes(), 0);
    lemma_seek_while_is(s, 0, ws_p(), 0);
}

/// The functional-form law at `hsla`: for all decimal literals, the string
/// `hsla(h, sa, l, a)` parses as a color carrying exactly the four literals
/// as HSL channels with explicit alpha.
pub proof fn lemma_color_hsla_literals(
    h: Seq<u8>,
    kh: int,
    sa: Seq<u8>,
    ks: int,
    l: Seq<u8>,
    kl: int,
    a: Seq<u8>,
    ka: int,
)
    requires
        literal_shape(h, kh),
        literal_shape(sa, ks),
        literal_shape(l, kl),
        literal_shape(a, ka),
    ensures
        ({
            let s = "hsla".spec_bytes() + "(".spec_bytes() + h + ", ".spec_bytes() + sa
                + ", ".spec_bytes() + l + ", ".spec_bytes() + a + ")".spec_bytes();
            match (
                spec_scan_num(h, 0),
                spec_scan_num(sa, 0),
                spec_scan_num(l, 0),
                spec_scan_num(a, 0),
            ) {
                (Some(ph), Some(ps), Some(pl), Some(pa)) => spec_color_string(s) == Some(
                    ColorV::Hsla { h: ph.0, s: ps.0, l: pl.0, a: pa.0 },
                ),
                _ => false,
            }
        }),
{
    reveal_strlit("hsla");
    reveal_strlit("hsl");
    reveal_strlit("rgb");
    reveal_strlit("rgba");
    reveal_strlit("(");
    assert(vstd::string::is_ascii("hsla"));
    assert(vstd::string::is_ascii("hsl"));
    assert(vstd::string::is_ascii("rgb"));
    assert(vstd::string::is_ascii("rgba"));
    assert(vstd::string::is_ascii("("));
    vstd::string::is_ascii_spec_bytes("hsla");
    vstd::string::is_ascii_spec_bytes("hsl");
    vstd::string::is_ascii_spec_bytes("rgb");
    vstd::string::is_ascii_spec_bytes("rgba");
    vstd::string::is_ascii_spec_bytes("(");
    let nm = "hsla".spec_bytes();
    assert(nm.len() == 4 && nm[0] == 104 && nm[3] == 97);
    lemma_color_fn4_literals(nm, h, kh, sa, ks, l, kl, a, ka);
    let s = nm + "(".spec_bytes() + h + ", ".spec_bytes() + sa + ", ".spec_bytes() + l
        + ", ".spec_bytes() + a + ")".spec_bytes();
    assert(s[0] == 104 && s[3] == 97) by {
        assert(s.subrange(0, 4) =~= nm);
        assert(s.subrange(0, 4)[0] == nm[0]);
        assert(s.subrange(0, 4)[3] == nm[3]);
    }
    // neither `rgb` nor `rgba` can open here, and the three-channel `hsl`
    // form finds no `(` after its name
    crate::text::lemma_tag_at_byte(s, 0, "rgb".spec_bytes(), 0);
    crate::text::lemma_tag_at_byte(s, 0, "rgba".spec_bytes(), 0);
    crate::text::lemma_tag_at_byte(s, 3, "(".spec_bytes(), 0);
    lemma_seek_while_is(s, 0, ws_p(), 0);
}

/// The functional-form law at `rgb`: for all decimal literals `r`, `g` and
/// `b`, the string `rgb(r, g, b)` parses as a color carrying exactly the
/// three literals as RGB channels, with alpha defaulted to the literal 1.
pub proof fn lemma_color_rgb_literals(
    r: Seq<u8>,
    kr: int,
    g: Seq<u8>,
    kg: int,
    b: Seq<u8>,
    kb: int,
)
    requires
        literal_shape(r, kr),
        literal_shape(g, kg),
        literal_shape(b, kb),
    ensures
        ({
            let s = "rgb".spec_bytes() + "(".spec_bytes() + r + ", ".spec_bytes() + g
                + ", ".spec_bytes() + b + ")".spec_bytes();
            match (spec_scan_num(r, 0), spec_scan_num(g, 0), spec_scan_num(b, 0)) {
                (Some(pr), Some(pg), Some(pb)) => spec_color_string(s) == Some(
                    ColorV::Rgba { r: pr.0, g: pg.0, b: pb.0, a: num_one() },
                ),
                _ => false,
            }
        }),
{
    reveal_strlit("rgb");
    assert(vstd::string::is_ascii("rgb"));
    vstd::string::is_ascii_spec_bytes("rgb");
    let nm = "rgb".spec_bytes();
    assert(nm.len() == 3 && nm[0] == 114);
    lemma_color_fn3_literals(nm, r, kr, g, kg, b, kb);
    let s = nm + "(".spec_bytes() + r + ", ".spec_bytes() + g + ", ".spec_bytes() + b
        + ")".spec_bytes();
    assert(s[0] == 114) by {
        assert(s.subrange(0, 3) =~= nm);
        assert(s.subrange(0, 3)[0] == nm[0]);
    }
    lemma_seek_while_is(s, 0, ws_p(), 0);
}

/// The functional-form law at `hsl`: for all decimal literals `h`, `sa` and
/// `l`, the string `hsl(h, sa, l)` parses as a color carrying exactly the
/// three literals as HSL channels, with alpha defaulted to the literal 1.
pub proof fn lemma_color_hsl_literals(
    h: Seq<u8>,
    kh: int,
    sa: Seq<u8>,
    ks: int,
    l: Seq<u8>,
    kl: int,
)
    requires
        literal_shape(h, kh),
        literal_shape(sa, ks),
        literal_shape(l, kl),
    ensures
        ({
            let s = "hsl".spec_bytes() + "(".spec_bytes() + h + ", ".spec_bytes() + sa
                + ", ".spec_bytes() + l + ")".spec_bytes();
            match (spec_scan_num(h, 0), spec_scan_num(sa, 0), spec_scan_num(l, 0)) {
                (Some(ph), Some(ps), Some(pl)) => spec_color_string(s) == Some(
                    ColorV::Hsla { h: ph.0, s: ps.0, l: pl.0, a: num_one() },
                ),
                _ => false,
            }
        }),
{
    reveal_strlit("hsl");
    reveal_strlit("rgb");
    reveal_strlit("rgba");
    assert(vstd::string::is_ascii("hsl"));
    assert(vstd::string::is_ascii("rgb"));
    assert(vstd::string::is_ascii("rgba"));
    vstd::string::is_ascii_spec_bytes("hsl");
    vstd::string::is_ascii_spec_bytes("rgb");
    vstd::string::is_ascii_spec_bytes("rgba");
    let nm = "hsl".spec_bytes();
    assert(nm.len() == 3 && nm[0] == 104);
    lemma_color_fn3_literals(nm, h, kh, sa, ks, l, kl);
    let s = nm + "(".spec_bytes() + h + ", ".spec_bytes() + sa + ", ".spec_bytes() + l
        + ")".spec_bytes();
    assert(s[0] == 104) by {
        assert(s.subrange(0, 3) =~= nm);
        assert(s.subrange(0, 3)[0] == nm[0]);
    }
    // neither `rgb` nor `rgba` can open here
    crate::text::lemma_tag_at_byte(s, 0, "rgb".spec_bytes(), 0);
    crate::text::lemma_tag_at_byte(s, 0, "rgba".spec_bytes(), 0);
    lemma_seek_while_is(s, 0, ws_p(), 0);
}

/// Parsing is pure: any two results that meet the whole-string color parse
/// contract for one and the same input are equal, so repeated calls of
/// [`color_string_parser`] on identical input return identical output.
pub proof fn lemma_color_parse_pure(s: Seq<u8>, r1: Option<ColorV>, r2: Option<ColorV>)
    requires
        r1 == spec_color_string(s),
        r2 == spec_color_string(s),
    ensures
        r1 == r2,
{
}

} // verus!

