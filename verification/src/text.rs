//! Byte-level scanning primitives shared by all the grammars: character
//! classes, longest-prefix scans, literal tags, and ASCII case folding.
//!
//! Every grammar in this crate works on the UTF-8 bytes of the input string,
//! positionally: a scan takes a byte sequence and a start position and
//! reports the position where it stopped.

use vstd::prelude::*;
use vstd::string::StringSliceAdditionalSpecFns;

verus! {

/// A space, tab, carriage return or line feed: the characters the grammars
/// accept as whitespace around and between tokens.
pub open spec fn is_ws(b: u8) -> bool {
    b == 32 || b == 9 || b == 13 || b == 10
}

/// An ASCII decimal digit.
pub open spec fn is_digit(b: u8) -> bool {
    48 <= b <= 57
}

/// An ASCII hexadecimal digit, either case.
pub open spec fn is_hex(b: u8) -> bool {
    (48 <= b <= 57) || (65 <= b <= 70) || (97 <= b <= 102)
}

/// The whitespace predicate as a value, so that every use names one term.
pub open spec fn ws_p() -> spec_fn(u8) -> bool {
    |b: u8| is_ws(b)
}

/// The decimal-digit predicate as a value.
pub open spec fn digit_p() -> spec_fn(u8) -> bool {
    |b: u8| is_digit(b)
}

/// The position where a forward scan from `pos` over bytes satisfying `p`
/// stops: the first position at or after `pos` holding no `p`-byte, or the
/// end of `s`.
pub open spec fn seek_while(s: Seq<u8>, pos: int, p: spec_fn(u8) -> bool) -> int
    decreases s.len() - pos,
{
    if 0 <= pos && pos < s.len() && p(s[pos]) {
        seek_while(s, pos + 1, p)
    } else {
        pos
    }
}

pub proof fn lemma_seek_while(s: Seq<u8>, pos: int, p: spec_fn(u8) -> bool)
    requires
        0 <= pos <= s.len(),
    ensures
        pos <= seek_while(s, pos, p) <= s.len(),
        forall|i: int| pos <= i < seek_while(s, pos, p) ==> p(s[i]),
        seek_while(s, pos, p) < s.len() ==> !p(s[seek_while(s, pos, p)]),
    decreases s.len() - pos,
{
    if pos < s.len() && p(s[pos]) {
        lemma_seek_while(s, pos + 1, p);
    }
}

pub proof fn lemma_seek_while_is(s: Seq<u8>, pos: int, p: spec_fn(u8) -> bool, end: int)
    requires
        0 <= pos <= end <= s.len(),
        forall|i: int| pos <= i < end ==> p(s[i]),
        end < s.len() ==> !p(s[end]),
    ensures
        seek_while(s, pos, p) == end,
    decreases end - pos,
{
    if pos < end {
        assert(p(s[pos]));
        lemma_seek_while_is(s, pos + 1, p, end);
    }
}

/// A forward scan is unchanged by appending text whose first byte does not
/// satisfy the predicate.
pub proof fn lemma_seek_while_append(s: Seq<u8>, t: Seq<u8>, pos: int, p: spec_fn(u8) -> bool)
    requires
        0 <= pos <= s.len(),
        t.len() > 0,
        !p(t[0]),
    ensures
        seek_while(s + t, pos, p) == seek_while(s, pos, p),
{
    lemma_seek_while(s, pos, p);
    let e = seek_while(s, pos, p);
    assert(forall|i: int| pos <= i < e ==> (s + t)[i] == s[i]);
    if e < s.len() {
        assert((s + t)[e] == s[e]);
    } else {
        assert((s + t)[e] == t[0]);
    }
    lemma_seek_while_is(s + t, pos, p, e);
}

/// A forward scan sees only the suffix it scans: scanning `s` from
/// `pos + k` is scanning `s.skip(pos)` from `k`, shifted by `pos`.
pub proof fn lemma_seek_while_shift(s: Seq<u8>, pos: int, k: int, p: spec_fn(u8) -> bool)
    requires
        0 <= pos,
        0 <= k,
        pos + k <= s.len(),
    ensures
        seek_while(s, pos + k, p) == pos + seek_while(s.skip(pos), k, p),
    decreases s.len() - pos - k,
{
    if pos + k < s.len() {
        assert(s.skip(pos)[k] == s[pos + k]);
        if p(s[pos + k]) {
            lemma_seek_while_shift(s, pos, k + 1, p);
        }
    }
}

/// True when every byte from `pos` to the end of `s` is whitespace.
pub open spec fn all_ws_from(s: Seq<u8>, pos: int) -> bool {
    forall|i: int| pos <= i < s.len() ==> is_ws(s[i])
}

pub proof fn lemma_all_ws_iff(s: Seq<u8>, pos: int)
    requires
        0 <= pos <= s.len(),
    ensures
        (seek_while(s, pos, ws_p()) == s.len()) <==> all_ws_from(s, pos),
{
    lemma_seek_while(s, pos, ws_p());
    if all_ws_from(s, pos) {
        lemma_seek_while_is(s, pos, ws_p(), s.len() as int);
    }
}

/// Advance `pos` past any whitespace.
pub fn skip_ws(s: &[u8], pos: usize) -> (end: usize)
    requires
        pos <= s@.len(),
    ensures
        pos <= end <= s@.len(),
        end as int == seek_while(s@, pos as int, ws_p()),
{
    let mut i = pos;
    while i < s.len() && (s[i] == 32 || s[i] == 9 || s[i] == 13 || s[i] == 10)
        invariant
            pos <= i <= s@.len(),
            forall|j: int| pos <= j <= i - 1 ==> is_ws(s@[j]),
        decreases s@.len() - i,
    {
        i = i + 1;
    }
    proof {
        lemma_seek_while_is(s@, pos as int, ws_p(), i as int);
    }
    i
}

/// Advance `pos` past any decimal digits.
pub fn skip_digits(s: &[u8], pos: usize) -> (end: usize)
    requires
        pos <= s@.len(),
    ensures
        pos <= end <= s@.len(),
        end as int == seek_while(s@, pos as int, digit_p()),
{
    let mut i = pos;
    while i < s.len() && 48 <= s[i] && s[i] <= 57
        invariant
            pos <= i <= s@.len(),
            forall|j: int| pos <= j <= i - 1 ==> is_digit(s@[j]),
        decreases s@.len() - i,
    {
        i = i + 1;
    }
    proof {
        lemma_seek_while_is(s@, pos as int, digit_p(), i as int);
    }
    i
}

/// The position where a backward scan from `end` over bytes satisfying `p`
/// stops: the least position whose suffix up to `end` holds only `p`-bytes.
pub open spec fn seek_back_while(s: Seq<u8>, end: int, p: spec_fn(u8) -> bool) -> int
    decreases end,
{
    if 0 < end && end <= s.len() && p(s[end - 1]) {
        seek_back_while(s, end - 1, p)
    } else {
        end
    }
}

pub proof fn lemma_seek_back_while(s: Seq<u8>, end: int, p: spec_fn(u8) -> bool)
    requires
        0 <= end <= s.len(),
    ensures
        0 <= seek_back_while(s, end, p) <= end,
        forall|i: int| seek_back_while(s, end, p) <= i < end ==> p(s[i]),
        seek_back_while(s, end, p) > 0 ==> !p(s[seek_back_while(s, end, p) - 1]),
    decreases end,
{
    if 0 < end && p(s[end - 1]) {
        lemma_seek_back_while(s, end - 1, p);
    }
}

/// Where the input ends once trailing whitespace is trimmed, never moving
/// before `pos`.
pub open spec fn trim_end_ws(s: Seq<u8>, pos: int) -> int {
    let e = seek_back_while(s, s.len() as int, ws_p());
    if e < pos {
        pos
    } else {
        e
    }
}

pub proof fn lemma_trim_end_is(s: Seq<u8>, pos: int, e: int)
    requires
        0 <= pos <= e <= s.len(),
        forall|i: int| e <= i < s.len() ==> is_ws(s[i]),
        e > pos ==> !is_ws(s[e - 1]),
    ensures
        trim_end_ws(s, pos) == e,
{
    lemma_seek_back_while(s, s.len() as int, ws_p());
    let t = trim_end_ws(s, pos);
    if t < e {
        assert(is_ws(s[e - 1]));
        assert(!is_ws(s[e - 1]));
    }
    if e < t {
        assert(is_ws(s[t - 1]));
        assert(!is_ws(s[t - 1]));
    }
}

/// Trim trailing whitespace: the end of the input without it, never before
/// `pos`.
pub fn trim_end(s: &[u8], pos: usize) -> (e: usize)
    requires
        pos <= s@.len(),
    ensures
        pos <= e <= s@.len(),
        e as int == trim_end_ws(s@, pos as int),
{
    let mut j = s.len();
    while j > pos && (s[j - 1] == 32 || s[j - 1] == 9 || s[j - 1] == 13 || s[j - 1] == 10)
        invariant
            pos <= j <= s@.len(),
            forall|i: int| j <= i < s@.len() ==> is_ws(s@[i]),
        decreases j,
    {
        j = j - 1;
    }
    proof {
        lemma_trim_end_is(s@, pos as int, j as int);
    }
    j
}

/// The literal `t` occurs in `s` starting at `pos`.
pub open spec fn tag_at(s: Seq<u8>, pos: int, t: Seq<u8>) -> bool {
    0 <= pos && pos + t.len() <= s.len() && s.subrange(pos, pos + t.len()) == t
}

/// A tag cannot match where some byte of it disagrees with the input.
pub proof fn lemma_tag_at_byte(s: Seq<u8>, pos: int, t: Seq<u8>, j: int)
    requires
        0 <= j < t.len(),
        0 <= pos,
        pos + t.len() <= s.len(),
        s[pos + j] != t[j],
    ensures
        !tag_at(s, pos, t),
{
    if tag_at(s, pos, t) {
        assert(s.subrange(pos, pos + t.len())[j] == t[j]);
    }
}

/// Does the byte form of the literal `t` occur in `s` at `pos`?
pub fn has_tag(s: &[u8], pos: usize, t: &str) -> (r: bool)
    requires
        pos <= s@.len(),
    ensures
        r == tag_at(s@, pos as int, t.spec_bytes()),
{
    let tb = t.as_bytes();
    if s.len() - pos < tb.len() {
        return false;
    }
    let n = tb.len();
    let m = s.len();
    let mut i: usize = 0;
    while i < n
        invariant
            0 <= i <= n,
            n == tb@.len(),
            tb@ == t.spec_bytes(),
            m == s@.len(),
            pos + n <= m,
            forall|j: int| 0 <= j <= i - 1 ==> s@[pos + j] == tb@[j],
        decreases n - i,
    {
        if s[pos + i] != tb[i] {
            proof {
                assert(s@.subrange(pos as int, pos + tb@.len())[i as int] != tb@[i as int]);
            }
            return false;
        }
        i = i + 1;
    }
    proof {
        assert(s@.subrange(pos as int, pos + tb@.len()) =~= tb@);
    }
    true
}

/// The whole of `b` equals the byte form of the literal `t`.
pub fn bytes_eq_str(b: &[u8], t: &str) -> (r: bool)
    ensures
        r == (b@ == t.spec_bytes()),
{
    let tb = t.as_bytes();
    if b.len() != tb.len() {
        return false;
    }
    let n = tb.len();
    let mut i: usize = 0;
    while i < n
        invariant
            0 <= i <= n,
            n == tb@.len(),
            n == b@.len(),
            tb@ == t.spec_bytes(),
            forall|j: int| 0 <= j <= i - 1 ==> b@[j] == tb@[j],
        decreases n - i,
    {
        if b[i] != tb[i] {
            return false;
        }
        i = i + 1;
    }
    proof {
        assert(b@ =~= tb@);
    }
    true
}

/// A byte with ASCII upper-case letters folded to lower case.
pub open spec fn fold_lower_byte(b: u8) -> u8 {
    if 65 <= b <= 90 {
        (b + 32) as u8
    } else {
        b
    }
}

/// A byte sequence with ASCII upper-case letters folded to lower case.
pub open spec fn fold_lower(s: Seq<u8>) -> Seq<u8> {
    s.map(|i: int, b: u8| fold_lower_byte(b))
}

/// Copy `s[from..to]` with ASCII upper-case letters folded to lower case.
pub fn to_lower_bytes(s: &[u8], from: usize, to: usize) -> (v: Vec<u8>)
    requires
        from <= to <= s@.len(),
    ensures
        v@ == fold_lower(s@.subrange(from as int, to as int)),
{
    let mut v: Vec<u8> = Vec::new();
    let mut i = from;
    while i < to
        invariant
            from <= i <= to <= s@.len(),
            v@ == fold_lower(s@.subrange(from as int, i as int)),
        decreases to - i,
    {
        let b = s[i];
        let f: u8 = if 65 <= b && b <= 90 {
            b + 32
        } else {
            b
        };
        v.push(f);
        proof {
            assert(s@.subrange(from as int, i + 1 as int).drop_last() =~= s@.subrange(
                from as int,
                i as int,
            ));
            assert(v@ =~= fold_lower(s@.subrange(from as int, i + 1 as int)));
        }
        i = i + 1;
    }
    v
}

} // verus!
