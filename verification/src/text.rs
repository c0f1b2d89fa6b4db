//! Character- and byte-level helpers shared by the parsing code.
//!
//! Everything here is exact-match or ASCII work: the identification
//! strings, configuration files and diagnostic-utility output this daemon
//! reads are ASCII in practice, so case folding is ASCII-only.

use vstd::prelude::*;
use vstd::string::*;

verus! {

/// True when `needle` occurs contiguously in `hay`.
pub open spec fn is_char_substring(hay: Seq<char>, needle: Seq<char>) -> bool {
    exists|i: int|
        0 <= i && i + needle.len() <= hay.len() && #[trigger] hay.subrange(i, i + needle.len())
            == needle
}

/// `c` matches `n` directly, or `c` is an ASCII capital whose lower-case
/// form is `n`.
pub open spec fn ci_eq(c: char, n: char) -> bool {
    c == n || (65 <= c as u32 && c as u32 <= 90 && c as u32 + 32 == n as u32)
}

/// Every character of `needle` matches the one `i` positions into `hay`,
/// up to ASCII case.
pub open spec fn ci_matches_at(hay: Seq<char>, needle: Seq<char>, i: int) -> bool {
    forall|j: int| 0 <= j < needle.len() ==> ci_eq(hay[i + j], #[trigger] needle[j])
}

/// True when `needle` occurs in `hay` up to ASCII case.
pub open spec fn is_ci_substring(hay: Seq<char>, needle: Seq<char>) -> bool {
    exists|i: int| 0 <= i && i + needle.len() <= hay.len() && #[trigger] ci_matches_at(hay, needle, i)
}

/// Character-by-character string equality.
pub fn str_chars_eq(a: &str, b: &str) -> (r: bool)
    ensures
        r == (a@ == b@),
{
    let alen = a.unicode_len();
    let blen = b.unicode_len();
    if alen != blen {
        return false;
    }
    let mut j: usize = 0;
    while j < alen
        invariant
            alen == a@.len(),
            alen == b@.len(),
            j <= alen,
            forall|k: int| 0 <= k < j ==> a@[k] == b@[k],
        decreases alen - j,
    {
        if a.get_char(j) != b.get_char(j) {
            return false;
        }
        j += 1;
    }
    proof {
        assert(a@ =~= b@);
    }
    true
}

fn match_at(hay: &str, needle: &str, i: usize) -> (r: bool)
    requires
        i + needle@.len() <= hay@.len(),
        hay@.len() <= usize::MAX,
    ensures
        r == (hay@.subrange(i as int, i as int + needle@.len()) == needle@),
{
    let nlen = needle.unicode_len();
    let mut j: usize = 0;
    while j < nlen
        invariant
            nlen == needle@.len(),
            i + nlen <= hay@.len(),
            hay@.len() <= usize::MAX,
            j <= nlen,
            forall|k: int| 0 <= k < j ==> hay@[i + k] == needle@[k],
        decreases nlen - j,
    {
        if hay.get_char(i + j) != needle.get_char(j) {
            proof {
                let sub = hay@.subrange(i as int, i as int + needle@.len());
                assert(sub[j as int] != needle@[j as int]);
            }
            return false;
        }
        j += 1;
    }
    proof {
        assert(hay@.subrange(i as int, i as int + needle@.len()) =~= needle@);
    }
    true
}

/// True when `needle` occurs contiguously in `hay`.
pub fn contains_chars(hay: &str, needle: &str) -> (r: bool)
    ensures
        r == is_char_substring(hay@, needle@),
{
    let hlen = hay.unicode_len();
    let nlen = needle.unicode_len();
    if nlen > hlen {
        return false;
    }
    if nlen == 0 {
        proof {
            assert(hay@.subrange(0, 0 + needle@.len() as int) =~= needle@);
            assert(is_char_substring(hay@, needle@));
        }
        return true;
    }
    let mut i: usize = 0;
    while i <= hlen - nlen
        invariant
            hlen == hay@.len(),
            nlen == needle@.len(),
            0 < nlen <= hlen,
            i <= hlen - nlen + 1,
            forall|k: int|
                0 <= k < i ==> #[trigger] hay@.subrange(k, k + needle@.len()) != needle@,
        decreases hlen - nlen - i + 1,
    {
        if match_at(hay, needle, i) {
            return true;
        }
        i += 1;
    }
    false
}

fn ci_match_at(hay: &str, needle: &str, i: usize) -> (r: bool)
    requires
        i + needle@.len() <= hay@.len(),
        hay@.len() <= usize::MAX,
    ensures
        r == ci_matches_at(hay@, needle@, i as int),
{
    let nlen = needle.unicode_len();
    let mut j: usize = 0;
    while j < nlen
        invariant
            nlen == needle@.len(),
            i + nlen <= hay@.len(),
            hay@.len() <= usize::MAX,
            j <= nlen,
            forall|k: int| 0 <= k < j ==> ci_eq(hay@[i + k], #[trigger] needle@[k]),
        decreases nlen - j,
    {
        let c = hay.get_char(i + j);
        let n = needle.get_char(j);
        let cu = c as u32;
        let nu = n as u32;
        if !(c == n || (65 <= cu && cu <= 90 && cu + 32 == nu)) {
            return false;
        }
        j += 1;
    }
    true
}

/// True when `needle` occurs in `hay` up to ASCII case.
pub fn contains_ci(hay: &str, needle: &str) -> (r: bool)
    ensures
        r == is_ci_substring(hay@, needle@),
{
    let hlen = hay.unicode_len();
    let nlen = needle.unicode_len();
    if nlen > hlen {
        return false;
    }
    if nlen == 0 {
        proof {
            assert(ci_matches_at(hay@, needle@, 0));
        }
        return true;
    }
    let mut i: usize = 0;
    while i <= hlen - nlen
        invariant
            hlen == hay@.len(),
            nlen == needle@.len(),
            0 < nlen <= hlen,
            i <= hlen - nlen + 1,
            forall|k: int| 0 <= k < i ==> !ci_matches_at(hay@, needle@, k),
        decreases hlen - nlen - i + 1,
    {
        if ci_match_at(hay, needle, i) {
            return true;
        }
        i += 1;
    }
    false
}

// ---------------------------------------------------------------------------
// Byte-level helpers: the configuration files and diagnostic-utility output
// are handled as raw bytes.
// ---------------------------------------------------------------------------

/// ASCII whitespace, as the tokenizers here use it.
pub open spec fn is_ws(b: u8) -> bool {
    b == 32 || (9 <= b && b <= 13)
}

/// An ASCII decimal digit.
pub open spec fn is_digit(b: u8) -> bool {
    48 <= b && b <= 57
}

/// A non-empty run of ASCII decimal digits.
pub open spec fn all_digits(s: Seq<u8>) -> bool {
    s.len() > 0 && forall|i: int| 0 <= i < s.len() ==> is_digit(#[trigger] s[i])
}

/// A line with its trailing carriage return, if any, removed.
pub open spec fn strip_cr(l: Seq<u8>) -> Seq<u8> {
    if l.len() > 0 && l[l.len() - 1] == 13 {
        l.drop_last()
    } else {
        l
    }
}

/// The lines of `s`, split on line feeds, each with a trailing carriage
/// return removed; a trailing line feed does not open a final empty line.
/// `cur` is the partial line carried into the remaining input.
pub open spec fn lines_acc(s: Seq<u8>, cur: Seq<u8>) -> Seq<Seq<u8>>
    decreases s.len(),
{
    if s.len() == 0 {
        if cur.len() == 0 {
            Seq::empty()
        } else {
            seq![strip_cr(cur)]
        }
    } else if s[0] == 10 {
        seq![strip_cr(cur)] + lines_acc(s.skip(1), Seq::empty())
    } else {
        lines_acc(s.skip(1), cur.push(s[0]))
    }
}

/// The lines of `s`.
pub open spec fn spec_lines(s: Seq<u8>) -> Seq<Seq<u8>> {
    lines_acc(s, Seq::empty())
}

fn strip_cr_vec(v: Vec<u8>) -> (r: Vec<u8>)
    ensures
        r@ == strip_cr(v@),
{
    let mut v = v;
    if v.len() > 0 && v[v.len() - 1] == 13 {
        v.pop();
        proof {
            assert(v@ =~= strip_cr(v@.push(13)));
        }
    }
    v
}

/// Split `s` into its lines.
pub fn lines_of(s: &[u8]) -> (r: Vec<Vec<u8>>)
    ensures
        r.deep_view() == spec_lines(s@),
{
    let mut out: Vec<Vec<u8>> = Vec::new();
    let mut cur: Vec<u8> = Vec::new();
    let mut i: usize = 0;
    proof {
        assert(s@.skip(0) =~= s@);
        assert(out.deep_view() =~= Seq::<Seq<u8>>::empty());
        assert(out.deep_view() + lines_acc(s@.skip(0), cur@) =~= lines_acc(s@, Seq::empty()));
    }
    while i < s.len()
        invariant
            i <= s@.len(),
            out.deep_view() + lines_acc(s@.skip(i as int), cur@) == spec_lines(s@),
        decreases s@.len() - i,
    {
        let ghost prev_out = out.deep_view();
        let ghost prev_cur = cur@;
        proof {
            assert(s@.skip(i as int)[0] == s@[i as int]);
            assert(s@.skip(i as int).skip(1) =~= s@.skip(i as int + 1));
        }
        let b = s[i];
        if b == 10 {
            let line = strip_cr_vec(cur);
            out.push(line);
            cur = Vec::new();
            proof {
                assert(out.deep_view() =~~= prev_out.push(strip_cr(prev_cur)));
                assert(prev_out + (seq![strip_cr(prev_cur)] + lines_acc(
                    s@.skip(i as int + 1),
                    Seq::empty(),
                )) =~= out.deep_view() + lines_acc(s@.skip(i as int + 1), cur@));
            }
        } else {
            cur.push(b);
        }
        i += 1;
    }
    proof {
        assert(s@.skip(i as int) =~= Seq::<u8>::empty());
    }
    if cur.len() > 0 {
        let ghost prev_out = out.deep_view();
        let ghost prev_cur = cur@;
        let line = strip_cr_vec(cur);
        out.push(line);
        proof {
            assert(out.deep_view() =~~= prev_out.push(strip_cr(prev_cur)));
            assert(prev_out + seq![strip_cr(prev_cur)] =~= out.deep_view());
        }
    }
    out
}

/// `s` without leading ASCII whitespace.
pub open spec fn trim_start(s: Seq<u8>) -> Seq<u8>
    decreases s.len(),
{
    if s.len() > 0 && is_ws(s[0]) {
        trim_start(s.skip(1))
    } else {
        s
    }
}

/// `s` without trailing ASCII whitespace.
pub open spec fn trim_end(s: Seq<u8>) -> Seq<u8>
    decreases s.len(),
{
    if s.len() > 0 && is_ws(s[s.len() - 1]) {
        trim_end(s.drop_last())
    } else {
        s
    }
}

/// `s` without leading or trailing ASCII whitespace.
pub open spec fn spec_trim(s: Seq<u8>) -> Seq<u8> {
    trim_end(trim_start(s))
}

proof fn lemma_trim_start_skip(s: Seq<u8>, lo: int)
    requires
        0 <= lo <= s.len(),
        forall|k: int| 0 <= k < lo ==> is_ws(#[trigger] s[k]),
        lo < s.len() ==> !is_ws(s[lo]),
    ensures
        trim_start(s) == s.skip(lo),
    decreases lo,
{
    if lo == 0 {
        assert(s.skip(0) =~= s);
    } else {
        lemma_trim_start_skip(s.skip(1), lo - 1);
        assert(s.skip(1).skip(lo - 1) =~= s.skip(lo));
    }
}

proof fn lemma_trim_end_take(s: Seq<u8>, hi: int)
    requires
        0 <= hi <= s.len(),
        forall|k: int| hi <= k < s.len() ==> is_ws(#[trigger] s[k]),
        hi > 0 ==> !is_ws(s[hi - 1]),
    ensures
        trim_end(s) == s.take(hi),
    decreases s.len(),
{
    if hi == s.len() {
        assert(s.take(hi) =~= s);
    } else {
        assert(is_ws(s[s.len() - 1]));
        lemma_trim_end_take(s.drop_last(), hi);
        assert(s.drop_last().take(hi) =~= s.take(hi));
    }
}

/// A sequence with no whitespace at all trims to itself.
pub proof fn lemma_trim_id(s: Seq<u8>)
    requires
        forall|k: int| 0 <= k < s.len() ==> !is_ws(#[trigger] s[k]),
    ensures
        spec_trim(s) == s,
{
    lemma_trim_start_skip(s, 0);
    assert(s.skip(0) =~= s);
    lemma_trim_end_take(s, s.len() as int);
    assert(s.take(s.len() as int) =~= s);
}

/// Trim ASCII whitespace from both ends of `s`.
pub fn trim_bytes(s: &[u8]) -> (r: Vec<u8>)
    ensures
        r@ == spec_trim(s@),
{
    let mut lo: usize = 0;
    while lo < s.len() && (s[lo] == 32 || (9 <= s[lo] && s[lo] <= 13))
        invariant
            lo <= s@.len(),
            forall|k: int| 0 <= k < lo ==> is_ws(#[trigger] s@[k]),
        decreases s@.len() - lo,
    {
        lo += 1;
    }
    proof {
        lemma_trim_start_skip(s@, lo as int);
    }
    let mut hi: usize = s.len();
    while hi > lo && (s[hi - 1] == 32 || (9 <= s[hi - 1] && s[hi - 1] <= 13))
        invariant
            lo <= hi <= s@.len(),
            forall|k: int| hi <= k < s@.len() ==> is_ws(#[trigger] s@[k]),
        decreases hi,
    {
        hi -= 1;
    }
    proof {
        lemma_trim_end_take(s@.skip(lo as int), hi - lo as int);
    }
    let mut r: Vec<u8> = Vec::new();
    let mut k: usize = lo;
    while k < hi
        invariant
            lo <= k <= hi <= s@.len(),
            r@ == s@.subrange(lo as int, k as int),
        decreases hi - k,
    {
        r.push(s[k]);
        proof {
            assert(r@ =~= s@.subrange(lo as int, k as int + 1));
        }
        k += 1;
    }
    proof {
        assert(s@.subrange(lo as int, hi as int) =~= s@.skip(lo as int).take(hi - lo as int));
    }
    r
}

/// The number denoted by a digit string, most significant digit first.
pub open spec fn digits_value(s: Seq<u8>) -> int
    decreases s.len(),
{
    if s.len() == 0 {
        0
    } else {
        digits_value(s.drop_last()) * 10 + (s[s.len() - 1] - 48)
    }
}

pub(crate) proof fn lemma_digits_value_nonneg(s: Seq<u8>)
    requires
        forall|i: int| 0 <= i < s.len() ==> is_digit(#[trigger] s[i]),
    ensures
        digits_value(s) >= 0,
    decreases s.len(),
{
    if s.len() > 0 {
        lemma_digits_value_nonneg(s.drop_last());
    }
}

proof fn lemma_digits_prefix_le(s: Seq<u8>, n: int)
    requires
        forall|i: int| 0 <= i < s.len() ==> is_digit(#[trigger] s[i]),
        0 <= n <= s.len(),
    ensures
        digits_value(s.take(n)) <= digits_value(s),
    decreases s.len(),
{
    if n == s.len() {
        assert(s.take(n) =~= s);
    } else {
        lemma_digits_value_nonneg(s.drop_last());
        lemma_digits_prefix_le(s.drop_last(), n);
        assert(s.drop_last().take(n) =~= s.take(n));
    }
}

/// The byte value denoted by `s`: an optional leading plus sign, then one
/// or more decimal digits, denoting at most 255. Anything else is nothing.
pub open spec fn spec_parse_u8(s: Seq<u8>) -> Option<u8> {
    let d = if s.len() > 0 && s[0] == 43 {
        s.skip(1)
    } else {
        s
    };
    if all_digits(d) && digits_value(d) <= 255 {
        Some(digits_value(d) as u8)
    } else {
        None
    }
}

/// Parse a decimal byte value.
pub fn parse_u8_bytes(s: &[u8]) -> (r: Option<u8>)
    ensures
        r == spec_parse_u8(s@),
{
    let ghost d = if s@.len() > 0 && s@[0] == 43 {
        s@.skip(1)
    } else {
        s@
    };
    let start: usize = if s.len() > 0 && s[0] == 43 {
        1
    } else {
        0
    };
    proof {
        assert(d =~= s@.skip(start as int));
    }
    if start >= s.len() {
        return None;
    }
    let mut acc: u32 = 0;
    let mut i: usize = start;
    while i < s.len()
        invariant
            start <= i <= s@.len(),
            d == s@.skip(start as int),
            d == (if s@.len() > 0 && s@[0] == 43 {
                s@.skip(1)
            } else {
                s@
            }),
            forall|k: int| start <= k < i ==> is_digit(#[trigger] s@[k]),
            acc <= 255,
            acc == digits_value(d.take(i - start as int)),
        decreases s@.len() - i,
    {
        let b = s[i];
        if !(48 <= b && b <= 57) {
            proof {
                assert(d[i - start as int] == s@[i as int]);
                assert(!all_digits(d));
            }
            return None;
        }
        let na: u32 = acc * 10 + (b - 48) as u32;
        proof {
            let n = i - start as int;
            assert(d.take(n + 1).drop_last() =~= d.take(n));
            assert(d.take(n + 1)[n] == s@[i as int]);
            assert(digits_value(d.take(n + 1)) == digits_value(d.take(n)) * 10 + (s@[i as int]
                - 48));
        }
        if na > 255 {
            proof {
                if all_digits(d) {
                    lemma_digits_prefix_le(d, i + 1 - start as int);
                }
            }
            return None;
        }
        acc = na;
        i += 1;
    }
    proof {
        assert(d.take(i - start as int) =~= d);
        assert(all_digits(d));
    }
    Some(acc as u8)
}

/// The canonical decimal rendering of a byte value: no sign, no leading
/// zeros.
pub open spec fn spec_format_u8(v: u8) -> Seq<u8> {
    if v >= 100 {
        seq![(48 + v / 100) as u8, (48 + (v / 10) % 10) as u8, (48 + v % 10) as u8]
    } else if v >= 10 {
        seq![(48 + v / 10) as u8, (48 + v % 10) as u8]
    } else {
        seq![(48 + v) as u8]
    }
}

/// Every byte of the rendering is a digit, and it denotes `v` again.
pub(crate) proof fn lemma_digits_value_single(x: u8)
    ensures
        digits_value(seq![x]) == x - 48,
{
    assert(seq![x].drop_last() =~= Seq::<u8>::empty());
    assert(digits_value(Seq::<u8>::empty()) == 0);
    assert(seq![x][0] == x);
}

pub(crate) proof fn lemma_digits_value_push(s: Seq<u8>, x: u8)
    ensures
        digits_value(s.push(x)) == digits_value(s) * 10 + (x - 48),
{
    assert(s.push(x).drop_last() =~= s);
    assert(s.push(x)[s.len() as int] == x);
}

/// Every byte of the rendering is a digit, and it denotes `v` again.
pub proof fn lemma_format_u8_digits(v: u8)
    ensures
        all_digits(spec_format_u8(v)),
        digits_value(spec_format_u8(v)) == v,
        1 <= spec_format_u8(v).len() <= 3,
{
    let f = spec_format_u8(v);
    if v >= 100 {
        let a = (48 + v / 100) as u8;
        let b = (48 + (v / 10) % 10) as u8;
        let c = (48 + v % 10) as u8;
        assert(v / 100 <= 2 && (v / 10) % 10 <= 9 && v % 10 <= 9);
        assert(a == 48 + (v as int) / 100);
        assert(b == 48 + ((v as int) / 10) % 10);
        assert(c == 48 + (v as int) % 10);
        assert(f =~= seq![a].push(b).push(c));
        lemma_digits_value_single(a);
        lemma_digits_value_push(seq![a], b);
        lemma_digits_value_push(seq![a].push(b), c);
        assert((v as int) / 100 == ((v as int) / 10) / 10) by {
            vstd::arithmetic::div_mod::lemma_div_denominator(v as int, 10, 10);
        }
        assert(((v as int) / 100) * 10 + ((v as int) / 10) % 10 == (v as int) / 10);
        assert(digits_value(f) == ((v as int) / 10) * 10 + (v as int) % 10);
        assert(digits_value(f) == v);
    } else if v >= 10 {
        let a = (48 + v / 10) as u8;
        let b = (48 + v % 10) as u8;
        assert(v / 10 <= 9 && v % 10 <= 9);
        assert(a == 48 + (v as int) / 10);
        assert(b == 48 + (v as int) % 10);
        assert(f =~= seq![a].push(b));
        lemma_digits_value_single(a);
        lemma_digits_value_push(seq![a], b);
        assert(digits_value(f) == ((v as int) / 10) * 10 + (v as int) % 10);
        assert(digits_value(f) == v);
    } else {
        let a = (48 + v) as u8;
        assert(f =~= seq![a]);
        lemma_digits_value_single(a);
        assert(digits_value(f) == v);
    }
}

/// Append the decimal rendering of `v`.
pub fn push_u8_dec(out: &mut Vec<u8>, v: u8)
    ensures
        final(out)@ == old(out)@ + spec_format_u8(v),
{
    if v >= 100 {
        out.push(48 + v / 100);
        out.push(48 + (v / 10) % 10);
        out.push(48 + v % 10);
    } else if v >= 10 {
        out.push(48 + v / 10);
        out.push(48 + v % 10);
    } else {
        out.push(48 + v);
    }
    proof {
        assert(final(out)@ =~= old(out)@ + spec_format_u8(v));
    }
}

/// Splitting on line feeds distributes over a terminated line: a line with
/// no line feed in it, followed by one, yields exactly that line.
pub proof fn lemma_lines_append(l: Seq<u8>, rest: Seq<u8>, cur: Seq<u8>)
    requires
        forall|i: int| 0 <= i < l.len() ==> #[trigger] l[i] != 10,
    ensures
        lines_acc(l + seq![10u8] + rest, cur) == seq![strip_cr(cur + l)] + lines_acc(
            rest,
            Seq::empty(),
        ),
    decreases l.len(),
{
    let s = l + seq![10u8] + rest;
    if l.len() == 0 {
        assert(s =~= seq![10u8] + rest);
        assert(s[0] == 10);
        assert(s.skip(1) =~= rest);
        assert(cur + l =~= cur);
    } else {
        assert(s[0] == l[0]);
        assert(s.skip(1) =~= l.skip(1) + seq![10u8] + rest);
        lemma_lines_append(l.skip(1), rest, cur.push(l[0]));
        assert(cur.push(l[0]) + l.skip(1) =~= cur + l);
    }
}

// ---------------------------------------------------------------------------
// Whitespace tokens, suffix stripping and number grammars for the
// diagnostic-utility output.
// ---------------------------------------------------------------------------

/// The whitespace-separated tokens of `s`; `cur` is the partial token
/// carried into the remaining input.
pub open spec fn split_ws_acc(s: Seq<u8>, cur: Seq<u8>) -> Seq<Seq<u8>>
    decreases s.len(),
{
    if s.len() == 0 {
        if cur.len() == 0 {
            Seq::empty()
        } else {
            seq![cur]
        }
    } else if is_ws(s[0]) {
        if cur.len() == 0 {
            split_ws_acc(s.skip(1), Seq::empty())
        } else {
            seq![cur] + split_ws_acc(s.skip(1), Seq::empty())
        }
    } else {
        split_ws_acc(s.skip(1), cur.push(s[0]))
    }
}

/// The whitespace-separated tokens of `s`.
pub open spec fn spec_split_ws(s: Seq<u8>) -> Seq<Seq<u8>> {
    split_ws_acc(s, Seq::empty())
}

/// Split `s` into its whitespace-separated tokens.
pub fn split_ws(s: &[u8]) -> (r: Vec<Vec<u8>>)
    ensures
        r.deep_view() == spec_split_ws(s@),
{
    let mut out: Vec<Vec<u8>> = Vec::new();
    let mut cur: Vec<u8> = Vec::new();
    let mut i: usize = 0;
    proof {
        assert(s@.skip(0) =~= s@);
        assert(out.deep_view() =~= Seq::<Seq<u8>>::empty());
        assert(out.deep_view() + split_ws_acc(s@.skip(0), cur@) =~= split_ws_acc(
            s@,
            Seq::empty(),
        ));
    }
    while i < s.len()
        invariant
            i <= s@.len(),
            out.deep_view() + split_ws_acc(s@.skip(i as int), cur@) == spec_split_ws(s@),
        decreases s@.len() - i,
    {
        let ghost prev_out = out.deep_view();
        let ghost prev_cur = cur@;
        proof {
            assert(s@.skip(i as int)[0] == s@[i as int]);
            assert(s@.skip(i as int).skip(1) =~= s@.skip(i as int + 1));
        }
        let b = s[i];
        if b == 32 || (9 <= b && b <= 13) {
            if cur.len() > 0 {
                out.push(cur);
                cur = Vec::new();
                proof {
                    assert(split_ws_acc(s@.skip(i as int), prev_cur) == seq![prev_cur]
                        + split_ws_acc(s@.skip(i as int + 1), Seq::empty()));
                    assert(out.deep_view() =~~= prev_out.push(prev_cur));
                    assert(prev_out + (seq![prev_cur] + split_ws_acc(
                        s@.skip(i as int + 1),
                        Seq::empty(),
                    )) =~= out.deep_view() + split_ws_acc(s@.skip(i as int + 1), cur@));
                }
            } else {
                proof {
                    assert(split_ws_acc(s@.skip(i as int), prev_cur) == split_ws_acc(
                        s@.skip(i as int + 1),
                        Seq::empty(),
                    ));
                    assert(cur@ =~= Seq::<u8>::empty());
                }
            }
        } else {
            cur.push(b);
            proof {
                assert(split_ws_acc(s@.skip(i as int), prev_cur) == split_ws_acc(
                    s@.skip(i as int + 1),
                    prev_cur.push(s@[i as int]),
                ));
            }
        }
        i += 1;
    }
    proof {
        assert(s@.skip(i as int) =~= Seq::<u8>::empty());
    }
    if cur.len() > 0 {
        let ghost prev_out = out.deep_view();
        let ghost prev_cur = cur@;
        out.push(cur);
        proof {
            assert(out.deep_view() =~~= prev_out.push(prev_cur));
            assert(prev_out + seq![prev_cur] =~= out.deep_view());
        }
    }
    out
}

/// `s` with every maximal `.00` group removed, scanning left to right.
pub open spec fn spec_replace_dot00(s: Seq<u8>) -> Seq<u8>
    decreases s.len(),
{
    if s.len() < 3 {
        s
    } else if s[0] == 46 && s[1] == 48 && s[2] == 48 {
        spec_replace_dot00(s.skip(3))
    } else {
        seq![s[0]] + spec_replace_dot00(s.skip(1))
    }
}

/// Remove every `.00` occurrence from `s`, left to right.
pub fn replace_dot00(s: &[u8]) -> (r: Vec<u8>)
    ensures
        r@ == spec_replace_dot00(s@),
{
    let mut out: Vec<u8> = Vec::new();
    let mut i: usize = 0;
    proof {
        assert(s@.skip(0) =~= s@);
        assert(out@ + spec_replace_dot00(s@) =~= spec_replace_dot00(s@));
    }
    while i < s.len()
        invariant
            i <= s@.len(),
            out@ + spec_replace_dot00(s@.skip(i as int)) == spec_replace_dot00(s@),
        decreases s@.len() - i,
    {
        let ghost prev = out@;
        let ghost rem = s@.skip(i as int);
        proof {
            assert(rem[0] == s@[i as int]);
            if rem.len() >= 3 {
                assert(rem[1] == s@[i as int + 1]);
                assert(rem[2] == s@[i as int + 2]);
            }
        }
        if s.len() - i > 2 && s[i] == 46 && s[i + 1] == 48 && s[i + 2] == 48 {
            proof {
                assert(rem.skip(3) =~= s@.skip(i as int + 3));
            }
            i += 3;
        } else {
            out.push(s[i]);
            proof {
                assert(rem.skip(1) =~= s@.skip(i as int + 1));
                if rem.len() < 3 {
                    assert(rem =~= seq![rem[0]] + rem.skip(1));
                }
                assert(out@ + spec_replace_dot00(s@.skip(i as int + 1)) =~= prev + (seq![
                    s@[i as int],
                ] + spec_replace_dot00(s@.skip(i as int + 1))));
            }
            i += 1;
        }
    }
    proof {
        assert(s@.skip(i as int) =~= Seq::<u8>::empty());
        assert(out@ + Seq::<u8>::empty() =~= out@);
    }
    out
}

/// A byte fit for an ASCII string: itself when it is ASCII, else a
/// question mark.
pub open spec fn sanitize_byte(b: u8) -> u8 {
    if b < 128 {
        b
    } else {
        63
    }
}

/// `s` with every non-ASCII byte replaced by a question mark.
pub open spec fn spec_sanitize(s: Seq<u8>) -> Seq<u8> {
    s.map_values(|b: u8| sanitize_byte(b))
}

/// Replace every non-ASCII byte of `s` by a question mark.
pub fn sanitize(s: &[u8]) -> (r: Vec<u8>)
    ensures
        r@ == spec_sanitize(s@),
        forall|i: int| 0 <= i < r@.len() ==> r@[i] < 128,
{
    let mut out: Vec<u8> = Vec::new();
    let mut i: usize = 0;
    while i < s.len()
        invariant
            i <= s@.len(),
            out@.len() == i,
            forall|k: int| 0 <= k < i ==> out@[k] == sanitize_byte(s@[k]),
        decreases s@.len() - i,
    {
        let b = s[i];
        if b < 128 {
            out.push(b);
        } else {
            out.push(63);
        }
        i += 1;
    }
    proof {
        assert(out@ =~= spec_sanitize(s@));
    }
    out
}

/// Turn ASCII bytes into the string of exactly those characters.
///
/// Relies on `String::from_utf8`: a sequence of bytes below 128 is valid
/// UTF-8 and decodes to one character per byte, with the same code points.
#[verifier::external_body]
pub(crate) fn ascii_to_string(v: Vec<u8>) -> (r: String)
    requires
        forall|i: int| 0 <= i < v@.len() ==> v@[i] < 128,
    ensures
        r@ == v@.map_values(|b: u8| b as char),
{
    String::from_utf8(v).unwrap_or_default()
}

/// The position of the first `b` in `s`, or the length when there is none.
pub open spec fn spec_first_at(s: Seq<u8>, b: u8) -> nat
    decreases s.len(),
{
    if s.len() == 0 {
        0
    } else if s[0] == b {
        0
    } else {
        1 + spec_first_at(s.skip(1), b)
    }
}

pub(crate) proof fn lemma_first_at_eq(s: Seq<u8>, b: u8, p: int)
    requires
        0 <= p <= s.len(),
        forall|k: int| 0 <= k < p ==> s[k] != b,
        p < s.len() ==> s[p] == b,
    ensures
        spec_first_at(s, b) == p,
    decreases p,
{
    if s.len() == 0 {
    } else if p == 0 {
    } else {
        assert(s[0] != b);
        lemma_first_at_eq(s.skip(1), b, p - 1);
    }
}

/// A run of decimal digits parsed with an upper bound: the denoted value
/// when every byte is a digit and the value is at most `bound`, else
/// nothing.
pub open spec fn spec_digits_bounded(d: Seq<u8>, bound: u64) -> Option<u64> {
    if all_digits(d) && digits_value(d) <= bound {
        Some(digits_value(d) as u64)
    } else {
        None
    }
}

/// Parse a run of decimal digits, refusing values above `bound`.
pub fn parse_digits_bounded(d: &[u8], bound: u64) -> (r: Option<u64>)
    ensures
        r == spec_digits_bounded(d@, bound),
        r is Some ==> r.unwrap() <= bound && r.unwrap() as int == digits_value(d@),
{
    if d.len() == 0 {
        return None;
    }
    let mut acc: u64 = 0;
    let mut i: usize = 0;
    while i < d.len()
        invariant
            i <= d@.len(),
            forall|k: int| 0 <= k < i ==> is_digit(#[trigger] d@[k]),
            acc <= bound,
            acc == digits_value(d@.take(i as int)),
        decreases d@.len() - i,
    {
        let b = d[i];
        if !(48 <= b && b <= 57) {
            return None;
        }
        let wide: u128 = (acc as u128) * 10 + ((b - 48) as u128);
        proof {
            let n = i as int;
            assert(d@.take(n + 1).drop_last() =~= d@.take(n));
            assert(d@.take(n + 1)[n] == d@[n]);
            assert(digits_value(d@.take(n + 1)) == digits_value(d@.take(n)) * 10 + (d@[n] - 48));
        }
        if wide > bound as u128 {
            proof {
                if all_digits(d@) {
                    lemma_digits_prefix_le(d@, i as int + 1);
                }
            }
            return None;
        }
        acc = wide as u64;
        i += 1;
    }
    proof {
        assert(d@.take(i as int) =~= d@);
        assert(all_digits(d@));
    }
    Some(acc)
}

/// Every byte of `d` is a decimal digit, and there is at least one.
pub fn check_all_digits(d: &[u8]) -> (r: bool)
    ensures
        r == all_digits(d@),
{
    if d.len() == 0 {
        return false;
    }
    let mut i: usize = 0;
    while i < d.len()
        invariant
            i <= d@.len(),
            forall|k: int| 0 <= k < i ==> is_digit(#[trigger] d@[k]),
        decreases d@.len() - i,
    {
        let b = d[i];
        if !(48 <= b && b <= 57) {
            return false;
        }
        i += 1;
    }
    true
}

/// Copy the bytes of `s` between `from` and `to`.
pub fn copy_range(s: &[u8], from: usize, to: usize) -> (r: Vec<u8>)
    requires
        from <= to <= s@.len(),
    ensures
        r@ == s@.subrange(from as int, to as int),
{
    let mut r: Vec<u8> = Vec::new();
    let mut k: usize = from;
    while k < to
        invariant
            from <= k <= to <= s@.len(),
            r@ == s@.subrange(from as int, k as int),
        decreases to - k,
    {
        r.push(s[k]);
        proof {
            assert(r@ =~= s@.subrange(from as int, k as int + 1));
        }
        k += 1;
    }
    r
}

/// The value denoted by `s` as a 64-bit number: an optional leading plus
/// sign, then decimal digits.
pub open spec fn spec_parse_u64(s: Seq<u8>) -> Option<u64> {
    let d = if s.len() > 0 && s[0] == 43 {
        s.skip(1)
    } else {
        s
    };
    if all_digits(d) && digits_value(d) <= u64::MAX {
        Some(digits_value(d) as u64)
    } else {
        None
    }
}

/// Parse a decimal 64-bit value.
pub fn parse_u64_bytes(s: &[u8]) -> (r: Option<u64>)
    ensures
        r == spec_parse_u64(s@),
{
    if s.len() > 0 && s[0] == 43 {
        let d = copy_range(s, 1, s.len());
        proof {
            assert(d@ =~= s@.skip(1));
        }
        parse_digits_bounded(d.as_slice(), u64::MAX)
    } else {
        parse_digits_bounded(s, u64::MAX)
    }
}

/// Append all of `src` to `dst`.
pub fn push_all(dst: &mut Vec<u8>, src: &[u8])
    ensures
        final(dst)@ == old(dst)@ + src@,
{
    let mut k: usize = 0;
    while k < src.len()
        invariant
            k <= src@.len(),
            dst@ == old(dst)@ + src@.take(k as int),
        decreases src@.len() - k,
    {
        dst.push(src[k]);
        proof {
            assert(old(dst)@ + src@.take(k as int + 1) =~= (old(dst)@ + src@.take(k as int)).push(
                src@[k as int],
            ));
        }
        k += 1;
    }
    proof {
        assert(src@.take(src@.len() as int) =~= src@);
    }
}

} // verus!
