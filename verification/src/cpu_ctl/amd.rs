//! AMD voltage backend: parsing of the vendor control utility's output.
//!
//! The utility itself is a subprocess and is run by the caller, which
//! passes the raw standard output bytes in here. A run that produced no
//! usable numbers yields no sample, never a failure.

use vstd::prelude::*;
use crate::cpu_ctl::{lemma_avg_fits, spec_sum, VoltageInfo};
use crate::text::{
    all_digits, ascii_to_string, check_all_digits, copy_range, digits_value,
    lemma_digits_value_nonneg, lemma_digits_value_push, lemma_digits_value_single,
    lemma_first_at_eq, lines_of, parse_digits_bounded, push_all, replace_dot00, sanitize,
    spec_digits_bounded, spec_first_at, spec_lines, spec_replace_dot00, spec_sanitize,
    spec_split_ws, split_ws,
};

verus! {

/// The largest whole-millivolt value whose microvolt rendering fits.
const MAX_WHOLE_MV: u64 = u64::MAX / 1000;

/// The token with every trailing `mV` removed.
pub open spec fn strip_mv_suffix(t: Seq<u8>) -> Seq<u8>
    decreases t.len(),
{
    if t.len() >= 2 && t[t.len() - 2] == 109 && t[t.len() - 1] == 86 {
        strip_mv_suffix(t.take(t.len() - 2))
    } else {
        t
    }
}

/// The first three fractional digits of a millivolt value, scaled to
/// microvolts; missing places count as zero, further places are dropped.
pub open spec fn spec_f3(fp: Seq<u8>) -> int {
    if fp.len() >= 3 {
        digits_value(fp.take(3))
    } else if fp.len() == 2 {
        digits_value(fp) * 10
    } else {
        digits_value(fp) * 100
    }
}

/// The microvolt value denoted by a decimal millivolt number: digits with
/// an optional single point and a non-empty fraction. Values too large
/// for 64 bits, and any other shape, denote nothing.
pub open spec fn spec_decimal_uv(num: Seq<u8>) -> Option<u64> {
    let p = spec_first_at(num, 46) as int;
    if p == num.len() {
        if all_digits(num) && digits_value(num) * 1000 <= u64::MAX {
            Some((digits_value(num) * 1000) as u64)
        } else {
            None
        }
    } else {
        let ip = num.take(p);
        let fp = num.skip(p + 1);
        if all_digits(ip) && all_digits(fp) && digits_value(ip) * 1000 + spec_f3(fp)
            <= u64::MAX {
            Some((digits_value(ip) * 1000 + spec_f3(fp)) as u64)
        } else {
            None
        }
    }
}

/// The microvolt value of one whitespace token: a decimal millivolt
/// number carrying at least one `mV` suffix.
pub open spec fn spec_parse_mv_token(t: Seq<u8>) -> Option<u64> {
    if t.len() >= 2 && t[t.len() - 2] == 109 && t[t.len() - 1] == 86 {
        spec_decimal_uv(strip_mv_suffix(t))
    } else {
        None
    }
}

proof fn lemma_f3_nonneg(fp: Seq<u8>)
    requires
        all_digits(fp),
    ensures
        spec_f3(fp) >= 0,
{
    if fp.len() >= 3 {
        assert(all_digits(fp.take(3))) by {
            assert(forall|k: int| 0 <= k < 3 ==> fp.take(3)[k] == fp[k]);
        }
        lemma_digits_value_nonneg(fp.take(3));
    } else {
        lemma_digits_value_nonneg(fp);
    }
}

fn frac3_value(fp: &[u8]) -> (r: u64)
    requires
        all_digits(fp@),
    ensures
        r == spec_f3(fp@),
        r <= 999,
{
    proof {
        lemma_digits_value_single(fp@[0]);
    }
    let d0 = (fp[0] - 48) as u64;
    if fp.len() == 1 {
        proof {
            assert(fp@ =~= seq![fp@[0]]);
        }
        d0 * 100
    } else if fp.len() == 2 {
        proof {
            lemma_digits_value_push(seq![fp@[0]], fp@[1]);
            assert(fp@ =~= seq![fp@[0]].push(fp@[1]));
        }
        let d1 = (fp[1] - 48) as u64;
        (d0 * 10 + d1) * 10
    } else {
        proof {
            lemma_digits_value_push(seq![fp@[0]], fp@[1]);
            lemma_digits_value_push(seq![fp@[0]].push(fp@[1]), fp@[2]);
            assert(fp@.take(3) =~= seq![fp@[0]].push(fp@[1]).push(fp@[2]));
        }
        let d1 = (fp[1] - 48) as u64;
        let d2 = (fp[2] - 48) as u64;
        (d0 * 10 + d1) * 10 + d2
    }
}

fn parse_decimal_uv(num: &[u8]) -> (r: Option<u64>)
    ensures
        r == spec_decimal_uv(num@),
{
    let mut p: usize = 0;
    while p < num.len() && num[p] != 46
        invariant
            p <= num@.len(),
            forall|k: int| 0 <= k < p ==> num@[k] != 46,
        decreases num@.len() - p,
    {
        p += 1;
    }
    proof {
        lemma_first_at_eq(num@, 46, p as int);
    }
    if p == num.len() {
        match parse_digits_bounded(num, MAX_WHOLE_MV) {
            Some(v) => {
                proof {
                    assert(v <= MAX_WHOLE_MV);
                    assert(v as int * 1000 <= u64::MAX as int);
                }
                Some(v * 1000)
            },
            None => {
                proof {
                    if all_digits(num@) && digits_value(num@) > MAX_WHOLE_MV {
                        assert(digits_value(num@) * 1000 > u64::MAX);
                    }
                }
                None
            },
        }
    } else {
        let ip = copy_range(num, 0, p);
        let fp = copy_range(num, p + 1, num.len());
        proof {
            assert(ip@ =~= num@.take(p as int));
            assert(fp@ =~= num@.skip(p as int + 1));
        }
        let iv = match parse_digits_bounded(ip.as_slice(), MAX_WHOLE_MV) {
            Some(v) => v,
            None => {
                proof {
                    if all_digits(ip@) && digits_value(ip@) > MAX_WHOLE_MV {
                        assert(digits_value(ip@) * 1000 > u64::MAX);
                        if all_digits(fp@) {
                            lemma_f3_nonneg(fp@);
                        }
                    }
                }
                return None;
            },
        };
        if !check_all_digits(fp.as_slice()) {
            return None;
        }
        let f3 = frac3_value(fp.as_slice());
        proof {
            assert(iv <= MAX_WHOLE_MV);
            assert(iv as int * 1000 <= u64::MAX as int);
        }
        let prod = iv * 1000;
        if f3 > u64::MAX - prod {
            return None;
        }
        Some(prod + f3)
    }
}

/// Parse one whitespace token as a millivolt reading, in microvolts.
pub fn parse_mv_token(t: &[u8]) -> (r: Option<u64>)
    ensures
        r == spec_parse_mv_token(t@),
{
    if t.len() < 2 || !(t[t.len() - 2] == 109 && t[t.len() - 1] == 86) {
        return None;
    }
    let mut hi: usize = t.len();
    proof {
        assert(t@.take(t@.len() as int) =~= t@);
    }
    while hi >= 2 && t[hi - 2] == 109 && t[hi - 1] == 86
        invariant
            hi <= t@.len(),
            strip_mv_suffix(t@.take(hi as int)) == strip_mv_suffix(t@),
        decreases hi,
    {
        proof {
            let cut = t@.take(hi as int);
            assert(cut[hi - 2] == t@[hi - 2] && cut[hi - 1] == t@[hi - 1]);
            assert(cut.take(hi - 2) =~= t@.take(hi - 2));
        }
        hi -= 2;
    }
    let num = copy_range(t, 0, hi);
    proof {
        let cut = t@.take(hi as int);
        if cut.len() >= 2 {
            assert(cut[hi - 2] == t@[hi - 2] && cut[hi - 1] == t@[hi - 1]);
        }
        assert(strip_mv_suffix(cut) == cut);
        assert(num@ =~= cut);
    }
    parse_decimal_uv(num.as_slice())
}

/// The microvolt values of all millivolt tokens among `words`, in order.
pub open spec fn spec_mv_values(words: Seq<Seq<u8>>) -> Seq<u64>
    decreases words.len(),
{
    if words.len() == 0 {
        Seq::empty()
    } else {
        let rest = spec_mv_values(words.drop_last());
        match spec_parse_mv_token(words.last()) {
            Some(v) => rest.push(v),
            None => rest,
        }
    }
}

/// The sample this backend reads from one run of the utility: the average
/// of all millivolt tokens in its output, in microvolts, or nothing when
/// there is none.
pub open spec fn spec_amd_sample(raw: Seq<u8>) -> Option<u64> {
    let vals = spec_mv_values(spec_split_ws(raw));
    if vals.len() == 0 {
        None
    } else {
        Some((spec_sum(vals) / vals.len() as int) as u64)
    }
}

/// Average the utility's millivolt readings into the envelope; output with
/// no readings leaves it unchanged.
pub fn check_voltage(info: &mut VoltageInfo, raw: &[u8])
    ensures
        *final(info) == (match spec_amd_sample(raw@) {
            Some(v) => old(info).spec_update(v),
            None => *old(info),
        }),
{
    let words = split_ws(raw);
    let ghost wordsv = spec_split_ws(raw@);
    let mut sum: u128 = 0;
    let mut count: usize = 0;
    let ghost mut vals = Seq::<u64>::empty();
    proof {
        assert(wordsv.take(0) =~= Seq::<Seq<u8>>::empty());
    }
    let mut i: usize = 0;
    while i < words.len()
        invariant
            i <= words@.len(),
            words.deep_view() == wordsv,
            vals == spec_mv_values(wordsv.take(i as int)),
            sum as int == spec_sum(vals),
            count == vals.len(),
            count <= i,
            sum as int <= (i as int) * (u64::MAX as int),
        decreases words@.len() - i,
    {
        proof {
            assert(wordsv.take(i as int + 1).drop_last() =~= wordsv.take(i as int));
            assert(wordsv.take(i as int + 1).last() == wordsv[i as int]);
            assert(words@[i as int]@ == wordsv[i as int]);
        }
        match parse_mv_token(words[i].as_slice()) {
            Some(v) => {
                proof {
                    assert(vals.push(v).drop_last() =~= vals);
                    assert(usize::MAX as int <= u64::MAX as int);
                }
                sum = sum + (v as u128);
                count = count + 1;
                proof {
                    vals = vals.push(v);
                }
            },
            None => {},
        }
        i += 1;
    }
    proof {
        assert(wordsv.take(i as int) =~= wordsv);
    }
    if count > 0 {
        proof {
            lemma_avg_fits(vals);
        }
        let avg = (sum / (count as u128)) as u64;
        info.update(avg);
    }
}

/// The utility's offset code for a dropdown index: index 0 is the minimal
/// fixed offset, any other index scales by sixteen.
pub open spec fn spec_undervolt_code(i: int) -> int {
    if i == 0 {
        1
    } else {
        i * 16
    }
}

/// The offset code to pass to the vendor utility for a dropdown index.
/// After the caller applies it, the status is re-derived from a fresh
/// status query.
pub fn apply_undervolt(dropdown_index: usize) -> (vid: usize)
    requires
        dropdown_index * 16 <= usize::MAX,
    ensures
        vid == spec_undervolt_code(dropdown_index as int),
{
    if dropdown_index == 0 {
        1
    } else {
        dropdown_index * 16
    }
}

/// One row of the human-readable undervolt table: the selected columns,
/// tab-separated, with `.00` groups dropped from the voltage column.
pub open spec fn spec_status_row(cols: Seq<Seq<u8>>) -> Seq<u8> {
    cols[0] + seq![9u8] + cols[5] + seq![9u8] + spec_replace_dot00(cols[6]) + seq![9u8] + cols[7]
        + seq![9u8] + cols[11]
}

/// The rows built from the utility's table body: one per line with more
/// than twelve columns, in order.
pub open spec fn spec_status_rows(lines: Seq<Seq<u8>>) -> Seq<Seq<u8>>
    decreases lines.len(),
{
    if lines.len() == 0 {
        Seq::empty()
    } else {
        let rest = spec_status_rows(lines.drop_last());
        let cols = spec_split_ws(lines.last());
        if cols.len() > 11 {
            rest.push(spec_status_row(cols))
        } else {
            rest
        }
    }
}

/// The rows joined with line feeds, none trailing.
pub open spec fn spec_join_nl(rows: Seq<Seq<u8>>) -> Seq<u8>
    decreases rows.len(),
{
    if rows.len() == 0 {
        Seq::empty()
    } else if rows.len() == 1 {
        rows[0]
    } else {
        spec_join_nl(rows.drop_last()) + seq![10u8] + rows.last()
    }
}

/// The status text's bytes: the utility's three header lines skipped, the
/// remaining lines reduced to their key columns.
pub open spec fn spec_undervolt_status(raw: Seq<u8>) -> Seq<u8> {
    let ls = spec_lines(raw);
    let body = if ls.len() <= 3 {
        Seq::empty()
    } else {
        ls.skip(3)
    };
    spec_join_nl(spec_status_rows(body))
}

/// The status text, with non-ASCII bytes rendered as question marks.
pub open spec fn spec_status_chars(raw: Seq<u8>) -> Seq<char> {
    spec_sanitize(spec_undervolt_status(raw)).map_values(|b: u8| b as char)
}

/// Reduce one run of the utility's status query to the compact columnar
/// status text.
pub fn check_undervolt_status(raw: &[u8]) -> (r: String)
    ensures
        r@ == spec_status_chars(raw@),
{
    let ls = lines_of(raw);
    let ghost lsv = spec_lines(raw@);
    let ghost body = if lsv.len() <= 3 {
        Seq::<Seq<u8>>::empty()
    } else {
        lsv.skip(3)
    };
    let mut out: Vec<u8> = Vec::new();
    let mut first: bool = true;
    if ls.len() > 3 {
        let mut i: usize = 3;
        proof {
            assert(body.take(0) =~= Seq::<Seq<u8>>::empty());
        }
        while i < ls.len()
            invariant
                3 <= i <= ls@.len(),
                ls.deep_view() == lsv,
                lsv.len() > 3,
                body == lsv.skip(3),
                out@ == spec_join_nl(spec_status_rows(body.take(i - 3))),
                first == (spec_status_rows(body.take(i - 3)).len() == 0),
            decreases ls@.len() - i,
        {
            let ghost prefix = body.take(i - 3);
            let ghost rows = spec_status_rows(prefix);
            proof {
                assert(body.take(i - 3 + 1).drop_last() =~= prefix);
                assert(body.take(i - 3 + 1).last() == body[i - 3]);
                assert(body[i - 3] == lsv[i as int]);
                assert(ls@[i as int]@ == lsv[i as int]);
            }
            let cols = split_ws(ls[i].as_slice());
            let ghost colsv = spec_split_ws(lsv[i as int]);
            if cols.len() > 11 {
                let ghost prev = out@;
                if !first {
                    out.push(10);
                }
                proof {
                    assert(cols@[0]@ == colsv[0]);
                    assert(cols@[5]@ == colsv[5]);
                    assert(cols@[6]@ == colsv[6]);
                    assert(cols@[7]@ == colsv[7]);
                    assert(cols@[11]@ == colsv[11]);
                }
                push_all(&mut out, cols[0].as_slice());
                out.push(9);
                push_all(&mut out, cols[5].as_slice());
                out.push(9);
                let rep = replace_dot00(cols[6].as_slice());
                push_all(&mut out, rep.as_slice());
                out.push(9);
                push_all(&mut out, cols[7].as_slice());
                out.push(9);
                push_all(&mut out, cols[11].as_slice());
                first = false;
                proof {
                    let row = spec_status_row(colsv);
                    let rows2 = spec_status_rows(body.take(i - 3 + 1));
                    assert(rows2 == rows.push(row));
                    assert(rows2.drop_last() =~= rows);
                    assert(rows2.last() == row);
                    if rows.len() == 0 {
                        assert(prev =~= Seq::<u8>::empty());
                        assert(out@ =~= row);
                        assert(spec_join_nl(rows2) == rows2[0]);
                    } else {
                        assert(out@ =~= spec_join_nl(rows) + seq![10u8] + row);
                    }
                }
            } else {
                proof {
                    assert(spec_status_rows(body.take(i - 3 + 1)) == rows);
                }
            }
            i += 1;
        }
        proof {
            assert(body.take(i - 3) =~= body);
        }
    } else {
        proof {
            assert(out@ =~= spec_join_nl(spec_status_rows(body)));
        }
    }
    let clean = sanitize(out.as_slice());
    let r = ascii_to_string(clean);
    r
}

} // verus!
