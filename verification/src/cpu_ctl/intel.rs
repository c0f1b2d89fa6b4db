//! Intel voltage backend: undervolting is unsupported, and sampling
//! parses the per-core register readings of an elevated register-read
//! utility.
//!
//! The utility itself is a subprocess and is run by the caller, which
//! passes the raw standard output bytes in here.

use vstd::prelude::*;
use vstd::string::*;
use crate::cpu_ctl::{lemma_avg_fits, spec_sum, VoltageInfo};
use crate::text::{lines_of, parse_u64_bytes, spec_lines, spec_parse_u64, spec_trim, trim_bytes};

verus! {

/// The fixed reply for every undervolt operation on this backend.
pub open spec fn spec_unsupported() -> Seq<char> {
    "Undervolt not supported for Intel CPUs."@
}

/// Undervolting is not supported on this backend.
pub fn check_undervolt_status() -> (r: String)
    ensures
        r@ == spec_unsupported(),
{
    String::from_str("Undervolt not supported for Intel CPUs.")
}

/// Undervolting is not supported on this backend, whatever the index.
pub fn apply_undervolt(_dropdown_index: usize) -> (r: String)
    ensures
        r@ == spec_unsupported(),
{
    String::from_str("Undervolt not supported for Intel CPUs.")
}

/// The per-core register readings in the utility's output: one decimal
/// value per line, other lines ignored.
pub open spec fn spec_msr_values(lines: Seq<Seq<u8>>) -> Seq<u64>
    decreases lines.len(),
{
    if lines.len() == 0 {
        Seq::empty()
    } else {
        let rest = spec_msr_values(lines.drop_last());
        match spec_parse_u64(spec_trim(lines.last())) {
            Some(v) => rest.push(v),
            None => rest,
        }
    }
}

/// The sample this backend reads from one run: the average register
/// value, scaled from the hardware's 1/8192-volt units to microvolts,
/// saturated at the 64-bit range; no readings means no sample.
pub open spec fn spec_intel_sample(raw: Seq<u8>) -> Option<u64> {
    let vals = spec_msr_values(spec_lines(raw));
    if vals.len() == 0 {
        None
    } else {
        let uv = (spec_sum(vals) / vals.len() as int) * 1000000 / 8192;
        Some(
            if uv > u64::MAX {
                u64::MAX
            } else {
                uv as u64
            },
        )
    }
}

/// Average the utility's register readings into the envelope; output with
/// no readings leaves it unchanged.
pub fn check_voltage(info: &mut VoltageInfo, raw: &[u8])
    ensures
        *final(info) == (match spec_intel_sample(raw@) {
            Some(v) => old(info).spec_update(v),
            None => *old(info),
        }),
{
    let ls = lines_of(raw);
    let ghost lsv = spec_lines(raw@);
    let mut sum: u128 = 0;
    let mut count: usize = 0;
    let ghost mut vals = Seq::<u64>::empty();
    proof {
        assert(lsv.take(0) =~= Seq::<Seq<u8>>::empty());
    }
    let mut i: usize = 0;
    while i < ls.len()
        invariant
            i <= ls@.len(),
            ls.deep_view() == lsv,
            vals == spec_msr_values(lsv.take(i as int)),
            sum as int == spec_sum(vals),
            count == vals.len(),
            count <= i,
            sum as int <= (i as int) * (u64::MAX as int),
        decreases ls@.len() - i,
    {
        proof {
            assert(lsv.take(i as int + 1).drop_last() =~= lsv.take(i as int));
            assert(lsv.take(i as int + 1).last() == lsv[i as int]);
            assert(ls@[i as int]@ == lsv[i as int]);
        }
        let t = trim_bytes(ls[i].as_slice());
        match parse_u64_bytes(t.as_slice()) {
            Some(v) => {
                proof {
                    assert(vals.push(v).drop_last() =~= vals);
                    assert(usize::MAX as int <= u64::MAX as int);
                }
                sum = sum + (v as u128);
                count = count + 1;
                proof {
                    vals = vals.push(v);
                }
            },
            None => {},
        }
        i += 1;
    }
    proof {
        assert(lsv.take(i as int) =~= lsv);
    }
    if count > 0 {
        proof {
            lemma_avg_fits(vals);
        }
        let avg: u128 = sum / (count as u128);
        let uv128: u128 = avg * 1000000 / 8192;
        let v: u64 = if uv128 > (u64::MAX as u128) {
            u64::MAX
        } else {
            uv128 as u64
        };
        info.update(v);
    }
}

} // verus!
