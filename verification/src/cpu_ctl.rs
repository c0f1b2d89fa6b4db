//! CPU voltage telemetry: the recorded envelope of sampled core voltages.
//!
//! Voltages are carried in microvolts so that the envelope arithmetic is
//! exact. The envelope only widens: the minimum starts above and the
//! maximum below any real sample, the first sample pulls both to itself,
//! and later samples can only lower the minimum or raise the maximum.

use vstd::prelude::*;
use vstd::string::*;
use crate::device_regs::CpuType;

pub mod amd;
pub mod intel;

verus! {

/// The lowest recorded voltage starts at 2 V, above any plausible core
/// voltage, so the first sample always becomes the new minimum.
pub const INITIAL_MIN_UV: u64 = 2_000_000;

/// The highest recorded voltage starts at 0 V, below any real sample.
pub const INITIAL_MAX_UV: u64 = 0;

/// The displayed voltage before the first sample arrives: 0.5 V.
pub const INITIAL_VOLTAGE_UV: u64 = 500_000;

/// Snapshot of the sampled CPU core voltage, in microvolts.
#[derive(Debug, Clone, Copy, PartialEq, Eq, Structural)]
pub struct VoltageInfo {
    pub voltage: u64,
    pub min_recorded: u64,
    pub max_recorded: u64,
}

impl Default for VoltageInfo {
    fn default() -> (r: Self)
        ensures
            r == Self::spec_default(),
    {
        VoltageInfo {
            voltage: INITIAL_VOLTAGE_UV,
            min_recorded: INITIAL_MIN_UV,
            max_recorded: INITIAL_MAX_UV,
        }
    }
}

impl VoltageInfo {
    /// The state before any sample: see the module constants.
    pub open spec fn spec_default() -> VoltageInfo {
        VoltageInfo {
            voltage: INITIAL_VOLTAGE_UV,
            min_recorded: INITIAL_MIN_UV,
            max_recorded: INITIAL_MAX_UV,
        }
    }

    /// The envelope after absorbing one sample `v`.
    pub open spec fn spec_update(self, v: u64) -> VoltageInfo {
        VoltageInfo {
            voltage: v,
            min_recorded: if v < self.min_recorded {
                v
            } else {
                self.min_recorded
            },
            max_recorded: if v > self.max_recorded {
                v
            } else {
                self.max_recorded
            },
        }
    }

    /// Absorb one sample: record it as current, and widen the envelope.
    pub fn update(&mut self, v: u64)
        ensures
            *final(self) == old(self).spec_update(v),
    {
        self.voltage = v;
        if v < self.min_recorded {
            self.min_recorded = v;
        }
        if v > self.max_recorded {
            self.max_recorded = v;
        }
    }
}

/// The envelope after absorbing the samples of `s` in order.
pub open spec fn spec_apply_samples(init: VoltageInfo, s: Seq<u64>) -> VoltageInfo
    decreases s.len(),
{
    if s.len() == 0 {
        init
    } else {
        spec_apply_samples(init.spec_update(s[0]), s.skip(1))
    }
}

/// For any sequence of sampled voltages, the recorded minimum afterwards is
/// the least of the initial minimum and all samples, the recorded maximum is
/// the greatest of the initial maximum and all samples, and the current
/// voltage is the last sample (or unchanged when there is none).
pub proof fn lemma_voltage_envelope(init: VoltageInfo, s: Seq<u64>)
    ensures
        spec_apply_samples(init, s).min_recorded <= init.min_recorded,
        forall|i: int| 0 <= i < s.len() ==> spec_apply_samples(init, s).min_recorded <= s[i],
        spec_apply_samples(init, s).min_recorded == init.min_recorded || exists|i: int|
            0 <= i < s.len() && s[i] == spec_apply_samples(init, s).min_recorded,
        spec_apply_samples(init, s).max_recorded >= init.max_recorded,
        forall|i: int| 0 <= i < s.len() ==> spec_apply_samples(init, s).max_recorded >= s[i],
        spec_apply_samples(init, s).max_recorded == init.max_recorded || exists|i: int|
            0 <= i < s.len() && s[i] == spec_apply_samples(init, s).max_recorded,
        s.len() > 0 ==> spec_apply_samples(init, s).voltage == s[s.len() - 1],
        s.len() == 0 ==> spec_apply_samples(init, s) == init,
    decreases s.len(),
{
    if s.len() > 0 {
        let next = init.spec_update(s[0]);
        let rest = s.skip(1);
        lemma_voltage_envelope(next, rest);
        assert forall|i: int| 0 <= i < s.len() implies spec_apply_samples(init, s).min_recorded
            <= s[i] by {
            if i > 0 {
                assert(rest[i - 1] == s[i]);
            }
        }
        assert forall|i: int| 0 <= i < s.len() implies spec_apply_samples(init, s).max_recorded
            >= s[i] by {
            if i > 0 {
                assert(rest[i - 1] == s[i]);
            }
        }
        let m = spec_apply_samples(init, s).min_recorded;
        if m != init.min_recorded {
            if m == next.min_recorded {
                assert(s[0] == m);
            } else {
                let j = choose|j: int| 0 <= j < rest.len() && rest[j] == m;
                assert(s[j + 1] == m);
            }
        }
        let x = spec_apply_samples(init, s).max_recorded;
        if x != init.max_recorded {
            if x == next.max_recorded {
                assert(s[0] == x);
            } else {
                let j = choose|j: int| 0 <= j < rest.len() && rest[j] == x;
                assert(s[j + 1] == x);
            }
        }
        if s.len() > 1 {
            assert(rest[rest.len() - 1] == s[s.len() - 1]);
        }
    }
}

/// The sum of a sequence of samples.
pub open spec fn spec_sum(s: Seq<u64>) -> int
    decreases s.len(),
{
    if s.len() == 0 {
        0
    } else {
        spec_sum(s.drop_last()) + s.last()
    }
}

/// A sum of 64-bit samples is bounded by their count times the range.
pub proof fn lemma_sum_bounds(s: Seq<u64>)
    ensures
        0 <= spec_sum(s),
        spec_sum(s) <= s.len() * (u64::MAX as int),
    decreases s.len(),
{
    if s.len() > 0 {
        lemma_sum_bounds(s.drop_last());
        assert((s.len() - 1) * (u64::MAX as int) + (u64::MAX as int) == s.len() * (
        u64::MAX as int)) by (nonlinear_arith);
    }
}

/// The average of 64-bit samples is again a 64-bit value.
pub proof fn lemma_avg_fits(s: Seq<u64>)
    requires
        s.len() > 0,
    ensures
        0 <= spec_sum(s) / (s.len() as int) <= u64::MAX,
{
    lemma_sum_bounds(s);
    let n = s.len() as int;
    let m = u64::MAX as int;
    vstd::arithmetic::div_mod::lemma_div_multiples_vanish(0, n);
    vstd::arithmetic::div_mod::lemma_div_is_ordered(0, spec_sum(s), n);
    vstd::arithmetic::div_mod::lemma_div_is_ordered(spec_sum(s), n * m, n);
    vstd::arithmetic::div_mod::lemma_div_multiples_vanish(m, n);
}

/// The fixed reply for undervolt operations when the vendor is unknown.
pub open spec fn spec_unknown_unsupported() -> Seq<char> {
    "Undervolt not supported for this CPU type."@
}

/// The status text each backend derives from one run of its status query.
pub open spec fn spec_backend_status(cpu_type: CpuType, raw: Seq<u8>) -> Seq<char> {
    match cpu_type {
        CpuType::Amd => amd::spec_status_chars(raw),
        CpuType::Intel => intel::spec_unsupported(),
        CpuType::Unknown => spec_unknown_unsupported(),
    }
}

/// The envelope after one sampling run of the active backend; an unknown
/// vendor never samples.
pub open spec fn spec_refreshed(cpu_type: CpuType, vi: VoltageInfo, raw: Seq<u8>) -> VoltageInfo {
    match cpu_type {
        CpuType::Amd => match amd::spec_amd_sample(raw) {
            Some(v) => vi.spec_update(v),
            None => vi,
        },
        CpuType::Intel => match intel::spec_intel_sample(raw) {
            Some(v) => vi.spec_update(v),
            None => vi,
        },
        CpuType::Unknown => vi,
    }
}

/// The CPU control dispatcher: the backend is picked from the detected
/// vendor at construction and never changes for the daemon's life.
///
/// The vendor utilities themselves are subprocesses and are run by the
/// caller, which passes their raw output in to each operation.
pub struct CpuController {
    /// The detected vendor; fixed after construction.
    pub cpu_type: CpuType,
    pub voltage_info: VoltageInfo,
    pub undervolt_status: String,
}

impl CpuController {
    /// Build the dispatcher: the envelope starts at its initial bounds and
    /// the status text is derived from one initial status query.
    pub fn new(cpu_type: CpuType, initial_status_raw: &[u8]) -> (r: Self)
        ensures
            r.cpu_type == cpu_type,
            r.voltage_info == VoltageInfo::spec_default(),
            r.undervolt_status@ == spec_backend_status(cpu_type, initial_status_raw@),
    {
        let undervolt_status = match cpu_type {
            CpuType::Amd => amd::check_undervolt_status(initial_status_raw),
            CpuType::Intel => intel::check_undervolt_status(),
            CpuType::Unknown => String::from_str("Undervolt not supported for this CPU type."),
        };
        CpuController { cpu_type, voltage_info: VoltageInfo::default(), undervolt_status }
    }

    /// Re-derive the status text after an undervolt was applied: the
    /// caller has already run the vendor utility with the offset code (see
    /// `amd::apply_undervolt`) and hands in the re-queried status output.
    pub fn apply_undervolt(&mut self, dropdown_index: usize, requery_raw: &[u8])
        ensures
            final(self).cpu_type == old(self).cpu_type,
            final(self).voltage_info == old(self).voltage_info,
            final(self).undervolt_status@ == spec_backend_status(old(self).cpu_type, requery_raw@),
    {
        match self.cpu_type {
            CpuType::Amd => {
                self.undervolt_status = amd::check_undervolt_status(requery_raw);
            },
            CpuType::Intel => {
                self.undervolt_status = intel::apply_undervolt(dropdown_index);
            },
            CpuType::Unknown => {
                self.undervolt_status = String::from_str(
                    "Undervolt not supported for this CPU type.",
                );
            },
        }
    }

    /// Absorb one sampling run of the active backend into the envelope.
    pub fn refresh_voltage(&mut self, raw: &[u8])
        ensures
            final(self).cpu_type == old(self).cpu_type,
            final(self).undervolt_status == old(self).undervolt_status,
            final(self).voltage_info == spec_refreshed(
                old(self).cpu_type,
                old(self).voltage_info,
                raw@,
            ),
    {
        match self.cpu_type {
            CpuType::Amd => {
                let mut vi = self.voltage_info;
                amd::check_voltage(&mut vi, raw);
                self.voltage_info = vi;
            },
            CpuType::Intel => {
                let mut vi = self.voltage_info;
                intel::check_voltage(&mut vi, raw);
                self.voltage_info = vi;
            },
            CpuType::Unknown => {},
        }
    }
}

} // verus!
