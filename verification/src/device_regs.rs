//! EC register layouts for the supported laptop models, and resolution of a
//! detected identification string to one of them.
//!
//! Each layout maps a logical control point (such as the CPU fan mode
//! register) to the EC address used on that hardware revision, together
//! with the sentinel bytes that denote each named state. The table is
//! static: there is no safe default layout for an unrecognized machine.
//!
//! Reading the identification string and the CPU-info text is I/O and is
//! done by the caller, which passes both in here.

use vstd::prelude::*;
use vstd::string::*;
use crate::text::{contains_chars, contains_ci, is_char_substring, is_ci_substring, str_chars_eq};

verus! {

/// Complete set of EC register addresses and sentinel values for one
/// laptop model family.
#[derive(Debug, Clone, Copy, PartialEq, Eq, Structural)]
pub struct EcRegisters {
    // GPU fan
    pub gpu_fan_mode_control: u8,
    pub gpu_auto_mode: u8,
    pub gpu_turbo_mode: u8,
    pub gpu_manual_mode: u8,
    pub gpu_manual_speed_control: u8,
    // CPU fan
    pub cpu_fan_mode_control: u8,
    pub cpu_auto_mode: u8,
    pub cpu_turbo_mode: u8,
    pub cpu_manual_mode: u8,
    pub cpu_manual_speed_control: u8,
    // Keyboard backlight timeout
    pub kb_30_sec_auto: u8,
    pub kb_30_auto_off: u8,
    pub kb_30_auto_on: u8,
    // Fan speed readback
    pub cpu_fan_speed_high: u8,
    pub cpu_fan_speed_low: u8,
    pub gpu_fan_speed_high: u8,
    pub gpu_fan_speed_low: u8,
    // Temperatures
    pub cpu_temp: u8,
    pub gpu_temp: u8,
    pub sys_temp: u8,
    // Power / battery
    pub power_status: u8,
    pub power_plugged_in: u8,
    pub power_unplugged: u8,
    pub battery_charge_limit: u8,
    pub battery_limit_on: u8,
    pub battery_limit_off: u8,
    pub battery_status: u8,
    pub battery_charging: u8,
    pub battery_draining: u8,
    pub battery_off: u8,
    // USB charging while powered off
    pub usb_charging_reg: u8,
    pub usb_charging_on: u8,
    pub usb_charging_off: u8,
    // Nitro performance mode
    pub nitro_mode: u8,
    pub quiet_mode: u8,
    pub default_mode: u8,
    pub extreme_mode: u8,
}

/// The CPU vendor, which fixes the voltage backend. `Unknown` only
/// disables voltage features; it is not an error.
#[derive(Debug, Clone, Copy, PartialEq, Eq, Structural)]
pub enum CpuType {
    Amd,
    Intel,
    Unknown,
}

/// Register set of the AN515-46 family (also 54 / 56 / 57 / 58).
pub open spec fn spec_ecs_an515_46() -> EcRegisters {
    EcRegisters {
        gpu_fan_mode_control: 0x21,
        gpu_auto_mode: 0x10,
        gpu_turbo_mode: 0x20,
        gpu_manual_mode: 0x30,
        gpu_manual_speed_control: 0x3A,
        cpu_fan_mode_control: 0x22,
        cpu_auto_mode: 0x04,
        cpu_turbo_mode: 0x08,
        cpu_manual_mode: 0x0C,
        cpu_manual_speed_control: 0x37,
        kb_30_sec_auto: 0x06,
        kb_30_auto_off: 0x00,
        kb_30_auto_on: 0x1E,
        cpu_fan_speed_high: 0x13,
        cpu_fan_speed_low: 0x14,
        gpu_fan_speed_high: 0x15,
        gpu_fan_speed_low: 0x16,
        cpu_temp: 0xB0,
        gpu_temp: 0xB6,
        sys_temp: 0xB3,
        power_status: 0x00,
        power_plugged_in: 0x01,
        power_unplugged: 0x00,
        battery_charge_limit: 0x03,
        battery_limit_on: 0x51,
        battery_limit_off: 0x11,
        battery_status: 0xC1,
        battery_charging: 0x02,
        battery_draining: 0x01,
        battery_off: 0x00,
        usb_charging_reg: 0x08,
        usb_charging_on: 0x0F,
        usb_charging_off: 0x1F,
        nitro_mode: 0x2C,
        quiet_mode: 0x00,
        default_mode: 0x01,
        extreme_mode: 0x04,
    }
}

/// Register set of the AN515-44 (a few addresses differ).
pub open spec fn spec_ecs_an515_44() -> EcRegisters {
    EcRegisters {
        gpu_temp: 0xB4,
        sys_temp: 0xB0,
        battery_limit_on: 0x40,
        battery_limit_off: 0x00,
        ..spec_ecs_an515_46()
    }
}

/// Register set of the AN515-46 family (also 54 / 56 / 57 / 58).
pub fn ecs_an515_46() -> (r: EcRegisters)
    ensures
        r == spec_ecs_an515_46(),
{
    EcRegisters {
        gpu_fan_mode_control: 0x21,
        gpu_auto_mode: 0x10,
        gpu_turbo_mode: 0x20,
        gpu_manual_mode: 0x30,
        gpu_manual_speed_control: 0x3A,
        cpu_fan_mode_control: 0x22,
        cpu_auto_mode: 0x04,
        cpu_turbo_mode: 0x08,
        cpu_manual_mode: 0x0C,
        cpu_manual_speed_control: 0x37,
        kb_30_sec_auto: 0x06,
        kb_30_auto_off: 0x00,
        kb_30_auto_on: 0x1E,
        cpu_fan_speed_high: 0x13,
        cpu_fan_speed_low: 0x14,
        gpu_fan_speed_high: 0x15,
        gpu_fan_speed_low: 0x16,
        cpu_temp: 0xB0,
        gpu_temp: 0xB6,
        sys_temp: 0xB3,
        power_status: 0x00,
        power_plugged_in: 0x01,
        power_unplugged: 0x00,
        battery_charge_limit: 0x03,
        battery_limit_on: 0x51,
        battery_limit_off: 0x11,
        battery_status: 0xC1,
        battery_charging: 0x02,
        battery_draining: 0x01,
        battery_off: 0x00,
        usb_charging_reg: 0x08,
        usb_charging_on: 0x0F,
        usb_charging_off: 0x1F,
        nitro_mode: 0x2C,
        quiet_mode: 0x00,
        default_mode: 0x01,
        extreme_mode: 0x04,
    }
}

/// Register set of the AN515-44 (a few addresses differ).
pub fn ecs_an515_44() -> (r: EcRegisters)
    ensures
        r == spec_ecs_an515_44(),
{
    let base = ecs_an515_46();
    EcRegisters { gpu_temp: 0xB4, sys_temp: 0xB0, battery_limit_on: 0x40, battery_limit_off: 0x00, ..base }
}

/// The static table of known model names and their register sets, in the
/// order in which the substring fallback tries them.
pub open spec fn spec_model_table() -> Seq<(Seq<char>, EcRegisters)> {
    seq![
        ("Nitro AN515-44"@, spec_ecs_an515_44()),
        ("Nitro AN515-46"@, spec_ecs_an515_46()),
        ("Nitro AN515-54"@, spec_ecs_an515_46()),
        ("Nitro AN515-56"@, spec_ecs_an515_46()),
        ("Nitro AN515-57"@, spec_ecs_an515_46()),
        ("Nitro AN515-58"@, spec_ecs_an515_46()),
    ]
}

/// The known model names and their register sets.
pub fn model_to_ecs() -> (r: Vec<(String, EcRegisters)>)
    ensures
        r@.len() == spec_model_table().len(),
        forall|i: int|
            0 <= i < r@.len() ==> (#[trigger] r@[i].0)@ == spec_model_table()[i].0 && r@[i].1
                == spec_model_table()[i].1,
{
    let mut table: Vec<(String, EcRegisters)> = Vec::new();
    table.push((String::from_str("Nitro AN515-44"), ecs_an515_44()));
    table.push((String::from_str("Nitro AN515-46"), ecs_an515_46()));
    table.push((String::from_str("Nitro AN515-54"), ecs_an515_46()));
    table.push((String::from_str("Nitro AN515-56"), ecs_an515_46()));
    table.push((String::from_str("Nitro AN515-57"), ecs_an515_46()));
    table.push((String::from_str("Nitro AN515-58"), ecs_an515_46()));
    table
}

/// The first table entry whose name equals `model` exactly.
pub open spec fn spec_first_exact(t: Seq<(Seq<char>, EcRegisters)>, model: Seq<char>) -> Option<
    EcRegisters,
>
    decreases t.len(),
{
    if t.len() == 0 {
        None
    } else if t[0].0 == model {
        Some(t[0].1)
    } else {
        spec_first_exact(t.skip(1), model)
    }
}

/// The first table entry whose name occurs inside `model`: vendor firmware
/// sometimes appends extra text to the model string.
pub open spec fn spec_first_substring(t: Seq<(Seq<char>, EcRegisters)>, model: Seq<char>) -> Option<
    EcRegisters,
>
    decreases t.len(),
{
    if t.len() == 0 {
        None
    } else if is_char_substring(model, t[0].0) {
        Some(t[0].1)
    } else {
        spec_first_substring(t.skip(1), model)
    }
}

/// The register set for a detected model string: an exact table match
/// first, then the substring fallback, else nothing.
pub open spec fn spec_resolve_registers(model: Seq<char>) -> Option<EcRegisters> {
    match spec_first_exact(spec_model_table(), model) {
        Some(r) => Some(r),
        None => spec_first_substring(spec_model_table(), model),
    }
}

/// Resolve the detected identification string to a register set.
///
/// `None` means the machine is unsupported: a fatal condition for the
/// daemon, decided by the caller.
pub fn resolve_registers(model: &str) -> (r: Option<EcRegisters>)
    ensures
        r == spec_resolve_registers(model@),
{
    let table = model_to_ecs();
    proof {
        assert(spec_model_table().skip(0) =~= spec_model_table());
    }
    let mut i: usize = 0;
    while i < table.len()
        invariant
            table@.len() == spec_model_table().len(),
            forall|k: int|
                0 <= k < table@.len() ==> (#[trigger] table@[k].0)@ == spec_model_table()[k].0
                    && table@[k].1 == spec_model_table()[k].1,
            i <= table@.len(),
            spec_first_exact(spec_model_table().skip(i as int), model@) == spec_first_exact(
                spec_model_table(),
                model@,
            ),
        decreases table@.len() - i,
    {
        let hit = str_chars_eq(model, table[i].0.as_str());
        proof {
            let t = spec_model_table().skip(i as int);
            assert(t[0] == spec_model_table()[i as int]);
            assert(t.skip(1) =~= spec_model_table().skip(i as int + 1));
        }
        if hit {
            return Some(table[i].1);
        }
        i += 1;
    }
    proof {
        assert(spec_model_table().skip(0) =~= spec_model_table());
    }
    let mut j: usize = 0;
    while j < table.len()
        invariant
            table@.len() == spec_model_table().len(),
            forall|k: int|
                0 <= k < table@.len() ==> (#[trigger] table@[k].0)@ == spec_model_table()[k].0
                    && table@[k].1 == spec_model_table()[k].1,
            j <= table@.len(),
            spec_first_exact(spec_model_table(), model@) is None,
            spec_first_substring(spec_model_table().skip(j as int), model@)
                == spec_first_substring(spec_model_table(), model@),
        decreases table@.len() - j,
    {
        let hit = contains_chars(model, table[j].0.as_str());
        proof {
            let t = spec_model_table().skip(j as int);
            assert(t[0] == spec_model_table()[j as int]);
            assert(t.skip(1) =~= spec_model_table().skip(j as int + 1));
        }
        if hit {
            return Some(table[j].1);
        }
        j += 1;
    }
    None
}

/// The vendor read from the CPU-info text: the first of "amd" / "intel"
/// found, case-insensitively, wins; neither means `Unknown`.
pub open spec fn spec_detect_cpu_type(cpuinfo: Seq<char>) -> CpuType {
    if is_ci_substring(cpuinfo, seq!['a', 'm', 'd']) {
        CpuType::Amd
    } else if is_ci_substring(cpuinfo, seq!['i', 'n', 't', 'e', 'l']) {
        CpuType::Intel
    } else {
        CpuType::Unknown
    }
}

/// Decide the CPU vendor from the CPU-info text handed in by the caller.
pub fn detect_cpu_type(cpuinfo: &str) -> (r: CpuType)
    ensures
        r == spec_detect_cpu_type(cpuinfo@),
{
    proof {
        reveal_strlit("amd");
        reveal_strlit("intel");
        assert("amd"@ =~= seq!['a', 'm', 'd']);
        assert("intel"@ =~= seq!['i', 'n', 't', 'e', 'l']);
    }
    if contains_ci(cpuinfo, "amd") {
        CpuType::Amd
    } else if contains_ci(cpuinfo, "intel") {
        CpuType::Intel
    } else {
        CpuType::Unknown
    }
}

/// The model string to resolve: the identification string the caller read,
/// or "Unknown" when none was available.
pub fn detect_model(product_name: Option<String>) -> (r: String)
    ensures
        product_name is Some ==> r@ == product_name.unwrap()@,
        product_name is None ==> r@ == "Unknown"@,
{
    match product_name {
        Some(s) => s,
        None => String::from_str("Unknown"),
    }
}

} // verus!
