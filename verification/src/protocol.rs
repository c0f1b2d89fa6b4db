//! The typed request/response protocol between clients and the daemon.
//!
//! Classification of raw register bytes is lossless: every mode enum has an
//! `Unknown` variant that carries the exact unrecognized byte.

use vstd::prelude::*;
use vstd::string::*;
use crate::cpu_ctl::VoltageInfo;

verus! {

#[derive(Debug, PartialEq, Eq, Clone, Copy, Structural)]
pub enum FanMode {
    Auto,
    Turbo,
    Manual,
    Unknown(u8),
}

#[derive(Debug, PartialEq, Eq, Clone, Copy, Structural)]
pub enum NitroMode {
    Quiet,
    Default,
    Extreme,
    Unknown(u8),
}

#[derive(Debug, PartialEq, Eq, Clone, Copy, Structural)]
pub enum BatteryStatus {
    Charging,
    Discharging,
    NotInUse,
    Unknown(u8),
}

/// One full status payload, as reported to a client.
#[derive(Debug)]
pub struct EcData {
    pub cpu_temp: u8,
    pub gpu_temp: u8,
    pub sys_temp: u8,
    pub cpu_fan_speed: u16,
    pub gpu_fan_speed: u16,
    pub power_plugged_in: bool,
    pub battery_status: BatteryStatus,
    pub cpu_mode: FanMode,
    pub gpu_mode: FanMode,
    pub nitro_mode: NitroMode,
    pub kb_timeout: bool,
    pub usb_charging: bool,
    pub battery_charge_limit: bool,
    pub voltage_info: VoltageInfo,
    pub undervolt_status: String,
    pub cpu_manual_level: u8,
    pub gpu_manual_level: u8,
}

/// Mathematical image of `EcData`: the status string as a character
/// sequence, everything else as plain values.
pub struct EcDataV {
    pub cpu_temp: u8,
    pub gpu_temp: u8,
    pub sys_temp: u8,
    pub cpu_fan_speed: u16,
    pub gpu_fan_speed: u16,
    pub power_plugged_in: bool,
    pub battery_status: BatteryStatus,
    pub cpu_mode: FanMode,
    pub gpu_mode: FanMode,
    pub nitro_mode: NitroMode,
    pub kb_timeout: bool,
    pub usb_charging: bool,
    pub battery_charge_limit: bool,
    pub voltage_info: VoltageInfo,
    pub undervolt_status: Seq<char>,
    pub cpu_manual_level: u8,
    pub gpu_manual_level: u8,
}

impl View for EcData {
    type V = EcDataV;

    open spec fn view(&self) -> EcDataV {
        EcDataV {
            cpu_temp: self.cpu_temp,
            gpu_temp: self.gpu_temp,
            sys_temp: self.sys_temp,
            cpu_fan_speed: self.cpu_fan_speed,
            gpu_fan_speed: self.gpu_fan_speed,
            power_plugged_in: self.power_plugged_in,
            battery_status: self.battery_status,
            cpu_mode: self.cpu_mode,
            gpu_mode: self.gpu_mode,
            nitro_mode: self.nitro_mode,
            kb_timeout: self.kb_timeout,
            usb_charging: self.usb_charging,
            battery_charge_limit: self.battery_charge_limit,
            voltage_info: self.voltage_info,
            undervolt_status: self.undervolt_status@,
            cpu_manual_level: self.cpu_manual_level,
            gpu_manual_level: self.gpu_manual_level,
        }
    }
}

#[derive(Debug, PartialEq, Eq, Clone, Copy, Structural)]
pub enum Request {
    GetStatus,
    SetCpuFanMode(FanMode),
    SetGpuFanMode(FanMode),
    SetCpuFanSpeed(u8),
    SetGpuFanSpeed(u8),
    SetNitroMode(NitroMode),
    SetKbTimeout(bool),
    SetUsbCharging(bool),
    SetBatteryLimit(bool),
    SetKeyboardColor(u8, u8, u8, u8),
    ApplyUndervolt(usize),
}

#[derive(Debug)]
pub enum Response {
    Status(EcData),
    Done,
    Error(String),
}

/// Mathematical image of `Response`.
pub enum ResponseV {
    Status(EcDataV),
    Done,
    Error(Seq<char>),
}

impl View for Response {
    type V = ResponseV;

    open spec fn view(&self) -> ResponseV {
        match self {
            Response::Status(d) => ResponseV::Status(d@),
            Response::Done => ResponseV::Done,
            Response::Error(m) => ResponseV::Error(m@),
        }
    }
}

/// A human-readable name for a battery status.
pub fn battery_status_text(s: &BatteryStatus) -> (r: String)
    ensures
        r@ == spec_battery_status_text(*s),
{
    match s {
        BatteryStatus::Charging => String::from_str("Charging"),
        BatteryStatus::Discharging => String::from_str("Discharging"),
        BatteryStatus::NotInUse => String::from_str("Not In Use"),
        BatteryStatus::Unknown(_) => String::from_str("Unknown"),
    }
}

pub open spec fn spec_battery_status_text(s: BatteryStatus) -> Seq<char> {
    match s {
        BatteryStatus::Charging => "Charging"@,
        BatteryStatus::Discharging => "Discharging"@,
        BatteryStatus::NotInUse => "Not In Use"@,
        BatteryStatus::Unknown(_) => "Unknown"@,
    }
}

/// A human-readable name for a nitro mode.
pub fn nitro_mode_text(m: &NitroMode) -> (r: String)
    ensures
        r@ == spec_nitro_mode_text(*m),
{
    match m {
        NitroMode::Quiet => String::from_str("Quiet"),
        NitroMode::Default => String::from_str("Default"),
        NitroMode::Extreme => String::from_str("Extreme"),
        NitroMode::Unknown(_) => String::from_str("Unknown"),
    }
}

pub open spec fn spec_nitro_mode_text(m: NitroMode) -> Seq<char> {
    match m {
        NitroMode::Quiet => "Quiet"@,
        NitroMode::Default => "Default"@,
        NitroMode::Extreme => "Extreme"@,
        NitroMode::Unknown(_) => "Unknown"@,
    }
}

/// "On" when the battery charge limit is active, else "Off".
pub fn charge_limit_text(on: bool) -> (r: String)
    ensures
        on ==> r@ == "On"@,
        !on ==> r@ == "Off"@,
{
    if on {
        String::from_str("On")
    } else {
        String::from_str("Off")
    }
}

} // verus!
