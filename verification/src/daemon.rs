//! The request router: the daemon's protocol state machine.
//!
//! The router owns the register map, the EC snapshot and the voltage
//! dispatcher, and turns each typed request into a response plus a list of
//! write effects. The caller performs the effects in order — EC register
//! writes, keyboard device writes, settings files — and, for the requests
//! that need fresh hardware data, refreshes the snapshot and runs the
//! vendor utility beforehand, handing the raw bytes in through
//! [`RouterInput`].
//!
//! The only protocol-level failure is a mode value outside the named set;
//! absorbed hardware I/O failures never surface here.

use vstd::prelude::*;
use vstd::string::*;
use crate::config::{NitroConfig, RgbConfig};
use crate::cpu_ctl::{spec_backend_status, spec_refreshed, CpuController, VoltageInfo};
use crate::device_regs::{CpuType, EcRegisters};
use crate::ec_writer::{spec_ec_read, EcWriter};
use crate::keyboard;
use crate::keyboard::{KbWrite, KbWriteV, Rgb};
use crate::protocol::{
    BatteryStatus, EcData, EcDataV, FanMode, NitroMode, Request, Response, ResponseV,
};

verus! {

/// The classification of a fan-mode register byte: the first matching
/// sentinel wins, in the fixed order auto, turbo, manual; any other byte
/// is kept verbatim.
pub open spec fn spec_fan_mode(val: u8, auto: u8, turbo: u8, manual: u8) -> FanMode {
    if val == auto {
        FanMode::Auto
    } else if val == turbo {
        FanMode::Turbo
    } else if val == manual {
        FanMode::Manual
    } else {
        FanMode::Unknown(val)
    }
}

/// The classification of the nitro-mode register byte, quiet before
/// default before extreme.
pub open spec fn spec_nitro_mode(regs: EcRegisters, val: u8) -> NitroMode {
    if val == regs.quiet_mode {
        NitroMode::Quiet
    } else if val == regs.default_mode {
        NitroMode::Default
    } else if val == regs.extreme_mode {
        NitroMode::Extreme
    } else {
        NitroMode::Unknown(val)
    }
}

/// The classification of the battery-status register byte.
pub open spec fn spec_battery_status(regs: EcRegisters, val: u8) -> BatteryStatus {
    if val == regs.battery_charging {
        BatteryStatus::Charging
    } else if val == regs.battery_draining {
        BatteryStatus::Discharging
    } else if val == regs.battery_off {
        BatteryStatus::NotInUse
    } else {
        BatteryStatus::Unknown(val)
    }
}

/// For every raw byte, classification returns the variant of the first
/// sentinel it equals, in the fixed priority order, and otherwise keeps
/// the byte exactly.
pub proof fn lemma_fan_mode_classification(v: u8, auto: u8, turbo: u8, manual: u8)
    ensures
        v == auto ==> spec_fan_mode(v, auto, turbo, manual) == FanMode::Auto,
        v != auto && v == turbo ==> spec_fan_mode(v, auto, turbo, manual) == FanMode::Turbo,
        v != auto && v != turbo && v == manual ==> spec_fan_mode(v, auto, turbo, manual)
            == FanMode::Manual,
        v != auto && v != turbo && v != manual ==> spec_fan_mode(v, auto, turbo, manual)
            == FanMode::Unknown(v),
{
}

/// A fan speed readback: the low register forms the high byte.
pub open spec fn spec_fan_speed(hi: u8, lo: u8) -> u16 {
    ((lo as u16) << 8) | (hi as u16)
}

/// One pending write effect, to be performed by the caller in order.
#[derive(Debug)]
pub enum Effect {
    /// Write `value` to the EC register at `address`.
    EcWrite { address: u8, value: u8 },
    /// Write a payload to a keyboard backlight device.
    Keyboard(KbWrite),
    /// Persist the daemon settings file.
    SaveSettings(NitroConfig),
    /// Persist the keyboard lighting file.
    SaveRgb(RgbConfig),
}

/// Mathematical image of `Effect`.
pub enum EffectV {
    EcWrite { address: u8, value: u8 },
    Keyboard(KbWriteV),
    SaveSettings(NitroConfig),
    SaveRgb(RgbConfig),
}

impl View for Effect {
    type V = EffectV;

    open spec fn view(&self) -> EffectV {
        match self {
            Effect::EcWrite { address, value } => EffectV::EcWrite {
                address: *address,
                value: *value,
            },
            Effect::Keyboard(w) => EffectV::Keyboard(w@),
            Effect::SaveSettings(c) => EffectV::SaveSettings(*c),
            Effect::SaveRgb(c) => EffectV::SaveRgb(*c),
        }
    }
}

impl DeepView for Effect {
    type V = EffectV;

    open spec fn deep_view(&self) -> EffectV {
        self@
    }
}

/// The fresh data a request cycle may need, gathered by the caller before
/// the call: a full EC snapshot and one run of the vendor utility (for
/// `GetStatus` and `ApplyUndervolt`), and the currently persisted settings
/// (for the mutating requests). Unused members are ignored.
pub struct RouterInput {
    /// A fresh read of the whole EC address space.
    pub snapshot: Vec<u8>,
    /// The raw standard output of the vendor utility run for this request.
    pub utility_output: Vec<u8>,
    /// The persisted settings, as currently on disk (or the default).
    pub persisted: NitroConfig,
    /// The persisted lighting configuration, as currently on disk (or the
    /// default).
    pub persisted_rgb: RgbConfig,
}

/// Mathematical image of `RouterInput`.
pub struct RouterInputV {
    pub snapshot: Seq<u8>,
    pub utility_output: Seq<u8>,
    pub persisted: NitroConfig,
    pub persisted_rgb: RgbConfig,
}

impl View for RouterInput {
    type V = RouterInputV;

    open spec fn view(&self) -> RouterInputV {
        RouterInputV {
            snapshot: self.snapshot@,
            utility_output: self.utility_output@,
            persisted: self.persisted,
            persisted_rgb: self.persisted_rgb,
        }
    }
}

/// The daemon's request-handling state: the immutable register map, the
/// buffered EC snapshot, and the voltage dispatcher.
pub struct DaemonState {
    pub regs: EcRegisters,
    pub ec: EcWriter,
    pub cpu_ctl: CpuController,
}

/// Mathematical image of `DaemonState`.
pub struct DaemonStateV {
    pub regs: EcRegisters,
    pub ec: Seq<u8>,
    pub cpu_type: CpuType,
    pub voltage_info: VoltageInfo,
    pub undervolt_status: Seq<char>,
}

impl View for DaemonState {
    type V = DaemonStateV;

    open spec fn view(&self) -> DaemonStateV {
        DaemonStateV {
            regs: self.regs,
            ec: self.ec@,
            cpu_type: self.cpu_ctl.cpu_type,
            voltage_info: self.cpu_ctl.voltage_info,
            undervolt_status: self.cpu_ctl.undervolt_status@,
        }
    }
}

/// The outcome of one routed request: the state afterwards, the response,
/// and the effects the caller performs, in order.
pub struct StepV {
    pub state: DaemonStateV,
    pub response: ResponseV,
    pub effects: Seq<EffectV>,
}

/// The full status payload read from a snapshot, with the given voltage
/// envelope and status text.
pub open spec fn spec_status_data(
    regs: EcRegisters,
    buf: Seq<u8>,
    vi: VoltageInfo,
    status: Seq<char>,
) -> EcDataV {
    EcDataV {
        cpu_temp: spec_ec_read(buf, regs.cpu_temp),
        gpu_temp: spec_ec_read(buf, regs.gpu_temp),
        sys_temp: spec_ec_read(buf, regs.sys_temp),
        cpu_fan_speed: spec_fan_speed(
            spec_ec_read(buf, regs.cpu_fan_speed_high),
            spec_ec_read(buf, regs.cpu_fan_speed_low),
        ),
        gpu_fan_speed: spec_fan_speed(
            spec_ec_read(buf, regs.gpu_fan_speed_high),
            spec_ec_read(buf, regs.gpu_fan_speed_low),
        ),
        power_plugged_in: spec_ec_read(buf, regs.power_status) == regs.power_plugged_in,
        battery_status: spec_battery_status(regs, spec_ec_read(buf, regs.battery_status)),
        cpu_mode: spec_fan_mode(
            spec_ec_read(buf, regs.cpu_fan_mode_control),
            regs.cpu_auto_mode,
            regs.cpu_turbo_mode,
            regs.cpu_manual_mode,
        ),
        gpu_mode: spec_fan_mode(
            spec_ec_read(buf, regs.gpu_fan_mode_control),
            regs.gpu_auto_mode,
            regs.gpu_turbo_mode,
            regs.gpu_manual_mode,
        ),
        nitro_mode: spec_nitro_mode(regs, spec_ec_read(buf, regs.nitro_mode)),
        kb_timeout: spec_ec_read(buf, regs.kb_30_sec_auto) == regs.kb_30_auto_on,
        usb_charging: spec_ec_read(buf, regs.usb_charging_reg) == regs.usb_charging_on,
        battery_charge_limit: spec_ec_read(buf, regs.battery_charge_limit)
            == regs.battery_limit_on,
        voltage_info: vi,
        undervolt_status: status,
        cpu_manual_level: spec_ec_read(buf, regs.cpu_manual_speed_control),
        gpu_manual_level: spec_ec_read(buf, regs.gpu_manual_speed_control),
    }
}

/// The sentinel written for a requested CPU fan mode; `Unknown` is
/// rejected.
pub open spec fn spec_cpu_fan_sentinel(regs: EcRegisters, mode: FanMode) -> Option<u8> {
    match mode {
        FanMode::Auto => Some(regs.cpu_auto_mode),
        FanMode::Turbo => Some(regs.cpu_turbo_mode),
        FanMode::Manual => Some(regs.cpu_manual_mode),
        FanMode::Unknown(_) => None,
    }
}

/// The sentinel written for a requested GPU fan mode; `Unknown` is
/// rejected.
pub open spec fn spec_gpu_fan_sentinel(regs: EcRegisters, mode: FanMode) -> Option<u8> {
    match mode {
        FanMode::Auto => Some(regs.gpu_auto_mode),
        FanMode::Turbo => Some(regs.gpu_turbo_mode),
        FanMode::Manual => Some(regs.gpu_manual_mode),
        FanMode::Unknown(_) => None,
    }
}

/// The sentinel written for a requested nitro mode; `Unknown` is rejected.
pub open spec fn spec_nitro_sentinel(regs: EcRegisters, mode: NitroMode) -> Option<u8> {
    match mode {
        NitroMode::Quiet => Some(regs.quiet_mode),
        NitroMode::Default => Some(regs.default_mode),
        NitroMode::Extreme => Some(regs.extreme_mode),
        NitroMode::Unknown(_) => None,
    }
}

/// What one routed request does, for every request and every state: the
/// new state, the response, and the effects in order.
pub open spec fn spec_handle_request(s: DaemonStateV, req: Request, inp: RouterInputV) -> StepV {
    match req {
        Request::GetStatus => {
            let vi = spec_refreshed(s.cpu_type, s.voltage_info, inp.utility_output);
            StepV {
                state: DaemonStateV { ec: inp.snapshot, voltage_info: vi, ..s },
                response: ResponseV::Status(
                    spec_status_data(s.regs, inp.snapshot, vi, s.undervolt_status),
                ),
                effects: Seq::empty(),
            }
        },
        Request::SetCpuFanMode(mode) => match spec_cpu_fan_sentinel(s.regs, mode) {
            Some(val) => StepV {
                state: s,
                response: ResponseV::Done,
                effects: seq![
                    EffectV::EcWrite { address: s.regs.cpu_fan_mode_control, value: val },
                    EffectV::SaveSettings(NitroConfig { cpu_mode: val, ..inp.persisted }),
                ],
            },
            None => StepV {
                state: s,
                response: ResponseV::Error("Invalid mode"@),
                effects: Seq::empty(),
            },
        },
        Request::SetGpuFanMode(mode) => match spec_gpu_fan_sentinel(s.regs, mode) {
            Some(val) => StepV {
                state: s,
                response: ResponseV::Done,
                effects: seq![
                    EffectV::EcWrite { address: s.regs.gpu_fan_mode_control, value: val },
                    EffectV::SaveSettings(NitroConfig { gpu_mode: val, ..inp.persisted }),
                ],
            },
            None => StepV {
                state: s,
                response: ResponseV::Error("Invalid mode"@),
                effects: Seq::empty(),
            },
        },
        Request::SetCpuFanSpeed(val) => StepV {
            state: s,
            response: ResponseV::Done,
            effects: seq![
                EffectV::EcWrite { address: s.regs.cpu_manual_speed_control, value: val },
            ],
        },
        Request::SetGpuFanSpeed(val) => StepV {
            state: s,
            response: ResponseV::Done,
            effects: seq![
                EffectV::EcWrite { address: s.regs.gpu_manual_speed_control, value: val },
            ],
        },
        Request::SetNitroMode(mode) => match spec_nitro_sentinel(s.regs, mode) {
            Some(val) => StepV {
                state: s,
                response: ResponseV::Done,
                effects: seq![
                    EffectV::EcWrite { address: s.regs.nitro_mode, value: val },
                    EffectV::SaveSettings(NitroConfig { nitro_mode: val, ..inp.persisted }),
                ],
            },
            None => StepV {
                state: s,
                response: ResponseV::Error("Invalid mode"@),
                effects: Seq::empty(),
            },
        },
        Request::SetKbTimeout(on) => {
            let val = if on {
                s.regs.kb_30_auto_on
            } else {
                s.regs.kb_30_auto_off
            };
            StepV {
                state: s,
                response: ResponseV::Done,
                effects: seq![
                    EffectV::EcWrite { address: s.regs.kb_30_sec_auto, value: val },
                    EffectV::SaveSettings(NitroConfig { kb_timeout: val, ..inp.persisted }),
                ],
            }
        },
        Request::SetUsbCharging(on) => {
            let val = if on {
                s.regs.usb_charging_on
            } else {
                s.regs.usb_charging_off
            };
            StepV {
                state: s,
                response: ResponseV::Done,
                effects: seq![
                    EffectV::EcWrite { address: s.regs.usb_charging_reg, value: val },
                    EffectV::SaveSettings(NitroConfig { usb_charging: val, ..inp.persisted }),
                ],
            }
        },
        Request::SetBatteryLimit(on) => {
            let val = if on {
                s.regs.battery_limit_on
            } else {
                s.regs.battery_limit_off
            };
            StepV {
                state: s,
                response: ResponseV::Done,
                effects: seq![
                    EffectV::EcWrite { address: s.regs.battery_charge_limit, value: val },
                    EffectV::SaveSettings(
                        NitroConfig { battery_charge_limit: val, ..inp.persisted },
                    ),
                ],
            }
        },
        Request::SetKeyboardColor(zone, red, green, blue) => {
            let color = Rgb { r: red, g: green, b: blue };
            let writes = keyboard::spec_set_mode(0, zone, 0, 0, 0, color);
            StepV {
                state: s,
                response: ResponseV::Done,
                effects: writes.map_values(|w: KbWriteV| EffectV::Keyboard(w)) + seq![
                    EffectV::SaveRgb(
                        RgbConfig { mode: 0, zone, color, ..inp.persisted_rgb },
                    ),
                ],
            }
        },
        Request::ApplyUndervolt(_) => StepV {
            state: DaemonStateV {
                undervolt_status: spec_backend_status(s.cpu_type, inp.utility_output),
                ..s
            },
            response: ResponseV::Done,
            effects: Seq::empty(),
        },
    }
}

impl DaemonState {
    /// Assemble the daemon state from the detected hardware profile. The
    /// snapshot starts empty: every read serves zero until the first
    /// refresh.
    pub fn new(regs: EcRegisters, cpu_type: CpuType, initial_status_raw: &[u8]) -> (r: Self)
        ensures
            r@ == (DaemonStateV {
                regs,
                ec: Seq::empty(),
                cpu_type,
                voltage_info: VoltageInfo::spec_default(),
                undervolt_status: spec_backend_status(cpu_type, initial_status_raw@),
            }),
    {
        DaemonState {
            regs,
            ec: EcWriter::new(),
            cpu_ctl: CpuController::new(cpu_type, initial_status_raw),
        }
    }

    /// Classify a fan-mode register byte against the given sentinels.
    pub fn get_fan_mode(&self, val: u8, auto: u8, turbo: u8, manual: u8) -> (r: FanMode)
        ensures
            r == spec_fan_mode(val, auto, turbo, manual),
    {
        if val == auto {
            FanMode::Auto
        } else if val == turbo {
            FanMode::Turbo
        } else if val == manual {
            FanMode::Manual
        } else {
            FanMode::Unknown(val)
        }
    }

    /// Classify the nitro-mode register byte.
    pub fn get_nitro_mode(&self, val: u8) -> (r: NitroMode)
        ensures
            r == spec_nitro_mode(self.regs, val),
    {
        if val == self.regs.quiet_mode {
            NitroMode::Quiet
        } else if val == self.regs.default_mode {
            NitroMode::Default
        } else if val == self.regs.extreme_mode {
            NitroMode::Extreme
        } else {
            NitroMode::Unknown(val)
        }
    }

    /// Classify the battery-status register byte.
    pub fn get_battery_status(&self, val: u8) -> (r: BatteryStatus)
        ensures
            r == spec_battery_status(self.regs, val),
    {
        if val == self.regs.battery_charging {
            BatteryStatus::Charging
        } else if val == self.regs.battery_draining {
            BatteryStatus::Discharging
        } else if val == self.regs.battery_off {
            BatteryStatus::NotInUse
        } else {
            BatteryStatus::Unknown(val)
        }
    }

    /// Route one request: returns the response and the effects the caller
    /// performs in order.
    pub fn handle_request(&mut self, req: Request, input: RouterInput) -> (r: (Response, Vec<
        Effect,
    >))
        ensures
            final(self)@ == spec_handle_request(old(self)@, req, input@).state,
            r.0@ == spec_handle_request(old(self)@, req, input@).response,
            r.1.deep_view() == spec_handle_request(old(self)@, req, input@).effects,
    {
        let ghost step = spec_handle_request(old(self)@, req, input@);
        match req {
            Request::GetStatus => {
                let RouterInput { snapshot, utility_output, persisted: _, persisted_rgb: _ } =
                    input;
                self.ec.refresh(snapshot);
                self.cpu_ctl.refresh_voltage(utility_output.as_slice());
                let cpu_mode_val = self.ec.read(self.regs.cpu_fan_mode_control);
                let gpu_mode_val = self.ec.read(self.regs.gpu_fan_mode_control);
                let nitro_mode_val = self.ec.read(self.regs.nitro_mode);
                let battery_status_val = self.ec.read(self.regs.battery_status);
                let cpu_hi = self.ec.read(self.regs.cpu_fan_speed_high) as u16;
                let cpu_lo = self.ec.read(self.regs.cpu_fan_speed_low) as u16;
                let gpu_hi = self.ec.read(self.regs.gpu_fan_speed_high) as u16;
                let gpu_lo = self.ec.read(self.regs.gpu_fan_speed_low) as u16;
                let data = EcData {
                    cpu_temp: self.ec.read(self.regs.cpu_temp),
                    gpu_temp: self.ec.read(self.regs.gpu_temp),
                    sys_temp: self.ec.read(self.regs.sys_temp),
                    cpu_fan_speed: (cpu_lo << 8) | cpu_hi,
                    gpu_fan_speed: (gpu_lo << 8) | gpu_hi,
                    power_plugged_in: self.ec.read(self.regs.power_status)
                        == self.regs.power_plugged_in,
                    battery_status: self.get_battery_status(battery_status_val),
                    cpu_mode: self.get_fan_mode(
                        cpu_mode_val,
                        self.regs.cpu_auto_mode,
                        self.regs.cpu_turbo_mode,
                        self.regs.cpu_manual_mode,
                    ),
                    gpu_mode: self.get_fan_mode(
                        gpu_mode_val,
                        self.regs.gpu_auto_mode,
                        self.regs.gpu_turbo_mode,
                        self.regs.gpu_manual_mode,
                    ),
                    nitro_mode: self.get_nitro_mode(nitro_mode_val),
                    kb_timeout: self.ec.read(self.regs.kb_30_sec_auto)
                        == self.regs.kb_30_auto_on,
                    usb_charging: self.ec.read(self.regs.usb_charging_reg)
                        == self.regs.usb_charging_on,
                    battery_charge_limit: self.ec.read(self.regs.battery_charge_limit)
                        == self.regs.battery_limit_on,
                    voltage_info: self.cpu_ctl.voltage_info,
                    undervolt_status: self.cpu_ctl.undervolt_status.clone(),
                    cpu_manual_level: self.ec.read(self.regs.cpu_manual_speed_control),
                    gpu_manual_level: self.ec.read(self.regs.gpu_manual_speed_control),
                };
                let effects: Vec<Effect> = Vec::new();
                proof {
                    assert(effects.deep_view() =~= step.effects);
                }
                (Response::Status(data), effects)
            },
            Request::SetCpuFanMode(mode) => {
                let val = match mode {
                    FanMode::Auto => self.regs.cpu_auto_mode,
                    FanMode::Turbo => self.regs.cpu_turbo_mode,
                    FanMode::Manual => self.regs.cpu_manual_mode,
                    FanMode::Unknown(_) => {
                        let effects: Vec<Effect> = Vec::new();
                        proof {
                            assert(effects.deep_view() =~= step.effects);
                        }
                        return (Response::Error(String::from_str("Invalid mode")), effects);
                    },
                };
                let mut cfg = input.persisted;
                cfg.cpu_mode = val;
                let mut effects: Vec<Effect> = Vec::new();
                effects.push(Effect::EcWrite { address: self.regs.cpu_fan_mode_control, value: val });
                effects.push(Effect::SaveSettings(cfg));
                proof {
                    assert(effects.deep_view() =~= step.effects);
                }
                (Response::Done, effects)
            },
            Request::SetGpuFanMode(mode) => {
                let val = match mode {
                    FanMode::Auto => self.regs.gpu_auto_mode,
                    FanMode::Turbo => self.regs.gpu_turbo_mode,
                    FanMode::Manual => self.regs.gpu_manual_mode,
                    FanMode::Unknown(_) => {
                        let effects: Vec<Effect> = Vec::new();
                        proof {
                            assert(effects.deep_view() =~= step.effects);
                        }
                        return (Response::Error(String::from_str("Invalid mode")), effects);
                    },
                };
                let mut cfg = input.persisted;
                cfg.gpu_mode = val;
                let mut effects: Vec<Effect> = Vec::new();
                effects.push(Effect::EcWrite { address: self.regs.gpu_fan_mode_control, value: val });
                effects.push(Effect::SaveSettings(cfg));
                proof {
                    assert(effects.deep_view() =~= step.effects);
                }
                (Response::Done, effects)
            },
            Request::SetCpuFanSpeed(val) => {
                let mut effects: Vec<Effect> = Vec::new();
                effects.push(Effect::EcWrite {
                    address: self.regs.cpu_manual_speed_control,
                    value: val,
                });
                proof {
                    assert(effects.deep_view() =~= step.effects);
                }
                (Response::Done, effects)
            },
            Request::SetGpuFanSpeed(val) => {
                let mut effects: Vec<Effect> = Vec::new();
                effects.push(Effect::EcWrite {
                    address: self.regs.gpu_manual_speed_control,
                    value: val,
                });
                proof {
                    assert(effects.deep_view() =~= step.effects);
                }
                (Response::Done, effects)
            },
            Request::SetNitroMode(mode) => {
                let val = match mode {
                    NitroMode::Quiet => self.regs.quiet_mode,
                    NitroMode::Default => self.regs.default_mode,
                    NitroMode::Extreme => self.regs.extreme_mode,
                    NitroMode::Unknown(_) => {
                        let effects: Vec<Effect> = Vec::new();
                        proof {
                            assert(effects.deep_view() =~= step.effects);
                        }
                        return (Response::Error(String::from_str("Invalid mode")), effects);
                    },
                };
                let mut cfg = input.persisted;
                cfg.nitro_mode = val;
                let mut effects: Vec<Effect> = Vec::new();
                effects.push(Effect::EcWrite { address: self.regs.nitro_mode, value: val });
                effects.push(Effect::SaveSettings(cfg));
                proof {
                    assert(effects.deep_view() =~= step.effects);
                }
                (Response::Done, effects)
            },
            Request::SetKbTimeout(on) => {
                let val = if on {
                    self.regs.kb_30_auto_on
                } else {
                    self.regs.kb_30_auto_off
                };
                let mut cfg = input.persisted;
                cfg.kb_timeout = val;
                let mut effects: Vec<Effect> = Vec::new();
                effects.push(Effect::EcWrite { address: self.regs.kb_30_sec_auto, value: val });
                effects.push(Effect::SaveSettings(cfg));
                proof {
                    assert(effects.deep_view() =~= step.effects);
                }
                (Response::Done, effects)
            },
            Request::SetUsbCharging(on) => {
                let val = if on {
                    self.regs.usb_charging_on
                } else {
                    self.regs.usb_charging_off
                };
                let mut cfg = input.persisted;
                cfg.usb_charging = val;
                let mut effects: Vec<Effect> = Vec::new();
                effects.push(Effect::EcWrite { address: self.regs.usb_charging_reg, value: val });
                effects.push(Effect::SaveSettings(cfg));
                proof {
                    assert(effects.deep_view() =~= step.effects);
                }
                (Response::Done, effects)
            },
            Request::SetBatteryLimit(on) => {
                let val = if on {
                    self.regs.battery_limit_on
                } else {
                    self.regs.battery_limit_off
                };
                let mut cfg = input.persisted;
                cfg.battery_charge_limit = val;
                let mut effects: Vec<Effect> = Vec::new();
                effects.push(Effect::EcWrite {
                    address: self.regs.battery_charge_limit,
                    value: val,
                });
                effects.push(Effect::SaveSettings(cfg));
                proof {
                    assert(effects.deep_view() =~= step.effects);
                }
                (Response::Done, effects)
            },
            Request::SetKeyboardColor(zone, red, green, blue) => {
                let color = Rgb { r: red, g: green, b: blue };
                let ghost writesv = keyboard::spec_set_mode(0, zone, 0, 0, 0, color);
                let mut writes = keyboard::set_mode(0, zone, 0, 0, 0, color);
                let mut cfg = input.persisted_rgb;
                cfg.mode = 0;
                cfg.zone = zone;
                cfg.color = color;
                let mut effects: Vec<Effect> = Vec::new();
                let ghost total = writesv.len();
                let ghost mut consumed: int = 0;
                while writes.len() > 0
                    invariant
                        0 <= consumed <= total,
                        total == writesv.len(),
                        writes.deep_view() == writesv.skip(consumed),
                        effects.deep_view() == writesv.take(consumed).map_values(
                            |w: KbWriteV| EffectV::Keyboard(w),
                        ),
                    decreases writes.deep_view().len(),
                {
                    let ghost prev = effects.deep_view();
                    let ghost pre_dv = writes.deep_view();
                    let w = writes.remove(0);
                    proof {
                        assert(w@ == pre_dv[0]);
                        assert(pre_dv[0] == writesv[consumed]);
                        assert(writes.deep_view() =~~= pre_dv.skip(1));
                        assert(pre_dv.skip(1) =~~= writesv.skip(consumed + 1));
                    }
                    effects.push(Effect::Keyboard(w));
                    proof {
                        assert(effects.deep_view() =~~= prev.push(EffectV::Keyboard(
                            writesv[consumed],
                        )));
                        assert(writesv.take(consumed + 1).map_values(
                            |x: KbWriteV| EffectV::Keyboard(x),
                        ) =~~= prev.push(EffectV::Keyboard(writesv[consumed])));
                        consumed = consumed + 1;
                    }
                }
                proof {
                    assert(writesv.take(consumed) =~~= writesv);
                }
                let ghost prev = effects.deep_view();
                effects.push(Effect::SaveRgb(cfg));
                proof {
                    assert(effects.deep_view() =~~= prev.push(EffectV::SaveRgb(cfg)));
                    assert(effects.deep_view() =~~= step.effects);
                }
                (Response::Done, effects)
            },
            Request::ApplyUndervolt(idx) => {
                self.cpu_ctl.apply_undervolt(idx, input.utility_output.as_slice());
                let effects: Vec<Effect> = Vec::new();
                proof {
                    assert(effects.deep_view() =~= step.effects);
                }
                (Response::Done, effects)
            },
        }
    }
}

/// The one write re-applied at startup: the persisted nitro-mode byte,
/// when a settings file was loaded; nothing otherwise.
pub fn startup_restore(regs: &EcRegisters, loaded: Option<&NitroConfig>) -> (r: Option<Effect>)
    ensures
        match loaded {
            Some(c) => r is Some && r.unwrap()@ == (EffectV::EcWrite {
                address: regs.nitro_mode,
                value: c.nitro_mode,
            }),
            None => r is None,
        },
{
    match loaded {
        Some(c) => Some(Effect::EcWrite { address: regs.nitro_mode, value: c.nitro_mode }),
        None => None,
    }
}

/// Issuing the same fan-mode request twice in a row is idempotent: the
/// request leaves the router state unchanged, both issues write the same
/// sentinel byte to the same register and persist the same fan-mode byte,
/// and a subsequent classification of that sentinel names the requested
/// mode — so a following status report is the same after one issue as
/// after two.
pub proof fn lemma_set_cpu_fan_mode_idempotent(
    s0: DaemonStateV,
    i1: RouterInputV,
    i2: RouterInputV,
)
    ensures
        spec_handle_request(s0, Request::SetCpuFanMode(FanMode::Auto), i1).state == s0,
        spec_handle_request(s0, Request::SetCpuFanMode(FanMode::Auto), i2).state == s0,
        spec_handle_request(s0, Request::SetCpuFanMode(FanMode::Auto), i1).response
            == ResponseV::Done,
        spec_handle_request(s0, Request::SetCpuFanMode(FanMode::Auto), i1).effects.len() == 2,
        spec_handle_request(s0, Request::SetCpuFanMode(FanMode::Auto), i2).effects.len() == 2,
        spec_handle_request(s0, Request::SetCpuFanMode(FanMode::Auto), i1).effects[0]
            == spec_handle_request(s0, Request::SetCpuFanMode(FanMode::Auto), i2).effects[0],
        spec_handle_request(s0, Request::SetCpuFanMode(FanMode::Auto), i1).effects[0]
            == (EffectV::EcWrite {
            address: s0.regs.cpu_fan_mode_control,
            value: s0.regs.cpu_auto_mode,
        }),
        spec_handle_request(s0, Request::SetCpuFanMode(FanMode::Auto), i1).effects[1]
            matches EffectV::SaveSettings(c1) && c1.cpu_mode == s0.regs.cpu_auto_mode,
        spec_handle_request(s0, Request::SetCpuFanMode(FanMode::Auto), i2).effects[1]
            matches EffectV::SaveSettings(c2) && c2.cpu_mode == s0.regs.cpu_auto_mode,
        spec_fan_mode(
            s0.regs.cpu_auto_mode,
            s0.regs.cpu_auto_mode,
            s0.regs.cpu_turbo_mode,
            s0.regs.cpu_manual_mode,
        ) == FanMode::Auto,
{
}

} // verus!
