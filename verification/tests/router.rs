use nitrosense::config::{NitroConfig, RgbConfig};
use nitrosense::daemon::{DaemonState, Effect, RouterInput};
use nitrosense::device_regs::{ecs_an515_46, CpuType};
use nitrosense::protocol::{BatteryStatus, FanMode, NitroMode, Request, Response};

fn zero_settings() -> NitroConfig {
    NitroConfig {
        cpu_mode: 0,
        gpu_mode: 0,
        kb_timeout: 0,
        usb_charging: 0,
        nitro_mode: 0,
        battery_charge_limit: 0,
    }
}

fn empty_input() -> RouterInput {
    RouterInput {
        snapshot: Vec::new(),
        utility_output: Vec::new(),
        persisted: zero_settings(),
        persisted_rgb: RgbConfig::default(),
    }
}

fn state_unknown_cpu() -> DaemonState {
    DaemonState::new(ecs_an515_46(), CpuType::Unknown, &[])
}

#[test]
fn fan_mode_classification_matches_sentinels() {
    let s = state_unknown_cpu();
    assert_eq!(s.get_fan_mode(0x04, 0x04, 0x08, 0x0C), FanMode::Auto);
    assert_eq!(s.get_fan_mode(0x08, 0x04, 0x08, 0x0C), FanMode::Turbo);
    assert_eq!(s.get_fan_mode(0x0C, 0x04, 0x08, 0x0C), FanMode::Manual);
    assert_eq!(s.get_fan_mode(0x77, 0x04, 0x08, 0x0C), FanMode::Unknown(0x77));
}

#[test]
fn fan_mode_classification_first_match_wins() {
    let s = state_unknown_cpu();
    // When two sentinels collide, the fixed priority order decides.
    assert_eq!(s.get_fan_mode(0x05, 0x05, 0x05, 0x05), FanMode::Auto);
}

#[test]
fn nitro_and_battery_classification() {
    let s = state_unknown_cpu();
    assert_eq!(s.get_nitro_mode(0x00), NitroMode::Quiet);
    assert_eq!(s.get_nitro_mode(0x01), NitroMode::Default);
    assert_eq!(s.get_nitro_mode(0x04), NitroMode::Extreme);
    assert_eq!(s.get_nitro_mode(0x09), NitroMode::Unknown(0x09));
    assert_eq!(s.get_battery_status(0x02), BatteryStatus::Charging);
    assert_eq!(s.get_battery_status(0x01), BatteryStatus::Discharging);
    assert_eq!(s.get_battery_status(0x00), BatteryStatus::NotInUse);
    assert_eq!(s.get_battery_status(0x33), BatteryStatus::Unknown(0x33));
}

fn persisted_cpu_mode(effects: &[Effect]) -> (u8, NitroConfig) {
    let mut write_val = None;
    let mut cfg = None;
    for e in effects {
        match e {
            Effect::EcWrite { address, value } => {
                assert_eq!(*address, 0x22);
                write_val = Some(*value);
            }
            Effect::SaveSettings(c) => cfg = Some(*c),
            _ => panic!("unexpected effect"),
        }
    }
    (write_val.expect("no EC write"), cfg.expect("no settings save"))
}

#[test]
fn set_cpu_fan_mode_auto_twice_is_idempotent() {
    let mut s = state_unknown_cpu();
    let (r1, e1) = s.handle_request(Request::SetCpuFanMode(FanMode::Auto), empty_input());
    assert!(matches!(r1, Response::Done));
    let (v1, cfg1) = persisted_cpu_mode(&e1);
    assert_eq!(v1, 0x04);
    assert_eq!(cfg1.cpu_mode, 0x04);

    // The second issue starts from the settings the first one persisted.
    let mut input2 = empty_input();
    input2.persisted = cfg1;
    let (r2, e2) = s.handle_request(Request::SetCpuFanMode(FanMode::Auto), input2);
    assert!(matches!(r2, Response::Done));
    let (v2, cfg2) = persisted_cpu_mode(&e2);
    assert_eq!(v2, v1);
    assert_eq!(cfg2, cfg1);

    // A status report after the write classifies the sentinel as Auto,
    // the same after one issue as after two.
    let mut snapshot = vec![0u8; 0x40];
    snapshot[0x22] = v2;
    let mut input3 = empty_input();
    input3.snapshot = snapshot;
    let (r3, _) = s.handle_request(Request::GetStatus, input3);
    match r3 {
        Response::Status(data) => assert_eq!(data.cpu_mode, FanMode::Auto),
        _ => panic!("expected a status payload"),
    }
}

#[test]
fn set_nitro_mode_quiet_end_to_end() {
    let mut s = state_unknown_cpu();
    let (resp, effects) = s.handle_request(Request::SetNitroMode(NitroMode::Quiet), empty_input());
    assert!(matches!(resp, Response::Done));
    assert_eq!(effects.len(), 2);
    match &effects[0] {
        Effect::EcWrite { address, value } => {
            assert_eq!(*address, 0x2C);
            assert_eq!(*value, 0x00);
        }
        _ => panic!("expected an EC write first"),
    }
    match &effects[1] {
        Effect::SaveSettings(cfg) => assert_eq!(cfg.nitro_mode, 0x00),
        _ => panic!("expected a settings save second"),
    }

    // The hardware applies the write; the next status reports Quiet.
    let mut snapshot = vec![0xEEu8; 0x40];
    snapshot[0x2C] = 0x00;
    let mut input = empty_input();
    input.snapshot = snapshot;
    let (resp2, effects2) = s.handle_request(Request::GetStatus, input);
    assert!(effects2.is_empty());
    match resp2 {
        Response::Status(data) => assert_eq!(data.nitro_mode, NitroMode::Quiet),
        _ => panic!("expected a status payload"),
    }
}

#[test]
fn unknown_mode_values_are_rejected() {
    let mut s = state_unknown_cpu();
    let (r1, e1) = s.handle_request(Request::SetCpuFanMode(FanMode::Unknown(3)), empty_input());
    match r1 {
        Response::Error(m) => assert_eq!(m, "Invalid mode"),
        _ => panic!("expected a protocol error"),
    }
    assert!(e1.is_empty());
    let (r2, _) = s.handle_request(Request::SetGpuFanMode(FanMode::Unknown(0)), empty_input());
    assert!(matches!(r2, Response::Error(_)));
    let (r3, _) = s.handle_request(Request::SetNitroMode(NitroMode::Unknown(7)), empty_input());
    assert!(matches!(r3, Response::Error(_)));
}

#[test]
fn fan_speed_words_combine_low_high() {
    let mut s = state_unknown_cpu();
    let mut snapshot = vec![0u8; 0x40];
    snapshot[0x13] = 0x34; // CPU fan speed, high register: low byte
    snapshot[0x14] = 0x12; // CPU fan speed, low register: high byte
    let mut input = empty_input();
    input.snapshot = snapshot;
    let (resp, _) = s.handle_request(Request::GetStatus, input);
    match resp {
        Response::Status(data) => assert_eq!(data.cpu_fan_speed, 0x1234),
        _ => panic!("expected a status payload"),
    }
}

#[test]
fn toggles_write_their_sentinels_and_persist() {
    let mut s = state_unknown_cpu();
    let (_, usb_effects) = s.handle_request(Request::SetUsbCharging(true), empty_input());
    match &usb_effects[0] {
        Effect::EcWrite { address, value } => {
            assert_eq!(*address, 0x08);
            assert_eq!(*value, 0x0F);
        }
        _ => panic!("expected an EC write"),
    }
    let (_, effects) = s.handle_request(Request::SetBatteryLimit(false), empty_input());
    match &effects[0] {
        Effect::EcWrite { address, value } => {
            assert_eq!(*address, 0x03);
            assert_eq!(*value, 0x11);
        }
        _ => panic!("expected an EC write"),
    }
    match &effects[1] {
        Effect::SaveSettings(cfg) => assert_eq!(cfg.battery_charge_limit, 0x11),
        _ => panic!("expected a settings save"),
    }
}

#[test]
fn keyboard_color_request_builds_writes_and_persists() {
    let mut s = state_unknown_cpu();
    let (resp, effects) = s.handle_request(Request::SetKeyboardColor(2, 10, 20, 30), empty_input());
    assert!(matches!(resp, Response::Done));
    // One static zone write, the brightness payload, then the save.
    assert_eq!(effects.len(), 3);
    match &effects[0] {
        Effect::Keyboard(w) => assert_eq!(w.payload, vec![0b10, 10, 20, 30]),
        _ => panic!("expected a keyboard write"),
    }
    match &effects[2] {
        Effect::SaveRgb(cfg) => {
            assert_eq!(cfg.mode, 0);
            assert_eq!(cfg.zone, 2);
            assert_eq!(cfg.color.r, 10);
            assert_eq!(cfg.color.g, 20);
            assert_eq!(cfg.color.b, 30);
        }
        _ => panic!("expected a lighting save"),
    }
}

#[test]
fn apply_undervolt_always_reports_done() {
    let mut s = state_unknown_cpu();
    let (resp, effects) = s.handle_request(Request::ApplyUndervolt(5), empty_input());
    assert!(matches!(resp, Response::Done));
    assert!(effects.is_empty());
    assert_eq!(
        s.cpu_ctl.undervolt_status,
        "Undervolt not supported for this CPU type."
    );
}
