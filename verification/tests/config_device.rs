use nitrosense::config::{conf_path, NitroConfig, RgbConfig};
use nitrosense::device_regs::{ecs_an515_44, ecs_an515_46, detect_model, model_to_ecs, resolve_registers};
use nitrosense::ec_writer::{EcError, EcWriter};
use nitrosense::keyboard::{brightness_payload, set_dynamic, set_mode, set_static, static_payload, KbDevice, Rgb};
use nitrosense::protocol::{battery_status_text, charge_limit_text, nitro_mode_text, BatteryStatus, NitroMode};

#[test]
fn settings_round_trip_preserves_every_field() {
    let cfg = NitroConfig {
        cpu_mode: 4,
        gpu_mode: 48,
        kb_timeout: 30,
        usb_charging: 15,
        nitro_mode: 255,
        battery_charge_limit: 0,
    };
    let bytes = cfg.save();
    assert_eq!(bytes, b"4\n48\n30\n15\n255\n0\n".to_vec());
    let back = NitroConfig::load(&bytes);
    assert_eq!(back, Some(cfg));
}

#[test]
fn rgb_round_trip_preserves_every_field() {
    let cfg = RgbConfig {
        mode: 3,
        zone: 2,
        speed: 5,
        brightness: 100,
        direction: 1,
        color: Rgb { r: 1, g: 2, b: 3 },
    };
    let back = RgbConfig::load(&cfg.save());
    assert_eq!(back, Some(cfg));
}

#[test]
fn missing_settings_file_yields_all_zero_default() {
    let cfg = NitroConfig::load_or_default(None);
    assert_eq!(cfg.cpu_mode, 0);
    assert_eq!(cfg.gpu_mode, 0);
    assert_eq!(cfg.kb_timeout, 0);
    assert_eq!(cfg.usb_charging, 0);
    assert_eq!(cfg.nitro_mode, 0);
    assert_eq!(cfg.battery_charge_limit, 0);
}

#[test]
fn malformed_settings_fall_back_to_default() {
    assert_eq!(NitroConfig::load(b"1\n2\n3\n"), None);
    assert_eq!(NitroConfig::load(b"1\n2\nx\n4\n5\n6\n"), None);
    assert_eq!(NitroConfig::load(b"1\n2\n3\n4\n5\n256\n"), None);
    let cfg = NitroConfig::load_or_default(Some(b"garbage"));
    assert_eq!(cfg.nitro_mode, 0);
}

#[test]
fn settings_parsing_is_lenient_about_line_endings() {
    // Carriage returns, surrounding blanks, a plus sign, and extra
    // trailing lines are all tolerated.
    let cfg = NitroConfig::load(b"1\r\n 2 \n+3\n4\n5\n6\n7\n8\n");
    assert_eq!(
        cfg,
        Some(NitroConfig {
            cpu_mode: 1,
            gpu_mode: 2,
            kb_timeout: 3,
            usb_charging: 4,
            nitro_mode: 5,
            battery_charge_limit: 6,
        })
    );
}

#[test]
fn rgb_default_is_static_white() {
    let cfg = RgbConfig::default();
    assert_eq!(cfg.mode, 0);
    assert_eq!(cfg.zone, 0);
    assert_eq!(cfg.color.r, 255);
    assert_eq!(cfg.color.g, 255);
    assert_eq!(cfg.color.b, 255);
}

#[test]
fn conf_path_joins_directory_and_name() {
    assert_eq!(conf_path("nitrosense.conf"), "/etc/nitrosense/nitrosense.conf");
    assert_eq!(conf_path("rbg.conf"), "/etc/nitrosense/rbg.conf");
}

#[test]
fn model_resolution_exact_match() {
    assert_eq!(resolve_registers("Nitro AN515-44"), Some(ecs_an515_44()));
    assert_eq!(resolve_registers("Nitro AN515-58"), Some(ecs_an515_46()));
}

#[test]
fn model_resolution_substring_fallback() {
    // Vendor firmware appends extra text to the identification string.
    assert_eq!(resolve_registers("Nitro AN515-46-Rev2"), Some(ecs_an515_46()));
    assert_eq!(resolve_registers("Acer Nitro AN515-44 v1.1"), Some(ecs_an515_44()));
}

#[test]
fn unsupported_model_resolves_to_nothing() {
    assert_eq!(resolve_registers("Aspire 5"), None);
    assert_eq!(resolve_registers(""), None);
    assert_eq!(model_to_ecs().len(), 6);
}

#[test]
fn detect_model_defaults_to_unknown() {
    assert_eq!(detect_model(Some(String::from("Nitro AN515-57"))), "Nitro AN515-57");
    assert_eq!(detect_model(None), "Unknown");
}

#[test]
fn ec_read_beyond_buffer_returns_zero() {
    let mut ec = EcWriter::new();
    assert_eq!(ec.read(0), 0);
    assert_eq!(ec.read(255), 0);
    ec.refresh(vec![7, 8, 9]);
    assert_eq!(ec.read(0), 7);
    assert_eq!(ec.read(2), 9);
    assert_eq!(ec.read(3), 0);
    assert_eq!(ec.read(200), 0);
}

#[test]
fn ec_refresh_replaces_previous_snapshot() {
    let mut ec = EcWriter::new();
    ec.refresh(vec![1, 2, 3, 4]);
    ec.refresh(vec![9]);
    assert_eq!(ec.read(0), 9);
    assert_eq!(ec.read(1), 0);
}

#[test]
fn ec_error_messages() {
    assert_eq!(EcError::NoDevice.message(), "failed to open any EC device file");
    assert_eq!(
        EcError::Io(String::from("denied")).message(),
        "EC I/O error: denied"
    );
    assert_eq!(
        EcError::EmptyBuffer.message(),
        "empty EC buffer - call refresh() first"
    );
}

#[test]
fn static_payload_sets_zone_bit() {
    let c = Rgb { r: 10, g: 20, b: 30 };
    assert_eq!(static_payload(1, c), vec![1, 10, 20, 30]);
    assert_eq!(static_payload(4, c), vec![8, 10, 20, 30]);
}

#[test]
fn zone_zero_addresses_all_four_zones() {
    let c = Rgb { r: 5, g: 6, b: 7 };
    let writes = set_static(0, c);
    assert_eq!(writes.len(), 5);
    for (i, mask) in [1u8, 2, 4, 8].iter().enumerate() {
        assert!(matches!(writes[i].device, KbDevice::Static));
        assert_eq!(writes[i].payload, vec![*mask, 5, 6, 7]);
    }
    assert!(matches!(writes[4].device, KbDevice::Dynamic));
    assert_eq!(writes[4].payload, brightness_payload());
}

#[test]
fn dynamic_mode_payload_layout() {
    let c = Rgb { r: 1, g: 2, b: 3 };
    let writes = set_dynamic(2, 4, 50, 1, c);
    assert_eq!(writes.len(), 1);
    assert_eq!(
        writes[0].payload,
        vec![2, 4, 50, 0, 1, 1, 2, 3, 0, 1, 0, 0, 0, 0, 0, 0]
    );
    // The wave effect sets its special flag.
    let wave = set_mode(3, 0, 9, 80, 1, c);
    assert_eq!(
        wave[0].payload,
        vec![3, 9, 80, 8, 1, 1, 2, 3, 0, 1, 0, 0, 0, 0, 0, 0]
    );
}

#[test]
fn mode_zero_is_static() {
    let c = Rgb { r: 9, g: 9, b: 9 };
    let writes = set_mode(0, 3, 0, 0, 0, c);
    assert_eq!(writes.len(), 2);
    assert_eq!(writes[0].payload, vec![4, 9, 9, 9]);
}

#[test]
fn status_text_helpers() {
    assert_eq!(battery_status_text(&BatteryStatus::Charging), "Charging");
    assert_eq!(battery_status_text(&BatteryStatus::NotInUse), "Not In Use");
    assert_eq!(battery_status_text(&BatteryStatus::Unknown(9)), "Unknown");
    assert_eq!(nitro_mode_text(&NitroMode::Quiet), "Quiet");
    assert_eq!(nitro_mode_text(&NitroMode::Extreme), "Extreme");
    assert_eq!(charge_limit_text(true), "On");
    assert_eq!(charge_limit_text(false), "Off");
}
