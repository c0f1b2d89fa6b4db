use nitrosense::cpu_ctl::{amd, intel, CpuController, VoltageInfo};
use nitrosense::device_regs::{detect_cpu_type, CpuType};

#[test]
fn undervolt_index_mapping() {
    assert_eq!(amd::apply_undervolt(0), 1);
    assert_eq!(amd::apply_undervolt(3), 48);
    assert_eq!(amd::apply_undervolt(1), 16);
}

#[test]
fn voltage_envelope_tracks_min_and_max() {
    let mut vi = VoltageInfo::default();
    assert_eq!(vi.voltage, 500_000);
    assert_eq!(vi.min_recorded, 2_000_000);
    assert_eq!(vi.max_recorded, 0);
    vi.update(600_000);
    vi.update(400_000);
    vi.update(500_000);
    assert_eq!(vi.voltage, 500_000);
    assert_eq!(vi.min_recorded, 400_000);
    assert_eq!(vi.max_recorded, 600_000);
}

#[test]
fn amd_sample_averages_millivolt_tokens() {
    let mut vi = VoltageInfo::default();
    let raw = b"CPU Core 0: 1200.00mV freq\nCPU Core 1: 1300.00mV freq\n";
    amd::check_voltage(&mut vi, raw);
    assert_eq!(vi.voltage, 1_250_000);
    assert_eq!(vi.min_recorded, 1_250_000);
    assert_eq!(vi.max_recorded, 1_250_000);
}

#[test]
fn amd_sample_with_fraction_and_no_tokens() {
    let mut vi = VoltageInfo::default();
    amd::check_voltage(&mut vi, b"no voltages here\n");
    // No usable token: the envelope is untouched.
    assert_eq!(vi.voltage, 500_000);
    assert_eq!(vi.min_recorded, 2_000_000);

    let mut vi2 = VoltageInfo::default();
    amd::check_voltage(&mut vi2, b"1218.75mV\n");
    assert_eq!(vi2.voltage, 1_218_750);
}

#[test]
fn amd_status_selects_columns_and_drops_zero_fractions() {
    let raw = b"header one\nheader two\nheader three\n\
c0 x y z w 1550 1200.00 7 a b c 45.5W\n\
short line\n\
c1 x y z w 1450 1100.50 6 a b c 40.0W\n";
    let status = amd::check_undervolt_status(raw);
    assert_eq!(status, "c0\t1550\t1200\t7\t45.5W\nc1\t1450\t1100.50\t6\t40.0W");
}

#[test]
fn amd_status_of_short_output_is_empty() {
    assert_eq!(amd::check_undervolt_status(b""), "");
    assert_eq!(amd::check_undervolt_status(b"one\ntwo\nthree\n"), "");
}

#[test]
fn amd_status_renders_non_ascii_as_question_marks() {
    let raw = b"h\nh\nh\nc0 x y z w a\xFFb 1.00 7 a b c 45\n";
    let status = amd::check_undervolt_status(raw);
    assert_eq!(status, "c0\ta?b\t1\t7\t45");
}

#[test]
fn repeated_millivolt_suffixes_are_all_stripped() {
    let mut vi = VoltageInfo::default();
    amd::check_voltage(&mut vi, b"5mVmV");
    assert_eq!(vi.voltage, 5_000);
}

#[test]
fn oversized_and_malformed_tokens_are_ignored() {
    let mut vi = VoltageInfo::default();
    amd::check_voltage(&mut vi, b"99999999999999999999mV 12.mV .5mV 1e3mV -7mV");
    assert_eq!(vi.voltage, 500_000);
    assert_eq!(vi.min_recorded, 2_000_000);
}

#[test]
fn intel_sample_scales_register_units() {
    let mut vi = VoltageInfo::default();
    intel::check_voltage(&mut vi, b"2048\n2048\n");
    // 2048 / 8192 volts = 0.25 V.
    assert_eq!(vi.voltage, 250_000);
}

#[test]
fn intel_undervolt_is_unsupported() {
    assert_eq!(
        intel::check_undervolt_status(),
        "Undervolt not supported for Intel CPUs."
    );
    assert_eq!(
        intel::apply_undervolt(4),
        "Undervolt not supported for Intel CPUs."
    );
}

#[test]
fn controller_dispatches_by_vendor() {
    let amd_ctl = CpuController::new(CpuType::Amd, b"h\nh\nh\n");
    assert_eq!(amd_ctl.undervolt_status, "");
    let intel_ctl = CpuController::new(CpuType::Intel, b"");
    assert_eq!(
        intel_ctl.undervolt_status,
        "Undervolt not supported for Intel CPUs."
    );
    let unknown_ctl = CpuController::new(CpuType::Unknown, b"");
    assert_eq!(
        unknown_ctl.undervolt_status,
        "Undervolt not supported for this CPU type."
    );
}

#[test]
fn controller_refresh_updates_envelope() {
    let mut ctl = CpuController::new(CpuType::Intel, b"");
    ctl.refresh_voltage(b"4096\n");
    assert_eq!(ctl.voltage_info.voltage, 500_000);
    assert_eq!(ctl.voltage_info.min_recorded, 500_000);
    assert_eq!(ctl.voltage_info.max_recorded, 500_000);
    ctl.refresh_voltage(b"8192\n");
    assert_eq!(ctl.voltage_info.voltage, 1_000_000);
    assert_eq!(ctl.voltage_info.max_recorded, 1_000_000);
    assert_eq!(ctl.voltage_info.min_recorded, 500_000);
}

#[test]
fn cpu_vendor_detection_is_case_insensitive_first_match() {
    assert_eq!(detect_cpu_type("vendor_id : AuthenticAMD"), CpuType::Amd);
    assert_eq!(detect_cpu_type("vendor_id : GenuineIntel"), CpuType::Intel);
    assert_eq!(detect_cpu_type("AMD Ryzen 7"), CpuType::Amd);
    assert_eq!(detect_cpu_type("some other vendor"), CpuType::Unknown);
    // The AMD check runs first even when both names occur.
    assert_eq!(detect_cpu_type("intel and amd together"), CpuType::Amd);
    assert_eq!(detect_cpu_type(""), CpuType::Unknown);
}
