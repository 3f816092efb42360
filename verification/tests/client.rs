use razer_control::cli::dialog::{Errand, Next, Order, ReadSource, Turn};
use razer_control::cli::points::{format_points, parse_points, write_fan_curve, FanCurveParams};
use razer_control::cli::request::{
    byte_argument, valid_bho_threshold, validate_and_write_bho, write_pwr_mode, AcState,
    CurveSourceArg, OnOff, ProfileArg, UsageKind,
};
use razer_control::cli::session::{answer, begin};
use razer_control::comms::{
    profile_name, ChargerDomainWire, CurveTempSource, DaemonCommand, DaemonResponse,
    DesiredStateWire, FanCurve, FanCurvePoint, GpuInfo,
};
use razer_control::tray::{
    read_ac_power, read_battery_flow, read_battery_pct, read_battery_status, SensorState,
};

fn point(temp_c: u8, rpm: u16) -> FanCurvePoint {
    FanCurvePoint { temp_c, rpm }
}

/// Carries a dialog through; tells what was printed, what was asked, and the
/// last turn's end.
fn carry(
    order: Order,
    daemon: fn(&DaemonCommand) -> Option<DaemonResponse>,
) -> (Vec<String>, Vec<DaemonCommand>, Next) {
    let mut printed = Vec::new();
    let mut asked = Vec::new();
    let mut turn: Turn = begin(order);
    loop {
        for line in &turn.lines {
            let mark = if line.error { "! " } else { "" };
            printed.push(format!("{}{}", mark, line.text));
        }
        turn = match turn.next {
            Next::Ask { command, errand } => {
                let response = daemon(&command);
                asked.push(command);
                answer(errand, response)
            }
            end => return (printed, asked, end),
        };
    }
}

fn desired() -> DesiredStateWire {
    DesiredStateWire {
        domain: ChargerDomainWire::Barrel,
        wire: 4,
        boosts: Some((2, 1)),
        brightness: 127,
        logo: 1,
        fan_mode: 1,
        fan_rpm: 3000,
        bho_on: true,
        bho_threshold: 80,
        lighting: false,
    }
}

fn healthy(command: &DaemonCommand) -> Option<DaemonResponse> {
    Some(match command {
        DaemonCommand::GetDesiredState => DaemonResponse::GetDesiredState {
            state: Some(desired()),
        },
        DaemonCommand::GetCharger => DaemonResponse::GetCharger { actp: Some(0x11) },
        DaemonCommand::GetEcPowerZone { .. } => DaemonResponse::GetEcPowerZone {
            mode: Some((4, 1)),
        },
        DaemonCommand::GetEcBoost { gpu } => DaemonResponse::GetEcBoost {
            value: Some(if *gpu { 1 } else { 2 }),
        },
        DaemonCommand::GetEcBrightness => DaemonResponse::GetEcBrightness { value: Some(127) },
        DaemonCommand::GetEcFanTach { zone } => DaemonResponse::GetEcFanTach {
            rpm: Some(3000 + *zone as u16),
        },
        DaemonCommand::GetEcFanSetpoint { .. } => DaemonResponse::GetEcFanSetpoint {
            rpm: Some(3000),
        },
        DaemonCommand::GetEcBho => DaemonResponse::GetEcBho { state: Some((true, 80)) },
        DaemonCommand::GetPwrLevel { .. } => DaemonResponse::GetPwrLevel { pwr: 4 },
        DaemonCommand::GetCPUBoost { .. } => DaemonResponse::GetCPUBoost { cpu: 3 },
        DaemonCommand::GetGPUBoost { .. } => DaemonResponse::GetGPUBoost { gpu: 1 },
        DaemonCommand::SetPowerMode { .. } => DaemonResponse::SetPowerMode { result: true },
        DaemonCommand::SetFanSpeed { .. } => DaemonResponse::SetFanSpeed { result: true },
        DaemonCommand::GetFanSpeed { .. } => DaemonResponse::GetFanSpeed { rpm: 3000 },
        DaemonCommand::SetBrightness { .. } => DaemonResponse::SetBrightness { result: true },
        DaemonCommand::GetBrightness { .. } => DaemonResponse::GetBrightness { result: 50 },
        DaemonCommand::SetLogoLedState { .. } => DaemonResponse::SetLogoLedState { result: true },
        DaemonCommand::GetLogoLedState { .. } => DaemonResponse::GetLogoLedState {
            logo_state: 2,
        },
        DaemonCommand::SetBatteryHealthOptimizer { .. } => {
            DaemonResponse::SetBatteryHealthOptimizer { result: true }
        }
        DaemonCommand::GetBatteryHealthOptimizer => DaemonResponse::GetBatteryHealthOptimizer {
            is_on: true,
            threshold: 75,
        },
        DaemonCommand::GetActualFanRpm => DaemonResponse::GetActualFanRpm { rpm: 2987 },
        DaemonCommand::GetFanCurve { .. } => DaemonResponse::GetFanCurve {
            curve: FanCurve {
                enabled: true,
                source: CurveTempSource::Both,
                cpu_points: vec![point(40, 2200), point(60, 3000)],
                gpu_points: vec![point(50, 2600)],
            },
        },
        DaemonCommand::SetFanCurve { .. } => DaemonResponse::SetFanCurve { result: true },
        DaemonCommand::GetGpuStatus => DaemonResponse::GetGpuStatus {
            gpus: vec![GpuInfo {
                name: String::from("NVIDIA GB203M"),
                pci_slot: String::from("01:00.0"),
                driver: String::from("nvidia"),
                gpu_type: String::from("dgpu"),
                runtime_status: String::from("suspended"),
            }],
            dgpu_runtime_pm: true,
        },
        DaemonCommand::GetCapabilities { .. } => DaemonResponse::GetCapabilities {
            wires: vec![0, 2],
            max_boost_tier: 2,
            model: String::from("Blade 16"),
        },
        _ => return None,
    })
}

/// Refuses what is written, answers what is read.
fn refusing(command: &DaemonCommand) -> Option<DaemonResponse> {
    match command {
        DaemonCommand::SetPowerMode { .. } => Some(DaemonResponse::SetPowerMode { result: false }),
        DaemonCommand::SetFanSpeed { .. } => Some(DaemonResponse::SetFanSpeed { result: false }),
        DaemonCommand::SetFanCurve { .. } => Some(DaemonResponse::SetFanCurve { result: false }),
        DaemonCommand::SetBatteryHealthOptimizer { .. } => {
            Some(DaemonResponse::SetBatteryHealthOptimizer { result: false })
        }
        other => healthy(other),
    }
}

fn silent(_: &DaemonCommand) -> Option<DaemonResponse> {
    None
}

/// Answers everything with the same.
fn confused(_: &DaemonCommand) -> Option<DaemonResponse> {
    Some(DaemonResponse::GetStaticLighting { enabled: true })
}

#[test]
fn the_overview_is_a_table() {
    let (printed, asked, end) = carry(Order::Status, healthy);
    assert_eq!(
        printed,
        vec![
            "            DESIRED                        ACTUAL",
            "domain      Barrel                         0x11  [ec]",
            "power       4 (Custom)                     4  [ec]",
            "boost       cpu 2 / gpu 1                  cpu 2 / gpu 1  [ec]",
            "brightness  127 (50 %)  [lighting off \u{2014} stored only] 127  [ec]",
            "fan         Manual 3000 rpm                tach z1 3001 / z2 3002 rpm \u{b7} mode 1 (manual) \u{b7} setpoint 3000 rpm  [ec]",
            "bho         on, 80 %                       on (threshold 80 %)  [ec]",
            "logo        1 (on)  [lighting off \u{2014} stored only] \u{2014}",
        ]
    );
    assert_eq!(asked.len(), 10);
    assert!(matches!(end, Next::Done { failed: false }));
}

#[test]
fn the_overview_marks_what_was_not_answered() {
    fn partly(command: &DaemonCommand) -> Option<DaemonResponse> {
        match command {
            DaemonCommand::GetDesiredState => healthy(command),
            _ => None,
        }
    }
    let (printed, _, _) = carry(Order::Status, partly);
    assert_eq!(printed[1], "domain      Barrel                         error: no reply");
    assert_eq!(printed[2], "power       4 (Custom)                     error: no 0x82 reply");
    assert_eq!(
        printed[5],
        "fan         Manual 3000 rpm                tach: error \u{b7} mode ? \u{b7} setpoint ?  [ec]"
    );
    let (printed, asked, _) = carry(Order::Status, silent);
    assert_eq!(
        printed,
        vec!["! error: daemon did not answer (predates GetDesiredState?)"]
    );
    assert_eq!(asked.len(), 1);
}

#[test]
fn what_should_hold_is_the_default_source() {
    let say = |order| carry(order, healthy).0;
    assert_eq!(say(Order::ReadPower { source: None, zone: 1 }), vec!["4 (Custom) [Barrel]"]);
    assert_eq!(say(Order::ReadBoost { gpu: true, source: None }), vec!["1 (Medium)"]);
    assert_eq!(say(Order::ReadBrightness { source: None }), vec!["127 (50 %)"]);
    assert_eq!(say(Order::ReadLogo { source: None }), vec!["1 (on)"]);
    assert_eq!(say(Order::ReadFan { source: None }), vec!["Manual 3000 rpm"]);
    assert_eq!(
        say(Order::ReadFanCurve { ac_state: None }),
        vec![
            "[Barrel] ac slot:",
            "Smart fan curve: enabled",
            "Temperature source: Both (higher resulting RPM)",
            "CPU points: 40\u{b0}C:2200, 60\u{b0}C:3000",
            "GPU points: 50\u{b0}C:2600",
        ]
    );
}

#[test]
fn stored_values_are_told() {
    let say = |order| carry(order, healthy).0;
    let ac = Some(ReadSource::Ac);
    assert_eq!(
        say(Order::ReadPower { source: ac, zone: 1 }),
        vec!["4 (Custom)", "boost cpu: 3 (Max)", "boost gpu: 1 (Medium)"]
    );
    assert_eq!(say(Order::ReadBoost { gpu: false, source: ac }), vec!["3 (Max)"]);
    assert_eq!(say(Order::ReadBrightness { source: ac }), vec!["50"]);
    assert_eq!(say(Order::ReadLogo { source: ac }), vec!["Breathing"]);
    assert_eq!(say(Order::ReadFan { source: ac }), vec!["3000 RPM"]);
    assert_eq!(say(Order::ReadBho { live: false }), vec!["on (threshold 75 %)"]);
    assert_eq!(
        say(Order::ReadGpu),
        vec![
            "Detected GPUs:",
            "  dGPU [01:00.0] NVIDIA GB203M (driver: nvidia, status: suspended)",
            "dGPU Runtime PM: auto (power saving)",
        ]
    );
}

#[test]
fn live_values_are_marked() {
    let say = |order| carry(order, healthy).0;
    let ec = Some(ReadSource::Ec);
    assert_eq!(
        say(Order::ReadPower { source: ec, zone: 2 }),
        vec!["zone2: mode=4 fan_state=1  [ec]"]
    );
    assert_eq!(say(Order::ReadBoost { gpu: false, source: ec }), vec!["2 (High)  [ec]"]);
    assert_eq!(say(Order::ReadBrightness { source: ec }), vec!["127  [ec]"]);
    assert_eq!(say(Order::ReadBho { live: true }), vec!["on (threshold 80 %)  [ec]"]);
    assert_eq!(say(Order::ReadFan { source: ec }), vec!["2987"]);
    assert_eq!(say(Order::ReadFanRpm), vec!["2987"]);
    assert_eq!(say(Order::ReadCharger), vec!["0x11"]);
    let (printed, asked, _) = carry(Order::ReadLogo { source: ec }, healthy);
    assert_eq!(
        printed,
        vec!["not readable on the 2025 EC [measured: state getter NOT_SUPPORTED]"]
    );
    assert!(asked.is_empty());
}

#[test]
fn a_write_shows_what_is_stored_afterwards() {
    let order = Order::WriteBrightness { ac_state: AcState::Ac, brightness: -1 };
    let (printed, asked, _) = carry(order, healthy);
    assert_eq!(printed, vec!["50"]);
    assert!(matches!(asked[0], DaemonCommand::SetBrightness { ac: 1, val: 255 }));
    let order = Order::WriteLogo { ac_state: AcState::Bat, logo_state: 258 };
    let (printed, asked, _) = carry(order, healthy);
    assert_eq!(printed, vec!["Breathing"]);
    assert!(matches!(asked[0], DaemonCommand::SetLogoLedState { ac: 0, logo_state: 2 }));
    let order = Order::WriteFan { ac_state: AcState::Ac, speed: 3000 };
    assert_eq!(carry(order, healthy).0, vec!["3000 RPM"]);
    let order = Order::WritePower {
        ac_state: AcState::Ac,
        profile: ProfileArg::Custom,
        cpu: Some(2),
        gpu: Some(0),
    };
    let (printed, asked, _) = carry(order, healthy);
    assert_eq!(printed.len(), 3);
    assert!(matches!(
        asked[0],
        DaemonCommand::SetPowerMode { ac: 1, pwr: 4, cpu: 2, gpu: 0 }
    ));
}

#[test]
fn a_refused_write_is_reported() {
    let order = Order::WriteFan { ac_state: AcState::Ac, speed: -5 };
    let (printed, _, end) = carry(order, refusing);
    assert_eq!(
        printed,
        vec!["! Daemon rejected fan rpm -5 (0 = auto, otherwise the model range; see `journalctl --user -u razercontrol`)."]
    );
    assert!(matches!(end, Next::Done { failed: true }));
    let order = Order::WritePower {
        ac_state: AcState::Ac,
        profile: ProfileArg::Turbo,
        cpu: None,
        gpu: None,
    };
    let (_, _, end) = carry(order, refusing);
    let Next::Usage(e) = end else { panic!("{:?}", end) };
    assert_eq!(e.kind, UsageKind::InvalidValue);
    assert_eq!(
        e.message,
        "the daemon rejected this request \u{2014} Blade 16 currently offers: Balanced, Performance (reason: journalctl --user -u razercontrol)"
    );
    let on = Order::WriteBho { state: OnOff::On, threshold: Some(65) };
    assert_eq!(
        carry(on, refusing).0,
        vec!["! Failed to turn on bho with threshold of 65"]
    );
    let off = Order::WriteBho { state: OnOff::Off, threshold: None };
    assert_eq!(carry(off, refusing).0, vec!["! Failed to turn off bho"]);
}

#[test]
fn a_silent_daemon_is_reported() {
    let say = |order| carry(order, silent).0;
    let ac = Some(ReadSource::Ac);
    assert_eq!(say(Order::ReadFan { source: ac }), vec!["! error: daemon did not answer"]);
    assert!(say(Order::ReadPower { source: ac, zone: 1 }).is_empty());
    assert_eq!(
        say(Order::ReadFanCurve { ac_state: Some(AcState::Bat) }),
        vec!["! Unknown daemon error!"]
    );
    let (printed, _, end) = carry(Order::ReadCharger, silent);
    assert_eq!(printed, vec!["! charger: unexpected or no response from daemon"]);
    assert!(matches!(end, Next::Done { failed: true }));
    let order = Order::WritePower {
        ac_state: AcState::Bat,
        profile: ProfileArg::Balanced,
        cpu: None,
        gpu: None,
    };
    let (_, _, end) = carry(order, silent);
    assert!(matches!(end, Next::Usage(e) if e.kind == UsageKind::DisplayHelp));
}

#[test]
fn an_answer_of_the_wrong_kind_is_reported() {
    let say = |order| carry(order, confused).0;
    let bat = Some(ReadSource::Bat);
    assert_eq!(say(Order::ReadFan { source: bat }), vec!["! error: invalid daemon response"]);
    assert_eq!(
        say(Order::ReadPower { source: bat, zone: 1 }),
        vec!["! error: invalid daemon response"]
    );
    assert!(say(Order::ReadBho { live: false }).is_empty());
    assert_eq!(
        say(Order::ReadBoost { gpu: true, source: bat }),
        vec!["! error: daemon did not answer"]
    );
}

#[test]
fn the_controller_that_gives_nothing_is_reported() {
    fn dumb(command: &DaemonCommand) -> Option<DaemonResponse> {
        Some(match command {
            DaemonCommand::GetEcPowerZone { .. } => DaemonResponse::GetEcPowerZone { mode: None },
            DaemonCommand::GetEcBho => DaemonResponse::GetEcBho { state: None },
            DaemonCommand::GetCharger => DaemonResponse::GetCharger { actp: None },
            DaemonCommand::GetActualFanRpm => DaemonResponse::GetActualFanRpm { rpm: -1 },
            DaemonCommand::GetDesiredState => DaemonResponse::GetDesiredState { state: None },
            _ => return None,
        })
    }
    let say = |order| carry(order, dumb).0;
    let ec = Some(ReadSource::Ec);
    assert_eq!(
        say(Order::ReadPower { source: ec, zone: 1 }),
        vec!["! error: EC gave no confirmed 0x82 reply"]
    );
    assert_eq!(
        say(Order::ReadBho { live: true }),
        vec!["! error: EC gave no 0x92 reply \u{2014} read failed or BHO unsupported here"]
    );
    assert_eq!(say(Order::ReadCharger), vec!["! charger: EC read failed (no value)"]);
    assert_eq!(say(Order::ReadFanRpm), vec!["! error: EC gave no tach reply"]);
    assert_eq!(
        say(Order::ReadLogo { source: None }),
        vec!["! error: no device attached \u{2014} domain unresolved"]
    );
}

#[test]
fn power_arguments_are_checked_before_anything_is_sent() {
    let fault = |ac, profile, cpu, gpu| {
        let e = write_pwr_mode(ac, profile, cpu, gpu).unwrap_err();
        (e.kind, e.message)
    };
    let (kind, message) = fault(0, ProfileArg::Performance, None, None);
    assert_eq!(kind, UsageKind::InvalidValue);
    assert_eq!(
        message,
        "That profile is not available on battery (DC). Allowed here: balanced, battery-saver."
    );
    let (_, message) = fault(1, ProfileArg::BatterySaver, None, None);
    assert_eq!(
        message,
        "That profile is not available on AC (plugged in). Allowed here: balanced, performance, silent, custom."
    );
    let (kind, _) = fault(1, ProfileArg::Custom, Some(1), None);
    assert_eq!(kind, UsageKind::MissingRequiredArgument);
    let (_, message) = fault(1, ProfileArg::Custom, Some(1), Some(3));
    assert_eq!(message, "CPU/GPU boost must be 0 (low), 1 (medium) or 2 (high)");
    let (_, message) = fault(1, ProfileArg::Silent, Some(1), None);
    assert_eq!(message, "CPU/GPU boost apply only to the custom profile");
    assert!(write_pwr_mode(0, ProfileArg::Balanced, None, None).is_ok());
    assert_eq!(ProfileArg::Balanced.wire_value(1), Some(0));
    assert_eq!(ProfileArg::Balanced.wire_value(0), Some(6));
    assert!(ProfileArg::Custom.is_custom());
}

#[test]
fn charge_limit_arguments_are_checked() {
    assert!(valid_bho_threshold(50) && valid_bho_threshold(80));
    assert!(!valid_bho_threshold(45) && !valid_bho_threshold(85) && !valid_bho_threshold(52));
    let e = validate_and_write_bho(None, OnOff::On).unwrap_err();
    assert_eq!(e.kind, UsageKind::MissingRequiredArgument);
    assert_eq!(e.message, "Threshold is required when BHO is on");
    let e = validate_and_write_bho(Some(52), OnOff::Off).unwrap_err();
    assert_eq!(e.message, "Threshold must be multiple of 5 between 50 and 80");
    assert!(matches!(
        validate_and_write_bho(Some(60), OnOff::Off),
        Ok(DaemonCommand::SetBatteryHealthOptimizer { is_on: false, threshold: 80 })
    ));
    assert!(OnOff::On.is_on() && !OnOff::Off.is_on());
    assert_eq!(byte_argument(-1), 255);
    assert_eq!(byte_argument(256), 0);
    assert_eq!(byte_argument(i32::MIN), 0);
    assert_eq!(byte_argument(-130), 126);
}

#[test]
fn points_are_read_and_shown() {
    assert_eq!(
        parse_points("40:2200, 60 : 3000,,80:4500,").unwrap(),
        vec![point(40, 2200), point(60, 3000), point(80, 4500)]
    );
    assert_eq!(parse_points("40-2200").unwrap_err(), "Invalid point '40-2200' (expected temp:rpm)");
    assert_eq!(parse_points("x :1").unwrap_err(), "Invalid temperature 'x '");
    assert_eq!(parse_points("1:65536").unwrap_err(), "Invalid RPM '65536'");
    assert_eq!(parse_points("101:1").unwrap_err(), "Temperature 101 out of range (0-100)");
    assert_eq!(
        parse_points("50:1,50:2").unwrap_err(),
        "Points must be sorted by ascending temperature"
    );
    assert_eq!(parse_points(" , ").unwrap_err(), "No valid points provided");
    assert_eq!(format_points(&Vec::new()), "");
    assert_eq!(format_points(&vec![point(40, 2200)]), "40\u{b0}C:2200");
}

#[test]
fn curve_arguments_change_the_stored_curve() {
    let params = FanCurveParams {
        ac_state: AcState::Ac,
        source: Some(CurveSourceArg::Gpu),
        enable: true,
        disable: false,
        cpu_points: None,
        gpu_points: Some(String::from("70:4000")),
    };
    let c = write_fan_curve(&params, FanCurve::new()).unwrap();
    assert!(c.enabled);
    assert_eq!(c.source, CurveTempSource::Gpu);
    assert_eq!(c.cpu_points.len(), 6);
    assert_eq!(c.gpu_points, vec![point(70, 4000)]);
    let (printed, asked, _) = carry(Order::WriteFanCurve(params), healthy);
    assert_eq!(printed.len(), 4);
    assert!(matches!(
        &asked[1],
        DaemonCommand::SetFanCurve { ac: 1, curve } if curve.gpu_points == vec![point(70, 4000)]
    ));
    let bad = FanCurveParams {
        ac_state: AcState::Bat,
        source: None,
        enable: false,
        disable: true,
        cpu_points: Some(String::new()),
        gpu_points: None,
    };
    let (_, asked, end) = carry(Order::WriteFanCurve(bad), healthy);
    assert_eq!(asked.len(), 1);
    assert!(matches!(end, Next::Usage(e) if e.message == "No valid points provided"));
}

#[test]
fn an_errand_is_answered_on_its_own() {
    let turn = answer(Errand::CustomGpu, Some(DaemonResponse::GetGPUBoost { gpu: 0 }));
    assert_eq!(turn.lines[0].text, "boost gpu: 0 (Low)");
    assert!(matches!(turn.next, Next::Done { failed: false }));
}

#[test]
fn profiles_have_names() {
    assert_eq!(profile_name(0), "Balanced");
    assert_eq!(profile_name(6), "Balanced");
    assert_eq!(profile_name(3), "Battery Saver");
    assert_eq!(profile_name(1), "Gaming (legacy)");
    assert_eq!(profile_name(200), "Unknown");
}

fn sensors(on_ac: Option<bool>, pct: Option<u8>, status: &str, watts: Option<f64>) -> SensorState {
    SensorState {
        fan_speed: None,
        on_ac,
        battery_pct: pct,
        battery_status: Some(String::from(status)),
        battery_power: watts.map(|w| format!("{:.1}", w)),
    }
}

#[test]
fn the_tooltip_tells_fan_and_power() {
    let mut s = sensors(Some(true), Some(80), "Charging", Some(12.34));
    assert_eq!(s.format_lines(), "AC / 80% +12.3W");
    s.fan_speed = Some(0);
    assert_eq!(s.format_lines(), "Fan: Auto\nAC / 80% +12.3W");
    s.fan_speed = Some(3000);
    s.on_ac = None;
    assert_eq!(s.format_lines(), "Fan: 3000 RPM");
    assert!(s.has_data());
    let limit = sensors(Some(true), Some(80), "Not charging", Some(1.0));
    assert_eq!(limit.format_lines(), "AC / 80% (Limit)");
    let full = sensors(Some(true), Some(100), "Full", Some(1.0));
    assert_eq!(full.format_lines(), "AC / 100%");
    let drain = sensors(Some(false), Some(55), "Discharging", Some(20.0));
    assert_eq!(drain.format_lines(), "Battery 55% \u{2212}20.0W");
    assert_eq!(sensors(Some(true), None, "", None).format_lines(), "AC Power");
    assert_eq!(sensors(Some(false), None, "", None).format_lines(), "Battery");
    let none = sensors(None, Some(5), "", None);
    assert_eq!(none.format_lines(), "Razer Control");
    assert!(!none.has_data());
}

#[test]
fn the_first_file_that_tells_is_taken() {
    let some = |s: &str| Some(String::from(s));
    assert_eq!(read_ac_power(&vec![None, some("1\n"), some("0")]), Some(true));
    assert_eq!(read_ac_power(&vec![some("2"), some("1")]), Some(false));
    assert_eq!(read_ac_power(&vec![None]), None);
    assert_eq!(read_battery_pct(&vec![some("abc"), some("87\n")]), Some(87));
    assert_eq!(read_battery_pct(&vec![some("256")]), None);
    assert_eq!(read_battery_status(&vec![some(" \n"), some("Full\n")]), some("Full"));
    assert_eq!(read_battery_status(&Vec::new()), None);
    let flow = read_battery_flow(&vec![
        (some("0"), some("15000000")),
        (some("1000000\n"), some("15000000\n")),
    ]);
    assert_eq!(flow, Some((1000000, 15000000)));
    let (c, v) = flow.unwrap();
    assert_eq!(c as f64 * v as f64 / 1e12, 15.0);
}
