use razer_control::charger::ChargerDomain;
use razer_control::command::EcCommand;
use razer_control::comms::{
    CurveTempSource, DaemonCommand, DaemonResponse, FanCurve, FanCurvePoint,
};
use razer_control::config::Configuration;
use razer_control::daemon::{changes_state, process_client_request, respond, unmanaged_response, Handling};
use razer_control::laptop::RazerLaptop;
use razer_control::manager::journal::curve_change_line;
use razer_control::manager::step::{Action, Outcome, Reply, Step};
use razer_control::manager::DeviceManager;
use razer_control::packet::RazerPacket;
use razer_control::profile::{PID_BLADE_16_2025, PID_BLADE_18_2025};

/// The outside of the manager: an adapter class, a clock, and what fails.
struct World {
    class: Option<u8>,
    online: Option<bool>,
    now: u64,
    saves: bool,
    /// Commands that the controller does not confirm.
    refuses: fn(&EcCommand) -> bool,
    /// What was done.
    log: Vec<Action>,
    /// What the journal was told.
    journal: Vec<String>,
}

fn world(class: u8) -> World {
    World {
        class: Some(class),
        online: Some(class != 0),
        now: 1_000_000_000,
        saves: true,
        refuses: |_| false,
        log: Vec::new(),
        journal: Vec::new(),
    }
}

impl World {
    fn perform(&mut self, action: &Action) -> Reply {
        self.log.push(*action);
        match action {
            Action::Save => Reply::Saved(self.saves),
            Action::ReadOnline => Reply::Online(self.online),
            Action::ReadClock => Reply::Clock(self.now),
            Action::Sleep { .. } => Reply::Slept,
            Action::Command(c) => {
                if (self.refuses)(c) {
                    return Reply::Answer(None);
                }
                let mut p = c.packet();
                p.status = RazerPacket::RAZER_CMD_SUCCESSFUL;
                match c {
                    EcCommand::ReadCharger => match self.class {
                        Some(class) => p.args[0] = class,
                        None => return Reply::Answer(None),
                    },
                    EcCommand::ReadChargeLimit => p.args[0] = 0xd0,
                    _ => {}
                }
                Reply::Answer(Some(p))
            }
        }
    }

    fn run(&mut self, d: &mut DeviceManager, first: Step) -> Outcome {
        let mut step = first;
        loop {
            step = match step {
                Step::Done(outcome) => return outcome,
                Step::Perform { actions, task } => {
                    let mut replies = Vec::new();
                    for action in &actions {
                        replies.push(self.perform(action));
                    }
                    for line in d.round_journal(task, &replies) {
                        self.journal.push(line.text);
                    }
                    d.resume(task, &replies)
                }
            };
        }
    }

    fn ask(&mut self, d: &mut DeviceManager, cmd: DaemonCommand) -> Option<DaemonResponse> {
        for line in d.request_journal(&cmd) {
            self.journal.push(line.text);
        }
        match process_client_request(d, cmd) {
            Handling::Answer(r) => r,
            Handling::Operate { step, pending } => {
                let outcome = self.run(d, step);
                respond(pending, outcome)
            }
            other => panic!("{:?}", other),
        }
    }

    fn commands(&self) -> Vec<EcCommand> {
        let mut r = Vec::new();
        for action in &self.log {
            if let Action::Command(c) = action {
                r.push(*c);
            }
        }
        r
    }

    fn saved(&self) -> bool {
        self.log.contains(&Action::Save)
    }
}

fn manager(pid: u16, features: &[&str]) -> DeviceManager {
    let mut d = DeviceManager::new();
    d.config = Some(Configuration::new());
    d.device = Some(RazerLaptop::new(
        String::from("Blade"),
        features.iter().map(|f| String::from(*f)).collect(),
        vec![2000, 5100],
        pid,
    ));
    d
}

fn blade_16() -> DeviceManager {
    manager(PID_BLADE_16_2025, &["logo", "bho"])
}

fn zone_modes(w: &World) -> Vec<(u8, u8)> {
    let mut r = Vec::new();
    for c in w.commands() {
        if let EcCommand::ZoneMode { zone, mode, .. } = c {
            r.push((zone, mode));
        }
    }
    r
}

#[test]
fn a_power_request_is_stored_and_written_to_both_zones() {
    let mut d = blade_16();
    let mut w = world(0x11);
    let cmd = DaemonCommand::SetPowerMode { ac: 1, pwr: 2, cpu: 0, gpu: 0 };
    let r = w.ask(&mut d, cmd);
    assert!(matches!(r, Some(DaemonResponse::SetPowerMode { result: true })));
    let modes = zone_modes(&w);
    assert_eq!(modes[modes.len() - 2..], [(1, 2), (2, 2)]);
    assert!(w.saved());
    let r = w.ask(&mut d, DaemonCommand::GetPwrLevel { ac: 1 });
    assert!(matches!(r, Some(DaemonResponse::GetPwrLevel { pwr: 2 })));
    assert_eq!(d.active_domain, Some(ChargerDomain::Barrel));
    assert_eq!(d.last_applied_wire, Some(2));
}

#[test]
fn a_refused_power_request_leaves_no_trace() {
    let mut d = blade_16();
    d.active_domain = Some(ChargerDomain::Barrel);
    let mut w = world(0x11);
    let cmd = DaemonCommand::SetPowerMode { ac: 1, pwr: 7, cpu: 0, gpu: 0 };
    let r = w.ask(&mut d, cmd);
    assert!(matches!(r, Some(DaemonResponse::SetPowerMode { result: false })));
    assert!(zone_modes(&w).is_empty());
    assert!(!w.saved());
    assert_eq!(d.config.as_ref().unwrap().power[1].power_mode, 0);
}

#[test]
fn turbo_is_written_where_it_is_stock_or_unlocked() {
    let mut d = manager(PID_BLADE_18_2025, &["turbo_stock", "max_tier_stock"]);
    let mut w = world(0x11);
    let turbo = || DaemonCommand::SetPowerMode { ac: 1, pwr: 7, cpu: 0, gpu: 0 };
    let r = w.ask(&mut d, turbo());
    assert!(matches!(r, Some(DaemonResponse::SetPowerMode { result: true })));

    let mut d = blade_16();
    let r = w.ask(&mut d, DaemonCommand::SetExperimentalProfiles { enabled: true });
    assert!(matches!(r, Some(DaemonResponse::SetExperimentalProfiles { result: true })));
    let r = w.ask(&mut d, turbo());
    assert!(matches!(r, Some(DaemonResponse::SetPowerMode { result: true })));
}

#[test]
fn a_plain_profile_keeps_the_stored_boosts() {
    let mut d = blade_16();
    let mut w = world(0x11);
    w.ask(&mut d, DaemonCommand::SetPowerMode { ac: 1, pwr: 4, cpu: 1, gpu: 2 });
    assert!(w.commands().contains(&EcCommand::Boost { zone: 1, tier: 1 }));
    assert!(w.commands().contains(&EcCommand::Boost { zone: 2, tier: 2 }));
    let mut w = world(0x11);
    w.ask(&mut d, DaemonCommand::SetPowerMode { ac: 1, pwr: 5, cpu: 0, gpu: 0 });
    for c in w.commands() {
        assert!(!matches!(c, EcCommand::Boost { .. }));
    }
    let r = w.ask(&mut d, DaemonCommand::GetCPUBoost { ac: 1 });
    assert!(matches!(r, Some(DaemonResponse::GetCPUBoost { cpu: 1 })));
    let r = w.ask(&mut d, DaemonCommand::GetGPUBoost { ac: 1 });
    assert!(matches!(r, Some(DaemonResponse::GetGPUBoost { gpu: 2 })));
}

#[test]
fn under_usb_pd_a_profile_is_stored_but_balanced_applies() {
    let mut d = blade_16();
    let mut w = world(0x23);
    let cmd = DaemonCommand::SetPowerMode { ac: 1, pwr: 2, cpu: 0, gpu: 0 };
    let r = w.ask(&mut d, cmd);
    assert!(matches!(r, Some(DaemonResponse::SetPowerMode { result: true })));
    for (_, mode) in zone_modes(&w) {
        assert_eq!(mode, 0);
    }
    assert_eq!(d.config.as_ref().unwrap().power[1].power_mode, 2);
    assert!(w.saved());
}

#[test]
fn the_other_slot_is_only_stored() {
    let mut d = blade_16();
    let mut w = world(0x11);
    let outcome = {
        let step = d.apply_charger_domain(ChargerDomain::Barrel);
        w.run(&mut d, step)
    };
    assert_eq!(outcome, Outcome::Byte(Some(0)));
    let mut w = world(0x11);
    let cmd = DaemonCommand::SetPowerMode { ac: 0, pwr: 3, cpu: 0, gpu: 0 };
    let r = w.ask(&mut d, cmd);
    assert!(matches!(r, Some(DaemonResponse::SetPowerMode { result: true })));
    assert!(zone_modes(&w).is_empty());
    assert_eq!(d.config.as_ref().unwrap().power[0].power_mode, 3);
}

#[test]
fn a_request_that_the_controller_does_not_confirm_fails() {
    let mut d = blade_16();
    let mut w = world(0x11);
    w.refuses = |c| matches!(c, EcCommand::ZoneMode { .. });
    let cmd = DaemonCommand::SetPowerMode { ac: 1, pwr: 2, cpu: 0, gpu: 0 };
    let r = w.ask(&mut d, cmd);
    assert!(matches!(r, Some(DaemonResponse::SetPowerMode { result: false })));
    assert_eq!(d.last_applied_wire, None);
}

#[test]
fn a_request_that_could_not_be_stored_fails() {
    let mut d = blade_16();
    let mut w = world(0x11);
    w.saves = false;
    let r = w.ask(&mut d, DaemonCommand::SetFanSpeed { ac: 1, rpm: 3000 });
    assert!(matches!(r, Some(DaemonResponse::SetFanSpeed { result: false })));
}

#[test]
fn a_first_press_synchronises_and_the_next_advances() {
    let mut d = blade_16();
    let mut w = world(0x11);
    let first = w.ask(&mut d, DaemonCommand::CyclePowerMode);
    let Some(DaemonResponse::CyclePowerMode { applied: Some(first) }) = first else {
        panic!("{:?}", first);
    };
    assert!(first.cold);
    assert_eq!(first.wire, 0);
    assert!(!w.saved());
    w.now += 1_000_000_000;
    let mut wires = Vec::new();
    for _ in 0..3 {
        let r = w.ask(&mut d, DaemonCommand::CyclePowerMode);
        let Some(DaemonResponse::CyclePowerMode { applied: Some(a) }) = r else {
            panic!("{:?}", r);
        };
        assert!(!a.cold);
        wires.push(a.wire);
        w.now += 1_000_000_000;
    }
    assert_eq!(wires, vec![2, 5, 0]);
}

#[test]
fn a_press_after_the_window_or_in_another_domain_is_cold() {
    let mut d = blade_16();
    let mut w = world(0x11);
    w.ask(&mut d, DaemonCommand::CyclePowerMode);
    w.now += 3_000_000_001;
    let r = w.ask(&mut d, DaemonCommand::CyclePowerMode);
    let Some(DaemonResponse::CyclePowerMode { applied: Some(a) }) = r else {
        panic!("{:?}", r);
    };
    assert!(a.cold);
    w.now += 1;
    w.class = Some(0x00);
    let r = w.ask(&mut d, DaemonCommand::CyclePowerMode);
    let Some(DaemonResponse::CyclePowerMode { applied: Some(a) }) = r else {
        panic!("{:?}", r);
    };
    assert!(a.cold);
    assert_eq!(a.wire, 6);
}

#[test]
fn an_offline_adapter_is_battery_without_asking_the_controller() {
    let mut d = blade_16();
    let mut w = world(0x11);
    w.online = Some(false);
    let step = d.sync_charger_domain();
    w.run(&mut d, step);
    assert!(!w.commands().contains(&EcCommand::ReadCharger));
    assert_eq!(d.active_domain, Some(ChargerDomain::Battery));
    assert!(zone_modes(&w).contains(&(1, 6)));
}

#[test]
fn an_online_adapter_of_unknown_class_falls_to_usb_pd() {
    let mut d = blade_16();
    d.config.as_mut().unwrap().power[1].power_mode = 5;
    let mut w = world(0x11);
    w.class = None;
    let step = d.sync_charger_domain();
    w.run(&mut d, step);
    assert_eq!(d.active_domain, Some(ChargerDomain::Pd));
    for (_, mode) in zone_modes(&w) {
        assert_eq!(mode, 0);
    }
    let reads = w.commands().iter().filter(|c| **c == EcCommand::ReadCharger).count();
    assert_eq!(reads, 3);
}

#[test]
fn settings_are_stored_and_read_back() {
    let mut d = blade_16();
    let mut w = world(0x11);
    w.ask(&mut d, DaemonCommand::SetBrightness { ac: 1, val: 50 });
    let r = w.ask(&mut d, DaemonCommand::GetBrightness { ac: 1 });
    assert!(matches!(r, Some(DaemonResponse::GetBrightness { result: 50 })));
    assert_eq!(d.config.as_ref().unwrap().power[1].brightness, 127);

    w.ask(&mut d, DaemonCommand::SetLogoLedState { ac: 0, logo_state: 2 });
    let r = w.ask(&mut d, DaemonCommand::GetLogoLedState { ac: 0 });
    assert!(matches!(r, Some(DaemonResponse::GetLogoLedState { logo_state: 2 })));

    w.ask(&mut d, DaemonCommand::SetStaticColor { red: 1, green: 2, blue: 3 });
    let r = w.ask(&mut d, DaemonCommand::GetStaticColor);
    assert!(matches!(r, Some(DaemonResponse::GetStaticColor { color: [1, 2, 3] })));

    let r = w.ask(&mut d, DaemonCommand::SetFanSpeed { ac: 1, rpm: 3000 });
    assert!(matches!(r, Some(DaemonResponse::SetFanSpeed { result: true })));
    let r = w.ask(&mut d, DaemonCommand::GetFanSpeed { ac: 1 });
    assert!(matches!(r, Some(DaemonResponse::GetFanSpeed { rpm: 3000 })));
    let r = w.ask(&mut d, DaemonCommand::SetFanSpeed { ac: 1, rpm: 9000 });
    assert!(matches!(r, Some(DaemonResponse::SetFanSpeed { result: false })));
}

#[test]
fn lighting_switched_off_writes_no_lighting() {
    let mut d = blade_16();
    let mut w = world(0x11);
    let step = d.apply_charger_domain(ChargerDomain::Barrel);
    w.run(&mut d, step);
    let r = w.ask(&mut d, DaemonCommand::SetStaticLighting { enabled: false });
    assert!(matches!(r, Some(DaemonResponse::SetStaticLighting { result: true })));
    let mut w = world(0x11);
    w.ask(&mut d, DaemonCommand::SetBrightness { ac: 1, val: 20 });
    w.ask(&mut d, DaemonCommand::SetLogoLedState { ac: 1, logo_state: 1 });
    w.ask(&mut d, DaemonCommand::SetStaticColor { red: 9, green: 9, blue: 9 });
    let step = d.apply_charger_domain(ChargerDomain::Barrel);
    w.run(&mut d, step);
    for c in w.commands() {
        assert!(!matches!(
            c,
            EcCommand::Brightness { .. }
                | EcCommand::LogoEffect { .. }
                | EcCommand::LogoState { .. }
                | EcCommand::StaticColor { .. }
        ));
    }
    assert_eq!(d.config.as_ref().unwrap().static_color, [9, 9, 9]);
}

#[test]
fn a_lighting_switch_that_cannot_be_stored_changes_nothing() {
    let mut d = blade_16();
    let mut w = world(0x11);
    w.saves = false;
    let r = w.ask(&mut d, DaemonCommand::SetStaticLighting { enabled: false });
    assert!(matches!(r, Some(DaemonResponse::SetStaticLighting { result: false })));
    assert!(d.config.as_ref().unwrap().static_lighting);
}

#[test]
fn a_lighting_switch_whose_colour_fails_is_put_back() {
    let mut d = blade_16();
    let mut w = world(0x11);
    w.ask(&mut d, DaemonCommand::SetStaticLighting { enabled: false });
    w.refuses = |c| matches!(c, EcCommand::StaticColor { .. });
    let r = w.ask(&mut d, DaemonCommand::SetStaticLighting { enabled: true });
    assert!(matches!(r, Some(DaemonResponse::SetStaticLighting { result: false })));
    assert!(!d.config.as_ref().unwrap().static_lighting);
    assert!(!d.device.as_ref().unwrap().static_lighting);
}

#[test]
fn a_charge_limit_is_written_committed_and_stored() {
    let mut d = blade_16();
    let mut w = world(0x11);
    let cmd = DaemonCommand::SetBatteryHealthOptimizer { is_on: true, threshold: 65 };
    let r = w.ask(&mut d, cmd);
    assert!(matches!(r, Some(DaemonResponse::SetBatteryHealthOptimizer { result: true })));
    assert_eq!(
        w.commands(),
        vec![EcCommand::ChargeLimit { packed: 0x80 | 65 }, EcCommand::ChargeLimitCommit]
    );
    let r = w.ask(&mut d, DaemonCommand::GetBatteryHealthOptimizer);
    assert!(matches!(
        r,
        Some(DaemonResponse::GetBatteryHealthOptimizer { is_on: true, threshold: 65 })
    ));
    let r = w.ask(&mut d, DaemonCommand::GetEcBho);
    assert!(matches!(r, Some(DaemonResponse::GetEcBho { state: Some((true, 80)) })));
}

#[test]
fn a_charge_limit_out_of_range_or_without_optimizer_is_refused() {
    let mut w = world(0x11);
    let mut d = blade_16();
    let cmd = DaemonCommand::SetBatteryHealthOptimizer { is_on: true, threshold: 81 };
    let r = w.ask(&mut d, cmd);
    assert!(matches!(r, Some(DaemonResponse::SetBatteryHealthOptimizer { result: false })));
    let mut d = manager(PID_BLADE_16_2025, &[]);
    let cmd = DaemonCommand::SetBatteryHealthOptimizer { is_on: true, threshold: 80 };
    let r = w.ask(&mut d, cmd);
    assert!(matches!(r, Some(DaemonResponse::SetBatteryHealthOptimizer { result: false })));
    assert!(w.log.is_empty());
}

#[test]
fn a_fan_curve_latches_the_fans_once_confirmed() {
    let mut d = blade_16();
    let mut w = world(0x11);
    let step = d.apply_charger_domain(ChargerDomain::Barrel);
    w.run(&mut d, step);
    let mut curve = FanCurve::new();
    curve.enabled = true;
    let r = w.ask(&mut d, DaemonCommand::SetFanCurve { ac: 1, curve });
    assert!(matches!(r, Some(DaemonResponse::SetFanCurve { result: true })));
    assert!(!d.fan_curve_established);

    let mut w = world(0x11);
    w.refuses = |c| matches!(c, EcCommand::ZoneSpeed { .. });
    let step = d.fan_curve_tick(Some(55), None);
    w.run(&mut d, step);
    assert!(!d.fan_curve_established);

    let mut w = world(0x11);
    let step = d.fan_curve_tick(Some(55), None);
    w.run(&mut d, step);
    assert!(d.fan_curve_established);
    assert_eq!(d.fan_curve_last_rpm, Some(3200));
    assert!(w.commands().contains(&EcCommand::ZoneSpeed { zone: 1, hundreds: 32 }));
}

#[test]
fn the_charger_class_is_reported_untranslated() {
    let mut d = blade_16();
    let mut w = world(0x42);
    let r = w.ask(&mut d, DaemonCommand::GetCharger);
    assert!(matches!(r, Some(DaemonResponse::GetCharger { actp: Some(0x42) })));
    w.class = None;
    let r = w.ask(&mut d, DaemonCommand::GetCharger);
    assert!(matches!(r, Some(DaemonResponse::GetCharger { actp: None })));
}

#[test]
fn the_model_surface_is_reported() {
    let mut d = manager(PID_BLADE_18_2025, &["turbo_stock", "max_tier_stock"]);
    let mut w = world(0x11);
    let r = w.ask(&mut d, DaemonCommand::GetCapabilities { ac: 1 });
    let Some(DaemonResponse::GetCapabilities { wires, max_boost_tier, model }) = r else {
        panic!("{:?}", r);
    };
    assert_eq!(wires, vec![0, 2, 5, 7, 4]);
    assert_eq!(max_boost_tier, 3);
    assert_eq!(model, "Blade");
}

#[test]
fn what_should_hold_follows_the_adapter() {
    let mut d = blade_16();
    d.config.as_mut().unwrap().power[1].power_mode = 2;
    let mut w = world(0x11);
    let r = w.ask(&mut d, DaemonCommand::GetDesiredState);
    let Some(DaemonResponse::GetDesiredState { state: Some(s) }) = r else {
        panic!("{:?}", r);
    };
    assert_eq!(s.wire, 2);
    w.class = Some(0x23);
    let r = w.ask(&mut d, DaemonCommand::GetDesiredState);
    let Some(DaemonResponse::GetDesiredState { state: Some(s) }) = r else {
        panic!("{:?}", r);
    };
    assert_eq!(s.wire, 0);
}

#[test]
fn a_request_for_a_slot_that_there_is_none_of_does_nothing() {
    let mut d = blade_16();
    let mut w = world(0x11);
    w.ask(&mut d, DaemonCommand::SetBrightness { ac: 2, val: 1 });
    w.ask(&mut d, DaemonCommand::GetPwrLevel { ac: 7 });
    w.ask(&mut d, DaemonCommand::GetEcPowerZone { zone: 3 });
    assert!(w.log.is_empty());
}

#[test]
fn applying_the_profile_again_stores_nothing() {
    let mut d = blade_16();
    let mut w = world(0x11);
    d.config.as_mut().unwrap().power[1].power_mode = 5;
    let step = d.reapply_power_mode();
    let outcome = w.run(&mut d, step);
    assert_eq!(outcome, Outcome::Flag(true));
    assert!(!w.saved());
    assert_eq!(zone_modes(&w), vec![(1, 5), (2, 5)]);
}

#[test]
fn without_a_device_nothing_is_written() {
    let mut d = DeviceManager::new();
    d.config = Some(Configuration::new());
    let mut w = world(0x11);
    let r = w.ask(&mut d, DaemonCommand::GetDeviceName);
    assert!(matches!(r, Some(DaemonResponse::GetDeviceName { .. })));
    let r = w.ask(&mut d, DaemonCommand::GetDesiredState);
    assert!(matches!(r, Some(DaemonResponse::GetDesiredState { state: None })));
    let step = d.sync_charger_domain();
    w.run(&mut d, step);
    assert!(w.commands().is_empty());
}

#[test]
fn without_the_manager_only_the_unlock_is_answered() {
    assert!(unmanaged_response(&DaemonCommand::GetGpuStatus).is_none());
    assert!(matches!(
        unmanaged_response(&DaemonCommand::SetExperimentalProfiles { enabled: true }),
        Some(DaemonResponse::SetExperimentalProfiles { result: false })
    ));
}

#[test]
fn the_adapter_class_stands_for_a_domain() {
    let mut d = blade_16();
    for (class, domain) in [
        (0x11, ChargerDomain::Barrel),
        (0x00, ChargerDomain::Battery),
        (0x07, ChargerDomain::Pd),
    ] {
        let mut w = world(class);
        let step = d.read_charger_domain();
        assert_eq!(w.run(&mut d, step), Outcome::Domain(Some(domain)));
    }
}

#[test]
fn a_requested_profile_comes_back_when_its_domain_does() {
    let mut d = blade_16();
    let mut w = world(0x11);
    w.ask(&mut d, DaemonCommand::SetPowerMode { ac: 1, pwr: 5, cpu: 0, gpu: 0 });
    w.online = Some(false);
    let step = d.sync_charger_domain();
    w.run(&mut d, step);
    assert_eq!(d.last_applied_wire, Some(6));
    w.online = Some(true);
    w.log.clear();
    let step = d.sync_charger_domain();
    w.run(&mut d, step);
    assert_eq!(zone_modes(&w)[..2], [(1, 5), (2, 5)]);
    assert_eq!(d.last_applied_wire, Some(5));
}

#[test]
fn an_unlock_that_is_not_stored_changes_nothing() {
    for before in [false, true] {
        let mut d = blade_16();
        d.config.as_mut().unwrap().experimental_profiles = before;
        d.device.as_mut().unwrap().allow_experimental = before;
        let mut w = world(0x11);
        w.saves = false;
        let cmd = DaemonCommand::SetExperimentalProfiles { enabled: !before };
        let r = w.ask(&mut d, cmd);
        assert!(matches!(r, Some(DaemonResponse::SetExperimentalProfiles { result: false })));
        assert_eq!(d.config.as_ref().unwrap().experimental_profiles, before);
        assert_eq!(d.device.as_ref().unwrap().allow_experimental, before);
        let r = w.ask(&mut d, DaemonCommand::GetExperimentalProfiles);
        match r {
            Some(DaemonResponse::GetExperimentalProfiles { enabled }) => assert_eq!(enabled, before),
            other => panic!("{:?}", other),
        }
        w.saves = true;
        w.ask(&mut d, DaemonCommand::SetExperimentalProfiles { enabled: !before });
        assert_eq!(d.config.as_ref().unwrap().experimental_profiles, !before);
        assert_eq!(d.device.as_ref().unwrap().allow_experimental, !before);
    }
}

#[test]
fn the_journal_names_the_reason_of_a_refusal() {
    let mut d = blade_16();
    d.active_domain = Some(ChargerDomain::Barrel);
    let mut w = world(0x11);
    let turbo = DaemonCommand::SetPowerMode { ac: 1, pwr: 7, cpu: 0, gpu: 0 };
    let reason = "rejected SetPowerMode { ac: 1, pwr: 7, cpu: 0, gpu: 0 }: Turbo needs the experimental opt-in on this model";
    assert_eq!(d.refusal_of(&turbo).as_deref(), Some(reason));
    let cases = [
        (turbo, reason),
        (
            DaemonCommand::SetFanSpeed { ac: 1, rpm: -1 },
            "Rejected fan rpm -1 (valid: 0 for auto, or the model range)",
        ),
        (
            DaemonCommand::SetLogoLedState { ac: 0, logo_state: 3 },
            "rejected SetLogoLedState { ac: 0, logo_state: 3 }: valid states are 0..=2",
        ),
        (
            DaemonCommand::SetBatteryHealthOptimizer { is_on: true, threshold: 90 },
            "rejected SetBatteryHealthOptimizer { is_on: true, threshold: 90 }: threshold must be 50..=80",
        ),
    ];
    for (cmd, line) in cases {
        w.journal.clear();
        w.ask(&mut d, cmd);
        assert_eq!(w.journal, vec![String::from(line)]);
        assert!(!w.saved());
    }
    let fine = DaemonCommand::SetFanSpeed { ac: 1, rpm: 3000 };
    assert_eq!(d.refusal_of(&fine), None);
    assert_eq!(d.refusal_of(&DaemonCommand::GetStaticColor), None);
    w.journal.clear();
    w.ask(&mut d, DaemonCommand::SetLogoLedState { ac: 2, logo_state: 3 });
    assert!(w.journal.is_empty());
}

#[test]
fn the_journal_tells_of_a_drift_and_of_a_heal_that_failed() {
    let mut d = blade_16();
    let mut w = world(0x11);
    let cmd = || DaemonCommand::SetPowerMode { ac: 1, pwr: 9, cpu: 0, gpu: 0 };
    w.ask(&mut d, cmd());
    assert_eq!(
        w.journal,
        vec![
            String::from("power write: domain drift detected — syncing to Barrel first"),
            String::from(
                "rejected SetPowerMode { ac: 1, pwr: 9, cpu: 0, gpu: 0 }: unknown profile value"
            ),
        ]
    );
    let mut d = blade_16();
    let mut w = world(0x23);
    w.refuses = |c| matches!(c, EcCommand::ZoneMode { .. });
    w.ask(&mut d, cmd());
    assert_eq!(
        w.journal,
        vec![
            String::from("power write: domain drift detected — syncing to Pd first"),
            String::from(
                "power write: drift heal to Pd failed — rejecting the request rather than writing onto an unconfirmed base"
            ),
        ]
    );
    let mut w = world(0x23);
    w.ask(&mut d, DaemonCommand::SetPowerMode { ac: 1, pwr: 2, cpu: 0, gpu: 0 });
    assert_eq!(
        w.journal.last().unwrap(),
        "power write: stored wire 2 for the AC slot; USB-PD active, EC stays on Balanced"
    );
}

#[test]
fn the_journal_tells_of_a_curve_that_did_not_latch() {
    let mut d = blade_16();
    let mut w = world(0x11);
    let step = d.sync_charger_domain();
    w.run(&mut d, step);
    assert_eq!(w.journal, vec![String::from("charger sync: domain=Barrel applied_wire=Some(0)")]);
    d.config.as_mut().unwrap().power[1].fan_curve.enabled = true;
    d.fan_curve_last_rpm = Some(3000);
    w.journal.clear();
    w.refuses = |c| matches!(c, EcCommand::ZoneSpeed { .. });
    let step = d.reapply_power_mode();
    w.run(&mut d, step);
    assert_eq!(
        w.journal,
        vec![
            String::from("Re-applying power profile: domain=Barrel power_mode=0"),
            String::from(
                "power profile re-applied but the fan-curve re-assert failed — the curve retries on its next tick"
            ),
        ]
    );
    assert!(!d.fan_curve_established);
    assert_eq!(d.fan_curve_last_rpm, None);
    d.fan_curve_last_rpm = Some(3000);
    w.journal.clear();
    w.ask(&mut d, DaemonCommand::SetPowerMode { ac: 1, pwr: 2, cpu: 0, gpu: 0 });
    assert_eq!(
        w.journal,
        vec![String::from(
            "profile written but the fan-curve re-assert failed — the curve retries on its next tick"
        )]
    );
}

#[test]
fn the_journal_tells_of_what_an_applied_slot_could_not_have() {
    let mut d = blade_16();
    {
        let c = d.config.as_mut().unwrap();
        c.power[1].power_mode = 7;
        c.power[1].fan_rpm = -1;
        c.power[0].power_mode = 4;
        c.power[0].cpu_boost = 3;
        c.power[0].gpu_boost = 3;
        c.static_lighting = false;
    }
    let mut w = world(0x11);
    let step = d.sync_charger_domain();
    w.run(&mut d, step);
    assert_eq!(
        w.journal,
        vec![
            String::from("lighting restore skipped (static_lighting off)"),
            String::from(
                "refusing profile 7 (Turbo) — stock on the Blade 18; this model needs the experimental opt-in (About page)"
            ),
            String::from(
                "fan restore skipped: persisted rpm -1 not representable (config predates validation?)"
            ),
            String::from("charger sync: domain=Barrel applied_wire=None"),
        ]
    );
    let mut w = world(0x00);
    let step = d.sync_charger_domain();
    w.run(&mut d, step);
    assert_eq!(
        w.journal[1..],
        [
            String::from(
                "CPU boost tier 3 (Max) without an unlock on this model — clamped to 2 for this write"
            ),
            String::from(
                "GPU boost tier 3 (Max) without an unlock on this model — clamped to 2 for this write"
            ),
            String::from("charger sync: domain=Battery applied_wire=Some(4)"),
        ]
    );
    w.journal.clear();
    let step = d.reapply_power_mode();
    w.run(&mut d, step);
    assert_eq!(
        w.journal[0],
        "Re-applying power profile: domain=Battery power_mode=4 cpu_boost=3 gpu_boost=3"
    );
    assert_eq!(w.journal.len(), 3);
    let mut w = world(0x23);
    let step = d.sync_charger_domain();
    w.run(&mut d, step);
    assert_eq!(w.journal[0], "PD aux lighting skipped (static_lighting off)");
    w.journal.clear();
    w.ask(&mut d, DaemonCommand::SetBrightness { ac: 1, val: 50 });
    w.ask(&mut d, DaemonCommand::SetLogoLedState { ac: 1, logo_state: 1 });
    assert_eq!(
        w.journal,
        vec![
            String::from(
                "brightness stored only — lighting writes disabled (static_lighting off)"
            ),
            String::from("logo stored only — lighting writes disabled (static_lighting off)"),
        ]
    );
    w.journal.clear();
    w.ask(&mut d, DaemonCommand::SetFanCurve { ac: 1, curve: FanCurve::new() });
    assert_eq!(
        w.journal,
        vec![String::from(
            "curve-off fan restore skipped: persisted rpm -1 not representable"
        )]
    );
}

#[test]
fn the_journal_tells_of_a_silent_controller() {
    let commit =
        "BHO commit (0x0f): no reply — harmless on 2025 (redundant), logged for the record";
    let mut d = blade_16();
    let mut w = world(0x11);
    w.refuses = |c| matches!(c, EcCommand::ChargeLimitCommit);
    let cmd = DaemonCommand::SetBatteryHealthOptimizer { is_on: true, threshold: 60 };
    let r = w.ask(&mut d, cmd);
    assert!(matches!(r, Some(DaemonResponse::SetBatteryHealthOptimizer { result: true })));
    let step = d.restore_bho();
    w.run(&mut d, step);
    assert_eq!(w.journal, vec![String::from(commit), String::from(commit)]);

    let mut w = world(0x11);
    w.class = None;
    let step = d.sync_charger_domain();
    w.run(&mut d, step);
    assert_eq!(
        w.journal,
        vec![
            String::from("charger sync: online but EC unresolved after retries — failing safe to PD"),
            String::from("charger sync: domain=Pd applied_wire=Some(0)"),
        ]
    );
    // An answer that contradicts UPower is an answer.
    let mut w = world(0x00);
    w.online = Some(true);
    let step = d.sync_charger_domain();
    w.run(&mut d, step);
    assert_eq!(w.journal, vec![String::from("charger sync: domain=Pd applied_wire=Some(0)")]);
    let mut w = world(0x11);
    w.class = None;
    w.online = None;
    let step = d.sync_charger_domain();
    w.run(&mut d, step);
    assert_eq!(
        w.journal[0],
        "charger sync: EC charger read failed — falling back to the binary UPower path"
    );
}

#[test]
fn requests_that_change_state_are_told() {
    let curve = || FanCurve::new();
    let changing = [
        DaemonCommand::SetFanCurve { ac: 1, curve: curve() },
        DaemonCommand::SetPowerMode { ac: 1, pwr: 0, cpu: 0, gpu: 0 },
        DaemonCommand::CyclePowerMode,
        DaemonCommand::SetFanSpeed { ac: 1, rpm: 0 },
        DaemonCommand::SetExperimentalProfiles { enabled: true },
        DaemonCommand::SetBatteryHealthOptimizer { is_on: true, threshold: 80 },
        DaemonCommand::SetBrightness { ac: 1, val: 50 },
        DaemonCommand::SetLogoLedState { ac: 1, logo_state: 1 },
        DaemonCommand::SetStaticColor { red: 1, green: 2, blue: 3 },
        DaemonCommand::SetStaticLighting { enabled: true },
    ];
    for cmd in &changing {
        assert!(changes_state(cmd));
    }
    let quiet = [
        DaemonCommand::GetStaticColor,
        DaemonCommand::GetFanCurve { ac: 1 },
        DaemonCommand::GetGpuStatus,
        DaemonCommand::GetEcBho,
    ];
    for cmd in &quiet {
        assert!(!changes_state(cmd));
    }
}

#[test]
fn a_change_of_the_fan_curve_is_told_in_short() {
    let mut curve = FanCurve::new();
    curve.enabled = true;
    curve.source = CurveTempSource::Both;
    curve.cpu_points = vec![
        FanCurvePoint { temp_c: 40, rpm: 2200 },
        FanCurvePoint { temp_c: 60, rpm: 3000 },
    ];
    curve.gpu_points = vec![];
    assert_eq!(
        curve_change_line(1, &curve),
        "state change: SetFanCurve { ac: 1, enabled: true, source: Both, cpu: [40→2200 60→3000], gpu: [] }"
    );
}

#[test]
fn a_restored_colour_is_told() {
    let mut d = blade_16();
    let told = |d: &DeviceManager| -> Vec<String> {
        d.restore_journal().into_iter().map(|l| l.text).collect()
    };
    assert_eq!(told(&d), vec!["restore static colour: [0, 255, 0]"]);
    let mut w = world(0x11);
    w.ask(&mut d, DaemonCommand::SetStaticLighting { enabled: false });
    assert!(told(&d).is_empty());
    assert!(w.journal.is_empty());
    w.ask(&mut d, DaemonCommand::SetStaticLighting { enabled: true });
    assert_eq!(w.journal, vec![String::from("restore static colour: [0, 255, 0]")]);
    d.device = None;
    assert!(told(&d).is_empty());
}

#[test]
fn every_operation_is_short_and_answered() {
    // Nothing outside works.
    let mut w = world(0x11);
    w.class = None;
    w.saves = false;
    w.refuses = |_| true;
    let mut d = blade_16();
    let step = d.sync_charger_domain();
    let mut rounds = 0;
    let mut step = step;
    while let Step::Perform { actions, task } = step {
        let mut replies = Vec::new();
        for action in &actions {
            replies.push(w.perform(action));
        }
        step = d.resume(task, &replies);
        rounds += 1;
    }
    assert_eq!(rounds, 5);
    let requests = vec![
        DaemonCommand::SetPowerMode { ac: 1, pwr: 2, cpu: 0, gpu: 0 },
        DaemonCommand::CyclePowerMode,
        DaemonCommand::SetFanSpeed { ac: 1, rpm: 3000 },
        DaemonCommand::SetFanCurve { ac: 1, curve: FanCurve::new() },
        DaemonCommand::SetStaticColor { red: 1, green: 2, blue: 3 },
        DaemonCommand::SetStaticLighting { enabled: false },
        DaemonCommand::SetBatteryHealthOptimizer { is_on: true, threshold: 60 },
        DaemonCommand::GetEcBho,
        DaemonCommand::GetDesiredState,
        DaemonCommand::GetActualFanRpm,
    ];
    for cmd in requests {
        assert!(w.ask(&mut d, cmd).is_some());
    }
}
