use razer_control::charger::{desired_state, show_desired, ChargerDomain, FanTarget};
use razer_control::comms::ChargerDomainWire;
use razer_control::config::Configuration;
use razer_control::profile::{
    advance, bho_threshold_valid, bho_to_byte, boost_tier_valid_with, byte_to_bho, cycle_excluded,
    cycle_order, effective_profiles, max_tier_is_stock, profile_allowed_with, repair_lines,
    sanitize_loaded_config, turbo_is_stock, validate_power_request, PID_BLADE_14_2025,
    PID_BLADE_16_2025, PID_BLADE_18_2025,
};

const ALL_PIDS: [u16; 3] = [PID_BLADE_14_2025, PID_BLADE_16_2025, PID_BLADE_18_2025];
const BASE_ONLY: [u16; 2] = [PID_BLADE_14_2025, PID_BLADE_16_2025];

#[test]
fn every_model_accepts_its_base_matrix() {
    for pid in ALL_PIDS {
        for pwr in [0u8, 2, 4, 5] {
            assert!(validate_power_request(pid, 1, pwr, 0, 0, false).is_ok());
        }
        for pwr in [3u8, 6] {
            assert!(validate_power_request(pid, 0, pwr, 0, 0, false).is_ok());
        }
    }
}

#[test]
fn turbo_and_max_are_stock_on_the_18_only() {
    assert!(validate_power_request(PID_BLADE_18_2025, 1, 7, 0, 0, false).is_ok());
    assert!(validate_power_request(PID_BLADE_18_2025, 1, 4, 3, 3, false).is_ok());
    for pid in BASE_ONLY {
        assert_eq!(
            validate_power_request(pid, 1, 7, 0, 0, false).unwrap_err(),
            "Turbo needs the experimental opt-in on this model"
        );
        assert_eq!(
            validate_power_request(pid, 1, 4, 3, 0, false).unwrap_err(),
            "boost tier out of range (0..=2; the Max tier needs an unlock on this model)"
        );
    }
}

#[test]
fn experimental_is_the_full_unlock_everywhere() {
    for pid in ALL_PIDS {
        assert!(validate_power_request(pid, 1, 1, 0, 0, true).is_ok());
        assert!(validate_power_request(pid, 1, 7, 0, 0, true).is_ok());
        assert!(validate_power_request(pid, 1, 4, 3, 3, true).is_ok());
    }
}

#[test]
fn gaming_needs_the_optin_even_on_the_18() {
    assert_eq!(
        validate_power_request(PID_BLADE_18_2025, 1, 1, 0, 0, false).unwrap_err(),
        "profile needs the experimental opt-in"
    );
}

#[test]
fn the_battery_domain_never_gains_anything() {
    for pid in ALL_PIDS {
        for pwr in [0u8, 2, 4, 5, 1, 7] {
            assert_eq!(
                validate_power_request(pid, 0, pwr, 0, 0, true).unwrap_err(),
                "profile not offered in this power domain"
            );
        }
        for pwr in [3u8, 6] {
            assert_eq!(
                validate_power_request(pid, 1, pwr, 0, 0, true).unwrap_err(),
                "profile not offered in this power domain"
            );
        }
    }
}

#[test]
fn unknown_and_out_of_range_values_are_rejected_on_every_model() {
    for pid in ALL_PIDS {
        assert_eq!(
            validate_power_request(pid, 1, 8, 0, 0, true).unwrap_err(),
            "unknown profile value"
        );
        assert_eq!(
            validate_power_request(pid, 1, 255, 0, 0, true).unwrap_err(),
            "unknown profile value"
        );
        assert_eq!(
            validate_power_request(pid, 2, 0, 0, 0, true).unwrap_err(),
            "ac index out of range"
        );
        assert!(validate_power_request(pid, 1, 0, 4, 0, true).is_err());
        assert!(validate_power_request(pid, 1, 0, 0, 255, false).is_err());
    }
    assert!(bho_threshold_valid(50) && bho_threshold_valid(80));
    assert!(!bho_threshold_valid(49) && !bho_threshold_valid(81));
}

#[test]
fn the_effective_surface_is_ordered_and_model_true() {
    assert_eq!(effective_profiles(true, true, false), vec![0, 2, 5, 7, 4]);
    assert_eq!(effective_profiles(false, true, false), vec![0, 2, 5, 4]);
    assert_eq!(effective_profiles(false, true, true), vec![0, 2, 5, 7, 4, 1]);
    assert_eq!(effective_profiles(true, true, true), vec![0, 2, 5, 7, 4, 1]);
    for turbo_stock in [false, true] {
        assert_eq!(effective_profiles(turbo_stock, false, true), vec![6, 3]);
    }
}

#[test]
fn desired_state_encodes_the_domain_rules_once() {
    let mut cfg = Configuration::new();
    cfg.power[0].power_mode = 3;
    cfg.power[0].brightness = 102;
    cfg.power[1].power_mode = 5;
    cfg.power[1].cpu_boost = 2;
    cfg.power[1].gpu_boost = 1;
    cfg.power[1].brightness = 127;
    cfg.power[1].fan_rpm = 3000;
    cfg.bho_on = true;
    cfg.bho_threshold = 80;

    let bat = desired_state(&cfg, ChargerDomain::Battery);
    assert_eq!((bat.wire, bat.brightness), (3, 102));
    let barrel = desired_state(&cfg, ChargerDomain::Barrel);
    assert_eq!((barrel.wire, barrel.brightness), (5, 127));
    assert_eq!(barrel.fan, FanTarget::Manual(3000));
    assert_eq!(barrel.bho, (true, 80));

    assert_eq!(barrel.boosts, None);
    cfg.power[1].power_mode = 4;
    assert_eq!(desired_state(&cfg, ChargerDomain::Barrel).boosts, Some((2, 1)));

    let pd = desired_state(&cfg, ChargerDomain::Pd);
    assert_eq!((pd.wire, pd.boosts, pd.brightness), (0, None, 127));

    cfg.power[1].fan_rpm = 0;
    assert_eq!(desired_state(&cfg, ChargerDomain::Barrel).fan, FanTarget::Auto);
    cfg.power[1].fan_curve.enabled = true;
    assert_eq!(desired_state(&cfg, ChargerDomain::Barrel).fan, FanTarget::Curve);
}

#[test]
fn the_union_pass_keeps_maybe_stock_values_for_the_attach_pass() {
    let mut cfg = Configuration::new();
    cfg.power[1].power_mode = 7;
    cfg.power[1].cpu_boost = 3;
    assert!(!sanitize_loaded_config(&mut cfg, None));
    cfg.power[1].power_mode = 1;
    cfg.power[0].power_mode = 9;
    cfg.bho_threshold = 200;
    assert!(sanitize_loaded_config(&mut cfg, None));
    assert_eq!(cfg.power[1].power_mode, 0);
    assert_eq!(cfg.power[0].power_mode, 6);
    assert_eq!(cfg.bho_threshold, 80);
    assert_eq!(cfg.power[1].cpu_boost, 3);
}

#[test]
fn the_attach_pass_enforces_the_real_model() {
    let stored_turbo_max = || {
        let mut c = Configuration::new();
        c.power[1].power_mode = 7;
        c.power[1].cpu_boost = 3;
        c
    };
    let mut on_18 = stored_turbo_max();
    assert!(!sanitize_loaded_config(&mut on_18, Some(PID_BLADE_18_2025)));
    let mut cfg = stored_turbo_max();
    assert!(sanitize_loaded_config(&mut cfg, Some(PID_BLADE_16_2025)));
    assert_eq!(cfg.power[1].power_mode, 0);
    assert_eq!(cfg.power[1].cpu_boost, 2);
    assert!(!sanitize_loaded_config(&mut cfg, Some(PID_BLADE_16_2025)));
}

#[test]
fn valid_config_passes_every_sanitizer_untouched() {
    for pid in ALL_PIDS {
        let mut cfg = Configuration::new();
        assert!(!sanitize_loaded_config(&mut cfg, Some(pid)));
        let mut exp = Configuration::new();
        exp.experimental_profiles = true;
        exp.power[1].power_mode = 7;
        exp.power[1].cpu_boost = 3;
        assert!(!sanitize_loaded_config(&mut exp, Some(pid)));
    }
}

#[test]
fn bho_byte_codec_roundtrips() {
    assert_eq!(bho_to_byte(true, 80), 0xD0, "top bit = enabled, low 7 = threshold");
    assert_eq!(bho_to_byte(false, 80), 0x50, "disable clears the bit, keeps threshold");
    assert_eq!(byte_to_bho(0xD0), (true, 80));
    assert_eq!(byte_to_bho(0x41), (false, 65));
    for on in [true, false] {
        for t in [50u8, 65, 80, 100] {
            assert_eq!(byte_to_bho(bho_to_byte(on, t)), (on, t));
        }
    }
}

#[test]
fn stock_features_belong_to_the_18() {
    for pid in BASE_ONLY {
        assert!(!turbo_is_stock(pid));
        assert!(!max_tier_is_stock(pid));
    }
    assert!(turbo_is_stock(PID_BLADE_18_2025));
    assert!(max_tier_is_stock(PID_BLADE_18_2025));
    assert!(profile_allowed_with(true, true, 7, false));
    assert!(!profile_allowed_with(false, true, 7, false));
    assert!(boost_tier_valid_with(true, 3, false));
    assert!(!boost_tier_valid_with(false, 3, false));
    assert!(!boost_tier_valid_with(true, 4, true));
}

#[test]
fn the_cycle_leaves_custom_and_gaming_out() {
    assert!(cycle_excluded(4));
    assert!(cycle_excluded(1));
    assert_eq!(cycle_order(false, true, false), vec![0, 2, 5]);
    assert_eq!(cycle_order(true, true, true), vec![0, 2, 5, 7]);
    assert_eq!(cycle_order(true, false, true), vec![6, 3]);
}

#[test]
fn steps_walk_round_the_cycle() {
    let order = vec![0, 2, 5];
    assert_eq!(advance(&order, Some(0)), 2);
    assert_eq!(advance(&order, Some(2)), 5);
    assert_eq!(advance(&order, Some(5)), 0);
    assert_eq!(advance(&order, Some(4)), 0);
    assert_eq!(advance(&order, None), 0);
}

#[test]
fn a_repaired_configuration_is_not_repaired_again() {
    let mut cfg = Configuration::new();
    cfg.power[0].power_mode = 2;
    cfg.power[0].gpu_boost = 9;
    cfg.power[1].power_mode = 200;
    cfg.bho_threshold = 0;
    for pid in ALL_PIDS {
        sanitize_loaded_config(&mut cfg, Some(pid));
        assert!(!sanitize_loaded_config(&mut cfg, Some(pid)));
        assert!(!sanitize_loaded_config(&mut cfg, None));
    }
    assert_eq!((cfg.power[0].power_mode, cfg.power[1].power_mode), (6, 0));
}

#[test]
fn only_the_exact_class_is_the_barrel() {
    for class in 0..=255u8 {
        let domain = ChargerDomain::from_actp(class);
        assert_eq!(domain == ChargerDomain::Barrel, class == 0x11);
        assert_eq!(domain == ChargerDomain::Battery, class == 0x00);
    }
    assert_eq!(ChargerDomain::Barrel.config_index(), 1);
    assert_eq!(ChargerDomain::Pd.config_index(), 1);
    assert_eq!(ChargerDomain::Battery.config_index(), 0);
    assert_eq!(ChargerDomain::Pd.to_wire(), ChargerDomainWire::Pd);
}

#[test]
fn clients_see_the_fan_goal_as_a_number() {
    let mut cfg = Configuration::new();
    cfg.power[1].fan_rpm = 3000;
    let manual = show_desired(&cfg, ChargerDomain::Barrel, true);
    assert_eq!((manual.fan_mode, manual.fan_rpm, manual.lighting), (1, 3000, true));
    cfg.power[1].fan_curve.enabled = true;
    let curve = show_desired(&cfg, ChargerDomain::Pd, false);
    assert_eq!((curve.fan_mode, curve.fan_rpm, curve.lighting), (2, 0, false));
    assert_eq!(curve.domain, ChargerDomainWire::Pd);
    let auto = show_desired(&cfg, ChargerDomain::Battery, true);
    assert_eq!((auto.fan_mode, auto.wire), (0, 6));
}

#[test]
fn every_repair_of_a_loaded_configuration_is_told() {
    let mut cfg = Configuration::new();
    assert!(repair_lines(&cfg, Some(PID_BLADE_16_2025)).is_empty());
    cfg.power[0].power_mode = 9;
    cfg.power[0].cpu_boost = 4;
    cfg.power[1].power_mode = 7;
    cfg.power[1].gpu_boost = 3;
    cfg.power[1].logo_state = 5;
    cfg.bho_threshold = 200;
    let anywhere = vec![
        "config sanitized: stored profile 9 is not valid on battery — reset to 6",
        "config sanitized: stored CPU boost 4 out of range on battery — reset to 2",
        "config sanitized: stored logo state 5 out of range on AC — reset to 0",
        "config sanitized: stored BHO threshold 200 outside 50..=80 — reset to 80",
    ];
    assert_eq!(repair_lines(&cfg, None), anywhere);
    let here = vec![
        "config sanitized: stored profile 9 is not valid on battery — reset to 6",
        "config sanitized: stored CPU boost 4 out of range on battery — reset to 2",
        "config sanitized: stored profile 7 is not valid on AC — reset to 0",
        "config sanitized: stored GPU boost 3 out of range on AC — reset to 2",
        "config sanitized: stored logo state 5 out of range on AC — reset to 0",
        "config sanitized: stored BHO threshold 200 outside 50..=80 — reset to 80",
    ];
    assert_eq!(repair_lines(&cfg, Some(PID_BLADE_16_2025)), here);
    assert!(sanitize_loaded_config(&mut cfg, Some(PID_BLADE_16_2025)));
    assert!(repair_lines(&cfg, Some(PID_BLADE_16_2025)).is_empty());
}
