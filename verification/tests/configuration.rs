use razer_control::config::{
    fault_reason, look_at_config, look_at_legacy, parse_or_quarantine, ConfigFault, ConfigFile,
    ConfigLook, Configuration, ParsedConfig, StoredConfiguration, StoredPowerConfig,
    CONFIG_SCHEMA_VERSION,
};
use razer_control::paths::{
    config_directory, config_path, device_file_path, get_home_directory, legacy_path, parked_path,
    quarantine_path, socket_path, temporary_path,
};
use serde_json::Value;

/// The factory defaults as a file holds them.
const VALID: &str = r#"{
    "power": [
        {"power_mode": 6, "cpu_boost": 2, "gpu_boost": 0, "fan_rpm": 0,
         "brightness": 128, "logo_state": 0},
        {"power_mode": 0, "cpu_boost": 2, "gpu_boost": 0, "fan_rpm": 0,
         "brightness": 128, "logo_state": 0}
    ],
    "static_color": [0, 255, 0],
    "static_lighting": true,
    "bho_on": false,
    "bho_threshold": 80,
    "experimental_profiles": false,
    "schema_version": 1
}"#;

fn slot(v: &Value) -> Option<StoredPowerConfig> {
    Some(StoredPowerConfig {
        power_mode: v.get("power_mode")?.as_u64()? as u8,
        cpu_boost: v.get("cpu_boost")?.as_u64()? as u8,
        gpu_boost: v.get("gpu_boost")?.as_u64()? as u8,
        fan_rpm: v.get("fan_rpm")?.as_i64()? as i32,
        brightness: v.get("brightness")?.as_u64()? as u8,
        logo_state: v.get("logo_state")?.as_u64()? as u8,
        fan_curve: None,
    })
}

fn stored(v: &Value) -> Option<StoredConfiguration> {
    let color = v.get("static_color").and_then(Value::as_array).map(|c| {
        let byte = |i: usize| c[i].as_u64().unwrap() as u8;
        [byte(0), byte(1), byte(2)]
    });
    Some(StoredConfiguration {
        battery: slot(v.get("power")?.get(0)?)?,
        ac: slot(v.get("power")?.get(1)?)?,
        static_color: color,
        static_lighting: v.get("static_lighting").and_then(Value::as_bool),
        bho_on: v.get("bho_on").and_then(Value::as_bool),
        bho_threshold: v.get("bho_threshold").and_then(Value::as_u64).map(|t| t as u8),
        experimental_profiles: v.get("experimental_profiles").and_then(Value::as_bool),
        schema_version: v.get("schema_version").and_then(Value::as_u64).map(|s| s as u32),
    })
}

/// Reads the text of a configuration file.
fn read(contents: &str) -> ParsedConfig {
    match serde_json::from_str::<Value>(contents) {
        Ok(v) => match stored(&v) {
            Some(s) => ParsedConfig::Parsed(s),
            None => ParsedConfig::Garbage,
        },
        Err(e) if e.is_eof() => ParsedConfig::Truncated,
        Err(_) => ParsedConfig::Garbage,
    }
}

fn valid_config_json() -> Value {
    serde_json::from_str(VALID).unwrap()
}

#[test]
fn schema_zero_is_stamped_to_current_on_load() {
    let mut v = valid_config_json();
    v["schema_version"] = 0.into();
    let cfg = parse_or_quarantine(read(&v.to_string())).unwrap();
    assert_eq!(cfg.schema_version, CONFIG_SCHEMA_VERSION);
}

#[test]
fn missing_schema_field_loads_as_zero_and_is_stamped() {
    let mut v = valid_config_json();
    v.as_object_mut().unwrap().remove("schema_version");
    let cfg = parse_or_quarantine(read(&v.to_string())).unwrap();
    assert_eq!(cfg.schema_version, CONFIG_SCHEMA_VERSION);
}

#[test]
fn newer_schema_is_refused_not_reinterpreted() {
    let mut v = valid_config_json();
    v["schema_version"] = (CONFIG_SCHEMA_VERSION + 1).into();
    let err = parse_or_quarantine(read(&v.to_string()))
        .err()
        .expect("a newer schema must be refused");
    assert_eq!(err, ConfigFault::NewerSchema { found: 2 });
}

#[test]
fn garbage_contents_are_refused_as_invalid_data() {
    let err = parse_or_quarantine(read("definitely not json"))
        .err()
        .expect("garbage must be refused");
    assert_eq!(err, ConfigFault::Garbage);
}

#[test]
fn a_torn_file_is_refused_as_truncated() {
    let err = parse_or_quarantine(read(&VALID[..40])).err().unwrap();
    assert_eq!(err, ConfigFault::Truncated);
}

#[test]
fn what_a_file_lacks_gets_its_default() {
    let mut v = valid_config_json();
    let fields = v.as_object_mut().unwrap();
    for name in [
        "static_color",
        "static_lighting",
        "bho_on",
        "bho_threshold",
        "experimental_profiles",
        "schema_version",
    ] {
        fields.remove(name);
    }
    v["power"][1]["brightness"] = 7.into();
    let cfg = parse_or_quarantine(read(&v.to_string())).unwrap();
    assert_eq!(cfg.static_color, [0, 255, 0]);
    assert!(cfg.static_lighting);
    assert!(!cfg.bho_on);
    assert_eq!(cfg.bho_threshold, 80);
    assert!(!cfg.experimental_profiles);
    assert_eq!(cfg.power[1].brightness, 7);
    assert_eq!(cfg.power[0].fan_curve.cpu_points.len(), 6);
}

#[test]
fn factory_defaults_start_balanced_in_each_domain() {
    let c = Configuration::new();
    assert_eq!((c.power[0].power_mode, c.power[1].power_mode), (6, 0));
    assert_eq!((c.power[1].cpu_boost, c.power[1].gpu_boost), (2, 0));
    assert_eq!(c.power[0].brightness, 128);
    assert_eq!(c.bho_threshold, 80);
    assert_eq!(c.schema_version, 1);
}

#[test]
fn a_look_at_the_file_puts_damage_aside_and_leaves_the_rest() {
    assert!(matches!(
        look_at_config(ConfigFile::Text(read(VALID))),
        ConfigLook::Use(_)
    ));
    assert!(matches!(
        look_at_config(ConfigFile::Text(read("{]"))),
        ConfigLook::PutAside(ConfigFault::Garbage)
    ));
    assert!(matches!(
        look_at_config(ConfigFile::NotText),
        ConfigLook::PutAside(ConfigFault::NotText)
    ));
    assert!(matches!(look_at_config(ConfigFile::Unreadable), ConfigLook::Leave));
    assert!(matches!(look_at_config(ConfigFile::Missing), ConfigLook::Elsewhere));
    assert!(matches!(look_at_legacy(ConfigFile::Unreadable), ConfigLook::Elsewhere));
    assert!(matches!(look_at_legacy(ConfigFile::NotText), ConfigLook::Elsewhere));
    assert!(matches!(
        look_at_legacy(ConfigFile::Text(read(VALID))),
        ConfigLook::Use(_)
    ));
}

#[test]
fn a_fault_has_a_reason() {
    assert_eq!(
        fault_reason(ConfigFault::NewerSchema { found: 12 }, "unused"),
        "schema 12 > supported 1"
    );
    assert_eq!(fault_reason(ConfigFault::Garbage, "expected value"), "expected value");
    assert_eq!(fault_reason(ConfigFault::NotText, "unused"), "not valid UTF-8");
}

#[test]
fn files_have_their_places() {
    let some = |s: &str| Some(String::from(s));
    assert_eq!(socket_path(some("/run/user/1000")), "/run/user/1000/razercontrol-socket");
    assert_eq!(socket_path(None), "/tmp/razercontrol-socket");
    assert_eq!(device_file_path(some("/etc/l.json")), "/etc/l.json");
    assert_eq!(device_file_path(None), "/usr/share/razercontrol/laptops.json");
    assert_eq!(get_home_directory(some("/x"), some("/home/a")), "/x");
    assert_eq!(get_home_directory(some(""), some("/home/a")), "/home/a/.local/share");
    assert_eq!(get_home_directory(None, None), "/tmp");
    assert_eq!(config_directory("/x"), "/x/razercontrol");
    assert_eq!(config_path("/x"), "/x/razercontrol/daemon.json");
    assert_eq!(
        legacy_path(some("/home/a"), "/x/razercontrol/daemon.json"),
        some("/home/a/.local/share/razercontrol/daemon.json")
    );
    assert_eq!(
        legacy_path(some("/home/a"), "/home/a/.local/share/razercontrol/daemon.json"),
        None
    );
    assert_eq!(legacy_path(None, "/x"), None);
    assert_eq!(parked_path("/x"), "/x.migrated");
    assert_eq!(temporary_path("/x"), "/x.tmp");
    assert_eq!(quarantine_path("/x", 1700000000), "/x.corrupt-1700000000");
}
