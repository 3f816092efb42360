use razer_control::comms::{CurveTempSource, DaemonCommand, DaemonResponse};
use razer_control::config::Configuration;
use razer_control::daemon::{
    dgpu_sensor_snapshot, may_sample, needs_cpu_temperature, needs_gpu_temperature, ResumeWatch,
    SensorSample,
};
use razer_control::device::{
    device_node, fallback_order, hidraw_iface_number, node_name, read_hex_u16, HidEntry,
    HidrawNode, SupportedDevice,
};
use razer_control::gpu::{
    dgpu_is_active, discover_gpus, find_dgpu_sysfs_path, get_dgpu_runtime_pm, gpu_status,
    is_cpu_sensor, remembered_path, sensor_fields, KnownNames, PciDevice,
};
use razer_control::manager::DeviceManager;
use razer_control::powerkey::{
    cycle_profile, cycle_took, event_at, key_bitmap_has, key_queries, on_ac_power, query_u8,
    shown_name, InputEvent, KeyWatch, PowerSupply, EV_KEY, EV_MSC, EV_SYN, KEY_UNKNOWN, MSC_SCAN,
    POWER_KEY_SCANCODE,
};
use razer_control::text::{
    decimal, hex_byte, is_whitespace, join, last_piece, pad, parse_i32, parse_unsigned, signed_decimal, split,
    split_once, trim, trim_start_matches, words,
};

fn some(s: &str) -> Option<String> {
    Some(String::from(s))
}

fn model(name: &str, vid: &str, pid: &str) -> SupportedDevice {
    SupportedDevice {
        name: String::from(name),
        vid: String::from(vid),
        pid: String::from(pid),
        features: vec![String::from("bho")],
        fan: vec![2000, 5100],
    }
}

fn entry(vid: u16, pid: u16, iface: i32, sysfs: Option<&str>) -> HidEntry {
    HidEntry { vid, pid, iface, sysfs_iface: sysfs.map(String::from) }
}

fn known() -> DeviceManager {
    let mut d = DeviceManager::new();
    d.supported_devices = vec![
        model("Blade 14", "1532", "02c5"),
        model("Blade 16", "1532", "02c6"),
    ];
    d
}

#[test]
fn a_model_is_found_by_its_ids() {
    let d = known();
    assert!(d.is_searchable(0x1532, 0x02c6));
    assert_eq!(d.find_supported_device(0x1532, 0x02c6), Some(1));
    assert_eq!(d.find_supported_device(0x1532, 0xffff), None);
    assert_eq!(d.supported_devices[1].pid_u16(), 0x02c6);
}

#[test]
fn a_list_with_a_broken_id_cannot_be_searched_past_it() {
    let mut d = known();
    d.supported_devices.insert(1, model("Broken", "1532", "zz"));
    assert!(d.is_searchable(0x1532, 0x02c5));
    assert!(!d.is_searchable(0x1532, 0x02c6));
    assert_eq!(d.supported_devices[1].pid_u16(), 0);
}

#[test]
fn the_primary_interface_of_a_known_model_is_picked() {
    let d = known();
    let entries = vec![
        entry(0x046d, 0x02c6, 0, None),
        entry(0x1532, 0x02c6, 1, None),
        entry(0x1532, 0x02c6, -1, Some("00\n")),
        entry(0x1532, 0x02c5, 0, None),
    ];
    assert!(!entries[0].is_primary());
    assert!(!entries[1].is_primary());
    assert!(entries[2].is_primary());
    assert_eq!(d.next_primary(&entries, 0), Some((2, 1)));
    assert_eq!(d.next_primary(&entries, 3), Some((3, 0)));
    assert_eq!(d.next_primary(&entries, 4), None);
}

#[test]
fn the_fallback_tries_the_lowest_interface_first() {
    let node = |name: &str, ids: Option<(u16, u16)>, iface: Option<&str>| HidrawNode {
        name: String::from(name),
        ids,
        sysfs_iface: iface.map(String::from),
    };
    let razer = Some((0x1532, 0x02c6));
    let nodes = vec![
        node("hidraw0", razer, None),
        node("hidraw1", razer, Some("02")),
        node("hidraw2", Some((0x046d, 1)), Some("00")),
        node("tty0", razer, Some("00")),
        node("hidraw3", razer, Some("01")),
        node("hidraw4", razer, Some("02")),
        node("hidraw5", None, Some("00")),
    ];
    assert_eq!(fallback_order(&nodes), vec![4, 1, 5, 0]);
}

#[test]
fn attaching_holds_the_configuration_to_the_model() {
    let mut d = known();
    assert!(!d.adopt_config(None));
    d.config.as_mut().unwrap().power[1].power_mode = 7;
    assert!(d.attach(1));
    assert_eq!(d.config.as_ref().unwrap().power[1].power_mode, 0);
    let laptop = d.get_device().unwrap();
    assert_eq!(laptop.get_name(), "Blade 16");
    assert_eq!(laptop.get_pid(), 0x02c6);
    assert!(laptop.have_feature(String::from("bho")));
    assert!(!d.enforce_model_law());
}

#[test]
fn a_loaded_configuration_is_cleaned_of_garbage() {
    let mut d = known();
    let mut cfg = Configuration::new();
    cfg.power[0].power_mode = 9;
    assert!(d.adopt_config(Some(cfg)));
    assert_eq!(d.config.as_ref().unwrap().power[0].power_mode, 6);
}

#[test]
fn ids_and_interfaces_are_read_in_hexadecimal() {
    assert_eq!(hidraw_iface_number(&some(" 0a\n")), Some(10));
    assert_eq!(hidraw_iface_number(&some("xyz")), None);
    assert_eq!(hidraw_iface_number(&None), None);
    assert_eq!(read_hex_u16(&some("1532\n")), Some(0x1532));
    assert_eq!(read_hex_u16(&some("11532")), None);
    assert_eq!(node_name("/dev/hidraw3"), "hidraw3");
    assert_eq!(node_name("hidraw3"), "hidraw3");
    assert_eq!(device_node("hidraw3"), "/dev/hidraw3");
}

fn pci(slot: &str, class: &str, vendor: &str, driver: &str) -> PciDevice {
    PciDevice {
        path: format!("/sys/bus/pci/devices/{}", slot),
        slot: String::from(slot),
        class: some(class),
        vendor: some(vendor),
        device_id: some("0x2c58\n"),
        driver: String::from(driver),
        runtime_status: None,
        listing: None,
    }
}

#[test]
fn gpus_are_reported_with_kind_and_name() {
    let mut nvidia = pci("01:00.0", "0x030000\n", "0x10de\n", "nvidia");
    nvidia.listing = some(
        "01:00.0 \"VGA compatible controller\" \"NVIDIA Corporation\" \"GB203M\" -ra1 \"Razer\" \"Dev\"",
    );
    nvidia.runtime_status = some("suspended\n");
    assert_eq!(nvidia.lspci_filter(), some("10de:2c58"));
    let devices = vec![
        pci("00:02.0", "0x030000", "0x8086", "i915"),
        nvidia,
        pci("00:1f.0", "0x060100", "0x8086", ""),
    ];
    let mut known = KnownNames::new();
    let gpus = discover_gpus(&devices, &mut known);
    assert_eq!(gpus.len(), 2);
    assert_eq!(gpus[0].gpu_type, "igpu");
    assert_eq!(gpus[0].name, "Intel GPU (i915)");
    assert_eq!(gpus[0].runtime_status, "unsupported");
    assert_eq!(gpus[1].gpu_type, "dgpu");
    assert_eq!(gpus[1].name, "NVIDIA Corporation GB203M");
    assert_eq!(gpus[1].runtime_status, "suspended");
    assert_eq!(find_dgpu_sysfs_path(&devices), some("/sys/bus/pci/devices/01:00.0"));
    let r = gpu_status(&devices, &mut known, &some("auto\n"));
    assert!(matches!(r, DaemonResponse::GetGpuStatus { dgpu_runtime_pm: true, .. }));
}

#[test]
fn white_space_is_what_unicode_has() {
    let mut count = 0;
    for c in '\0'..=char::MAX {
        assert_eq!(is_whitespace(c), c.is_whitespace());
        if is_whitespace(c) {
            count += 1;
        }
    }
    assert_eq!(count, 25);
    assert_eq!(trim("\u{3000} a\u{a0}b\u{2029}"), "a\u{a0}b");
}

#[test]
fn integrated_gpus_come_before_discrete_ones() {
    let devices = vec![
        pci("03:00.0", "0x030000", "0x1234", ""),
        pci("01:00.0", "0x030200", "0x10de", "nvidia"),
        pci("00:02.0", "0x030000", "0x8086", "i915"),
        pci("02:00.0", "0x030000", "0x1002", "radeon"),
        pci("00:03.0", "0x030000", "0x1002", "amdgpu"),
    ];
    let gpus = discover_gpus(&devices, &mut KnownNames::new());
    let order: Vec<&str> = gpus.iter().map(|g| g.pci_slot.as_str()).collect();
    assert_eq!(order, vec!["00:02.0", "00:03.0", "01:00.0", "02:00.0", "03:00.0"]);
    assert_eq!(gpus[4].name, "Unknown GPU");
}

#[test]
fn the_name_of_a_gpu_is_kept_once_it_is_resolved() {
    let mut known = KnownNames::new();
    let mut nvidia = pci("01:00.0", "0x030000\n", "0x10de\n", "nvidia");
    nvidia.listing = some("01:00.0 \"VGA\" \"NVIDIA\" \"GB203M\" -ra1 \"Razer\" \"Dev\"");
    assert!(!nvidia.is_named(&known));
    assert_eq!(nvidia.resolve_gpu_name(&mut known), "NVIDIA GB203M");
    assert!(nvidia.is_named(&known));
    // The same device without a listing, and with another driver.
    let later = pci("01:00.0", "0x030000", "0x10de", "nouveau");
    assert_eq!(later.resolve_gpu_name_uncached(), "NVIDIA GPU (nouveau)");
    assert_eq!(later.resolve_gpu_name(&mut known), "NVIDIA GB203M");
    let gpus = discover_gpus(&vec![later], &mut known);
    assert_eq!(gpus[0].name, "NVIDIA GB203M");
    // A device without ids is kept apart from it.
    let mut bare = pci("05:00.0", "0x030000", "0x10de", "");
    bare.device_id = None;
    bare.vendor = None;
    assert_eq!(bare.resolve_gpu_name(&mut known), "Unknown GPU");
    assert_eq!(known.entries.len(), 2);
    assert_eq!(known.entries[0].key, "0x10de:0x2c58");
    assert_eq!(known.entries[1].key, "-:-");
}

#[test]
fn the_path_of_the_dgpu_is_remembered_once_it_was_found() {
    assert_eq!(remembered_path(None, None), None);
    assert_eq!(remembered_path(None, some("/a")), some("/a"));
    assert_eq!(remembered_path(some("/a"), some("/b")), some("/a"));
    assert_eq!(remembered_path(some("/a"), None), some("/a"));
}

#[test]
fn runtime_power_management_is_read_from_its_files() {
    assert!(get_dgpu_runtime_pm(&some("auto\n")));
    assert!(!get_dgpu_runtime_pm(&some("on\n")));
    assert!(!get_dgpu_runtime_pm(&None));
    assert!(dgpu_is_active(&some("active\n")));
    assert!(!dgpu_is_active(&some("suspended")));
    assert!(!dgpu_is_active(&None));
}

#[test]
fn the_sensor_line_is_taken_apart() {
    let all = sensor_fields(" 47, 12.50, 3 \n");
    assert_eq!(all.temp, "47");
    assert_eq!(all.power, some("12.50"));
    assert_eq!(all.util, Some(3));
    let lone = sensor_fields("47");
    assert_eq!(lone.temp, "47");
    assert_eq!(lone.power, None);
    assert_eq!(lone.util, None);
    assert_eq!(sensor_fields("47, 1, [N/A]").util, None);
    assert!(is_cpu_sensor("coretemp\n"));
    assert!(is_cpu_sensor("k10temp"));
    assert!(!is_cpu_sensor("nvme"));
}

#[test]
fn a_sensor_sample_is_shown_until_it_is_too_old() {
    let sample = SensorSample {
        temp_c: 47.5f64.to_bits(),
        power_w: None,
        util_pct: Some(3),
        taken: 1_000_000_000,
    };
    let shown = dgpu_sensor_snapshot(Some(sample), 3_500_000_000).unwrap();
    assert_eq!(shown.age_ms, 2500);
    assert_eq!(f64::from_bits(shown.temp_c), 47.5);
    assert!(dgpu_sensor_snapshot(Some(sample), 11_000_000_000).is_some());
    assert!(dgpu_sensor_snapshot(Some(sample), 11_001_000_000).is_none());
    assert_eq!(dgpu_sensor_snapshot(Some(sample), 0).unwrap().age_ms, 0);
    assert!(dgpu_sensor_snapshot(None, 0).is_none());
}

#[test]
fn a_woken_dgpu_has_the_profile_applied_three_times() {
    let mut watch = ResumeWatch::new();
    assert!(!watch.look(false));
    let seen: Vec<bool> = (0..5).map(|_| watch.look(true)).collect();
    assert_eq!(seen, vec![true, true, true, false, false]);
    assert!(!watch.look(false));
    assert!(watch.look(true));
}

#[test]
fn a_sleeping_dgpu_is_never_sampled() {
    for source in [CurveTempSource::Cpu, CurveTempSource::Gpu, CurveTempSource::Both] {
        assert!(!may_sample(source, &some("suspended\n")));
        assert!(!may_sample(source, &some("resuming\n")));
        assert!(!may_sample(source, &None));
    }
    assert!(may_sample(CurveTempSource::Gpu, &some("active\n")));
    assert!(may_sample(CurveTempSource::Both, &some("active")));
    assert!(!may_sample(CurveTempSource::Cpu, &some("active\n")));
}

#[test]
fn a_curve_needs_the_temperatures_of_its_source() {
    assert!(needs_cpu_temperature(CurveTempSource::Both));
    assert!(needs_gpu_temperature(CurveTempSource::Both));
    assert!(!needs_cpu_temperature(CurveTempSource::Gpu));
    assert!(!needs_gpu_temperature(CurveTempSource::Cpu));
}

fn event(kind: u16, code: u16, value: i32) -> InputEvent {
    InputEvent { kind, code, value }
}

#[test]
fn a_press_is_the_key_of_the_frame_that_announced_it() {
    let mut w = KeyWatch::new(2);
    let scan = event(EV_MSC, MSC_SCAN, POWER_KEY_SCANCODE);
    let down = event(EV_KEY, 240, 1);
    let end = event(EV_SYN, 0, 0);
    let second = 1_000_000_000;
    assert!(!w.feed(0, down, 0));
    assert!(!w.feed(0, scan, 0));
    assert!(!w.feed(1, down, 0));
    assert!(w.feed(0, down, 0));
    // Within the debounce.
    assert!(!w.feed(0, scan, 100_000_000));
    assert!(!w.feed(0, down, 100_000_000));
    // The frame ended.
    assert!(!w.feed(0, scan, second));
    assert!(!w.feed(0, end, second));
    assert!(!w.feed(0, down, second));
    assert!(!w.feed(1, scan, second));
    w.forget(0);
    assert!(w.feed(0, down, second));
}

#[test]
fn events_are_little_endian() {
    let mut buf = vec![0u8; 48];
    buf[40] = 4;
    buf[42] = 4;
    buf[44..48].copy_from_slice(&POWER_KEY_SCANCODE.to_le_bytes());
    assert_eq!(event_at(&buf, 1), Some(event(EV_MSC, MSC_SCAN, POWER_KEY_SCANCODE)));
    buf[44..48].copy_from_slice(&(-2i32).to_le_bytes());
    assert_eq!(event_at(&buf, 1).unwrap().value, -2);
    assert_eq!(event_at(&buf, 2), None);
    buf.pop();
    assert_eq!(event_at(&buf, 1), None);
}

#[test]
fn a_key_bitmap_counts_from_its_last_word() {
    // Bit 240 is bit 48 of the fourth word from the end.
    assert!(key_bitmap_has("1000000000000 0 0 0\n", KEY_UNKNOWN));
    assert!(!key_bitmap_has("1000000000000 0 0", KEY_UNKNOWN));
    assert!(key_bitmap_has("3", 1));
    assert!(!key_bitmap_has("", 0));
}

#[test]
fn the_first_mains_supply_decides() {
    let supply = |kind: &str, online: Option<&str>| PowerSupply {
        kind: some(kind),
        online: online.map(String::from),
    };
    assert!(!on_ac_power(&vec![
        supply("Battery\n", None),
        supply("Mains\n", Some("0\n")),
        supply("Mains\n", Some("1\n")),
    ]));
    assert!(on_ac_power(&vec![supply("Mains", Some("1"))]));
    assert!(on_ac_power(&Vec::new()));
}

#[test]
fn the_key_walks_its_profiles() {
    let (wire, cmd) = cycle_profile(true, Some(0), Some(1), Some(2)).unwrap();
    assert_eq!(wire, 2);
    assert!(matches!(cmd, DaemonCommand::SetPowerMode { ac: 1, pwr: 2, cpu: 1, gpu: 2 }));
    assert_eq!(cycle_profile(false, Some(6), Some(0), Some(0)).unwrap().0, 3);
    assert_eq!(cycle_profile(true, Some(4), Some(0), Some(0)).unwrap().0, 0);
    let (a, b, c) = key_queries(false);
    assert!(matches!(a, DaemonCommand::GetPwrLevel { ac: 0 }));
    assert!(matches!(b, DaemonCommand::GetCPUBoost { ac: 0 }));
    assert!(matches!(c, DaemonCommand::GetGPUBoost { ac: 0 }));
    assert_eq!(query_u8(Some(DaemonResponse::GetCPUBoost { cpu: 3 })), Some(3));
    assert_eq!(query_u8(None), None);
    assert!(cycle_took(Some(DaemonResponse::SetPowerMode { result: true })));
    assert!(!cycle_took(Some(DaemonResponse::SetPowerMode { result: false })));
    assert_eq!(shown_name(5), "Silent");
}

#[test]
fn white_space_of_any_script_is_trimmed() {
    assert_eq!(trim(" \t\u{2003}a b\u{00a0}\n"), "a b");
    assert_eq!(trim("\u{200b}"), "\u{200b}");
    assert_eq!(words(" a\u{3000}b  c "), vec!["a", "b", "c"]);
}

#[test]
fn text_is_cut_and_joined() {
    assert_eq!(split("a,,b", ','), vec!["a", "", "b"]);
    assert_eq!(split("", ','), vec![""]);
    assert_eq!(split_once("a:b:c", ':'), Some((String::from("a"), String::from("b:c"))));
    assert_eq!(split_once("abc", ':'), None);
    assert_eq!(last_piece("a/b/c", '/'), "c");
    assert_eq!(trim_start_matches("0x0x1f", "0x"), "1f");
    assert_eq!(join(&vec![String::from("a"), String::from("b")], ", "), "a, b");
    assert_eq!(pad("ab", 4), "ab  ");
    assert_eq!(pad("abcde", 4), "abcde");
}

#[test]
fn numbers_are_written_and_read() {
    assert_eq!(decimal(0), "0");
    assert_eq!(decimal(18446744073709551615), "18446744073709551615");
    assert_eq!(signed_decimal(-2147483648), "-2147483648");
    assert_eq!(hex_byte(0x0f), "0f");
    assert_eq!(parse_unsigned("+255", 10, 255), Some(255));
    assert_eq!(parse_unsigned("256", 10, 255), None);
    assert_eq!(parse_unsigned("FfFf", 16, 0xffff), Some(0xffff));
    assert_eq!(parse_unsigned("", 10, 9), None);
    assert_eq!(parse_unsigned("-1", 10, 9), None);
    assert_eq!(parse_i32("-1a", 16), Some(-26));
    assert_eq!(parse_i32("80000000", 16), None);
    assert_eq!(parse_i32("-80000000", 16), Some(i32::MIN));
    for n in [0u64, 9, 10, 99, 65535] {
        assert_eq!(parse_unsigned(&decimal(n), 10, 65535), Some(n));
    }
}
