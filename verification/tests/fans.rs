use razer_control::comms::{default_curve_points, CurveTempSource, FanCurve, FanCurvePoint};
use razer_control::fan::{clamp_fan_to_range, compute_curve_rpm, lookup_rpm};

/// Whole degrees of a temperature.
fn degrees(temp: f64) -> i64 {
    temp.floor() as i64
}

fn curve() -> Vec<FanCurvePoint> {
    [(40u8, 2200u16), (50, 2600), (60, 3200)]
        .iter()
        .map(|&(temp_c, rpm)| FanCurvePoint { temp_c, rpm })
        .collect()
}

#[test]
fn fan_clamp_snaps_and_truncates() {
    assert_eq!(clamp_fan_to_range(0, 2000, 5100), 20, "below min snaps to min");
    assert_eq!(clamp_fan_to_range(1999, 2000, 5100), 20);
    assert_eq!(clamp_fan_to_range(2000, 2000, 5100), 20);
    assert_eq!(clamp_fan_to_range(2250, 2000, 5100), 22, "EC granularity truncates");
    assert_eq!(clamp_fan_to_range(5100, 2000, 5100), 51);
    assert_eq!(clamp_fan_to_range(65535, 2000, 5100), 51, "above max snaps to max");
}

#[test]
fn curve_lookup_is_a_ceiling_function() {
    let c = curve();
    assert_eq!(lookup_rpm(&c, degrees(35.0)), Some(2200), "below first point: curve floor");
    assert_eq!(lookup_rpm(&c, degrees(45.0)), Some(2600), "between points: next step up");
    assert_eq!(lookup_rpm(&c, degrees(49.9)), Some(2600));
    assert_eq!(lookup_rpm(&c, degrees(50.0)), Some(3200));
    assert_eq!(lookup_rpm(&c, degrees(95.0)), Some(3200), "above last point: last rpm");
    assert_eq!(lookup_rpm(&Vec::new(), degrees(50.0)), None, "empty curve yields no target");
}

#[test]
fn hotter_never_turns_slower_on_a_rising_curve() {
    let c = default_curve_points();
    let mut last = 0;
    for t in -10..130 {
        let rpm = lookup_rpm(&c, t).unwrap();
        assert!(rpm >= last);
        last = rpm;
    }
    assert_eq!(last, 5000);
}

#[test]
fn the_higher_speed_wins_over_both_curves() {
    let mut c = FanCurve::new();
    c.cpu_points = curve();
    c.gpu_points = vec![FanCurvePoint { temp_c: 80, rpm: 4000 }];
    assert_eq!(compute_curve_rpm(&c, Some(45), Some(30)), Some(2600));
    c.source = CurveTempSource::Gpu;
    assert_eq!(compute_curve_rpm(&c, Some(45), Some(30)), Some(4000));
    assert_eq!(compute_curve_rpm(&c, Some(45), None), None);
    c.source = CurveTempSource::Both;
    assert_eq!(compute_curve_rpm(&c, Some(99), Some(30)), Some(4000));
    assert_eq!(compute_curve_rpm(&c, Some(99), None), Some(3200));
    assert_eq!(compute_curve_rpm(&c, None, None), None);
}

#[test]
fn a_fresh_curve_is_off_and_gentle() {
    let c = FanCurve::new();
    assert!(!c.enabled);
    assert_eq!(c.source, CurveTempSource::Cpu);
    assert_eq!(c.cpu_points.len(), 6);
    assert_eq!(c.cpu_points[0], FanCurvePoint { temp_c: 40, rpm: 2200 });
    assert_eq!(c.gpu_points[5], FanCurvePoint { temp_c: 90, rpm: 5000 });
    let copy = c.clone();
    assert_eq!(copy.cpu_points, c.cpu_points);
}
