//! Fan speeds: the range of a model and the smart fan curve.

use vstd::prelude::*;

use crate::comms::{CurveTempSource, FanCurve, FanCurvePoint};

verus! {

/// `rpm` moved to the nearer end of `min..=max` when it lies outside.
pub open spec fn into_range(rpm: u16, min: u16, max: u16) -> u16 {
    if rpm > max {
        max
    } else if rpm < min {
        min
    } else {
        rpm
    }
}

/// Fan speed byte of the EC, in hundreds of RPM: outside the model range the
/// nearer bound, inside it the hundreds that `rpm` reaches. The byte wraps
/// where more than 255 hundreds come out.
pub fn clamp_fan_to_range(rpm: u16, min: u16, max: u16) -> (r: u8)
    ensures
        r == (into_range(rpm, min, max) / 100) % 256,
{
    let bounded: u16 = if rpm > max {
        max
    } else if rpm < min {
        min
    } else {
        rpm
    };
    let hundreds: u16 = bounded / 100;
    assert(hundreds as u8 == hundreds % 256) by (bit_vector);
    hundreds as u8
}

/// Every speed that reaches the EC lies within the model range, as long as the
/// bounds are whole hundreds that fit the byte: at a bound the bound itself,
/// between them the speed to the hundred.
pub proof fn clamped_speed_is_in_range(rpm: u16, min: u16, max: u16)
    requires
        min <= max < 25600,
        min % 100 == 0,
        max % 100 == 0,
    ensures
        min <= ((into_range(rpm, min, max) / 100) % 256) * 100 <= max,
        rpm <= min ==> ((into_range(rpm, min, max) / 100) % 256) * 100 == min,
        rpm >= max ==> ((into_range(rpm, min, max) / 100) % 256) * 100 == max,
        min <= rpm <= max ==> rpm - 100 < ((into_range(rpm, min, max) / 100) % 256) * 100 <= rpm,
{
}

/// The first point of a curve that lies strictly above `temp`.
pub open spec fn first_above(points: Seq<FanCurvePoint>, temp: int, i: int) -> bool {
    &&& 0 <= i < points.len()
    &&& points[i].temp_c > temp
    &&& forall|j: int| 0 <= j < i ==> (#[trigger] points[j]).temp_c <= temp
}

/// The speed that a curve gives at `temp`: that of the first point strictly
/// above it, else that of the last point. No point, no speed.
pub open spec fn curve_speed(points: Seq<FanCurvePoint>, temp: int) -> Option<u16>
    decreases points.len(),
{
    if points.len() == 0 {
        None
    } else if points.len() == 1 || points[0].temp_c > temp {
        Some(points[0].rpm)
    } else {
        curve_speed(points.drop_first(), temp)
    }
}

proof fn curve_speed_skips(points: Seq<FanCurvePoint>, temp: int, n: int)
    requires
        0 <= n < points.len(),
        forall|j: int| 0 <= j < n ==> (#[trigger] points[j]).temp_c <= temp,
    ensures
        curve_speed(points, temp) == curve_speed(points.skip(n), temp),
    decreases n,
{
    if n == 0 {
        assert(points.skip(0) =~= points);
    } else {
        let rest = points.drop_first();
        assert forall|j: int| 0 <= j < n - 1 implies (#[trigger] rest[j]).temp_c <= temp by {
            assert(rest[j] == points[j + 1]);
        }
        assert(points[0].temp_c <= temp);
        curve_speed_skips(rest, temp, n - 1);
        assert(rest.skip(n - 1) =~= points.skip(n));
    }
}

/// The speed that a curve gives at a temperature, in whole degrees rounded
/// down. Points have whole degrees too, so the fraction decides nothing.
pub fn lookup_rpm(points: &Vec<FanCurvePoint>, temp: i64) -> (r: Option<u16>)
    ensures
        r == curve_speed(points@, temp as int),
{
    if points.len() == 0 {
        return None;
    }
    let mut i: usize = 0;
    while i < points.len()
        invariant
            i <= points@.len(),
            points@.len() > 0,
            forall|j: int| 0 <= j < i ==> (#[trigger] points@[j]).temp_c <= temp,
        decreases points@.len() - i,
    {
        if points[i].temp_c as i64 > temp {
            proof {
                curve_speed_skips(points@, temp as int, i as int);
                assert(points@.skip(i as int)[0] == points@[i as int]);
            }
            return Some(points[i].rpm);
        }
        i = i + 1;
    }
    proof {
        let last = points@.len() - 1;
        curve_speed_skips(points@, temp as int, last);
        assert(points@.skip(last).len() == 1);
        assert(points@.skip(last)[0] == points@[last]);
    }
    Some(points[points.len() - 1].rpm)
}

/// The higher of two speeds, where there are any.
pub open spec fn higher(a: Option<u16>, b: Option<u16>) -> Option<u16> {
    match (a, b) {
        (Some(x), Some(y)) => Some(
            if x >= y {
                x
            } else {
                y
            },
        ),
        (Some(x), None) => Some(x),
        (None, b) => b,
    }
}

/// The speed that a curve gives at a temperature that may be unknown.
pub open spec fn speed_at(points: Seq<FanCurvePoint>, temp: Option<i64>) -> Option<u16> {
    match temp {
        Some(t) => curve_speed(points, t as int),
        None => None,
    }
}

/// The speed that a curve asks for. Each temperature is looked up on its own
/// points; `Both` takes the higher of the two speeds.
pub open spec fn curve_target(curve: FanCurve, cpu: Option<i64>, gpu: Option<i64>) -> Option<u16> {
    let on_cpu = speed_at(curve.cpu_points@, cpu);
    let on_gpu = speed_at(curve.gpu_points@, gpu);
    match curve.source {
        CurveTempSource::Cpu => on_cpu,
        CurveTempSource::Gpu => on_gpu,
        CurveTempSource::Both => higher(on_cpu, on_gpu),
    }
}

/// The speed that a curve asks for both fan zones.
pub fn compute_curve_rpm(curve: &FanCurve, cpu_temp: Option<i64>, gpu_temp: Option<i64>) -> (r:
    Option<u16>)
    ensures
        r == curve_target(*curve, cpu_temp, gpu_temp),
{
    let cpu_rpm: Option<u16> = match cpu_temp {
        Some(t) => lookup_rpm(&curve.cpu_points, t),
        None => None,
    };
    let gpu_rpm: Option<u16> = match gpu_temp {
        Some(t) => lookup_rpm(&curve.gpu_points, t),
        None => None,
    };
    match curve.source {
        CurveTempSource::Cpu => cpu_rpm,
        CurveTempSource::Gpu => gpu_rpm,
        CurveTempSource::Both => match (cpu_rpm, gpu_rpm) {
            (Some(c), Some(g)) => Some(
                if c >= g {
                    c
                } else {
                    g
                },
            ),
            (Some(c), None) => Some(c),
            (None, Some(g)) => Some(g),
            (None, None) => None,
        },
    }
}

/// The lookup is a ceiling function: the first point strictly above the
/// temperature decides, and at or above all points the last one does.
pub proof fn curve_is_a_ceiling(points: Seq<FanCurvePoint>, temp: int, i: int)
    ensures
        first_above(points, temp, i) ==> curve_speed(points, temp) == Some(points[i].rpm),
        points.len() > 0 && (forall|j: int|
            0 <= j < points.len() ==> (#[trigger] points[j]).temp_c <= temp) ==> curve_speed(
            points,
            temp,
        ) == Some(points.last().rpm),
{
    if first_above(points, temp, i) {
        curve_speed_skips(points, temp, i);
        assert(points.skip(i)[0] == points[i]);
    }
    if points.len() > 0 && (forall|j: int|
        0 <= j < points.len() ==> (#[trigger] points[j]).temp_c <= temp) {
        let last = points.len() - 1;
        curve_speed_skips(points, temp, last);
        assert(points.skip(last).len() == 1);
        assert(points.skip(last)[0] == points[last]);
    }
}

/// A curve always answers with the speed of one of its points.
pub proof fn curve_answers_with_a_point(points: Seq<FanCurvePoint>, temp: int)
    ensures
        curve_speed(points, temp) is Some <==> points.len() > 0,
        curve_speed(points, temp) matches Some(rpm) ==> exists|i: int|
            0 <= i < points.len() && (#[trigger] points[i]).rpm == rpm,
    decreases points.len(),
{
    if points.len() > 0 {
        if points.len() == 1 || points[0].temp_c > temp {
            assert(points[0].rpm == curve_speed(points, temp)->0);
        } else {
            let rest = points.drop_first();
            curve_answers_with_a_point(rest, temp);
            let i = choose|i: int|
                0 <= i < rest.len() && (#[trigger] rest[i]).rpm == curve_speed(rest, temp)->0;
            assert(points[i + 1].rpm == curve_speed(points, temp)->0);
        }
    }
}

/// Speeds that do not fall along the points.
pub open spec fn speeds_rise(points: Seq<FanCurvePoint>) -> bool {
    forall|i: int, j: int|
        0 <= i <= j < points.len() ==> (#[trigger] points[i]).rpm <= (#[trigger] points[j]).rpm
}

/// On a curve whose speeds do not fall, a higher temperature never lowers the
/// fans.
pub proof fn hotter_is_not_slower(points: Seq<FanCurvePoint>, cool: int, hot: int)
    requires
        speeds_rise(points),
        cool <= hot,
        points.len() > 0,
    ensures
        curve_speed(points, cool)->0 <= curve_speed(points, hot)->0,
    decreases points.len(),
{
    curve_answers_with_a_point(points, hot);
    let k = choose|k: int|
        0 <= k < points.len() && (#[trigger] points[k]).rpm == curve_speed(points, hot)->0;
    if points.len() > 1 && points[0].temp_c <= cool {
        let rest = points.drop_first();
        assert forall|i: int, j: int| 0 <= i <= j < rest.len() implies (#[trigger] rest[i]).rpm <= (
        #[trigger] rest[j]).rpm by {
            assert(rest[i] == points[i + 1] && rest[j] == points[j + 1]);
        }
        hotter_is_not_slower(rest, cool, hot);
    } else {
        assert(points[0].rpm <= points[k].rpm);
    }
}

} // verus!
