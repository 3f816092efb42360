//! Points of a fan curve on the command line.

use vstd::prelude::*;

use crate::cli::request::{AcState, CurveSourceArg};
use crate::comms::{FanCurve, FanCurvePoint, FanCurveView};
use crate::text;
use crate::text::{decimal, join, parse_unsigned, split, split_once, trim};

verus! {

/// What reading one point gave.
pub enum PointRead {
    /// White space only.
    Nothing,
    Point(FanCurvePoint),
    Fault(Seq<char>),
}

/// Reads one point, written as temperature and speed with a colon between
/// them.
pub open spec fn point_in(piece: Seq<char>) -> PointRead {
    let pair = text::trimmed(piece);
    if pair.len() == 0 {
        PointRead::Nothing
    } else {
        match text::cut_at(pair, ':') {
            None => PointRead::Fault("Invalid point '"@ + pair + "' (expected temp:rpm)"@),
            Some((t, r)) => match (
                text::unsigned(text::trimmed(t), 10, 255),
                text::unsigned(text::trimmed(r), 10, 65535),
            ) {
                (None, _) => PointRead::Fault("Invalid temperature '"@ + t + "'"@),
                (_, None) => PointRead::Fault("Invalid RPM '"@ + r + "'"@),
                (Some(temp), Some(rpm)) => if temp > 100 {
                    PointRead::Fault(
                        "Temperature "@ + text::dec(temp) + " out of range (0-100)"@,
                    )
                } else {
                    PointRead::Point(FanCurvePoint { temp_c: temp as u8, rpm: rpm as u16 })
                },
            },
        }
    }
}

/// Reads a list of points: up to the first fault, and in rising order of
/// temperature.
pub open spec fn points_in(pieces: Seq<Seq<char>>) -> Result<Seq<FanCurvePoint>, Seq<char>>
    decreases pieces.len(),
{
    if pieces.len() == 0 {
        Ok(seq![])
    } else {
        match points_in(pieces.drop_last()) {
            Err(e) => Err(e),
            Ok(points) => match point_in(pieces.last()) {
                PointRead::Nothing => Ok(points),
                PointRead::Fault(e) => Err(e),
                PointRead::Point(p) => if points.len() > 0 && p.temp_c <= points.last().temp_c {
                    Err("Points must be sorted by ascending temperature"@)
                } else {
                    Ok(points.push(p))
                },
            },
        }
    }
}

/// Reads the points of a curve: a comma separated list with at least one.
pub open spec fn curve_points_in(raw: Seq<char>) -> Result<Seq<FanCurvePoint>, Seq<char>> {
    match points_in(text::split_on(raw, ',')) {
        Ok(points) => if points.len() == 0 {
            Err("No valid points provided"@)
        } else {
            Ok(points)
        },
        Err(e) => Err(e),
    }
}

fn read_point(piece: &str) -> (r: Result<Option<FanCurvePoint>, String>)
    ensures
        match point_in(piece@) {
            PointRead::Nothing => r matches Ok(None),
            PointRead::Point(p) => r matches Ok(Some(q)) && q == p,
            PointRead::Fault(e) => r matches Err(m) && m@ == e,
        },
{
    let pair = trim(piece);
    if pair.as_str().unicode_len() == 0 {
        return Ok(None);
    }
    let (temp_str, rpm_str) = match split_once(pair.as_str(), ':') {
        Some(cut) => cut,
        None => {
            let mut m = "Invalid point '".to_owned();
            m.append(pair.as_str());
            m.append("' (expected temp:rpm)");
            return Err(m);
        },
    };
    let temp_c: u8 = match parse_unsigned(trim(temp_str.as_str()).as_str(), 10, 255) {
        Some(t) => t as u8,
        None => {
            let mut m = "Invalid temperature '".to_owned();
            m.append(temp_str.as_str());
            m.append("'");
            return Err(m);
        },
    };
    let rpm: u16 = match parse_unsigned(trim(rpm_str.as_str()).as_str(), 10, 65535) {
        Some(v) => v as u16,
        None => {
            let mut m = "Invalid RPM '".to_owned();
            m.append(rpm_str.as_str());
            m.append("'");
            return Err(m);
        },
    };
    if temp_c > 100 {
        let mut m = "Temperature ".to_owned();
        m.append(decimal(temp_c as u64).as_str());
        m.append(" out of range (0-100)");
        return Err(m);
    }
    Ok(Some(FanCurvePoint { temp_c, rpm }))
}

proof fn fault_stays(pieces: Seq<Seq<char>>, k: int)
    requires
        0 <= k <= pieces.len(),
        points_in(pieces.take(k)) is Err,
    ensures
        points_in(pieces) == points_in(pieces.take(k)),
    decreases pieces.len() - k,
{
    if k < pieces.len() {
        assert(pieces.take(k + 1).drop_last() =~= pieces.take(k));
        fault_stays(pieces, k + 1);
    } else {
        assert(pieces.take(k) =~= pieces);
    }
}

/// Reads the points of a curve, such as `40:2200,60:3000,80:4500`.
pub fn parse_points(raw: &str) -> (r: Result<Vec<FanCurvePoint>, String>)
    ensures
        match curve_points_in(raw@) {
            Ok(points) => r matches Ok(v) && v@ == points,
            Err(e) => r matches Err(m) && m@ == e,
        },
{
    let pieces = split(raw, ',');
    let ghost all = text::split_on(raw@, ',');
    assert(all.len() == pieces@.len());
    let mut points: Vec<FanCurvePoint> = Vec::new();
    let mut i: usize = 0;
    assert(all.take(0) =~= Seq::<Seq<char>>::empty());
    assert(points_in(all.take(0)) == Ok::<Seq<FanCurvePoint>, Seq<char>>(points@));
    while i < pieces.len()
        invariant
            i <= pieces@.len(),
            all == text::views(pieces@),
            all == text::split_on(raw@, ','),
            points_in(all.take(i as int)) == Ok::<Seq<FanCurvePoint>, Seq<char>>(points@),
        decreases pieces@.len() - i,
    {
        let ghost next = all.take(i + 1);
        assert(next.drop_last() =~= all.take(i as int));
        assert(next.last() == pieces@[i as int]@);
        match read_point(pieces[i].as_str()) {
            Err(m) => {
                proof {
                    fault_stays(all, i + 1);
                }
                return Err(m);
            },
            Ok(None) => {},
            Ok(Some(point)) => {
                if points.len() > 0 && point.temp_c <= points[points.len() - 1].temp_c {
                    proof {
                        fault_stays(all, i + 1);
                    }
                    return Err("Points must be sorted by ascending temperature".to_owned());
                }
                points.push(point);
            },
        }
        i = i + 1;
    }
    assert(all.take(i as int) =~= all);
    if points.len() == 0 {
        return Err("No valid points provided".to_owned());
    }
    Ok(points)
}

/// Points that are accepted are at least one, rise strictly in temperature and
/// stay within 0 to 100 degrees.
pub proof fn accepted_points_are_a_curve(raw: Seq<char>)
    ensures
        curve_points_in(raw) matches Ok(points) ==> {
            &&& points.len() > 0
            &&& crate::comms::ascending(points)
            &&& forall|i: int| 0 <= i < points.len() ==> (#[trigger] points[i]).temp_c <= 100
        },
{
    points_rise(text::split_on(raw, ','));
}

proof fn points_rise(pieces: Seq<Seq<char>>)
    ensures
        points_in(pieces) matches Ok(points) ==> {
            &&& crate::comms::ascending(points)
            &&& forall|i: int| 0 <= i < points.len() ==> (#[trigger] points[i]).temp_c <= 100
        },
    decreases pieces.len(),
{
    if pieces.len() > 0 {
        points_rise(pieces.drop_last());
    }
}

/// One point as it is printed.
pub open spec fn shown_point(p: FanCurvePoint) -> Seq<char> {
    text::dec(p.temp_c as nat) + "\u{00B0}C:"@ + text::dec(p.rpm as nat)
}

/// Points as they are printed.
pub open spec fn shown_points(points: Seq<FanCurvePoint>) -> Seq<char> {
    text::joined(points.map_values(|p: FanCurvePoint| shown_point(p)), ", "@)
}

/// Points as they are printed.
pub fn format_points(points: &Vec<FanCurvePoint>) -> (r: String)
    ensures
        r@ == shown_points(points@),
{
    let mut pieces: Vec<String> = Vec::new();
    let mut i: usize = 0;
    let ghost all = points@.map_values(|p: FanCurvePoint| shown_point(p));
    assert(text::views(pieces@) =~= all.take(0));
    while i < points.len()
        invariant
            i <= points@.len(),
            all == points@.map_values(|p: FanCurvePoint| shown_point(p)),
            text::views(pieces@) == all.take(i as int),
        decreases points@.len() - i,
    {
        let ghost before = text::views(pieces@);
        let mut s = decimal(points[i].temp_c as u64);
        s.append("\u{00B0}C:");
        s.append(decimal(points[i].rpm as u64).as_str());
        pieces.push(s);
        assert(text::views(pieces@) =~= before.push(shown_point(points@[i as int])));
        i = i + 1;
        assert(text::views(pieces@) =~= all.take(i as int));
    }
    assert(all.take(i as int) =~= all);
    join(&pieces, ", ")
}

/// The arguments for a fan curve.
#[derive(Debug)]
pub struct FanCurveParams {
    pub ac_state: AcState,
    pub source: Option<CurveSourceArg>,
    pub enable: bool,
    pub disable: bool,
    pub cpu_points: Option<String>,
    pub gpu_points: Option<String>,
}

/// Points after an argument that may replace them.
pub open spec fn replaced(raw: Option<String>, points: Seq<FanCurvePoint>) -> Result<
    Seq<FanCurvePoint>,
    Seq<char>,
> {
    match raw {
        Some(s) => curve_points_in(s@),
        None => Ok(points),
    }
}

/// The curve that the arguments make of the stored one; the first list of
/// points that cannot be read is reported.
pub open spec fn edited(params: FanCurveParams, stored: FanCurveView) -> Result<
    FanCurveView,
    Seq<char>,
> {
    match (
        replaced(params.cpu_points, stored.cpu_points),
        replaced(params.gpu_points, stored.gpu_points),
    ) {
        (Ok(cpu_points), Ok(gpu_points)) => Ok(
            FanCurveView {
                enabled: !params.disable && (params.enable || stored.enabled),
                source: match params.source {
                    Some(s) => s.source(),
                    None => stored.source,
                },
                cpu_points,
                gpu_points,
            },
        ),
        (Err(e), _) => Err(e),
        (_, Err(e)) => Err(e),
    }
}

/// The curve that the arguments make of the stored one.
pub fn write_fan_curve(params: &FanCurveParams, stored: FanCurve) -> (r: Result<FanCurve, String>)
    ensures
        match edited(*params, stored@) {
            Ok(curve) => r matches Ok(c) && c@ == curve,
            Err(e) => r matches Err(m) && m@ == e,
        },
{
    let mut curve = stored;
    if let Some(source) = params.source {
        curve.source = source.to_source();
    }
    if params.enable {
        curve.enabled = true;
    }
    if params.disable {
        curve.enabled = false;
    }
    if let Some(raw) = &params.cpu_points {
        match parse_points(raw.as_str()) {
            Ok(points) => {
                curve.cpu_points = points;
            },
            Err(e) => {
                return Err(e);
            },
        }
    }
    if let Some(raw) = &params.gpu_points {
        match parse_points(raw.as_str()) {
            Ok(points) => {
                curve.gpu_points = points;
            },
            Err(e) => {
                return Err(e);
            },
        }
    }
    Ok(curve)
}

/// A point that is written as its temperature and its speed is read as such, up
/// to 100 degrees; a hotter one is a fault.
pub proof fn a_point_is_read_as_written(temp: u8, rpm: u16)
    ensures
        ({
            let piece = text::dec(temp as nat) + seq![':'] + text::dec(rpm as nat);
            &&& temp <= 100 ==> point_in(piece) == PointRead::Point(
                FanCurvePoint { temp_c: temp, rpm },
            )
            &&& temp > 100 ==> point_in(piece) is Fault
        }),
{
    let t = text::dec(temp as nat);
    let r = text::dec(rpm as nat);
    let piece = t + seq![':'] + r;
    text::decimals_are_digits(temp as nat);
    text::decimals_are_digits(rpm as nat);
    assert('0' <= t[0] <= '9' && '0' <= t[t.len() - 1] <= '9');
    assert('0' <= r[0] <= '9' && '0' <= r[r.len() - 1] <= '9');
    assert(piece[0] == t[0]);
    assert(piece.last() == r.last());
    text::trimming_ends_at_the_text(piece);
    text::trimming_ends_at_the_text(t);
    text::trimming_ends_at_the_text(r);
    piece.index_of_first_ensures(':');
    assert(piece[t.len() as int] == ':');
    let i = piece.index_of_first(':')->0;
    if i < t.len() {
        assert(piece[i] == t[i]);
    }
    assert(piece.take(i) =~= t);
    assert(piece.skip(i + 1) =~= r);
    text::decimal_is_read_back(temp as nat, 255);
    text::decimal_is_read_back(rpm as nat, 65535);
}

} // verus!
