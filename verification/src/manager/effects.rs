//! What reaches the controller: the commands that a request or a turn of the
//! daemon comes to, and what the replies are taken to say.

use vstd::prelude::*;

use crate::charger::ChargerDomain;
use crate::command;
use crate::command::EcCommand;
use crate::comms::{DaemonCommand, DaemonResponse, FanCurve, FanCurvePoint};
use crate::config::{Configuration, PowerConfig};
use crate::daemon;
use crate::daemon::Handling;
use crate::laptop::RazerLaptop;
use crate::manager::DeviceManager;
use crate::manager::step;
use crate::manager::step::{Action, Outcome, Reply, Step, Task};
use crate::packet::RazerPacket;

verus! {

/// The actions that a step asks for.
pub open spec fn asked(step: Step) -> Seq<Action> {
    match step {
        Step::Perform { actions, .. } => actions@,
        Step::Done(_) => seq![],
    }
}

/// A fixed speed puts both zones into manual mode and gives them that speed in
/// hundreds; 0 hands both back to automatic. Nothing else in the round touches
/// the fans, and the profile stays.
pub proof fn a_fixed_speed_takes_hold(
    d: DeviceManager,
    ac: usize,
    rpm: i32,
    post: DeviceManager,
    h: Handling,
)
    requires
        d.wf(),
        d.device matches Some(l) && l.ac_state == ac && (rpm == 0 || l.fan@[0] <= rpm
            <= l.fan@[1]),
        daemon::handles(d, DaemonCommand::SetFanSpeed { ac, rpm }, post, h),
    ensures
        h matches Handling::Operate { step, .. } && {
            let l = d.device->0;
            let a = asked(step);
            let n = a.len();
            let manual: u8 = if rpm == 0 { 0 } else { 1 };
            let hundreds: u8 = ((rpm / 100) % 256) as u8;
            let first = if rpm == 0 { n - 2 } else { n - 4 };
            &&& 0 <= first
            &&& a[first] == Action::Command(
                EcCommand::ZoneMode { zone: 1, mode: l.power, manual },
            )
            &&& a[first + 1] == Action::Command(
                EcCommand::ZoneMode { zone: 2, mode: l.power, manual },
            )
            &&& rpm != 0 ==> a[n - 2] == Action::Command(
                EcCommand::ZoneSpeed { zone: 1, hundreds },
            ) && a[n - 1] == Action::Command(EcCommand::ZoneSpeed { zone: 2, hundreds })
            &&& forall|i: int| 0 <= i < first ==> #[trigger] a[i] == Action::Save
            &&& post.device->0.fan_rpm == hundreds
        },
{
    let l = d.device->0;
    let a = asked(h->step);
    let writes = l.fan_writes(rpm as u16);
    let saves = crate::manager::power::saves(d.config is Some);
    let s = saves.len() as int;
    assert(a =~= saves + step::commands(writes));
    assert(a[s] == Action::Command(writes[0]));
    assert(a[s + 1] == Action::Command(writes[1]));
    if rpm != 0 {
        assert(a[s + 2] == Action::Command(writes[2]));
        assert(a[s + 3] == Action::Command(writes[3]));
    }
}

/// A speed within the range of a model in the byte of the controller.
pub open spec fn hundreds_within(rpm: int, lowest: int, highest: int) -> u8 {
    ((if rpm > highest {
        highest
    } else if rpm < lowest {
        lowest
    } else {
        rpm
    }) / 100 % 256) as u8
}

/// A tick of an enabled curve writes nothing exactly where the speed that it
/// asks for is the one last confirmed. Any other speed goes to both zones,
/// within the range of the model, behind the manual mode of both zones where
/// the fans were not latched; no tick hands the fans back.
pub proof fn a_tick_drives_both_zones(
    d: DeviceManager,
    cpu: Option<i64>,
    gpu: Option<i64>,
    rpm: u16,
    post: DeviceManager,
    step: Step,
)
    requires
        d.wf(),
        d.device is Some,
        d.config is Some,
        d.config->0.power@[d.device->0.ac_state as int].fan_curve.enabled,
        crate::fan::curve_target(
            d.config->0.power@[d.device->0.ac_state as int].fan_curve,
            cpu,
            gpu,
        ) == Some(rpm),
        d.ticks(cpu, gpu, post, step),
    ensures
        step is Done <==> d.fan_curve_established && d.fan_curve_last_rpm == Some(rpm),
        step is Perform ==> {
            let l = d.device->0;
            let a = asked(step);
            let n = a.len();
            let hundreds = hundreds_within(rpm as int, l.fan@[0] as int, l.fan@[1] as int);
            &&& n == if d.fan_curve_established { 2 } else { 4nat }
            &&& a[n - 2] == Action::Command(EcCommand::ZoneSpeed { zone: 1, hundreds })
            &&& a[n - 1] == Action::Command(EcCommand::ZoneSpeed { zone: 2, hundreds })
            &&& !d.fan_curve_established ==> a[0] == Action::Command(
                EcCommand::ZoneMode { zone: 1, mode: l.power, manual: 1 },
            ) && a[1] == Action::Command(
                EcCommand::ZoneMode { zone: 2, mode: l.power, manual: 1 },
            )
            &&& post.device->0.fan_rpm == hundreds
        },
{
    let l = d.device->0;
    let writes = l.drive_writes(!d.fan_curve_established, rpm);
    if step is Perform {
        let a = asked(step);
        assert(a =~= step::commands(writes));
        assert(a[0] == Action::Command(writes[0]));
        assert(a[1] == Action::Command(writes[1]));
        if !d.fan_curve_established {
            assert(a[2] == Action::Command(writes[2]));
            assert(a[3] == Action::Command(writes[3]));
        }
    }
}

/// A tick of a curve that asks for no speed leaves everything as it is; one of a
/// curve that is off forgets what the curve had latched. Neither writes.
pub proof fn a_tick_without_a_speed_writes_nothing(
    d: DeviceManager,
    cpu: Option<i64>,
    gpu: Option<i64>,
    post: DeviceManager,
    step: Step,
)
    requires
        d.device is Some && d.config is Some,
        d.ticks(cpu, gpu, post, step),
    ensures
        ({
            let curve = d.config->0.power@[d.device->0.ac_state as int].fan_curve;
            &&& !curve.enabled ==> {
                &&& step == Step::Done(Outcome::Nothing)
                &&& !post.fan_curve_established && post.fan_curve_last_rpm is None
                &&& post.device == d.device && post.config == d.config
            }
            &&& curve.enabled && crate::fan::curve_target(curve, cpu, gpu) is None ==> step
                == Step::Done(Outcome::Nothing) && post == d
        }),
{
}

/// Once a tick was confirmed in full, its speed is the one that later ticks
/// are held against; where any of it was not, the next tick starts over.
pub proof fn a_tick_is_remembered_once_confirmed(
    d: DeviceManager,
    cpu: Option<i64>,
    gpu: Option<i64>,
    rpm: u16,
    planned: DeviceManager,
    first: Step,
    replies: Seq<Reply>,
    post: DeviceManager,
    second: Step,
)
    requires
        d.wf(),
        d.device is Some,
        d.config is Some,
        d.config->0.power@[d.device->0.ac_state as int].fan_curve.enabled,
        crate::fan::curve_target(
            d.config->0.power@[d.device->0.ac_state as int].fan_curve,
            cpu,
            gpu,
        ) == Some(rpm),
        d.ticks(cpu, gpu, planned, first),
        first is Perform,
        replies.len() == asked(first).len(),
        planned.resumes(first->task, replies, post, second),
    ensures
        second is Done,
        (forall|i: int|
            0 <= i < replies.len() ==> (#[trigger] replies[i] matches Reply::Answer(p) && p
                is Some)) ==> post.fan_curve_established && post.fan_curve_last_rpm == Some(rpm),
        (exists|i: int|
            0 <= i < replies.len() && #[trigger] replies[i] == Reply::Answer(None))
            ==> !post.fan_curve_established && post.fan_curve_last_rpm is None,
        post.device == planned.device && post.config == d.config,
{
    let l = d.device->0;
    let writes = l.drive_writes(!d.fan_curve_established, rpm);
    assert(asked(first).len() == writes.len());
    let span = step::Span { from: 0, to: writes.len() as usize };
    if forall|i: int|
        0 <= i < replies.len() ==> (#[trigger] replies[i] matches Reply::Answer(p) && p is Some) {
        assert forall|i: int| span.from <= i < span.to implies (#[trigger] step::answer(
            replies,
            i,
        )) is Some by {
            assert(replies[i] is Answer);
        }
    }
    if exists|i: int| 0 <= i < replies.len() && #[trigger] replies[i] == Reply::Answer(None) {
        let i = choose|i: int|
            0 <= i < replies.len() && #[trigger] replies[i] == Reply::Answer(None);
        assert(step::answer(replies, i) is None);
    }
}

/// The curve goes by its source: the CPU curve by the CPU temperature on the
/// CPU points alone, the GPU curve likewise, and the curve on both by the
/// higher of the two speeds. A temperature that is not known asks for nothing.
pub proof fn a_curve_goes_by_its_source(
    curve: FanCurve,
    cpu: Option<i64>,
    gpu: Option<i64>,
    on_cpu: FanCurve,
    on_gpu: FanCurve,
)
    requires
        on_cpu.source is Cpu && on_cpu.cpu_points@ == curve.cpu_points@,
        on_gpu.source is Gpu && on_gpu.gpu_points@ == curve.gpu_points@,
    ensures
        crate::fan::curve_target(on_cpu, None, gpu) is None,
        crate::fan::curve_target(on_gpu, cpu, None) is None,
        curve.source is Cpu ==> crate::fan::curve_target(curve, cpu, gpu)
            == crate::fan::curve_target(on_cpu, cpu, None),
        curve.source is Gpu ==> crate::fan::curve_target(curve, cpu, gpu)
            == crate::fan::curve_target(on_gpu, None, gpu),
        curve.source is Both ==> match (
            crate::fan::curve_target(on_cpu, cpu, None),
            crate::fan::curve_target(on_gpu, None, gpu),
        ) {
            (Some(c), Some(g)) => crate::fan::curve_target(curve, cpu, gpu) matches Some(rpm)
                && rpm >= c && rpm >= g && (rpm == c || rpm == g),
            (Some(c), None) => crate::fan::curve_target(curve, cpu, gpu) == Some(c),
            (None, g) => crate::fan::curve_target(curve, cpu, gpu) == g,
        },
{
}

/// A point of the curve speaks for every temperature below its own, down to
/// the point before it; the last one also for every temperature above.
pub proof fn a_curve_asks_for_the_next_point(
    curve: FanCurve,
    points: Seq<FanCurvePoint>,
    temp: i64,
    other: Option<i64>,
    i: int,
)
    requires
        0 <= i < points.len(),
        forall|j: int| 0 <= j < i ==> (#[trigger] points[j]).temp_c <= temp,
        points[i].temp_c > temp || i == points.len() - 1,
    ensures
        curve.source is Cpu && curve.cpu_points@ == points ==> crate::fan::curve_target(
            curve,
            Some(temp),
            other,
        ) == Some(points[i].rpm),
        curve.source is Gpu && curve.gpu_points@ == points ==> crate::fan::curve_target(
            curve,
            other,
            Some(temp),
        ) == Some(points[i].rpm),
{
    crate::fan::curve_is_a_ceiling(points, temp as int, i);
    if points[i].temp_c <= temp {
        assert(forall|j: int| 0 <= j < points.len() ==> (#[trigger] points[j]).temp_c <= temp);
    }
}

/// A profile that the laptop takes goes to both zones as it is. The fans stay
/// with who has them: the flag is 0 while they are automatic, and 1 while a
/// speed is in force; Custom alone hands them back. Custom also writes a tier
/// to each zone, the CPU tier to the first.
pub proof fn a_profile_reaches_both_zones(l: RazerLaptop, mode: u8, cpu: u8, gpu: u8)
    requires
        mode == 7 ==> l.allow_experimental || l.has_turbo(),
    ensures
        ({
            let w = l.power_writes(mode, cpu, gpu);
            let manual: u8 = if l.fan_rpm != 0 && mode != 4 { 1 } else { 0 };
            let unlocked = l.allow_experimental || l.has_max_tier();
            &&& w.len() == if mode == 4 { 4nat } else { 2 }
            &&& w[0] == (EcCommand::ZoneMode { zone: 1, mode, manual })
            &&& w[1] == (EcCommand::ZoneMode { zone: 2, mode, manual })
            &&& mode == 4 ==> {
                &&& w[2] == (EcCommand::Boost {
                    zone: 1,
                    tier: if cpu == 3 && !unlocked { 2 } else { cpu },
                })
                &&& w[3] == (EcCommand::Boost {
                    zone: 2,
                    tier: if gpu == 3 && !unlocked { 2 } else { gpu },
                })
            }
        }),
        l.after_power(mode) == (RazerLaptop {
            power: mode,
            fan_rpm: if mode == 4 { 0 } else { l.fan_rpm },
            ..l
        }),
        !l.refuses(mode),
{
}

/// A power request that is accepted for the slot in force is written to both
/// zones, unless USB-PD holds Balanced against it: the profile, the fan flag
/// that the fans had, and for Custom the tiers that were asked for. Where a
/// curve has the fans, they are latched again at its speed behind that.
pub proof fn a_power_request_reaches_both_zones(
    d: DeviceManager,
    ac: int,
    pwr: u8,
    cpu: u8,
    gpu: u8,
    domain: ChargerDomain,
    key: Option<u64>,
    post: DeviceManager,
    step: Step,
)
    requires
        d.wf(),
        d.active_domain == Some(domain),
        d.writes_in_domain(ac, pwr, cpu, gpu, domain, key, post, step),
        step is Perform,
        d.device matches Some(l) && l.ac_state == ac && (pwr == 7 ==> l.allow_experimental
            || l.has_turbo()),
        domain is Pd ==> pwr == 0,
    ensures
        step->task matches Task::Written { writes, deferred, .. } && writes.power matches Some(
            span,
        ) && {
            let l = d.device->0;
            let a = asked(step);
            let manual: u8 = if l.fan_rpm != 0 && pwr != 4 { 1 } else { 0 };
            let unlocked = l.allow_experimental || l.has_max_tier();
            let from = span.from as int;
            &&& !deferred
            &&& span.to == span.from + if pwr == 4 { 4int } else { 2 }
            &&& span.to <= a.len()
            &&& a[from] == Action::Command(EcCommand::ZoneMode { zone: 1, mode: pwr, manual })
            &&& a[from + 1] == Action::Command(EcCommand::ZoneMode { zone: 2, mode: pwr, manual })
            &&& pwr == 4 ==> {
                &&& a[from + 2] == Action::Command(
                    EcCommand::Boost { zone: 1, tier: if cpu == 3 && !unlocked { 2 } else { cpu } },
                )
                &&& a[from + 3] == Action::Command(
                    EcCommand::Boost { zone: 2, tier: if gpu == 3 && !unlocked { 2 } else { gpu } },
                )
            }
            &&& forall|i: int| 0 <= i < from ==> #[trigger] a[i] == Action::Save
            &&& match writes.relatch {
                None => span.to == a.len(),
                Some(again) => {
                    &&& again.from == span.to && again.to == a.len()
                    &&& latches_again(a, again.from as int, pwr, d.fan_curve_last_rpm, l)
                }
            }
            &&& post.device->0.power == pwr
        },
{
    let l = d.device->0;
    let m = d.storing_power(ac, pwr, cpu, gpu);
    let planned = m.request_mirrors(ac, pwr, domain);
    a_profile_reaches_both_zones(l, pwr, cpu, gpu);
    let power = l.power_writes(pwr, cpu, gpu);
    let again = planned.relatch_writes();
    let a = asked(step);
    let saves = crate::manager::power::saves(d.config is Some);
    let s = saves.len() as int;
    assert(a =~= saves + step::commands(power) + step::commands(step::listed(again)));
    assert(a[s] == Action::Command(power[0]));
    assert(a[s + 1] == Action::Command(power[1]));
    if pwr == 4 {
        assert(a[s + 2] == Action::Command(power[2]));
        assert(a[s + 3] == Action::Command(power[3]));
    }
    if let Some(w) = again {
        let t = s + power.len();
        assert(w.len() == 4);
        assert(a[t] == Action::Command(w[0]));
        assert(a[t + 1] == Action::Command(w[1]));
        assert(a[t + 2] == Action::Command(w[2]));
        assert(a[t + 3] == Action::Command(w[3]));
    }
}

/// From `at` on the actions latch both fan zones under profile `mode` at the
/// speed that the curve last wrote.
pub open spec fn latches_again(
    a: Seq<Action>,
    at: int,
    mode: u8,
    rpm: Option<u16>,
    l: RazerLaptop,
) -> bool {
    rpm matches Some(rpm) && {
        let hundreds = hundreds_within(rpm as int, l.fan@[0] as int, l.fan@[1] as int);
        &&& a.len() == at + 4
        &&& a[at] == Action::Command(EcCommand::ZoneMode { zone: 1, mode, manual: 1 })
        &&& a[at + 1] == Action::Command(EcCommand::ZoneMode { zone: 2, mode, manual: 1 })
        &&& a[at + 2] == Action::Command(EcCommand::ZoneSpeed { zone: 1, hundreds })
        &&& a[at + 3] == Action::Command(EcCommand::ZoneSpeed { zone: 2, hundreds })
    }
}

/// Nothing of the manager changes but the field `slot` of slot `ac`.
pub open spec fn stores_slot(d: DeviceManager, ac: int, slot: PowerConfig, post: DeviceManager) -> bool {
    &&& d.config is Some && post.config is Some
    &&& post.config->0.power@[ac] == slot
    &&& post.config->0.power@[1 - ac] == d.config->0.power@[1 - ac]
    &&& post.config->0 == (Configuration { power: post.config->0.power, ..d.config->0 })
}

/// The lighting of slot `ac` is up to the daemon, and the slot is in force.
pub open spec fn lit(d: DeviceManager, ac: int) -> bool {
    &&& d.config is Some && d.config->0.static_lighting
    &&& d.device is Some && d.device->0.static_lighting && d.device->0.ac_state == ac
}

/// A brightness is stored for its slot alone, as percent * 255 / 100, and that
/// byte is what reaches the controller. While the slot is not in force or
/// lighting is switched off, nothing does.
pub proof fn a_brightness_reaches_the_keyboard(
    d: DeviceManager,
    ac: usize,
    val: u8,
    post: DeviceManager,
    h: Handling,
)
    requires
        ac < 2,
        d.config is Some,
        daemon::handles(d, DaemonCommand::SetBrightness { ac, val }, post, h),
    ensures
        h matches Handling::Operate { step, .. } && {
            let value: u8 = ((if val > 100 { 100int } else { val as int }) * 255 / 100) as u8;
            let c = d.config->0;
            &&& stores_slot(
                d,
                ac as int,
                PowerConfig { brightness: value, ..c.power@[ac as int] },
                post,
            )
            &&& post == (DeviceManager { config: post.config, ..d })
            &&& asked(step) == if lit(d, ac as int) {
                seq![Action::Save, Action::Command(EcCommand::Brightness { value })]
            } else {
                seq![Action::Save]
            }
            &&& val == 0 ==> value == 0
            &&& val >= 100 ==> value == 255
        },
{
    let l = d.device->0;
    let value = crate::manager::light::level_of(val);
    let c = d.config->0;
    let slot = PowerConfig { brightness: value, ..c.power@[ac as int] };
    assert(c.with_slot(ac as int, slot).power@[ac as int] == slot);
    assert(c.with_slot(ac as int, slot).power@[1 - ac] == c.power@[1 - ac]);
    let w = step::commands(step::listed(if lit(d, ac as int) {
        Some(l.brightness_writes(value))
    } else {
        None
    }));
    if lit(d, ac as int) {
        assert(w =~= seq![Action::Command(EcCommand::Brightness { value })]);
    } else if d.device is Some && d.lights_up(ac as int) {
        assert(l.brightness_writes(value) =~= seq![]);
    }
    assert(asked(h->step) =~= if lit(d, ac as int) {
        seq![Action::Save, Action::Command(EcCommand::Brightness { value })]
    } else {
        seq![Action::Save]
    });
}

/// A higher percentage never sends a lower byte.
pub proof fn brighter_is_not_darker(
    d: DeviceManager,
    ac: usize,
    low: u8,
    high: u8,
    post_low: DeviceManager,
    h_low: Handling,
    post_high: DeviceManager,
    h_high: Handling,
)
    requires
        ac < 2,
        low <= high,
        lit(d, ac as int),
        daemon::handles(d, DaemonCommand::SetBrightness { ac, val: low }, post_low, h_low),
        daemon::handles(d, DaemonCommand::SetBrightness { ac, val: high }, post_high, h_high),
    ensures
        asked(h_low->step)[1] matches Action::Command(EcCommand::Brightness { value: a })
            && asked(h_high->step)[1] matches Action::Command(EcCommand::Brightness { value: b })
            && a <= b,
{
    a_brightness_reaches_the_keyboard(d, ac, low, post_low, h_low);
    a_brightness_reaches_the_keyboard(d, ac, high, post_high, h_high);
}

/// A logo state is stored for its slot alone. Off, on and breathing reach the
/// logo as effect and state: breathing is effect 2, and only off has state 0.
pub proof fn a_logo_state_reaches_the_logo(
    d: DeviceManager,
    ac: usize,
    logo_state: u8,
    post: DeviceManager,
    h: Handling,
)
    requires
        ac < 2,
        d.config is Some,
        daemon::handles(d, DaemonCommand::SetLogoLedState { ac, logo_state }, post, h),
    ensures
        h matches Handling::Operate { step, .. } && if logo_state > 2 {
            post == d && step == Step::Done(Outcome::Flag(false))
        } else {
            &&& stores_slot(
                d,
                ac as int,
                PowerConfig { logo_state, ..d.config->0.power@[ac as int] },
                post,
            )
            &&& post == (DeviceManager { config: post.config, ..d })
            &&& asked(step) == if lit(d, ac as int) {
                seq![
                    Action::Save,
                    Action::Command(
                        EcCommand::LogoEffect { effect: if logo_state == 2 { 2 } else { 0 } },
                    ),
                    Action::Command(
                        EcCommand::LogoState { state: if logo_state == 0 { 0 } else { 1 } },
                    ),
                ]
            } else {
                seq![Action::Save]
            }
        },
{
    if logo_state <= 2 {
        let l = d.device->0;
        let c = d.config->0;
        let slot = PowerConfig { logo_state, ..c.power@[ac as int] };
        assert(c.with_slot(ac as int, slot).power@[ac as int] == slot);
        assert(c.with_slot(ac as int, slot).power@[1 - ac] == c.power@[1 - ac]);
        let w = if d.lights_up(ac as int) {
            l.logo_writes(logo_state)
        } else {
            seq![]
        };
        assert(asked(h->step) =~= seq![Action::Save] + step::commands(w));
        if lit(d, ac as int) {
            assert(step::commands(w)[0] == Action::Command(w[0]));
            assert(step::commands(w)[1] == Action::Command(w[1]));
        } else {
            assert(w.len() == 0);
        }
        assert(asked(h->step) =~= if lit(d, ac as int) {
            seq![
                Action::Save,
                Action::Command(
                    EcCommand::LogoEffect { effect: if logo_state == 2 { 2 } else { 0 } },
                ),
                Action::Command(
                    EcCommand::LogoState { state: if logo_state == 0 { 0 } else { 1 } },
                ),
            ]
        } else {
            seq![Action::Save]
        });
    }
}

/// A colour is stored as it is and written twice, the second time once the
/// first was confirmed; it was set where both were and the save succeeded.
pub proof fn a_colour_is_written_twice(
    d: DeviceManager,
    red: u8,
    green: u8,
    blue: u8,
    stored: DeviceManager,
    h: Handling,
    p: RazerPacket,
    saved: bool,
    mid: DeviceManager,
    second: Step,
    answer: Option<RazerPacket>,
    post: DeviceManager,
    last: Step,
)
    requires
        d.config is Some,
        d.device is Some && d.device->0.static_lighting,
        daemon::handles(d, DaemonCommand::SetStaticColor { red, green, blue }, stored, h),
        h is Operate && h->step is Perform,
        stored.resumes(
            h->step->task,
            seq![Reply::Saved(saved), Reply::Answer(Some(p))],
            mid,
            second,
        ),
        second is Perform,
        mid.resumes(second->task, seq![Reply::Answer(answer)], post, last),
    ensures
        asked(h->step) == seq![
            Action::Save,
            Action::Command(EcCommand::StaticColor { red, green, blue }),
        ],
        asked(second) == seq![Action::Command(EcCommand::StaticColor { red, green, blue })],
        last == Step::Done(Outcome::Flag(saved && answer is Some)),
        stored.config->0.static_color@ == seq![red, green, blue],
        stored.config->0 == (Configuration {
            static_color: stored.config->0.static_color,
            ..d.config->0
        }),
        post == stored && stored == (DeviceManager { config: stored.config, ..d }),
{
    let replies = seq![Reply::Saved(saved), Reply::Answer(Some(p))];
    assert(replies[0] == Reply::Saved(saved) && replies[1] == Reply::Answer(Some(p)));
    assert(seq![Reply::Answer(answer)][0] == Reply::Answer(answer));
    assert(step::saved(replies, 0) == saved);
    assert([red, green, blue]@ =~= seq![red, green, blue]);
    assert(asked(h->step) =~= seq![
        Action::Save,
        Action::Command(EcCommand::StaticColor { red, green, blue }),
    ]);
}

/// A first colour write that is not confirmed ends the request in failure.
pub proof fn an_unconfirmed_colour_fails(
    d: DeviceManager,
    red: u8,
    green: u8,
    blue: u8,
    save: bool,
    replies: Seq<Reply>,
    post: DeviceManager,
    step: Step,
)
    requires
        d.resumes(Task::ColorSent { red, green, blue, save }, replies, post, step),
        forall|i: int|
            0 <= i < replies.len() ==> !(#[trigger] replies[i] matches Reply::Answer(p) && p
                is Some),
    ensures
        step == Step::Done(Outcome::Flag(false)),
        post == d,
{
}

/// The stored colour is written again as it is stored, green where there is
/// none.
pub proof fn the_stored_colour_is_restored(d: DeviceManager, step: Step)
    requires
        d.recolors(step),
        d.device is Some && d.device->0.static_lighting,
        d.config matches Some(c) ==> c.static_lighting,
    ensures
        asked(step) == seq![
            Action::Command(
                match d.config {
                    Some(c) => EcCommand::StaticColor {
                        red: c.static_color@[0],
                        green: c.static_color@[1],
                        blue: c.static_color@[2],
                    },
                    None => EcCommand::StaticColor { red: 0, green: 255, blue: 0 },
                },
            ),
        ],
{
}

/// Before a sleep the keyboard goes dark and the logo off; after it both come
/// back as the slot in force has them.
pub proof fn a_sleep_darkens_and_a_resume_restores(d: DeviceManager, off: Step, on: Step)
    requires
        d.wf(),
        d.darkens(off),
        d.relights(on),
        d.device is Some && d.device->0.static_lighting,
        d.config is Some && d.config->0.static_lighting,
    ensures
        asked(off) == seq![
            Action::Command(EcCommand::Brightness { value: 0 }),
            Action::Command(EcCommand::LogoEffect { effect: 0 }),
            Action::Command(EcCommand::LogoState { state: 0 }),
        ],
        ({
            let slot = d.config->0.power@[d.device->0.ac_state as int];
            asked(on) == seq![
                Action::Command(EcCommand::Brightness { value: slot.brightness }),
                Action::Command(
                    EcCommand::LogoEffect { effect: if slot.logo_state == 2 { 2 } else { 0 } },
                ),
                Action::Command(
                    EcCommand::LogoState { state: if slot.logo_state == 0 { 0 } else { 1 } },
                ),
            ]
        }),
{
    let l = d.device->0;
    let slot = d.config->0.power@[l.ac_state as int];
    let o = l.brightness_writes(0) + l.logo_writes(0);
    let r = l.brightness_writes(slot.brightness) + l.logo_writes(slot.logo_state);
    assert(step::commands(o)[0] == Action::Command(o[0]));
    assert(step::commands(o)[1] == Action::Command(o[1]));
    assert(step::commands(o)[2] == Action::Command(o[2]));
    assert(step::commands(r)[0] == Action::Command(r[0]));
    assert(step::commands(r)[1] == Action::Command(r[1]));
    assert(step::commands(r)[2] == Action::Command(r[2]));
    assert(asked(off) =~= seq![
        Action::Command(EcCommand::Brightness { value: 0 }),
        Action::Command(EcCommand::LogoEffect { effect: 0 }),
        Action::Command(EcCommand::LogoState { state: 0 }),
    ]);
    assert(asked(on) =~= seq![
        Action::Command(EcCommand::Brightness { value: slot.brightness }),
        Action::Command(
            EcCommand::LogoEffect { effect: if slot.logo_state == 2 { 2 } else { 0 } },
        ),
        Action::Command(
            EcCommand::LogoState { state: if slot.logo_state == 0 { 0 } else { 1 } },
        ),
    ]);
}

/// A live read asks for the value of its own zone, and the answer carries what
/// stands in the reply: speeds in hundreds in the third argument, the profile
/// of a zone before its fan flag, boost tier and brightness in the third, the
/// charge limit and the adapter class in the first.
pub proof fn live_values_are_answered(
    d: DeviceManager,
    cmd: DaemonCommand,
    p: RazerPacket,
    post: DeviceManager,
    h: Handling,
    end: DeviceManager,
    last: Step,
)
    requires
        d.device is Some,
        !daemon::state_changing(cmd),
        daemon::handles(d, cmd, post, h),
        h is Operate && h->step is Perform,
        post.resumes(h->step->task, seq![Reply::Answer(Some(p))], end, last),
    ensures
        last matches Step::Done(outcome) && {
            let asks = asked(h->step);
            let r = daemon::answered(h->pending, outcome);
            let rpm = 100 * p.args@[2];
            match cmd {
                DaemonCommand::GetActualFanRpm => {
                    &&& asks == seq![Action::Command(EcCommand::ReadTach { zone: 1 })]
                    &&& r matches Some(DaemonResponse::GetActualFanRpm { rpm: x }) && x == rpm
                },
                DaemonCommand::GetEcFanTach { zone } => {
                    &&& asks == seq![Action::Command(EcCommand::ReadTach { zone })]
                    &&& r matches Some(DaemonResponse::GetEcFanTach { rpm: Some(x) }) && x == rpm
                },
                DaemonCommand::GetEcFanSetpoint { zone } => {
                    &&& asks == seq![Action::Command(EcCommand::ReadSetpoint { zone })]
                    &&& r matches Some(DaemonResponse::GetEcFanSetpoint { rpm: Some(x) }) && x
                        == rpm
                },
                DaemonCommand::GetEcPowerZone { zone } => {
                    &&& asks == seq![Action::Command(EcCommand::ReadZone { zone })]
                    &&& r == Some(
                        DaemonResponse::GetEcPowerZone {
                            mode: Some((p.args@[2], p.args@[3])),
                        },
                    )
                },
                DaemonCommand::GetEcBoost { gpu } => {
                    &&& asks == seq![
                        Action::Command(EcCommand::ReadBoost { zone: if gpu { 2 } else { 1 } }),
                    ]
                    &&& r == Some(DaemonResponse::GetEcBoost { value: Some(p.args@[2]) })
                },
                DaemonCommand::GetEcBrightness => {
                    &&& asks == seq![Action::Command(EcCommand::ReadBrightness)]
                    &&& r == Some(DaemonResponse::GetEcBrightness { value: Some(p.args@[2]) })
                },
                DaemonCommand::GetEcBho => {
                    &&& asks == seq![Action::Command(EcCommand::ReadChargeLimit)]
                    &&& r == Some(
                        DaemonResponse::GetEcBho {
                            state: Some((p.args@[0] >= 128, (p.args@[0] % 128) as u8)),
                        },
                    )
                },
                DaemonCommand::GetCharger => {
                    &&& asks == seq![Action::Command(EcCommand::ReadCharger)]
                    &&& r == Some(DaemonResponse::GetCharger { actp: Some(p.args@[0]) })
                },
                DaemonCommand::GetDesiredState => asks == seq![
                    Action::Command(EcCommand::ReadCharger),
                ],
                _ => false,
            }
        },
        end == d,
{
    assert(seq![Reply::Answer(Some(p))][0] == Reply::Answer(Some(p)));
}

/// Without an answer there is no live value: -1 RPM, or none.
pub proof fn no_answer_is_no_live_value(
    d: DeviceManager,
    cmd: DaemonCommand,
    post: DeviceManager,
    h: Handling,
    end: DeviceManager,
    last: Step,
)
    requires
        d.device is Some,
        !daemon::state_changing(cmd),
        daemon::handles(d, cmd, post, h),
        h is Operate && h->step is Perform,
        post.resumes(h->step->task, seq![Reply::Answer(None)], end, last),
    ensures
        last matches Step::Done(outcome) && match daemon::answered(h->pending, outcome) {
            Some(DaemonResponse::GetActualFanRpm { rpm }) => cmd is GetActualFanRpm && rpm == -1,
            Some(DaemonResponse::GetEcFanTach { rpm }) => cmd is GetEcFanTach && rpm is None,
            Some(DaemonResponse::GetEcFanSetpoint { rpm }) => cmd is GetEcFanSetpoint && rpm
                is None,
            Some(DaemonResponse::GetEcPowerZone { mode }) => cmd is GetEcPowerZone && mode is None,
            Some(DaemonResponse::GetEcBoost { value }) => cmd is GetEcBoost && value is None,
            Some(DaemonResponse::GetEcBrightness { value }) => cmd is GetEcBrightness && value
                is None,
            Some(DaemonResponse::GetEcBho { state }) => cmd is GetEcBho && state is None,
            Some(DaemonResponse::GetCharger { actp }) => cmd is GetCharger && actp is None,
            Some(DaemonResponse::GetDesiredState { .. }) => cmd is GetDesiredState,
            _ => false,
        },
{
    assert(seq![Reply::Answer(None)][0] == Reply::Answer(None));
}

/// What a write carried and a reply echoes is read back as that value.
pub proof fn an_echoed_write_is_read_back(
    d: DeviceManager,
    zone: u8,
    x: u8,
    y: u8,
    p: RazerPacket,
    task: Task,
    post: DeviceManager,
    step: Step,
)
    requires
        d.resumes(task, seq![Reply::Answer(Some(p))], post, step),
    ensures
        task is SpeedRead && p.args@ == command::padded(
            EcCommand::ZoneSpeed { zone, hundreds: x }.arguments(),
        ) ==> (step matches Step::Done(Outcome::Speed(Some(rpm))) && rpm == 100 * x),
        task is TachRead && p.args@ == command::padded(
            EcCommand::ZoneSpeed { zone, hundreds: x }.arguments(),
        ) ==> (step matches Step::Done(Outcome::Number(rpm)) && rpm == 100 * x),
        task is ZoneRead && p.args@ == command::padded(
            EcCommand::ZoneMode { zone, mode: x, manual: y }.arguments(),
        ) ==> step == Step::Done(Outcome::Zone(Some((x, y)))),
        task is BoostRead && p.args@ == command::padded(
            EcCommand::Boost { zone, tier: x }.arguments(),
        ) ==> step == Step::Done(Outcome::Byte(Some(x))),
        task is BrightnessRead && p.args@ == command::padded(
            EcCommand::Brightness { value: x }.arguments(),
        ) ==> step == Step::Done(Outcome::Byte(Some(x))),
        task is LimitRead && p.args@ == command::padded(
            EcCommand::ChargeLimit { packed: x }.arguments(),
        ) ==> step == Step::Done(Outcome::Limit(Some((x >= 128, (x % 128) as u8)))),
{
    assert(seq![Reply::Answer(Some(p))][0] == Reply::Answer(Some(p)));
}

/// A charge limit goes out as its threshold, with the top bit for on. Once it
/// was confirmed it is committed and stored, and nothing else of the
/// configuration changes; unconfirmed, it leaves everything as it was.
pub proof fn a_charge_limit_is_sent_and_stored(
    d: DeviceManager,
    is_on: bool,
    threshold: u8,
    start: DeviceManager,
    h: Handling,
    answer: Option<RazerPacket>,
    post: DeviceManager,
    step: Step,
)
    requires
        50 <= threshold <= 80,
        d.config is Some,
        d.optimizes(),
        daemon::handles(
            d,
            DaemonCommand::SetBatteryHealthOptimizer { is_on, threshold },
            start,
            h,
        ),
        h is Operate && h->step is Perform,
        start.resumes(h->step->task, seq![Reply::Answer(answer)], post, step),
    ensures
        start == d,
        asked(h->step) == seq![
            Action::Command(
                EcCommand::ChargeLimit {
                    packed: (threshold + if is_on { 128int } else { 0 }) as u8,
                },
            ),
        ],
        answer is None ==> post == d && step == Step::Done(Outcome::Flag(false)),
        answer is Some ==> {
            &&& asked(step) == seq![Action::Command(EcCommand::ChargeLimitCommit), Action::Save]
            &&& post == (DeviceManager {
                config: Some(
                    Configuration { bho_on: is_on, bho_threshold: threshold, ..d.config->0 },
                ),
                ..d
            })
        },
{
    assert(threshold <= 80 ==> (threshold | 0x80) == threshold + 128) by (bit_vector);
    assert(seq![Reply::Answer(answer)][0] == Reply::Answer(answer));
    if answer is Some {
        assert(asked(step) =~= seq![
            Action::Command(EcCommand::ChargeLimitCommit),
            Action::Save,
        ]);
    }
}

/// A stored charge limit that is on is sent again, with the top bit set and
/// the stored threshold below it; one that is off is not.
pub proof fn a_stored_charge_limit_is_sent_again(d: DeviceManager, step: Step)
    requires
        d.limits_again(step),
        d.optimizes(),
        d.config is Some,
        d.config->0.bho_threshold < 128,
    ensures
        asked(step) == if d.config->0.bho_on {
            seq![
                Action::Command(
                    EcCommand::ChargeLimit { packed: (d.config->0.bho_threshold + 128) as u8 },
                ),
            ]
        } else {
            seq![]
        },
{
    let t = d.config->0.bho_threshold;
    assert(t < 128 ==> (t | 0x80) == t + 128) by (bit_vector);
}

/// The temperatures that are wanted are those of the curve in the slot in force,
/// while it is on.
pub proof fn a_curve_wants_its_own_temperatures(d: DeviceManager)
    requires
        d.device is Some && d.config is Some,
        d.device->0.ac_state <= 1,
    ensures
        ({
            let c = d.config->0;
            let curve = if d.device->0.ac_state == 1 {
                c.power@[1].fan_curve
            } else {
                c.power@[0].fan_curve
            };
            &&& curve.enabled ==> d.active_source() == Some(curve.source)
            &&& !curve.enabled ==> d.active_source() is None
        }),
{
}

} // verus!
