//! What a profile and a charger domain come to: what is stored of a power
//! request, what an applied domain writes, and what counts as success.

use vstd::prelude::*;

use crate::charger::ChargerDomain;
use crate::command::EcCommand;
use crate::comms::{ChargerDomainWire, DaemonCommand, DaemonResponse, FanCurve};
use crate::config::{Configuration, PowerConfig};
use crate::daemon;
use crate::daemon::Handling;
use crate::laptop::RazerLaptop;
use crate::manager::DeviceManager;
use crate::manager::effects;
use crate::manager::step;
use crate::manager::step::{Action, AfterApply, Outcome, Reply, Step, Task, Writes};
use crate::packet::RazerPacket;

verus! {

/// The charger domain of a class byte: 0x11 is the barrel adapter, 0x00 the
/// battery, all else USB-PD.
pub open spec fn domain_by(class: u8) -> ChargerDomain {
    if class == 0x11 {
        ChargerDomain::Barrel
    } else if class == 0 {
        ChargerDomain::Battery
    } else {
        ChargerDomain::Pd
    }
}

/// Action `i` was answered.
pub open spec fn replied(replies: Seq<Reply>, i: int) -> bool {
    0 <= i < replies.len() && (replies[i] matches Reply::Answer(Some(_)))
}

/// A power request first asks for the adapter class and changes nothing. The
/// class decides the domain; where that is the one in force the request goes
/// on in it, as it was made, else the domain is applied first.
pub proof fn a_power_request_goes_by_the_adapter(
    d: DeviceManager,
    ac: usize,
    pwr: u8,
    cpu: u8,
    gpu: u8,
    start: DeviceManager,
    h: Handling,
    p: RazerPacket,
    post: DeviceManager,
    step: Step,
)
    requires
        ac < 2,
        d.device is Some,
        daemon::handles(d, DaemonCommand::SetPowerMode { ac, pwr, cpu, gpu }, start, h),
        h is Operate && h->step is Perform,
        start.resumes(h->step->task, seq![Reply::Answer(Some(p))], post, step),
    ensures
        start == d,
        effects::asked(h->step) == seq![Action::Command(EcCommand::ReadCharger)],
        d.active_domain == Some(domain_by(p.args@[0])) ==> d.writes_in_domain(
            ac as int,
            pwr,
            cpu,
            gpu,
            domain_by(p.args@[0]),
            None,
            post,
            step,
        ),
        d.active_domain != Some(domain_by(p.args@[0])) ==> (step matches Step::Perform {
            task: Task::Applied { domain, after, .. },
            ..
        } && domain == domain_by(p.args@[0]) && after == (AfterApply::Write {
            ac,
            pwr,
            cpu,
            gpu,
            key: None,
        })),
{
    assert(seq![Reply::Answer(Some(p))][0] == Reply::Answer(Some(p)));
}

/// A request whose domain was applied first goes on once the profile of that
/// domain was confirmed, in that domain and as it was made; else it fails.
pub proof fn a_power_request_goes_on_once_healed(
    d: DeviceManager,
    domain: ChargerDomain,
    wire: u8,
    span: step::Span,
    relatch: Option<step::Span>,
    ac: usize,
    pwr: u8,
    cpu: u8,
    gpu: u8,
    replies: Seq<Reply>,
    post: DeviceManager,
    step: Step,
)
    requires
        d.resumes(
            Task::Applied {
                domain,
                wire: Some(wire),
                writes: Writes { power: Some(span), relatch },
                after: AfterApply::Write { ac, pwr, cpu, gpu, key: None },
            },
            replies,
            post,
            step,
        ),
    ensures
        (exists|i: int|
            span.from <= i < span.to && !(#[trigger] replied(replies, i))) ==> step == Step::Done(
            Outcome::Flag(false),
        ) && post.config == d.config && post.active_domain == d.active_domain,
        (forall|i: int|
            span.from <= i < span.to ==> #[trigger] replied(replies, i)) ==> exists|healed: DeviceManager|
            healed.active_domain == Some(domain) && healed.last_applied_wire == Some(wire)
                && healed.config == d.config && healed.device == d.device
                && #[trigger] healed.writes_in_domain(
                ac as int,
                pwr,
                cpu,
                gpu,
                domain,
                None,
                post,
                step,
            ),
{
    let writes = Writes { power: Some(span), relatch };
    if exists|i: int|
        span.from <= i < span.to && !(#[trigger] replied(replies, i)) {
        let i = choose|i: int|
            span.from <= i < span.to && !(#[trigger] replied(replies, i));
        assert(step::answer(replies, i) is None);
        assert(!step::confirmed(replies, span));
    }
    if forall|i: int|
        span.from <= i < span.to ==> #[trigger] replied(replies, i) {
        assert forall|i: int| span.from <= i < span.to implies (#[trigger] step::answer(
            replies,
            i,
        )) is Some by {
            assert(replied(replies, i));
        }
        let healed = d.relatched(writes, replies).domain_noted(domain, wire);
        assert(healed.writes_in_domain(ac as int, pwr, cpu, gpu, domain, None, post, step));
    }
}

/// A power request that is accepted is stored in its own slot alone: the
/// profile, and for Custom its tiers, which any other profile leaves as they
/// are.
pub proof fn a_power_request_is_stored_in_its_slot(
    d: DeviceManager,
    ac: int,
    pwr: u8,
    cpu: u8,
    gpu: u8,
    domain: ChargerDomain,
    key: Option<u64>,
    post: DeviceManager,
    step: Step,
)
    requires
        ac == 0 || ac == 1,
        d.config is Some,
        d.active_domain == Some(domain),
        d.writes_in_domain(ac, pwr, cpu, gpu, domain, key, post, step),
    ensures
        step is Done ==> post == d,
        step is Perform ==> {
            let slot = d.config->0.power@[ac];
            &&& effects::stores_slot(
                d,
                ac,
                PowerConfig {
                    power_mode: pwr,
                    cpu_boost: if pwr == 4 { cpu } else { slot.cpu_boost },
                    gpu_boost: if pwr == 4 { gpu } else { slot.gpu_boost },
                    ..slot
                },
                post,
            )
            &&& effects::asked(step)[0] == Action::Save
            &&& !post.fan_curve_established
            &&& post.active_domain == d.active_domain && post.last_applied_wire
                == d.last_applied_wire
        },
{
    let c = d.config->0;
    let slot = DeviceManager::requested_slot(c.power@[ac], pwr, cpu, gpu);
    assert(c.with_slot(ac, slot).power@[ac] == slot);
    assert(c.with_slot(ac, slot).power@[1 - ac] == c.power@[1 - ac]);
    if step is Perform {
        assert(effects::asked(step)[0] == crate::manager::power::saves(true)[0]);
    }
}

/// A power request succeeds where it was saved and, unless it is left for
/// later, every profile write was confirmed. Only that is entered in the books.
pub proof fn a_power_request_succeeds_where_confirmed(
    d: DeviceManager,
    pwr: u8,
    domain: ChargerDomain,
    deferred: bool,
    writes: Writes,
    replies: Seq<Reply>,
    post: DeviceManager,
    step: Step,
)
    requires
        d.resumes(
            Task::Written { pwr, domain, save: true, deferred, writes, key: None },
            replies,
            post,
            step,
        ),
    ensures
        ({
            let saved = replies.len() > 0 && replies[0] == Reply::Saved(true);
            let confirmed = writes.power matches Some(s) && forall|i: int|
                s.from <= i < s.to ==> #[trigger] replied(replies, i);
            &&& step == Step::Done(Outcome::Flag(saved && (deferred || confirmed)))
            &&& !deferred && confirmed ==> post.last_applied_wire == Some(pwr)
                && post.active_domain == Some(domain)
            &&& deferred || !confirmed ==> post.last_applied_wire == d.last_applied_wire
                && post.active_domain == d.active_domain
            &&& post.config == d.config && post.device == d.device
        }),
{
    if let Some(s) = writes.power {
        confirmed_is_answered(replies, s);
    }
}

/// A request is put off exactly where a laptop is there but its slot is not in
/// force, or USB-PD is and the profile is not Balanced; then no profile is
/// written, else it is. Without a laptop it is neither put off nor written, so
/// that it cannot succeed.
pub proof fn a_power_request_is_put_off_where_it_may_not_be_written(
    d: DeviceManager,
    ac: int,
    pwr: u8,
    cpu: u8,
    gpu: u8,
    domain: ChargerDomain,
    post: DeviceManager,
    step: Step,
)
    requires
        d.active_domain == Some(domain),
        pwr != 7,
        d.writes_in_domain(ac, pwr, cpu, gpu, domain, None, post, step),
        step is Perform,
    ensures
        step matches Step::Perform { task: Task::Written { pwr: p, save, deferred, writes, .. }, .. }
            && {
            &&& p == pwr
            &&& save == (d.config is Some)
            &&& d.device is None ==> !deferred && writes.power is None
            &&& d.device matches Some(l) ==> {
                &&& l.ac_state != ac ==> deferred
                &&& domain is Pd && pwr != 0 ==> deferred
                &&& l.ac_state == ac && !(domain is Pd) ==> !deferred
                &&& l.ac_state == ac && domain is Pd && pwr == 0 ==> !deferred
                &&& deferred ==> writes.power is None
                &&& !deferred ==> writes.power is Some
                &&& writes.power matches Some(s) ==> {
                    &&& s.from == if d.config is Some { 1int } else { 0 }
                    &&& s.to == s.from + if pwr == 4 { 4int } else { 2 }
                }
            }
        },
{
}

/// Writes are confirmed where every one of them was answered.
pub(crate) proof fn confirmed_is_answered(replies: Seq<Reply>, s: step::Span)
    ensures
        step::confirmed(replies, s) <==> forall|i: int|
            s.from <= i < s.to ==> #[trigger] replied(replies, i),
{
    if step::confirmed(replies, s) {
        assert forall|i: int| s.from <= i < s.to implies #[trigger] replied(replies, i) by {
            assert(step::answer(replies, i) is Some);
        }
    }
    if forall|i: int|
        s.from <= i < s.to ==> #[trigger] replied(replies, i) {
        assert forall|i: int| s.from <= i < s.to implies (#[trigger] step::answer(
            replies,
            i,
        )) is Some by {
            assert(replied(replies, i));
        }
    }
}

/// A setting succeeds where it was saved and, unless it is left for later, the
/// writes that count were all confirmed.
pub proof fn a_setting_succeeds_where_confirmed(
    d: DeviceManager,
    deferred: bool,
    counted: Option<step::Span>,
    replies: Seq<Reply>,
    post: DeviceManager,
    step: Step,
)
    requires
        d.resumes(Task::Stored { save: true, deferred, counted }, replies, post, step),
    ensures
        ({
            let saved = replies.len() > 0 && replies[0] == Reply::Saved(true);
            let confirmed = counted matches Some(s) && forall|i: int|
                s.from <= i < s.to ==> #[trigger] replied(replies, i);
            step == Step::Done(Outcome::Flag(saved && (deferred || confirmed)))
        }),
        post == d,
{
    if let Some(s) = counted {
        confirmed_is_answered(replies, s);
    }
}

/// How many of the actions of an applied slot are lighting, profile and fan.
pub open spec fn parts(lit: bool, slot: PowerConfig) -> (int, int, int) {
    (
        if lit { 3int } else { 0 },
        if slot.power_mode == 4 { 4int } else { 2 },
        if slot.fan_curve.enabled || !(0 <= slot.fan_rpm <= 65535) {
            0int
        } else if slot.fan_rpm == 0 {
            2
        } else {
            4
        },
    )
}

/// The actions bring the lighting of a slot to the laptop.
pub open spec fn lights_slot(a: Seq<Action>, slot: PowerConfig) -> bool {
    &&& a[0] == Action::Command(EcCommand::Brightness { value: slot.brightness })
    &&& a[1] == Action::Command(
        EcCommand::LogoEffect { effect: if slot.logo_state == 2 { 2 } else { 0 } },
    )
    &&& a[2] == Action::Command(
        EcCommand::LogoState { state: if slot.logo_state == 0 { 0 } else { 1 } },
    )
}

/// A part of a round of up to four commands stands at `at`.
spec fn stands(a: Seq<Action>, at: int, part: Seq<EcCommand>) -> bool {
    &&& part.len() > 0 ==> a[at] == Action::Command(part[0])
    &&& part.len() > 1 ==> a[at + 1] == Action::Command(part[1])
    &&& part.len() > 2 ==> a[at + 2] == Action::Command(part[2])
    &&& part.len() > 3 ==> a[at + 3] == Action::Command(part[3])
}

proof fn part_stands(before: Seq<Action>, part: Seq<EcCommand>, behind: Seq<Action>)
    ensures
        stands(before + step::commands(part) + behind, before.len() as int, part),
{
    let a = before + step::commands(part) + behind;
    let at = before.len() as int;
    assert(part.len() > 0 ==> a[at] == step::commands(part)[0]);
    assert(part.len() > 1 ==> a[at + 1] == step::commands(part)[1]);
    assert(part.len() > 2 ==> a[at + 2] == step::commands(part)[2]);
    assert(part.len() > 3 ==> a[at + 3] == step::commands(part)[3]);
}

proof fn parts_stand(
    a: Seq<Action>,
    light: Seq<EcCommand>,
    power: Seq<EcCommand>,
    fan: Seq<EcCommand>,
    again: Seq<EcCommand>,
)
    requires
        a == Seq::<Action>::empty() + step::commands(light) + step::commands(power)
            + step::commands(fan) + step::commands(again),
    ensures
        a.len() == light.len() + power.len() + fan.len() + again.len(),
        stands(a, 0, light),
        stands(a, light.len() as int, power),
        stands(a, (light.len() + power.len()) as int, fan),
        stands(a, (light.len() + power.len() + fan.len()) as int, again),
{
    let none = Seq::<Action>::empty();
    let (l, p, f, g) = (
        step::commands(light),
        step::commands(power),
        step::commands(fan),
        step::commands(again),
    );
    assert(a =~= none + l + (p + f + g)) by {}
    part_stands(none, light, p + f + g);
    assert(a =~= l + p + (f + g)) by {}
    part_stands(l, power, f + g);
    assert(a =~= (l + p) + f + g) by {}
    part_stands(l + p, fan, g);
    assert(a =~= (l + p + f) + g + none) by {}
    part_stands(l + p + f, again, none);
}

proof fn a_slot_restores_its_fans(l: RazerLaptop, slot: PowerConfig)
    requires
        l.wf(),
        slot.power_mode == 7 ==> l.allow_experimental || l.has_turbo(),
    ensures
        ({
            let w = l.restore_writes(slot);
            let mode = slot.power_mode;
            let (_, _, f) = parts(false, slot);
            let manual: u8 = if slot.fan_rpm == 0 { 0 } else { 1 };
            let hundreds = effects::hundreds_within(
                slot.fan_rpm as int,
                l.fan@[0] as int,
                l.fan@[1] as int,
            );
            &&& w.len() == f
            &&& f > 0 ==> w[0] == (EcCommand::ZoneMode { zone: 1, mode, manual }) && w[1] == (
            EcCommand::ZoneMode { zone: 2, mode, manual })
            &&& f == 4 ==> w[2] == (EcCommand::ZoneSpeed { zone: 1, hundreds }) && w[3] == (
            EcCommand::ZoneSpeed { zone: 2, hundreds })
            &&& f == 2 ==> l.after_config(slot).fan_rpm == 0
            &&& f == 4 ==> l.after_config(slot).fan_rpm == hundreds
            &&& l.after_config(slot).power == mode
            &&& l.after_config(slot).fan == l.fan
            &&& l.after_config(slot).ac_state == l.ac_state
        }),
{
}

proof fn a_slot_brings_its_lighting(l: RazerLaptop, slot: PowerConfig, lighting: bool)
    ensures
        ({
            let w = l.light_writes(slot, lighting);
            &&& w.len() == if lighting && l.static_lighting { 3nat } else { 0 }
            &&& lighting && l.static_lighting ==> {
                &&& w[0] == (EcCommand::Brightness { value: slot.brightness })
                &&& w[1] == (EcCommand::LogoEffect {
                    effect: if slot.logo_state == 2 { 2 } else { 0 },
                })
                &&& w[2] == (EcCommand::LogoState {
                    state: if slot.logo_state == 0 { 0 } else { 1 },
                })
            }
        }),
{
}

proof fn a_curve_latches_last(m: DeviceManager, slot: PowerConfig)
    requires
        m.wf(),
        m.device is Some && m.config is Some,
        m.config->0.power@[m.device->0.ac_state as int] == slot,
    ensures
        ({
            let l = m.device->0;
            let w = step::listed(m.relatch_writes());
            if slot.fan_curve.enabled && m.fan_curve_last_rpm is Some {
                let hundreds = effects::hundreds_within(
                    m.fan_curve_last_rpm->0 as int,
                    l.fan@[0] as int,
                    l.fan@[1] as int,
                );
                &&& w.len() == 4
                &&& w[0] == (EcCommand::ZoneMode { zone: 1, mode: l.power, manual: 1 })
                &&& w[1] == (EcCommand::ZoneMode { zone: 2, mode: l.power, manual: 1 })
                &&& w[2] == (EcCommand::ZoneSpeed { zone: 1, hundreds })
                &&& w[3] == (EcCommand::ZoneSpeed { zone: 2, hundreds })
                &&& m.relatching().device->0.fan_rpm == hundreds
            } else {
                w.len() == 0 && m.relatching() == m
            }
        }),
        m.relatching().config == m.config,
        m.relatching().device->0.power == m.device->0.power,
{
}

/// A slot that is applied brings everything that it holds: brightness and
/// logo while lighting is on, the profile to both zones with the fan flag that
/// the fans had, for Custom its tiers, and behind that the stored fan speed
/// where no curve has the fans. A curve latches again last.
#[verifier::rlimit(60)]
pub proof fn an_applied_slot_is_written_in_full(
    m: DeviceManager,
    domain: ChargerDomain,
    post: DeviceManager,
    a: Seq<Action>,
    writes: Writes,
)
    requires
        m.wf(),
        !(domain is Pd),
        m.device is Some && m.config is Some,
        m.device->0.ac_state == if domain is Battery { 0u8 } else { 1u8 },
        m.config->0.power@[m.device->0.ac_state as int].power_mode == 7
            ==> m.device->0.allow_experimental || m.device->0.has_turbo(),
        m.writes_domain(domain, post, a, writes),
    ensures
        ({
            let l = m.device->0;
            let slot = m.config->0.power@[l.ac_state as int];
            let mode = slot.power_mode;
            let lit = m.config->0.static_lighting && l.static_lighting;
            let (k, p, f) = parts(lit, slot);
            let manual: u8 = if l.fan_rpm != 0 && mode != 4 { 1 } else { 0 };
            let unlocked = l.allow_experimental || l.has_max_tier();
            let hundreds = effects::hundreds_within(
                slot.fan_rpm as int,
                l.fan@[0] as int,
                l.fan@[1] as int,
            );
            let by_hand: u8 = if slot.fan_rpm == 0 { 0 } else { 1 };
            let again = slot.fan_curve.enabled && m.fan_curve_last_rpm is Some;
            &&& writes.power matches Some(s) && s.from == k && s.to == k + p
            &&& a.len() == k + p + f + if again { 4int } else { 0 }
            &&& lit ==> lights_slot(a, slot)
            &&& a[k] == Action::Command(EcCommand::ZoneMode { zone: 1, mode, manual })
            &&& a[k + 1] == Action::Command(EcCommand::ZoneMode { zone: 2, mode, manual })
            &&& mode == 4 ==> {
                &&& a[k + 2] == Action::Command(
                    EcCommand::Boost {
                        zone: 1,
                        tier: if slot.cpu_boost == 3 && !unlocked { 2 } else { slot.cpu_boost },
                    },
                )
                &&& a[k + 3] == Action::Command(
                    EcCommand::Boost {
                        zone: 2,
                        tier: if slot.gpu_boost == 3 && !unlocked { 2 } else { slot.gpu_boost },
                    },
                )
            }
            &&& f > 0 ==> {
                &&& a[k + p] == Action::Command(
                    EcCommand::ZoneMode { zone: 1, mode, manual: by_hand },
                )
                &&& a[k + p + 1] == Action::Command(
                    EcCommand::ZoneMode { zone: 2, mode, manual: by_hand },
                )
            }
            &&& f == 4 ==> {
                &&& a[k + p + 2] == Action::Command(EcCommand::ZoneSpeed { zone: 1, hundreds })
                &&& a[k + p + 3] == Action::Command(EcCommand::ZoneSpeed { zone: 2, hundreds })
            }
            &&& again ==> effects::latches_again(a, k + p + f, mode, m.fan_curve_last_rpm, l)
            &&& again ==> (writes.relatch matches Some(s) && s.from == k + p + f && s.to == s.from
                + 4)
            &&& !again ==> writes.relatch is None
            &&& post.device->0.power == mode
            &&& f == 2 ==> post.device->0.fan_rpm == 0
            &&& f == 4 ==> post.device->0.fan_rpm == hundreds
            &&& post.config == m.config
        }),
{
    let l = m.device->0;
    let c = m.config->0;
    let slot = c.power@[l.ac_state as int];
    let mode = slot.power_mode;
    let light = l.light_writes(slot, c.static_lighting);
    let power = l.power_writes(mode, slot.cpu_boost, slot.gpu_boost);
    let fan = l.restore_writes(slot);
    let planned = m.domain_mirrors(domain);
    let again = step::listed(planned.relatch_writes());
    effects::a_profile_reaches_both_zones(l, mode, slot.cpu_boost, slot.gpu_boost);
    a_slot_brings_its_lighting(l, slot, c.static_lighting);
    a_slot_restores_its_fans(l, slot);
    a_curve_latches_last(planned, slot);
    parts_stand(a, light, power, fan, again);
}

/// Under USB-PD Balanced goes to both zones whatever is stored, with the fan
/// flag that the fans had; brightness and logo are those of the AC slot, and
/// no stored fan speed is written.
pub proof fn usb_pd_is_written_as_balanced(
    m: DeviceManager,
    post: DeviceManager,
    a: Seq<Action>,
    writes: Writes,
)
    requires
        m.wf(),
        m.device is Some && m.config is Some,
        m.device->0.ac_state == 1,
        m.writes_domain(ChargerDomain::Pd, post, a, writes),
    ensures
        ({
            let l = m.device->0;
            let slot = m.config->0.power@[1];
            let lit = m.config->0.static_lighting && l.static_lighting;
            let k: int = if lit { 3 } else { 0 };
            let manual: u8 = if l.fan_rpm != 0 { 1 } else { 0 };
            let again = slot.fan_curve.enabled && m.fan_curve_last_rpm is Some;
            &&& writes.power matches Some(s) && s.from == k && s.to == k + 2
            &&& a.len() == k + 2 + if again { 4int } else { 0 }
            &&& lit ==> lights_slot(a, slot)
            &&& a[k] == Action::Command(EcCommand::ZoneMode { zone: 1, mode: 0, manual })
            &&& a[k + 1] == Action::Command(EcCommand::ZoneMode { zone: 2, mode: 0, manual })
            &&& again ==> effects::latches_again(a, k + 2, 0, m.fan_curve_last_rpm, l)
            &&& again ==> (writes.relatch matches Some(s) && s.from == k + 2 && s.to == s.from + 4)
            &&& !again ==> writes.relatch is None
            &&& post.device->0.power == 0
            &&& post.config == m.config
        }),
{
    let l = m.device->0;
    let c = m.config->0;
    let slot = c.power@[1];
    let light = l.light_writes(slot, c.static_lighting);
    let power = l.power_writes(0, 0, 0);
    let planned = m.domain_mirrors(ChargerDomain::Pd);
    let again = step::listed(planned.relatch_writes());
    effects::a_profile_reaches_both_zones(l, 0, 0, 0);
    a_slot_brings_its_lighting(l, slot, c.static_lighting);
    a_curve_latches_last(planned, slot);
    parts_stand(a, light, power, seq![], again);
}

/// Applying a domain first brings the mirrors in line: plugged in unless on
/// battery, and unlock and lighting as they are stored. The domain is written
/// from there.
pub proof fn an_applied_domain_has_its_mirrors_in_line(
    d: DeviceManager,
    domain: ChargerDomain,
    after: AfterApply,
    post: DeviceManager,
    step: Step,
)
    requires
        d.device is Some && d.config is Some,
        d.applies(domain, after, post, step),
    ensures
        step matches Step::Perform { actions, task: Task::Applied { writes, wire, .. } } && {
            let c = d.config->0;
            let m = DeviceManager {
                fan_curve_established: false,
                device: Some(
                    RazerLaptop {
                        ac_state: if domain is Battery { 0 } else { 1 },
                        allow_experimental: c.experimental_profiles,
                        static_lighting: c.static_lighting,
                        ..d.device->0
                    },
                ),
                ..d
            };
            &&& m.writes_domain(domain, post, actions@, writes)
            &&& wire == Some(
                match domain {
                    ChargerDomain::Pd => 0,
                    ChargerDomain::Barrel => c.power@[1].power_mode,
                    ChargerDomain::Battery => c.power@[0].power_mode,
                },
            )
        },
{
}

/// Applying the profile again writes the profile of the slot that the adapter
/// calls for to both zones, Balanced under USB-PD, and stores nothing.
pub proof fn a_profile_is_applied_again_as_stored(
    d: DeviceManager,
    p: RazerPacket,
    post: DeviceManager,
    step: Step,
)
    requires
        d.wf(),
        d.device is Some && d.config is Some,
        d.resumes(Task::ResolveReapply, seq![Reply::Answer(Some(p))], post, step),
        ({
            let c = d.config->0;
            let slot = if p.args@[0] == 0 { c.power@[0] } else { c.power@[1] };
            p.args@[0] == 0 || p.args@[0] == 0x11 ==> slot.power_mode != 7
                || d.device->0.allow_experimental || d.device->0.has_turbo()
        }),
    ensures
        ({
            let c = d.config->0;
            let l = d.device->0;
            let slot = if p.args@[0] == 0 { c.power@[0] } else { c.power@[1] };
            let mode = if p.args@[0] == 0 || p.args@[0] == 0x11 { slot.power_mode } else { 0 };
            let manual: u8 = if l.fan_rpm != 0 && mode != 4 { 1 } else { 0 };
            let unlocked = l.allow_experimental || l.has_max_tier();
            let a = effects::asked(step);
            &&& a.len() >= if mode == 4 { 4int } else { 2 }
            &&& a[0] == Action::Command(EcCommand::ZoneMode { zone: 1, mode, manual })
            &&& a[1] == Action::Command(EcCommand::ZoneMode { zone: 2, mode, manual })
            &&& mode == 4 ==> {
                &&& a[2] == Action::Command(
                    EcCommand::Boost {
                        zone: 1,
                        tier: if slot.cpu_boost == 3 && !unlocked { 2 } else { slot.cpu_boost },
                    },
                )
                &&& a[3] == Action::Command(
                    EcCommand::Boost {
                        zone: 2,
                        tier: if slot.gpu_boost == 3 && !unlocked { 2 } else { slot.gpu_boost },
                    },
                )
            }
            &&& !a.contains(Action::Save)
            &&& post.config == d.config
        }),
{
    assert(seq![Reply::Answer(Some(p))][0] == Reply::Answer(Some(p)));
    let c = d.config->0;
    let l = d.device->0;
    let domain = domain_by(p.args@[0]);
    let want = crate::charger::desired(c, domain);
    let (cpu, gpu) = match want.boosts {
        Some(b) => b,
        None => (0, 0),
    };
    effects::a_profile_reaches_both_zones(l, want.wire, cpu, gpu);
    let planned = DeviceManager { device: Some(l.after_power(want.wire)), ..d };
    let power = l.power_writes(want.wire, cpu, gpu);
    let all = power + step::listed(planned.relatch_writes());
    let a = effects::asked(step);
    assert(a =~= step::commands(all));
    assert(a[0] == Action::Command(all[0]) && all[0] == power[0]);
    assert(a[1] == Action::Command(all[1]) && all[1] == power[1]);
    if want.wire == 4 {
        assert(a[2] == Action::Command(all[2]) && all[2] == power[2]);
        assert(a[3] == Action::Command(all[3]) && all[3] == power[3]);
    }
    assert(forall|i: int| 0 <= i < a.len() ==> #[trigger] a[i] is Command);
}

/// A fixed speed is stored for its slot alone, and takes the fans from the
/// curve of that slot; a speed that is not allowed changes nothing.
pub proof fn a_fixed_speed_is_stored_in_its_slot(
    d: DeviceManager,
    ac: usize,
    rpm: i32,
    post: DeviceManager,
    h: Handling,
)
    requires
        ac < 2,
        d.config is Some,
        d.device is Some,
        daemon::handles(d, DaemonCommand::SetFanSpeed { ac, rpm }, post, h),
    ensures
        h matches Handling::Operate { step, .. } && {
            let l = d.device->0;
            let slot = d.config->0.power@[ac as int];
            if rpm == 0 || l.fan@[0] <= rpm <= l.fan@[1] {
                &&& effects::stores_slot(
                    d,
                    ac as int,
                    PowerConfig {
                        fan_rpm: rpm,
                        fan_curve: FanCurve { enabled: false, ..slot.fan_curve },
                        ..slot
                    },
                    post,
                )
                &&& !post.fan_curve_established && post.fan_curve_last_rpm is None
                &&& effects::asked(step).len() > 0 && effects::asked(step)[0] == Action::Save
                &&& l.ac_state != ac ==> effects::asked(step).len() == 1 && post.device
                    == d.device
            } else {
                post == d && step == Step::Done(Outcome::Flag(false))
            }
        },
{
    let c = d.config->0;
    let slot = crate::manager::fan::fixed_speed(c.power@[ac as int], rpm);
    assert(c.with_slot(ac as int, slot).power@[ac as int] == slot);
    assert(c.with_slot(ac as int, slot).power@[1 - ac] == c.power@[1 - ac]);
}

/// A fan curve is stored for its slot alone, and is evaluated from scratch.
/// Once it is stored, one that is off hands the fans of the slot in force back
/// to the stored speed: automatic for 0, else by hand at that speed.
pub proof fn a_curve_that_is_off_hands_the_fans_back(
    d: DeviceManager,
    ac: usize,
    curve: FanCurve,
    start: DeviceManager,
    h: Handling,
    saved: bool,
    post: DeviceManager,
    step: Step,
)
    requires
        ac < 2,
        d.wf(),
        d.config is Some,
        d.device is Some,
        daemon::handles(d, DaemonCommand::SetFanCurve { ac, curve }, start, h),
        h is Operate && h->step is Perform,
        start.resumes(h->step->task, seq![Reply::Saved(saved)], post, step),
    ensures
        ({
            let l = d.device->0;
            let slot = d.config->0.power@[ac as int];
            let rpm = slot.fan_rpm;
            let back = !curve.enabled && l.ac_state == ac && 0 <= rpm <= 65535;
            let by_hand: u8 = if rpm == 0 { 0 } else { 1 };
            let hundreds = effects::hundreds_within(
                rpm as int,
                l.fan@[0] as int,
                l.fan@[1] as int,
            );
            let a = effects::asked(step);
            &&& effects::stores_slot(
                d,
                ac as int,
                PowerConfig { fan_curve: curve, ..slot },
                start,
            )
            &&& !start.fan_curve_established && start.fan_curve_last_rpm is None
            &&& effects::asked(h->step) == seq![Action::Save]
            &&& !saved ==> step == Step::Done(Outcome::Flag(false))
            &&& saved && !back ==> step == Step::Done(Outcome::Flag(true))
            &&& saved && back ==> {
                &&& a.len() == if rpm == 0 { 2int } else { 4 }
                &&& a[0] == Action::Command(
                    EcCommand::ZoneMode { zone: 1, mode: l.power, manual: by_hand },
                )
                &&& a[1] == Action::Command(
                    EcCommand::ZoneMode { zone: 2, mode: l.power, manual: by_hand },
                )
                &&& rpm != 0 ==> a[2] == Action::Command(
                    EcCommand::ZoneSpeed { zone: 1, hundreds },
                ) && a[3] == Action::Command(EcCommand::ZoneSpeed { zone: 2, hundreds })
            }
        }),
{
    let c = d.config->0;
    let l = d.device->0;
    let slot = PowerConfig { fan_curve: curve, ..c.power@[ac as int] };
    assert(c.with_slot(ac as int, slot).power@[ac as int] == slot);
    assert(c.with_slot(ac as int, slot).power@[1 - ac] == c.power@[1 - ac]);
    assert(seq![Reply::Saved(saved)][0] == Reply::Saved(saved));
    assert(step::saved(seq![Reply::Saved(saved)], 0) == saved);
    let rpm = c.power@[ac as int].fan_rpm;
    if saved && !curve.enabled && l.ac_state == ac && 0 <= rpm <= 65535 {
        let w = l.fan_writes(rpm as u16);
        let a = effects::asked(step);
        assert(a =~= step::commands(w));
        assert(a[0] == Action::Command(w[0]));
        assert(a[1] == Action::Command(w[1]));
        if rpm != 0 {
            assert(a[2] == Action::Command(w[2]));
            assert(a[3] == Action::Command(w[3]));
        }
    }
}

/// The lighting switch is stored first. Stored, it holds for the laptop too,
/// and going on it writes the stored colour.
pub proof fn a_lighting_switch_is_stored_and_lit(
    d: DeviceManager,
    enabled: bool,
    start: DeviceManager,
    h: Handling,
    post: DeviceManager,
    step: Step,
)
    requires
        d.config is Some,
        d.device is Some,
        d.config->0.static_lighting != enabled,
        daemon::handles(d, DaemonCommand::SetStaticLighting { enabled }, start, h),
        h is Operate && h->step is Perform,
        start.resumes(h->step->task, seq![Reply::Saved(true)], post, step),
    ensures
        effects::asked(h->step) == seq![Action::Save],
        post == (DeviceManager {
            config: Some(Configuration { static_lighting: enabled, ..d.config->0 }),
            device: Some(RazerLaptop { static_lighting: enabled, ..d.device->0 }),
            ..d
        }),
        !enabled ==> step == Step::Done(Outcome::Flag(true)),
        enabled ==> effects::asked(step) == seq![
            Action::Command(
                EcCommand::StaticColor {
                    red: d.config->0.static_color@[0],
                    green: d.config->0.static_color@[1],
                    blue: d.config->0.static_color@[2],
                },
            ),
        ],
{
    assert(seq![Reply::Saved(true)][0] == Reply::Saved(true));
}

/// The unlock is stored, and holds for the laptop too.
pub proof fn an_unlock_is_stored_and_mirrored(
    d: DeviceManager,
    enabled: bool,
    start: DeviceManager,
    h: Handling,
    post: DeviceManager,
    step: Step,
)
    requires
        d.config is Some,
        d.device is Some,
        daemon::handles(d, DaemonCommand::SetExperimentalProfiles { enabled }, start, h),
        h is Operate && h->step is Perform,
        start.resumes(h->step->task, seq![Reply::Saved(true)], post, step),
    ensures
        effects::asked(h->step) == seq![Action::Save],
        post == (DeviceManager {
            config: Some(Configuration { experimental_profiles: enabled, ..d.config->0 }),
            device: Some(RazerLaptop { allow_experimental: enabled, ..d.device->0 }),
            ..d
        }),
        step == Step::Done(Outcome::Flag(true)),
{
    assert(seq![Reply::Saved(true)][0] == Reply::Saved(true));
}

/// What should hold is told as the slot of the domain has it stored, but for
/// the profile under USB-PD.
pub proof fn what_should_hold_is_what_is_stored(
    d: DeviceManager,
    p: RazerPacket,
    post: DeviceManager,
    step: Step,
)
    requires
        d.config is Some,
        d.resumes(Task::ResolveDesired, seq![Reply::Answer(Some(p))], post, step),
    ensures
        step matches Step::Done(Outcome::Desired(Some(w))) && {
            let c = d.config->0;
            let slot = if p.args@[0] == 0 { c.power@[0] } else { c.power@[1] };
            let named = p.args@[0] == 0 || p.args@[0] == 0x11;
            &&& w.domain == if p.args@[0] == 0 {
                ChargerDomainWire::Battery
            } else if p.args@[0] == 0x11 {
                ChargerDomainWire::Barrel
            } else {
                ChargerDomainWire::Pd
            }
            &&& w.wire == if named { slot.power_mode } else { 0 }
            &&& w.boosts == if named && slot.power_mode == 4 {
                Some((slot.cpu_boost, slot.gpu_boost))
            } else {
                None
            }
            &&& w.brightness == slot.brightness
            &&& w.logo == slot.logo_state
            &&& w.fan_mode == if slot.fan_curve.enabled {
                2u8
            } else if slot.fan_rpm == 0 {
                0u8
            } else {
                1u8
            }
            &&& w.fan_rpm == if slot.fan_curve.enabled { 0 } else { slot.fan_rpm }
            &&& w.bho_on == c.bho_on
            &&& w.bho_threshold == c.bho_threshold
            &&& w.lighting == c.static_lighting
        },
{
    assert(seq![Reply::Answer(Some(p))][0] == Reply::Answer(Some(p)));
}

/// A stored value is answered as it is stored in the slot that was asked for.
pub proof fn stored_values_are_answered(
    d: DeviceManager,
    cmd: DaemonCommand,
    post: DeviceManager,
    h: Handling,
)
    requires
        d.config is Some,
        !daemon::out_of_range(cmd),
        daemon::handles(d, cmd, post, h),
    ensures
        post == d || daemon::state_changing(cmd),
        match cmd {
            DaemonCommand::GetFanSpeed { ac } => ac < 2 && h == Handling::Answer(
                Some(DaemonResponse::GetFanSpeed { rpm: d.config->0.power@[ac as int].fan_rpm }),
            ),
            DaemonCommand::GetPwrLevel { ac } => ac < 2 && h == Handling::Answer(
                Some(DaemonResponse::GetPwrLevel { pwr: d.config->0.power@[ac as int].power_mode }),
            ),
            DaemonCommand::GetCPUBoost { ac } => ac < 2 && h == Handling::Answer(
                Some(DaemonResponse::GetCPUBoost { cpu: d.config->0.power@[ac as int].cpu_boost }),
            ),
            DaemonCommand::GetGPUBoost { ac } => ac < 2 && h == Handling::Answer(
                Some(DaemonResponse::GetGPUBoost { gpu: d.config->0.power@[ac as int].gpu_boost }),
            ),
            DaemonCommand::GetLogoLedState { ac } => ac < 2 && h == Handling::Answer(
                Some(
                    DaemonResponse::GetLogoLedState {
                        logo_state: d.config->0.power@[ac as int].logo_state,
                    },
                ),
            ),
            DaemonCommand::GetBrightness { ac } => ac < 2 && (h matches Handling::Answer(
                Some(DaemonResponse::GetBrightness { result }),
            ) && {
                let level = d.config->0.power@[ac as int].brightness;
                -49 <= 100 * result - level * 10000 / 255 <= 50
            }),
            DaemonCommand::GetFanCurve { ac } => ac < 2 && (h matches Handling::Answer(
                Some(DaemonResponse::GetFanCurve { curve }),
            ) && curve@ == d.config->0.power@[ac as int].fan_curve@),
            DaemonCommand::GetStaticColor => h matches Handling::Answer(
                Some(DaemonResponse::GetStaticColor { color }),
            ) && color@ == d.config->0.static_color@,
            DaemonCommand::GetStaticLighting => h == Handling::Answer(
                Some(DaemonResponse::GetStaticLighting { enabled: d.config->0.static_lighting }),
            ),
            DaemonCommand::GetExperimentalProfiles => h == Handling::Answer(
                Some(
                    DaemonResponse::GetExperimentalProfiles {
                        enabled: d.config->0.experimental_profiles,
                    },
                ),
            ),
            DaemonCommand::GetBatteryHealthOptimizer => d.optimizes() ==> h == Handling::Answer(
                Some(
                    DaemonResponse::GetBatteryHealthOptimizer {
                        is_on: d.config->0.bho_on,
                        threshold: d.config->0.bho_threshold,
                    },
                ),
            ),
            _ => true,
        },
{
}

} // verus!
