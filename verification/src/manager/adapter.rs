//! What follows from the adapter and the power key: which domain is applied,
//! when a press moves on, and where it moves to.

use vstd::prelude::*;

use crate::charger::ChargerDomain;
use crate::command::EcCommand;
use crate::config::Configuration;
use crate::laptop::RazerLaptop;
use crate::manager::DeviceManager;
use crate::manager::effects;
use crate::manager::profiles;
use crate::manager::step;
use crate::manager::step::{Action, AfterApply, Outcome, Reply, Step, Task, Writes};
use crate::packet::RazerPacket;

verus! {

/// The domain that `step` applies, and what follows.
pub open spec fn applying(step: Step, domain: ChargerDomain, after: AfterApply) -> bool {
    step matches Step::Perform { task: Task::Applied { domain: d, after: a, .. }, .. } && d
        == domain && a == after
}

/// A press at `now` comes within three seconds of a successful one in the same
/// domain.
pub open spec fn soon_after(last: Option<(u64, ChargerDomain)>, domain: ChargerDomain, now: u64)
    -> bool {
    last matches Some((t, d)) && d == domain && now <= t + 3_000_000_000
}

/// A press of the power key reads the adapter class and the clock.
pub proof fn a_press_reads_class_and_clock(d: DeviceManager, step: Step)
    requires
        d.starts_press(step),
    ensures
        d.device is Some ==> effects::asked(step) == seq![
            Action::Command(EcCommand::ReadCharger),
            Action::ReadClock,
        ],
        d.device is None ==> effects::asked(step) == seq![Action::ReadClock],
        step matches Step::Perform { task: Task::ResolveCycle { read }, .. } && read == (d.device
            is Some),
{
}

/// The first press, one after more than three seconds, one in another domain
/// than the last, and any press under USB-PD applies the domain of the adapter
/// as it is stored. It counts as cold unless it came soon.
pub proof fn a_press_applies_the_domain(
    d: DeviceManager,
    p: RazerPacket,
    now: u64,
    post: DeviceManager,
    step: Step,
)
    requires
        d.resumes(
            Task::ResolveCycle { read: true },
            seq![Reply::Answer(Some(p)), Reply::Clock(now)],
            post,
            step,
        ),
        ({
            let domain = profiles::domain_by(p.args@[0]);
            domain is Pd || !soon_after(d.last_key_press, domain, now)
        }),
    ensures
        ({
            let domain = profiles::domain_by(p.args@[0]);
            let cold = !soon_after(d.last_key_press, domain, now);
            applying(step, domain, AfterApply::Key { now, cold })
        }),
{
    let replies = seq![Reply::Answer(Some(p)), Reply::Clock(now)];
    assert(replies[0] == Reply::Answer(Some(p)));
    assert(replies[1] == Reply::Clock(now));
}

/// A press soon after a successful one moves on: plugged in from Balanced to
/// Performance to Silent to Turbo, where that is there, and back to Balanced;
/// on battery between Balanced and Battery Saver. It is a power request for the
/// slot of the domain with the tiers that are stored there.
pub proof fn a_press_moves_on(
    d: DeviceManager,
    p: RazerPacket,
    now: u64,
    post: DeviceManager,
    step: Step,
    next: u8,
)
    requires
        d.device is Some && d.config is Some,
        p.args@[0] == 0 || p.args@[0] == 0x11,
        soon_after(d.last_key_press, profiles::domain_by(p.args@[0]), now),
        d.resumes(
            Task::ResolveCycle { read: true },
            seq![Reply::Answer(Some(p)), Reply::Clock(now)],
            post,
            step,
        ),
        ({
            let last = d.last_applied_wire;
            let turbo = d.device->0.has_turbo() || d.config->0.experimental_profiles;
            if p.args@[0] == 0 {
                &&& last == Some(6u8) ==> next == 3
                &&& last != Some(6u8) ==> next == 6
            } else {
                &&& last == Some(0u8) ==> next == 2
                &&& last == Some(2u8) ==> next == 5
                &&& last == Some(5u8) && turbo ==> next == 7
                &&& last == Some(5u8) && !turbo ==> next == 0
                &&& last != Some(0u8) && last != Some(2u8) && last != Some(5u8) ==> next == 0
            }
        }),
    ensures
        ({
            let ac: int = if p.args@[0] == 0 { 0 } else { 1 };
            let slot = d.config->0.power@[ac];
            d.writes_in_domain(
                ac,
                next,
                slot.cpu_boost,
                slot.gpu_boost,
                profiles::domain_by(p.args@[0]),
                Some(now),
                post,
                step,
            )
        }),
{
    let replies = seq![Reply::Answer(Some(p)), Reply::Clock(now)];
    assert(replies[0] == Reply::Answer(Some(p)));
    assert(replies[1] == Reply::Clock(now));
    let turbo = d.device->0.has_turbo();
    let order = crate::profile::cycle(turbo, p.args@[0] != 0, d.config->0.experimental_profiles);
    if let Some(w) = d.last_applied_wire {
        if order.contains(w) {
            order.index_of_first_ensures(w);
        } else {
            assert(order[0] != w && order[1] != w);
            if p.args@[0] != 0 {
                assert(order[2] != w);
            }
        }
    }
}

/// A press that was confirmed is remembered with its time and domain, and told
/// with the profile that is in force now. One that was not is forgotten.
pub proof fn a_press_that_took_is_remembered(
    d: DeviceManager,
    domain: ChargerDomain,
    wire: u8,
    now: u64,
    cold: bool,
    writes: Writes,
    replies: Seq<Reply>,
    post: DeviceManager,
    step: Step,
)
    requires
        d.resumes(
            Task::Applied {
                domain,
                wire: Some(wire),
                writes,
                after: AfterApply::Key { now, cold },
            },
            replies,
            post,
            step,
        ),
    ensures
        ({
            let confirmed = writes.power matches Some(s) && forall|i: int|
                s.from <= i < s.to ==> #[trigger] profiles::replied(replies, i);
            &&& confirmed ==> {
                &&& post.last_key_press == Some((now, domain))
                &&& post.active_domain == Some(domain)
                &&& post.last_applied_wire == Some(wire)
                &&& step == Step::Done(Outcome::Cycle(Some((wire, domain, cold))))
            }
            &&& !confirmed ==> {
                &&& post.last_key_press == d.last_key_press
                &&& post.active_domain == d.active_domain
                &&& post.last_applied_wire == d.last_applied_wire
                &&& step == Step::Done(Outcome::Cycle(None))
            }
        }),
{
    if let Some(s) = writes.power {
        profiles::confirmed_is_answered(replies, s);
    }
}

/// A press that moved on is remembered where it was stored and confirmed, or
/// stored and left for later.
pub proof fn a_press_that_moved_on_is_remembered(
    d: DeviceManager,
    pwr: u8,
    domain: ChargerDomain,
    now: u64,
    deferred: bool,
    writes: Writes,
    replies: Seq<Reply>,
    post: DeviceManager,
    step: Step,
)
    requires
        d.resumes(
            Task::Written { pwr, domain, save: true, deferred, writes, key: Some(now) },
            replies,
            post,
            step,
        ),
    ensures
        ({
            let saved = replies.len() > 0 && replies[0] == Reply::Saved(true);
            let confirmed = writes.power matches Some(s) && forall|i: int|
                s.from <= i < s.to ==> #[trigger] profiles::replied(replies, i);
            &&& saved && (deferred || confirmed) ==> {
                &&& post.last_key_press == Some((now, domain))
                &&& step == Step::Done(Outcome::Cycle(Some((pwr, domain, false))))
            }
            &&& !saved || !(deferred || confirmed) ==> {
                &&& post.last_key_press == d.last_key_press
                &&& step == Step::Done(Outcome::Cycle(None))
            }
            &&& !deferred && confirmed ==> post.last_applied_wire == Some(pwr)
                && post.active_domain == Some(domain)
        }),
{
    if let Some(s) = writes.power {
        profiles::confirmed_is_answered(replies, s);
    }
}

/// Where the controller does not answer, an adapter that was last seen offline
/// means battery and one that was seen online USB-PD, never the barrel: for a
/// power request, for a profile that is applied again and for a press.
pub proof fn without_a_class_the_flag_decides(
    d: DeviceManager,
    l: RazerLaptop,
    ac: usize,
    pwr: u8,
    cpu: u8,
    gpu: u8,
    now: u64,
    write_post: DeviceManager,
    write: Step,
    again_post: DeviceManager,
    again: Step,
    press_post: DeviceManager,
    press: Step,
)
    requires
        d.device == Some(l),
        d.config is Some,
        d.resumes(
            Task::ResolveWrite { ac, pwr, cpu, gpu },
            seq![Reply::Answer(None)],
            write_post,
            write,
        ),
        d.resumes(Task::ResolveReapply, seq![Reply::Answer(None)], again_post, again),
        d.resumes(
            Task::ResolveCycle { read: true },
            seq![Reply::Answer(None), Reply::Clock(now)],
            press_post,
            press,
        ),
    ensures
        ({
            let domain = if l.ac_state == 1 {
                ChargerDomain::Pd
            } else {
                ChargerDomain::Battery
            };
            &&& d.active_domain == Some(domain) ==> d.writes_in_domain(
                ac as int,
                pwr,
                cpu,
                gpu,
                domain,
                None,
                write_post,
                write,
            )
            &&& d.active_domain != Some(domain) ==> applying(
                write,
                domain,
                AfterApply::Write { ac, pwr, cpu, gpu, key: None },
            )
            &&& again matches Step::Perform { task: Task::Reapplied { domain: x, .. }, .. } && x
                == domain
            &&& !soon_after(d.last_key_press, domain, now) ==> applying(
                press,
                domain,
                AfterApply::Key { now, cold: true },
            )
        }),
{
    let replies = seq![Reply::Answer(None), Reply::Clock(now)];
    assert(seq![Reply::Answer(None)][0] == Reply::Answer(None));
    assert(replies[0] == Reply::Answer(None));
    assert(replies[1] == Reply::Clock(now));
}

/// A synchronisation goes by UPower first: offline is the battery, online asks
/// the EC for the class, and where UPower is silent the EC alone is asked.
pub proof fn a_sync_goes_by_upower(
    d: DeviceManager,
    online: Option<bool>,
    post: DeviceManager,
    step: Step,
)
    requires
        d.device is Some,
        d.resumes(Task::SyncOnline, seq![Reply::Online(online)], post, step),
    ensures
        online == Some(false) ==> applying(step, ChargerDomain::Battery, AfterApply::Sync),
        online != Some(false) ==> post == d && effects::asked(step) == seq![
            Action::Command(EcCommand::ReadCharger),
        ],
        online == Some(true) ==> (step matches Step::Perform {
            task: Task::SyncClass { attempt, read, .. },
            ..
        } && attempt == 0 && read),
        online is None ==> (step matches Step::Perform { task: Task::SyncBlind, .. }),
{
    assert(seq![Reply::Online(online)][0] == Reply::Online(online));
}

/// While the adapter is online a class of the barrel or of USB-PD is applied.
/// Without one the EC is asked three times in all, 400 ms apart, and then
/// USB-PD is applied.
pub proof fn an_online_sync_goes_by_the_class(
    d: DeviceManager,
    attempt: u8,
    answered: bool,
    class: Option<RazerPacket>,
    replies: Seq<Reply>,
    post: DeviceManager,
    step: Step,
)
    requires
        d.device is Some,
        attempt < 3,
        replies.len() == (if attempt == 0 { 1int } else { 2int }),
        replies[replies.len() - 1] == Reply::Answer(class),
        d.resumes(Task::SyncClass { attempt, read: true, answered }, replies, post, step),
    ensures
        (class matches Some(p) && p.args@[0] != 0) ==> applying(
            step,
            if class->0.args@[0] == 0x11 {
                ChargerDomain::Barrel
            } else {
                ChargerDomain::Pd
            },
            AfterApply::Sync,
        ),
        (class matches Some(p) ==> p.args@[0] == 0) && attempt == 2 ==> applying(
            step,
            ChargerDomain::Pd,
            AfterApply::Sync,
        ),
        (class matches Some(p) ==> p.args@[0] == 0) && attempt < 2 ==> {
            &&& post == d
            &&& effects::asked(step) == seq![
                Action::Sleep { ms: 400 },
                Action::Command(EcCommand::ReadCharger),
            ]
            &&& step matches Step::Perform { task: Task::SyncClass { attempt: next, read, .. }, .. }
                && next == attempt + 1 && read
        },
{
    let at: int = if attempt == 0 {
        0
    } else {
        1
    };
    assert(step::answer(replies, at) == class);
    assert(seq![Action::Sleep { ms: 400u64 }] + seq![Action::Command(EcCommand::ReadCharger)]
        =~= seq![Action::Sleep { ms: 400u64 }, Action::Command(EcCommand::ReadCharger)]);
}

/// Without UPower the class alone decides; without either the binary fallback
/// asks UPower again.
pub proof fn a_blind_sync_goes_by_the_class(
    d: DeviceManager,
    class: Option<RazerPacket>,
    post: DeviceManager,
    step: Step,
)
    requires
        d.resumes(Task::SyncBlind, seq![Reply::Answer(class)], post, step),
    ensures
        class matches Some(p) ==> applying(step, profiles::domain_by(p.args@[0]), AfterApply::Sync),
        class is None ==> {
            &&& post == DeviceManager { fan_curve_established: false, ..d }
            &&& effects::asked(step) == seq![Action::ReadOnline]
            &&& step matches Step::Perform { task: Task::BinaryOnline, .. }
        },
{
    assert(seq![Reply::Answer(class)][0] == Reply::Answer(class));
}

/// The binary fallback takes the adapter flag over and writes the stored slot
/// of barrel or battery; without an answer it leaves everything as it is.
pub proof fn the_fallback_goes_by_the_flag(
    d: DeviceManager,
    l: RazerLaptop,
    online: Option<bool>,
    post: DeviceManager,
    step: Step,
)
    requires
        d.device == Some(l),
        d.resumes(Task::BinaryOnline, seq![Reply::Online(online)], post, step),
    ensures
        online is None ==> post == d && step == Step::Done(Outcome::Nothing),
        online == Some(true) ==> (step matches Step::Perform {
            actions,
            task: Task::BinaryApplied { writes },
        } && ({
            let m = DeviceManager { device: Some(RazerLaptop { ac_state: 1, ..l }), ..d };
            m.writes_domain(ChargerDomain::Barrel, post, actions@, writes)
        })),
        online == Some(false) ==> (step matches Step::Perform {
            actions,
            task: Task::BinaryApplied { writes },
        } && ({
            let m = DeviceManager { device: Some(RazerLaptop { ac_state: 0, ..l }), ..d };
            m.writes_domain(ChargerDomain::Battery, post, actions@, writes)
        })),
{
    assert(seq![Reply::Online(online)][0] == Reply::Online(online));
}

/// The adapter flag brings the mirrors in line and writes the slot of barrel or
/// battery in full.
pub proof fn a_flag_applies_its_slot(
    d: DeviceManager,
    l: RazerLaptop,
    c: Configuration,
    ac: bool,
    post: DeviceManager,
    step: Step,
)
    requires
        d.device == Some(l),
        d.config == Some(c),
        d.takes_flag(ac, post, step),
    ensures
        step matches Step::Perform { actions, task: Task::SlotApplied { writes } } && ({
            let m = DeviceManager {
                fan_curve_established: false,
                device: Some(
                    RazerLaptop {
                        ac_state: if ac { 1 } else { 0 },
                        allow_experimental: c.experimental_profiles,
                        static_lighting: c.static_lighting,
                        ..l
                    },
                ),
                ..d
            };
            &&& ac ==> m.writes_domain(ChargerDomain::Barrel, post, actions@, writes)
            &&& !ac ==> m.writes_domain(ChargerDomain::Battery, post, actions@, writes)
        }),
{
}

/// Applying the profile again reads the adapter class and gives the latch of the
/// curve up; without a laptop it fails.
pub proof fn a_wish_to_apply_again_reads_the_class(
    d: DeviceManager,
    post: DeviceManager,
    step: Step,
)
    requires
        d.starts_reapply(post, step),
    ensures
        !post.fan_curve_established,
        post.config == d.config && post.device == d.device && post.fan_curve_last_rpm
            == d.fan_curve_last_rpm && post.active_domain == d.active_domain
            && post.last_applied_wire == d.last_applied_wire && post.last_key_press
            == d.last_key_press,
        d.device is None ==> step == Step::Done(Outcome::Flag(false)),
        d.device is Some ==> effects::asked(step) == seq![Action::Command(EcCommand::ReadCharger)],
        d.device is Some ==> (step matches Step::Perform { task: Task::ResolveReapply, .. }),
{
}

/// What a synchronisation and an application report: nothing, and the profile
/// that was confirmed. Both note it, and a change of domain ends the window of
/// the power key.
pub proof fn an_applied_domain_is_noted(
    d: DeviceManager,
    domain: ChargerDomain,
    wire: u8,
    writes: Writes,
    after: AfterApply,
    replies: Seq<Reply>,
    post: DeviceManager,
    step: Step,
)
    requires
        after is Sync || after is Report,
        d.resumes(
            Task::Applied { domain, wire: Some(wire), writes, after },
            replies,
            post,
            step,
        ),
    ensures
        ({
            let confirmed = writes.power matches Some(s) && forall|i: int|
                s.from <= i < s.to ==> #[trigger] profiles::replied(replies, i);
            &&& after is Sync ==> step == Step::Done(Outcome::Nothing)
            &&& after is Report && confirmed ==> step == Step::Done(Outcome::Byte(Some(wire)))
            &&& after is Report && !confirmed ==> step == Step::Done(Outcome::Byte(None))
            &&& confirmed ==> {
                &&& post.active_domain == Some(domain)
                &&& post.last_applied_wire == Some(wire)
                &&& d.active_domain == Some(domain) ==> post.last_key_press == d.last_key_press
                &&& d.active_domain != Some(domain) ==> post.last_key_press is None
            }
            &&& !confirmed ==> {
                &&& post.active_domain == d.active_domain
                &&& post.last_applied_wire == d.last_applied_wire
                &&& post.last_key_press == d.last_key_press
            }
            &&& post.config == d.config && post.device == d.device
        }),
{
    if let Some(s) = writes.power {
        profiles::confirmed_is_answered(replies, s);
    }
}

/// A stored slot that was written took where every profile write was answered,
/// and so did a profile that was applied again; the latter is noted.
pub proof fn a_written_slot_took_where_answered(
    d: DeviceManager,
    domain: ChargerDomain,
    wire: u8,
    writes: Writes,
    replies: Seq<Reply>,
    slot_post: DeviceManager,
    slot_step: Step,
    post: DeviceManager,
    step: Step,
)
    requires
        d.resumes(Task::SlotApplied { writes }, replies, slot_post, slot_step),
        d.resumes(Task::Reapplied { domain, wire, writes }, replies, post, step),
    ensures
        ({
            let confirmed = writes.power matches Some(s) && forall|i: int|
                s.from <= i < s.to ==> #[trigger] profiles::replied(replies, i);
            &&& slot_step == Step::Done(Outcome::Flag(confirmed))
            &&& step == Step::Done(Outcome::Flag(confirmed))
            &&& confirmed ==> post.active_domain == Some(domain) && post.last_applied_wire == Some(
                wire,
            )
            &&& !confirmed ==> post.active_domain == d.active_domain && post.last_applied_wire
                == d.last_applied_wire
            &&& slot_post.active_domain == d.active_domain && slot_post.last_applied_wire
                == d.last_applied_wire
            &&& post.config == d.config && slot_post.config == d.config
            &&& writes.relatch is None ==> slot_post == d
        }),
{
    if let Some(s) = writes.power {
        profiles::confirmed_is_answered(replies, s);
    }
}

/// A curve that was latched again counts as established where every write was
/// answered; else it is not, and its last speed is forgotten, so that the next
/// tick writes it anew. A round that did not latch it leaves it as it was.
pub proof fn a_failed_latch_is_forgotten(
    d: DeviceManager,
    writes: Writes,
    replies: Seq<Reply>,
    post: DeviceManager,
    step: Step,
)
    requires
        d.resumes(Task::SlotApplied { writes }, replies, post, step) || d.resumes(
            Task::BinaryApplied { writes },
            replies,
            post,
            step,
        ),
    ensures
        writes.relatch is None ==> post.fan_curve_established == d.fan_curve_established
            && post.fan_curve_last_rpm == d.fan_curve_last_rpm,
        writes.relatch matches Some(s) ==> {
            let answered = forall|i: int|
                s.from <= i < s.to ==> #[trigger] profiles::replied(replies, i);
            &&& answered ==> post.fan_curve_established && post.fan_curve_last_rpm
                == d.fan_curve_last_rpm
            &&& !answered ==> !post.fan_curve_established && post.fan_curve_last_rpm is None
        },
        post.config == d.config && post.device == d.device,
{
    if let Some(s) = writes.relatch {
        profiles::confirmed_is_answered(replies, s);
    }
}

} // verus!
