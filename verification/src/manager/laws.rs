//! What holds of the manager as a whole.

use vstd::prelude::*;

use crate::charger::ChargerDomain;
use crate::command::EcCommand;
use crate::comms::{DaemonCommand, DaemonResponse, FanCurve};
use crate::config::{Configuration, PowerConfig};
use crate::daemon;
use crate::daemon::{Handling, Pending};
use crate::laptop::RazerLaptop;
use crate::manager::DeviceManager;
use crate::manager::power;
use crate::manager::step;
use crate::manager::step::{Action, AfterApply, Outcome, Reply, Step, Task, Writes};
use crate::profile;

verus! {

/// The actions of a step.
pub open spec fn actions_of(step: Step) -> Seq<Action> {
    match step {
        Step::Perform { actions, .. } => actions@,
        Step::Done(_) => seq![],
    }
}

/// No action of a round writes lighting.
pub open spec fn dark_round(actions: Seq<Action>) -> bool {
    forall|i: int|
        0 <= i < actions.len() ==> !((#[trigger] actions[i]) matches Action::Command(c) && c.lights())
}

/// No command writes lighting.
pub open spec fn dark_writes(writes: Seq<EcCommand>) -> bool {
    forall|i: int| 0 <= i < writes.len() ==> !(#[trigger] writes[i]).lights()
}

/// No action of a round saves the configuration.
pub open spec fn saves_nothing(actions: Seq<Action>) -> bool {
    forall|i: int| 0 <= i < actions.len() ==> #[trigger] actions[i] != Action::Save
}

proof fn commands_are_dark(writes: Seq<EcCommand>)
    requires
        dark_writes(writes),
    ensures
        dark_round(step::commands(writes)),
{
}

proof fn rounds_join(a: Seq<Action>, b: Seq<Action>)
    ensures
        dark_round(a) && dark_round(b) ==> dark_round(a + b),
        saves_nothing(a) && saves_nothing(b) ==> saves_nothing(a + b),
{
}

proof fn laid_out_is_dark(
    actions: Seq<Action>,
    lead: Seq<Action>,
    light: Seq<EcCommand>,
    power: Option<Seq<EcCommand>>,
    fan: Seq<EcCommand>,
    relatch: Option<Seq<EcCommand>>,
    at: Writes,
)
    requires
        step::laid_out(actions, lead, light, power, fan, relatch, at),
    ensures
        dark_round(lead) && dark_writes(light) && dark_writes(step::listed(power)) && dark_writes(
            fan,
        ) && dark_writes(step::listed(relatch)) ==> dark_round(actions),
        saves_nothing(lead) ==> saves_nothing(actions),
{
    let l = step::commands(light);
    let p = step::commands(step::listed(power));
    let f = step::commands(fan);
    let r = step::commands(step::listed(relatch));
    rounds_join(lead, l);
    rounds_join(lead + l, p);
    rounds_join(lead + l + p, f);
    rounds_join(lead + l + p + f, r);
}

/// Lighting is switched off: in the configuration and on the laptop.
pub open spec fn switched_off(d: DeviceManager) -> bool {
    &&& d.config matches Some(c) && !c.static_lighting
    &&& d.device matches Some(dev) ==> !dev.static_lighting
}

proof fn fan_writes_are_dark(l: RazerLaptop, latch: bool, rpm: u16, mode: u8, cpu: u8, gpu: u8)
    ensures
        dark_writes(l.fan_writes(rpm)),
        dark_writes(l.drive_writes(latch, rpm)),
        dark_writes(l.power_writes(mode, cpu, gpu)),
{
}

proof fn relatch_is_dark(d: DeviceManager)
    ensures
        dark_writes(step::listed(d.relatch_writes())),
{
    if let Some(rpm) = d.relatch_target() {
        fan_writes_are_dark(d.device->0, true, rpm, 0, 0, 0);
    }
}

/// Applying a charger domain stores nothing. With lighting switched off it
/// writes no lighting either.
pub proof fn applying_a_domain_stores_nothing(
    d: DeviceManager,
    domain: ChargerDomain,
    after: AfterApply,
    post: DeviceManager,
    step: Step,
)
    requires
        d.applies(domain, after, post, step),
    ensures
        post.config == d.config,
        saves_nothing(actions_of(step)),
        switched_off(d) ==> dark_round(actions_of(step)) && switched_off(post),
{
    let m = d.mirrored(!(domain is Battery));
    domain_round_facts(m, domain, post, actions_of(step), step->task->Applied_writes);
}

proof fn domain_round_facts(
    m: DeviceManager,
    domain: ChargerDomain,
    post: DeviceManager,
    actions: Seq<Action>,
    writes: Writes,
)
    requires
        m.writes_domain(domain, post, actions, writes),
    ensures
        post.config == m.config,
        saves_nothing(actions),
        switched_off(m) ==> dark_round(actions) && switched_off(post),
{
    let planned = m.domain_mirrors(domain);
    relatch_is_dark(planned);
    if let Some(dev) = m.device {
        fan_writes_are_dark(dev, true, 0, 0, 0, 0);
        if let Some(s) = m.stored(domain.slot()) {
            fan_writes_are_dark(dev, true, 0, s.power_mode, s.cpu_boost, s.gpu_boost);
            fan_writes_are_dark(dev.after_power(s.power_mode), true, s.fan_rpm as u16, 0, 0, 0);
        }
    }
    laid_out_is_dark(
        actions,
        seq![],
        m.domain_light(domain),
        m.domain_power(domain),
        m.domain_fan(domain),
        planned.relatch_writes(),
        writes,
    );
}

proof fn power_round_facts(
    d: DeviceManager,
    ac: int,
    pwr: u8,
    cpu: u8,
    gpu: u8,
    domain: ChargerDomain,
    key: Option<u64>,
    post: DeviceManager,
    step: Step,
)
    requires
        d.writes_power(ac, pwr, cpu, gpu, domain, key, post, step),
    ensures
        dark_round(actions_of(step)),
        switched_off(d) ==> switched_off(post),
{
    if profile::refusal(d.pid(), ac, pwr, cpu, gpu, d.unlocked()) is None {
        let m = d.storing_power(ac, pwr, cpu, gpu);
        let planned = m.request_mirrors(ac, pwr, domain);
        relatch_is_dark(planned);
        if let Some(dev) = m.device {
            fan_writes_are_dark(dev, true, 0, pwr, cpu, gpu);
        }
        laid_out_is_dark(
            actions_of(step),
            power::saves(d.config is Some),
            seq![],
            m.request_writes(ac, pwr, cpu, gpu, domain),
            seq![],
            planned.relatch_writes(),
            step->task->Written_writes,
        );
    }
}

proof fn in_domain_facts(
    d: DeviceManager,
    ac: int,
    pwr: u8,
    cpu: u8,
    gpu: u8,
    domain: ChargerDomain,
    key: Option<u64>,
    post: DeviceManager,
    step: Step,
)
    requires
        d.writes_in_domain(ac, pwr, cpu, gpu, domain, key, post, step),
        switched_off(d),
    ensures
        dark_round(actions_of(step)),
{
    if d.active_domain == Some(domain) {
        power_round_facts(d, ac, pwr, cpu, gpu, domain, key, post, step);
    } else {
        applying_a_domain_stores_nothing(
            d,
            domain,
            AfterApply::Write { ac: ac as usize, pwr, cpu, gpu, key },
            post,
            step,
        );
    }
}

/// The master switch: while lighting is switched off no request of a client
/// leads to a lighting write.
pub proof fn switched_off_requests_write_no_lighting(
    d: DeviceManager,
    cmd: DaemonCommand,
    post: DeviceManager,
    h: Handling,
)
    requires
        switched_off(d),
        daemon::handles(d, cmd, post, h),
    ensures
        h matches Handling::Operate { step, .. } ==> dark_round(actions_of(step)),
{
    if let Handling::Operate { step, pending } = h {
        match cmd {
            DaemonCommand::SetPowerMode { ac, pwr, cpu, gpu } => {
                if d.device is None {
                    in_domain_facts(
                        d,
                        ac as int,
                        pwr,
                        cpu,
                        gpu,
                        d.resolved(None),
                        None,
                        post,
                        step,
                    );
                }
            },
            DaemonCommand::SetFanSpeed { ac, rpm } => {
                if d.speed_allowed(rpm) {
                    let live = d.device matches Some(dev) && dev.ac_state == ac;
                    if live {
                        fan_writes_are_dark(d.device->0, true, rpm as u16, 0, 0, 0);
                        commands_are_dark(d.device->0.fan_writes(rpm as u16));
                        rounds_join(
                            power::saves(d.config is Some),
                            step::commands(d.device->0.fan_writes(rpm as u16)),
                        );
                    }
                }
            },
            _ => {},
        }
    }
}

/// A write that belongs to a colour which is on its way.
pub open spec fn colours(task: Task) -> bool {
    task is ColorSent || task is LightingColor
}

/// The master switch: while lighting is switched off no operation goes on with
/// a lighting write, unless a colour was on its way before.
#[verifier::rlimit(30)]
pub proof fn switched_off_operations_write_no_lighting(
    d: DeviceManager,
    task: Task,
    replies: Seq<Reply>,
    post: DeviceManager,
    step: Step,
)
    requires
        switched_off(d),
        !colours(task),
        d.resumes(task, replies, post, step),
    ensures
        dark_round(actions_of(step)),
{
    let first = step::answer(replies, 0);
    match task {
        Task::ResolveWrite { ac, pwr, cpu, gpu } => {
            in_domain_facts(d, ac as int, pwr, cpu, gpu, d.resolved(first), None, post, step);
        },
        Task::ResolveCycle { read } => {
            let class = if read {
                first
            } else {
                None
            };
            if let Some(now) = step::clock(
                replies,
                if read {
                    1
                } else {
                    0
                },
            ) {
                let domain = d.resolved(class);
                if !d.warm(domain, now) || domain is Pd {
                    applying_a_domain_stores_nothing(
                        d,
                        domain,
                        AfterApply::Key { now, cold: !d.warm(domain, now) },
                        post,
                        step,
                    );
                } else {
                    let slot = d.stored(domain.slot())->0;
                    in_domain_facts(
                        d,
                        domain.slot(),
                        d.next_profile(domain),
                        slot.cpu_boost,
                        slot.gpu_boost,
                        domain,
                        Some(now),
                        post,
                        step,
                    );
                }
            }
        },
        Task::ResolveReapply => {
            let domain = d.resolved(first);
            if let (Some(dev), Some(c)) = (d.device, d.config) {
                let want = crate::charger::desired(c, domain);
                let (cpu, gpu) = match want.boosts {
                    Some(b) => b,
                    None => (0, 0),
                };
                let planned = DeviceManager { device: Some(dev.after_power(want.wire)), ..d };
                relatch_is_dark(planned);
                fan_writes_are_dark(dev, true, 0, want.wire, cpu, gpu);
                laid_out_is_dark(
                    actions_of(step),
                    seq![],
                    seq![],
                    if dev.refuses(want.wire) {
                        None
                    } else {
                        Some(dev.power_writes(want.wire, cpu, gpu))
                    },
                    seq![],
                    planned.relatch_writes(),
                    step->task->Reapplied_writes,
                );
            }
        },
        Task::Applied { domain, wire, writes, after } => {
            if let AfterApply::Write { ac, pwr, cpu, gpu, key } = after {
                if let Some(w) = DeviceManager::applied_wire(wire, writes, replies) {
                    let noted = d.relatched(writes, replies).domain_noted(domain, w);
                    power_round_facts(
                        noted,
                        ac as int,
                        pwr,
                        cpu,
                        gpu,
                        domain,
                        key,
                        post,
                        step,
                    );
                }
            }
        },
        Task::SyncOnline => {
            if step::online(replies, 0) == Some(false) {
                applying_a_domain_stores_nothing(
                    d,
                    ChargerDomain::Battery,
                    AfterApply::Sync,
                    post,
                    step,
                );
            }
        },
        Task::SyncClass { attempt, read, .. } => {
            if step is Perform && step->task is Applied {
                applying_a_domain_stores_nothing(
                    d,
                    step->task->Applied_domain,
                    AfterApply::Sync,
                    post,
                    step,
                );
            }
        },
        Task::SyncBlind => {
            if let Some(p) = first {
                applying_a_domain_stores_nothing(
                    d,
                    ChargerDomain::of_class(p.args@[0]),
                    AfterApply::Sync,
                    post,
                    step,
                );
            }
        },
        Task::BinaryOnline => {
            if let Some(o) = step::online(replies, 0) {
                domain_round_facts(
                    d.plugged(o),
                    crate::manager::sync::binary_domain(o),
                    post,
                    actions_of(step),
                    step->task->BinaryApplied_writes,
                );
            }
        },
        Task::CurveSaved { restore } => {
            if let (Some(rpm), Some(dev)) = (restore, d.device) {
                fan_writes_are_dark(dev, true, rpm as u16, 0, 0, 0);
                commands_are_dark(dev.fan_writes(rpm as u16));
            }
        },
        _ => {},
    }
}

/// The configuration holds only what the attached model offers.
pub open spec fn validated(d: DeviceManager) -> bool {
    d.config matches Some(c) ==> profile::valid_on(c, Some(d.pid()))
}

proof fn slot_swap(c: Configuration, ac: int, slot: PowerConfig)
    requires
        ac == 0 || ac == 1,
    ensures
        c.with_slot(ac, slot).power@[ac] == slot,
        c.with_slot(ac, slot).power@[1 - ac] == c.power@[1 - ac],
{
}

proof fn storing_keeps_validated(
    d: DeviceManager,
    ac: int,
    pwr: u8,
    cpu: u8,
    gpu: u8,
    domain: ChargerDomain,
    key: Option<u64>,
    post: DeviceManager,
    step: Step,
)
    requires
        ac >= 0,
        validated(d),
        d.writes_power(ac, pwr, cpu, gpu, domain, key, post, step),
    ensures
        validated(post),
{
    if profile::refusal(d.pid(), ac, pwr, cpu, gpu, d.unlocked()) is None {
        if let Some(c) = d.config {
            slot_swap(c, ac, DeviceManager::requested_slot(c.power@[ac], pwr, cpu, gpu));
        }
    }
}

proof fn in_domain_keeps_validated(
    d: DeviceManager,
    ac: int,
    pwr: u8,
    cpu: u8,
    gpu: u8,
    domain: ChargerDomain,
    key: Option<u64>,
    post: DeviceManager,
    step: Step,
)
    requires
        ac >= 0,
        validated(d),
        d.writes_in_domain(ac, pwr, cpu, gpu, domain, key, post, step),
    ensures
        validated(post),
{
    if d.active_domain == Some(domain) {
        storing_keeps_validated(d, ac, pwr, cpu, gpu, domain, key, post, step);
    } else {
        applying_a_domain_stores_nothing(
            d,
            domain,
            AfterApply::Write { ac: ac as usize, pwr, cpu, gpu, key },
            post,
            step,
        );
    }
}

/// Nothing is stored that did not validate: no request takes a configuration
/// out of what the model offers. Withdrawing the unlock is the one exception;
/// what it leaves behind is reset when the laptop is next attached.
pub proof fn requests_keep_the_configuration_valid(
    d: DeviceManager,
    cmd: DaemonCommand,
    post: DeviceManager,
    h: Handling,
)
    requires
        validated(d),
        daemon::handles(d, cmd, post, h),
        !(cmd matches DaemonCommand::SetExperimentalProfiles { enabled } && !enabled),
    ensures
        validated(post),
{
    if let Handling::Operate { step, pending } = h {
        match cmd {
            DaemonCommand::SetPowerMode { ac, pwr, cpu, gpu } => {
                if d.device is None {
                    in_domain_keeps_validated(
                        d,
                        ac as int,
                        pwr,
                        cpu,
                        gpu,
                        d.resolved(None),
                        None,
                        post,
                        step,
                    );
                }
            },
            DaemonCommand::SetFanSpeed { ac, rpm } => {
                if let Some(c) = d.config {
                    slot_swap(
                        c,
                        ac as int,
                        crate::manager::fan::fixed_speed(c.power@[ac as int], rpm),
                    );
                }
            },
            DaemonCommand::SetLogoLedState { ac, logo_state } => {
                if let Some(c) = d.config {
                    slot_swap(c, ac as int, PowerConfig { logo_state, ..c.power@[ac as int] });
                }
            },
            DaemonCommand::SetBrightness { ac, val } => {
                if let Some(c) = d.config {
                    slot_swap(
                        c,
                        ac as int,
                        PowerConfig {
                            brightness: crate::manager::light::level_of(val),
                            ..c.power@[ac as int]
                        },
                    );
                }
            },
            DaemonCommand::SetFanCurve { ac, curve } => {
                if let Some(c) = d.config {
                    slot_swap(c, ac as int, PowerConfig { fan_curve: curve, ..c.power@[ac as int] });
                }
            },
            _ => {},
        }
    }
}

/// The journal has no gaps: a request that changes the manager is one that is
/// told as a change of state.
pub proof fn untold_requests_change_nothing(
    d: DeviceManager,
    cmd: DaemonCommand,
    post: DeviceManager,
    h: Handling,
)
    requires
        daemon::handles(d, cmd, post, h),
        post != d,
    ensures
        daemon::state_changing(cmd),
{
}

/// The journal has no gaps: what a request starts that is not told as a change
/// of state stores nothing and ends after one round, with the manager as it
/// was.
#[verifier::rlimit(30)]
pub proof fn untold_operations_change_nothing(
    d: DeviceManager,
    cmd: DaemonCommand,
    post: DeviceManager,
    h: Handling,
    replies: Seq<Reply>,
    end: DeviceManager,
    last: Step,
)
    requires
        !daemon::state_changing(cmd),
        daemon::handles(d, cmd, post, h),
        h is Operate,
        h->step is Perform,
        post.resumes(h->step->task, replies, end, last),
    ensures
        end == d,
        last is Done,
        !h->step->actions@.contains(Action::Save),
{
}

/// Every request that is taken up has its answer: it is answered at once,
/// or starts an operation that will be. The charge limit alone has none where
/// there is nothing to tell of.
pub proof fn every_request_is_taken_up(
    d: DeviceManager,
    cmd: DaemonCommand,
    post: DeviceManager,
    h: Handling,
)
    requires
        !daemon::out_of_range(cmd),
        daemon::handles(d, cmd, post, h),
    ensures
        match h {
            Handling::Answer(r) => r is None <==> cmd is GetBatteryHealthOptimizer && !(
            d.config is Some && d.optimizes()),
            Handling::Operate { step, pending } => daemon::stays_on(pending, step),
            Handling::ScanGpus => cmd is GetGpuStatus,
            Handling::LookAtSensors => cmd is GetDgpuSensors,
        },
{
}

/// Every request that is taken up has its answer: whatever the replies, its
/// operation goes on with a task of its own until it is over, and has an
/// answer that belongs to it.
#[verifier::rlimit(60)]
pub proof fn every_operation_is_answered(
    d: DeviceManager,
    pending: Pending,
    task: Task,
    replies: Seq<Reply>,
    post: DeviceManager,
    step: Step,
)
    requires
        daemon::belongs(pending, task),
        d.resumes(task, replies, post, step),
    ensures
        daemon::stays_on(pending, step),
{
}

/// How many rounds are left at most, the one that left `task` open included.
pub open spec fn rounds_left(task: Task) -> nat {
    match task {
        Task::SyncOnline => 5,
        Task::SyncClass { attempt, .. } => if attempt + 1 < crate::manager::sync::CLASS_ATTEMPTS {
            (crate::manager::sync::CLASS_ATTEMPTS + 1 - attempt) as nat
        } else {
            2
        },
        Task::SyncBlind => 3,
        Task::BinaryOnline => 2,
        Task::ResolveWrite { .. } | Task::ResolveCycle { .. } => 3,
        Task::ResolveReapply => 2,
        Task::Applied { after, .. } => if after is Write {
            2
        } else {
            1
        },
        Task::LightingSaved { .. } => 4,
        Task::LightingColor { .. } => 3,
        Task::LightingFlushed { .. } => 2,
        Task::ColorSent { .. } => 2,
        Task::CurveSaved { .. } => 2,
        Task::LimitSent { .. } | Task::LimitRestored => 2,
        _ => 1,
    }
}

/// Every operation comes to an end: with each round, whatever the replies,
/// fewer are left, and there are never more than five.
#[verifier::rlimit(60)]
pub proof fn operations_end(
    d: DeviceManager,
    task: Task,
    replies: Seq<Reply>,
    post: DeviceManager,
    step: Step,
)
    requires
        d.resumes(task, replies, post, step),
    ensures
        1 <= rounds_left(task) <= 5,
        step is Perform ==> rounds_left(step->task) < rounds_left(task),
{
}

/// The laptop is the same model and the configuration holds the same power
/// slots, charge limit and unlock.
pub open spec fn same_values(d: DeviceManager, post: DeviceManager) -> bool {
    &&& post.pid() == d.pid()
    &&& match (d.config, post.config) {
        (Some(a), Some(b)) => a.power == b.power && a.bho_threshold == b.bho_threshold
            && a.experimental_profiles == b.experimental_profiles,
        (None, None) => true,
        _ => false,
    }
}

/// Tasks of a power request or a press of the power key.
pub open spec fn requesting(task: Task) -> bool {
    task is ResolveWrite || task is ResolveCycle || task is Applied
}

/// Tasks that wait for the adapter.
pub open spec fn resolving(task: Task) -> bool {
    task is ResolveReapply || task is SyncOnline || task is SyncClass || task is SyncBlind
        || task is BinaryOnline
}

proof fn applying_keeps_books(
    d: DeviceManager,
    domain: ChargerDomain,
    after: AfterApply,
    post: DeviceManager,
    step: Step,
)
    requires
        d.applies(domain, after, post, step),
    ensures
        same_values(d, post),
        post.last_applied_wire == d.last_applied_wire,
        post.active_domain == d.active_domain,
{
}

proof fn resolving_keeps_books(
    d: DeviceManager,
    task: Task,
    replies: Seq<Reply>,
    post: DeviceManager,
    step: Step,
)
    requires
        d.resumes(task, replies, post, step),
        resolving(task),
    ensures
        same_values(d, post),
        post.last_applied_wire == d.last_applied_wire,
        post.active_domain == d.active_domain,
{
    match task {
        Task::SyncOnline => {
            if step::online(replies, 0) == Some(false) {
                applying_keeps_books(d, ChargerDomain::Battery, AfterApply::Sync, post, step);
            }
        },
        Task::SyncClass { .. } => {
            if step is Perform && step->task is Applied {
                applying_keeps_books(
                    d,
                    step->task->Applied_domain,
                    AfterApply::Sync,
                    post,
                    step,
                );
            }
        },
        Task::SyncBlind => {
            if let Some(p) = step::answer(replies, 0) {
                applying_keeps_books(
                    d,
                    ChargerDomain::of_class(p.args@[0]),
                    AfterApply::Sync,
                    post,
                    step,
                );
            }
        },
        _ => {},
    }
}

/// Tasks that follow a lighting write or the lighting switch.
pub open spec fn lighting_up(task: Task) -> bool {
    task is ColorSent || task is ColorFlushed || task is LightingSaved || task is LightingColor
        || task is LightingFlushed || task is LightingReverted
}

/// Tasks that follow the writes of a profile or of a slot.
pub open spec fn writing_profile(task: Task) -> bool {
    task is Written || task is Reapplied || task is SlotApplied || task is BinaryApplied
}

#[verifier::rlimit(30)]
proof fn lighting_keeps_values(
    d: DeviceManager,
    task: Task,
    replies: Seq<Reply>,
    post: DeviceManager,
    step: Step,
)
    requires
        d.resumes(task, replies, post, step),
        lighting_up(task),
    ensures
        same_values(d, post),
        post.last_applied_wire == d.last_applied_wire,
        post.active_domain == d.active_domain,
{
}

#[verifier::rlimit(30)]
proof fn profile_writes_keep_values(
    d: DeviceManager,
    task: Task,
    replies: Seq<Reply>,
    post: DeviceManager,
    step: Step,
)
    requires
        d.resumes(task, replies, post, step),
        writing_profile(task),
    ensures
        same_values(d, post),
        task is Written || task is Reapplied || (post.last_applied_wire == d.last_applied_wire
            && post.active_domain == d.active_domain),
{
}

#[verifier::rlimit(30)]
proof fn settings_keep_values(
    d: DeviceManager,
    task: Task,
    replies: Seq<Reply>,
    post: DeviceManager,
    step: Step,
)
    requires
        d.resumes(task, replies, post, step),
        !requesting(task),
        !resolving(task),
        !lighting_up(task),
        !writing_profile(task),
        !(task is LimitSent),
        !(task is UnlockSaved),
    ensures
        same_values(d, post),
        post.last_applied_wire == d.last_applied_wire,
        post.active_domain == d.active_domain,
{
}

#[verifier::spinoff_prover]
#[verifier::rlimit(30)]
proof fn plain_tasks_keep_values(
    d: DeviceManager,
    task: Task,
    replies: Seq<Reply>,
    post: DeviceManager,
    step: Step,
)
    requires
        d.resumes(task, replies, post, step),
        !requesting(task),
        !resolving(task),
        !(task is LimitSent),
    ensures
        task is UnlockSaved || same_values(d, post),
        task is Written || task is Reapplied || (post.last_applied_wire == d.last_applied_wire
            && post.active_domain == d.active_domain),
{
    if lighting_up(task) {
        lighting_keeps_values(d, task, replies, post, step);
    } else if writing_profile(task) {
        profile_writes_keep_values(d, task, replies, post, step);
    } else if !(task is UnlockSaved) {
        settings_keep_values(d, task, replies, post, step);
    }
}

proof fn requests_keep_books(
    d: DeviceManager,
    ac: int,
    pwr: u8,
    cpu: u8,
    gpu: u8,
    domain: ChargerDomain,
    key: Option<u64>,
    post: DeviceManager,
    step: Step,
)
    requires
        d.writes_in_domain(ac, pwr, cpu, gpu, domain, key, post, step),
    ensures
        post.last_applied_wire == d.last_applied_wire,
        post.active_domain == d.active_domain,
{
    if d.active_domain != Some(domain) {
        applying_keeps_books(
            d,
            domain,
            AfterApply::Write { ac: ac as usize, pwr, cpu, gpu, key },
            post,
            step,
        );
    }
}

/// Nothing is stored that did not validate, however an operation goes on. An
/// unlock that could not be stored is withdrawn with what it had changed: it
/// leaves the configuration that it found.
#[verifier::rlimit(30)]
pub proof fn operations_keep_the_configuration_valid(
    d: DeviceManager,
    task: Task,
    replies: Seq<Reply>,
    post: DeviceManager,
    step: Step,
)
    requires
        validated(d),
        d.resumes(task, replies, post, step),
        task matches Task::LimitSent { threshold, .. } ==> 50 <= threshold <= 80,
        task matches Task::UnlockSaved { previous, .. } ==> previous || step::saved(replies, 0),
    ensures
        validated(post),
{
    let first = step::answer(replies, 0);
    match task {
        Task::ResolveWrite { ac, pwr, cpu, gpu } => {
            in_domain_keeps_validated(
                d,
                ac as int,
                pwr,
                cpu,
                gpu,
                d.resolved(first),
                None,
                post,
                step,
            );
        },
        Task::ResolveCycle { read } => {
            let class = if read {
                first
            } else {
                None
            };
            if let Some(now) = step::clock(
                replies,
                if read {
                    1
                } else {
                    0
                },
            ) {
                let domain = d.resolved(class);
                if !d.warm(domain, now) || domain is Pd {
                    applying_keeps_books(
                        d,
                        domain,
                        AfterApply::Key { now, cold: !d.warm(domain, now) },
                        post,
                        step,
                    );
                } else {
                    let (cpu, gpu) = match d.stored(domain.slot()) {
                        Some(s) => (s.cpu_boost, s.gpu_boost),
                        None => (0, 0),
                    };
                    in_domain_keeps_validated(
                        d,
                        domain.slot(),
                        d.next_profile(domain),
                        cpu,
                        gpu,
                        domain,
                        Some(now),
                        post,
                        step,
                    );
                }
            }
        },
        Task::Applied { domain, wire, writes, after } => {
            if let AfterApply::Write { ac, pwr, cpu, gpu, key } = after {
                if let Some(w) = DeviceManager::applied_wire(wire, writes, replies) {
                    let noted = d.relatched(writes, replies).domain_noted(domain, w);
                    storing_keeps_validated(
                        noted,
                        ac as int,
                        pwr,
                        cpu,
                        gpu,
                        domain,
                        key,
                        post,
                        step,
                    );
                }
            }
        },
        Task::LimitSent { .. } => {},
        _ => {
            if resolving(task) {
                resolving_keeps_books(d, task, replies, post, step);
            } else {
                plain_tasks_keep_values(d, task, replies, post, step);
            }
        },
    }
}

/// A power request that the matrix refuses leaves no trace: nothing is stored,
/// nothing is asked of the EC, and it fails.
pub proof fn refused_request_leaves_no_trace(
    d: DeviceManager,
    ac: int,
    pwr: u8,
    cpu: u8,
    gpu: u8,
    domain: ChargerDomain,
    post: DeviceManager,
    step: Step,
)
    requires
        d.writes_power(ac, pwr, cpu, gpu, domain, None, post, step),
        profile::refusal(d.pid(), ac, pwr, cpu, gpu, d.unlocked()) is Some,
    ensures
        post == d,
        step == Step::Done(Outcome::Flag(false)),
{
}

/// A profile other than Custom keeps the boost tiers that are stored, and a
/// request for one slot leaves the other as it is.
pub proof fn plain_profile_keeps_stored_boosts(
    d: DeviceManager,
    ac: int,
    pwr: u8,
    cpu: u8,
    gpu: u8,
    domain: ChargerDomain,
    key: Option<u64>,
    post: DeviceManager,
    step: Step,
)
    requires
        ac == 0 || ac == 1,
        d.config is Some,
        d.writes_power(ac, pwr, cpu, gpu, domain, key, post, step),
    ensures
        pwr != 4 ==> post.stored(ac)->0.cpu_boost == d.stored(ac)->0.cpu_boost && post.stored(
            ac,
        )->0.gpu_boost == d.stored(ac)->0.gpu_boost,
        post.stored(1 - ac) == d.stored(1 - ac),
{
    if profile::refusal(d.pid(), ac, pwr, cpu, gpu, d.unlocked()) is None {
        let c = d.config->0;
        slot_swap(c, ac, DeviceManager::requested_slot(c.power@[ac], pwr, cpu, gpu));
    }
}

/// A command that is no boost write, and no profile write but of Balanced.
pub open spec fn balanced_at_most(c: EcCommand) -> bool {
    &&& !(c is Boost)
    &&& c matches EcCommand::ZoneMode { mode, .. } ==> mode == 0
}

/// A round of such commands.
pub open spec fn balanced_round(actions: Seq<Action>) -> bool {
    forall|i: int|
        0 <= i < actions.len() ==> ((#[trigger] actions[i]) matches Action::Command(c)
            && balanced_at_most(c))
}

proof fn balanced_rounds_join(a: Seq<Action>, b: Seq<Action>)
    requires
        balanced_round(a),
        balanced_round(b),
    ensures
        balanced_round(a + b),
{
}

proof fn balanced_laptop_writes(l: RazerLaptop, slot: PowerConfig, lighting: bool, rpm: u16)
    ensures
        balanced_round(step::commands(l.light_writes(slot, lighting))),
        balanced_round(step::commands(l.power_writes(0, 0, 0))),
        balanced_round(step::commands(l.after_power(0).drive_writes(true, rpm))),
{
}

/// Under USB-PD only Balanced reaches the EC, without boost tiers, and nothing
/// is stored.
pub proof fn pd_applies_balanced_only(
    d: DeviceManager,
    after: AfterApply,
    post: DeviceManager,
    step: Step,
)
    requires
        d.applies(ChargerDomain::Pd, after, post, step),
    ensures
        post.config == d.config,
        balanced_round(actions_of(step)),
{
    let m = d.mirrored(true);
    let planned = m.domain_mirrors(ChargerDomain::Pd);
    let none = Seq::<Action>::empty();
    let light = step::commands(m.domain_light(ChargerDomain::Pd));
    let power = step::commands(step::listed(m.domain_power(ChargerDomain::Pd)));
    let fan = step::commands(m.domain_fan(ChargerDomain::Pd));
    let relatch = step::commands(step::listed(planned.relatch_writes()));
    if let Some(l) = m.device {
        if let Some(c) = m.config {
            let rpm = match planned.relatch_target() {
                Some(rpm) => rpm,
                None => 0,
            };
            balanced_laptop_writes(l, c.power@[1], c.static_lighting, rpm);
        } else {
            balanced_laptop_writes(l, arbitrary(), false, 0);
        }
    }
    assert(fan =~= none);
    balanced_rounds_join(none, light);
    balanced_rounds_join(none + light, power);
    balanced_rounds_join(none + light + power, fan);
    balanced_rounds_join(none + light + power + fan, relatch);
}

/// Under USB-PD a request for anything but Balanced is stored for the AC slot
/// and not written.
pub proof fn pd_defers_all_but_balanced(
    d: DeviceManager,
    ac: int,
    pwr: u8,
    cpu: u8,
    gpu: u8,
    key: Option<u64>,
    post: DeviceManager,
    step: Step,
)
    requires
        d.writes_power(ac, pwr, cpu, gpu, ChargerDomain::Pd, key, post, step),
        pwr != 0,
        d.device is Some,
        step is Perform,
    ensures
        step->task->Written_deferred,
        step->task->Written_writes.power is None,
{
}

/// A request for a slot that is not in force is stored and not written.
pub proof fn other_slot_is_only_stored(
    d: DeviceManager,
    ac: int,
    pwr: u8,
    cpu: u8,
    gpu: u8,
    domain: ChargerDomain,
    key: Option<u64>,
    post: DeviceManager,
    step: Step,
)
    requires
        d.writes_power(ac, pwr, cpu, gpu, domain, key, post, step),
        d.device matches Some(dev) && dev.ac_state != ac,
        step is Perform,
    ensures
        step->task->Written_deferred,
        step->task->Written_writes.power is None,
        post.last_applied_wire == d.last_applied_wire,
        post.active_domain == d.active_domain,
{
}

/// Profile writes carry boost tiers for Custom alone.
pub proof fn boosts_are_written_for_custom_alone(
    l: RazerLaptop,
    mode: u8,
    cpu: u8,
    gpu: u8,
    i: int,
)
    requires
        0 <= i < l.power_writes(mode, cpu, gpu).len(),
    ensures
        l.power_writes(mode, cpu, gpu)[i] is Boost ==> mode == 4,
        mode == 4 ==> l.power_writes(mode, cpu, gpu).len() == 4,
{
}

/// Turbo and the Max tier reach the EC only where the model ships them or the
/// unlock is on.
pub proof fn turbo_and_max_need_stock_or_unlock(
    l: RazerLaptop,
    mode: u8,
    cpu: u8,
    gpu: u8,
    i: int,
)
    requires
        0 <= i < l.power_writes(mode, cpu, gpu).len(),
    ensures
        l.power_writes(mode, cpu, gpu)[i] matches EcCommand::ZoneMode { mode: m, .. } && m == 7
            ==> l.allow_experimental || l.has_turbo(),
        l.power_writes(mode, cpu, gpu)[i] matches EcCommand::Boost { tier, .. } && tier == 3
            ==> l.allow_experimental || l.has_max_tier(),
{
}

/// The writes of a task whose confirmation latches the fan curve.
pub open spec fn latching(task: Task) -> Option<step::Span> {
    match task {
        Task::Applied { writes, .. } => writes.relatch,
        Task::Written { writes, .. } => writes.relatch,
        Task::Reapplied { writes, .. } => writes.relatch,
        Task::SlotApplied { writes } => writes.relatch,
        Task::BinaryApplied { writes } => writes.relatch,
        Task::CurveDriven { driven, .. } => Some(driven),
        _ => None,
    }
}

/// The fan curve counts as latched only once every write of it was confirmed.
pub proof fn curve_is_latched_by_confirmation(
    d: DeviceManager,
    task: Task,
    replies: Seq<Reply>,
    post: DeviceManager,
    step: Step,
)
    requires
        d.resumes(task, replies, post, step),
    ensures
        post.fan_curve_established ==> d.fan_curve_established || step::took(
            replies,
            latching(task),
        ),
{
}

/// No request of a client counts the fan curve as latched.
pub proof fn requests_never_latch_the_curve(
    d: DeviceManager,
    cmd: DaemonCommand,
    post: DeviceManager,
    h: Handling,
)
    requires
        daemon::handles(d, cmd, post, h),
    ensures
        post.fan_curve_established ==> d.fan_curve_established,
{
}

/// The profile writes of a task.
pub open spec fn powering(task: Task) -> Option<step::Span> {
    match task {
        Task::Applied { writes, .. } => writes.power,
        Task::Written { writes, .. } => writes.power,
        Task::Reapplied { writes, .. } => writes.power,
        _ => None,
    }
}

/// The wire and the domain in the books change only when the profile writes
/// were confirmed.
#[verifier::rlimit(30)]
pub proof fn books_follow_confirmation(
    d: DeviceManager,
    task: Task,
    replies: Seq<Reply>,
    post: DeviceManager,
    step: Step,
)
    requires
        d.resumes(task, replies, post, step),
    ensures
        post.last_applied_wire != d.last_applied_wire || post.active_domain != d.active_domain
            ==> step::took(replies, powering(task)),
{
    match task {
        Task::ResolveWrite { ac, pwr, cpu, gpu } => {
            requests_keep_books(
                d,
                ac as int,
                pwr,
                cpu,
                gpu,
                d.resolved(step::answer(replies, 0)),
                None,
                post,
                step,
            );
        },
        Task::ResolveCycle { read } => {
            let class = if read {
                step::answer(replies, 0)
            } else {
                None
            };
            if let Some(now) = step::clock(
                replies,
                if read {
                    1
                } else {
                    0
                },
            ) {
                let domain = d.resolved(class);
                if !d.warm(domain, now) || domain is Pd {
                    applying_keeps_books(
                        d,
                        domain,
                        AfterApply::Key { now, cold: !d.warm(domain, now) },
                        post,
                        step,
                    );
                } else {
                    let (cpu, gpu) = match d.stored(domain.slot()) {
                        Some(s) => (s.cpu_boost, s.gpu_boost),
                        None => (0, 0),
                    };
                    requests_keep_books(
                        d,
                        domain.slot(),
                        d.next_profile(domain),
                        cpu,
                        gpu,
                        domain,
                        Some(now),
                        post,
                        step,
                    );
                }
            }
        },
        Task::Applied { .. } => {},
        Task::LimitSent { .. } => {},
        Task::Written { .. } => {},
        Task::Reapplied { .. } => {},
        _ => {
            if resolving(task) {
                resolving_keeps_books(d, task, replies, post, step);
            } else {
                plain_tasks_keep_values(d, task, replies, post, step);
            }
        },
    }
}

/// A press without an earlier one, in another domain than the last one, or
/// after the window is cold; one in the same domain within it is warm.
pub proof fn warmth_of_a_press(d: DeviceManager, domain: ChargerDomain, now: u64)
    ensures
        d.last_key_press is None ==> !d.warm(domain, now),
        d.last_key_press matches Some((t, dd)) ==> {
            &&& dd != domain ==> !d.warm(domain, now)
            &&& now > t + 3_000_000_000 ==> !d.warm(domain, now)
            &&& dd == domain && now <= t + 3_000_000_000 ==> d.warm(domain, now)
        },
{
}

/// A cold press asks for exactly what a synchronisation with the domain asks
/// for: it confirms, re-asserts or heals.
pub proof fn cold_press_is_a_sync(
    d: DeviceManager,
    domain: ChargerDomain,
    now: u64,
    post: DeviceManager,
    step: Step,
)
    requires
        d.presses(domain, now, post, step),
        !d.warm(domain, now),
    ensures
        d.applies(domain, AfterApply::Key { now, cold: true }, post, step),
        exists|sync: Step| #[trigger]
            d.applies(domain, AfterApply::Sync, post, sync) && actions_of(sync) == actions_of(step),
{
    let t = step->task;
    let sync = Step::Perform {
        actions: step->actions,
        task: Task::Applied {
            domain,
            wire: t->Applied_wire,
            writes: t->Applied_writes,
            after: AfterApply::Sync,
        },
    };
    assert(d.applies(domain, AfterApply::Sync, post, sync));
}

/// A confirmed change of the charger domain ends the window: the next press is
/// cold.
pub proof fn domain_change_makes_the_next_press_cold(
    d: DeviceManager,
    domain: ChargerDomain,
    wire: Option<u8>,
    writes: Writes,
    replies: Seq<Reply>,
    post: DeviceManager,
    step: Step,
    now: u64,
    next: ChargerDomain,
)
    requires
        d.concludes_apply(domain, wire, writes, AfterApply::Sync, replies, post, step),
        d.active_domain != Some(domain),
        DeviceManager::applied_wire(wire, writes, replies) is Some,
    ensures
        !post.warm(next, now),
{
}

/// A warm press never lands on Custom or Gaming, and never asks for a profile
/// that is refused, as long as the stored tiers are valid and the model data
/// agrees with the product id.
pub proof fn warm_press_is_safe(d: DeviceManager, domain: ChargerDomain)
    requires
        !(domain is Pd),
        d.config is Some,
        validated(d),
        d.device matches Some(dev) && dev.has_turbo() == profile::stock_on(Some(dev.pid)),
    ensures
        ({
            let next = d.next_profile(domain);
            let slot = d.stored(domain.slot())->0;
            &&& next != 4 && next != 1
            &&& profile::refusal(
                d.pid(),
                domain.slot(),
                next,
                slot.cpu_boost,
                slot.gpu_boost,
                d.unlocked(),
            ) is None
        }),
{
    let turbo = d.device->0.has_turbo();
    let plugged = domain.slot() == 1;
    let order = profile::cycle(turbo, plugged, d.unlocked());
    let next = d.next_profile(domain);
    profile::cycle_is_safe(turbo, plugged, d.unlocked(), next);
    if let Some(c) = d.last_applied_wire {
        if order.contains(c) {
            order.index_of_first_ensures(c);
        }
    }
    assert(order.contains(next));
}

/// The AC surface is applied only where the adapter class is that of the
/// barrel: without an answer, or with any other class, it is not.
pub proof fn barrel_needs_its_class(d: DeviceManager, class: Option<crate::packet::RazerPacket>)
    ensures
        d.resolved(class) is Barrel <==> (class matches Some(p) && p.args@[0] == 0x11),
        class is None ==> !(d.resolved(class) is Barrel),
{
}

/// While the adapter is online a synchronisation ends on barrel or USB-PD,
/// never on battery, and on barrel only by its class.
pub proof fn online_sync_fails_safe(
    d: DeviceManager,
    attempt: u8,
    answered: bool,
    class: Option<crate::packet::RazerPacket>,
    post: DeviceManager,
    step: Step,
)
    requires
        d.concludes_class(attempt, answered, class, post, step),
    ensures
        step matches Step::Perform { task: Task::Applied { domain, .. }, .. } ==> {
            &&& !(domain is Battery)
            &&& domain is Barrel ==> (class matches Some(p) && p.args@[0] == 0x11)
        },
        attempt + 1 >= crate::manager::sync::CLASS_ATTEMPTS ==> step is Perform && step->task is Applied,
{
}

/// A lighting switch that could not be stored leaves the manager as it was and
/// is answered with failure.
pub proof fn unsaved_switch_changes_nothing(
    d: DeviceManager,
    enabled: bool,
    stored: DeviceManager,
    first: Step,
    replies: Seq<Reply>,
    post: DeviceManager,
    second: Step,
)
    requires
        d.starts_gate(enabled, stored, first),
        first is Perform,
        !step::saved(replies, 0),
        stored.resumes(first->task, replies, post, second),
    ensures
        post == d,
        second == Step::Done(Outcome::Flag(false)),
{
    assert(stored.with_gate(!enabled) == d);
}

/// An experimental unlock that could not be stored leaves the manager as it
/// was and is answered with failure.
pub proof fn unsaved_unlock_changes_nothing(
    d: DeviceManager,
    enabled: bool,
    stored: DeviceManager,
    first: Step,
    replies: Seq<Reply>,
    post: DeviceManager,
    second: Step,
)
    requires
        d.starts_unlock(enabled, stored, first),
        first is Perform,
        !step::saved(replies, 0),
        stored.resumes(first->task, replies, post, second),
    ensures
        post == d,
        second == Step::Done(Outcome::Flag(false)),
{
}

/// A lighting switch whose colour could not be written, the first time or when
/// it is repeated, leaves the manager as it was, stores that, and is answered
/// with failure.
pub proof fn unlit_switch_changes_nothing(
    d: DeviceManager,
    enabled: bool,
    stored: DeviceManager,
    first: Step,
    replies: Seq<Reply>,
    switched: DeviceManager,
    second: Step,
    task: Task,
    answers: Seq<Reply>,
    post: DeviceManager,
    third: Step,
    saves: Seq<Reply>,
    end: DeviceManager,
    last: Step,
)
    requires
        d.starts_gate(enabled, stored, first),
        first is Perform,
        d.device matches Some(dev) && dev.static_lighting == d.config->0.static_lighting,
        stored.resumes(first->task, replies, switched, second),
        second is Perform,
        task == second->task || task == (Task::LightingFlushed { previous: !enabled }),
        switched.resumes(task, answers, post, third),
        step::answer(answers, 0) is None,
        third is Perform,
        post.resumes(third->task, saves, end, last),
    ensures
        post == d,
        third->actions@ == seq![Action::Save],
        end == d,
        last == Step::Done(Outcome::Flag(false)),
{
    assert(post == d);
}

/// What was asked for is read back: fan speed, logo, brightness, colour, fan
/// curve, lighting switch and unlock.
pub proof fn settings_are_read_back(
    d: DeviceManager,
    ac: usize,
    rpm: i32,
    logo_state: u8,
    percent: u8,
    rgb: [u8; 3],
    curve: FanCurve,
    enabled: bool,
    post: DeviceManager,
    step: Step,
)
    requires
        ac < 2,
        d.config is Some,
    ensures
        d.speed_allowed(rpm) && d.starts_speed(ac as int, rpm, post, step)
            ==> daemon::answers_stored(
            post,
            DaemonCommand::GetFanSpeed { ac },
            Some(DaemonResponse::GetFanSpeed { rpm }),
        ),
        logo_state <= 2 && d.starts_logo(ac as int, logo_state, post, step)
            ==> daemon::answers_stored(
            post,
            DaemonCommand::GetLogoLedState { ac },
            Some(DaemonResponse::GetLogoLedState { logo_state }),
        ),
        percent <= 100 && d.starts_brightness(ac as int, percent, post, step)
            ==> daemon::answers_stored(
            post,
            DaemonCommand::GetBrightness { ac },
            Some(DaemonResponse::GetBrightness { result: percent }),
        ),
        d.starts_color(rgb, post, step) ==> daemon::answers_stored(
            post,
            DaemonCommand::GetStaticColor,
            Some(DaemonResponse::GetStaticColor { color: rgb }),
        ),
        d.starts_curve(ac as int, curve, post, step) ==> daemon::answers_stored(
            post,
            DaemonCommand::GetFanCurve { ac },
            Some(DaemonResponse::GetFanCurve { curve }),
        ),
        d.starts_gate(enabled, post, step) ==> daemon::answers_stored(
            post,
            DaemonCommand::GetStaticLighting,
            Some(DaemonResponse::GetStaticLighting { enabled }),
        ),
        d.starts_unlock(enabled, post, step) ==> daemon::answers_stored(
            post,
            DaemonCommand::GetExperimentalProfiles,
            Some(DaemonResponse::GetExperimentalProfiles { enabled }),
        ),
{
    let c = d.config->0;
    let slot = c.power@[ac as int];
    slot_swap(c, ac as int, crate::manager::fan::fixed_speed(slot, rpm));
    slot_swap(c, ac as int, PowerConfig { logo_state, ..slot });
    slot_swap(
        c,
        ac as int,
        PowerConfig { brightness: crate::manager::light::level_of(percent), ..slot },
    );
    slot_swap(c, ac as int, PowerConfig { fan_curve: curve, ..slot });
    if percent <= 100 {
        crate::manager::light::brightness_round_trip(percent);
    }
}

/// A power request that is accepted is read back, and so are its boost tiers
/// when it is Custom.
pub proof fn power_request_is_read_back(
    d: DeviceManager,
    ac: usize,
    pwr: u8,
    cpu: u8,
    gpu: u8,
    domain: ChargerDomain,
    key: Option<u64>,
    post: DeviceManager,
    step: Step,
)
    requires
        d.config is Some,
        d.writes_power(ac as int, pwr, cpu, gpu, domain, key, post, step),
        profile::refusal(d.pid(), ac as int, pwr, cpu, gpu, d.unlocked()) is None,
    ensures
        daemon::answers_stored(
            post,
            DaemonCommand::GetPwrLevel { ac },
            Some(DaemonResponse::GetPwrLevel { pwr }),
        ),
        pwr == 4 ==> daemon::answers_stored(
            post,
            DaemonCommand::GetCPUBoost { ac },
            Some(DaemonResponse::GetCPUBoost { cpu }),
        ) && daemon::answers_stored(
            post,
            DaemonCommand::GetGPUBoost { ac },
            Some(DaemonResponse::GetGPUBoost { gpu }),
        ),
{
    let c = d.config->0;
    slot_swap(
        c,
        ac as int,
        DeviceManager::requested_slot(c.power@[ac as int], pwr, cpu, gpu),
    );
}

/// The profile of an accepted power request is what its domain gets whenever
/// it is applied later: at an AC switch, a resume or a cold press of the key.
pub proof fn requested_profile_is_applied_again(
    d: DeviceManager,
    ac: usize,
    pwr: u8,
    cpu: u8,
    gpu: u8,
    domain: ChargerDomain,
    key: Option<u64>,
    stored: DeviceManager,
    first: Step,
    later: ChargerDomain,
    after: AfterApply,
    post: DeviceManager,
    step: Step,
)
    requires
        d.config is Some,
        d.writes_power(ac as int, pwr, cpu, gpu, domain, key, stored, first),
        profile::refusal(d.pid(), ac as int, pwr, cpu, gpu, d.unlocked()) is None,
        !(later is Pd),
        later.slot() == ac,
        stored.applies(later, after, post, step),
    ensures
        step matches Step::Perform { task: Task::Applied { domain: applied, wire, .. }, .. }
            && applied == later && wire == Some(pwr),
        post.config == stored.config,
{
    let c = d.config->0;
    slot_swap(
        c,
        ac as int,
        DeviceManager::requested_slot(c.power@[ac as int], pwr, cpu, gpu),
    );
    applying_a_domain_stores_nothing(stored, later, after, post, step);
}

/// A charge limit that the EC confirmed is read back.
pub proof fn charge_limit_is_read_back(
    d: DeviceManager,
    is_on: bool,
    threshold: u8,
    replies: Seq<Reply>,
    post: DeviceManager,
    step: Step,
)
    requires
        d.config is Some,
        d.optimizes(),
        d.concludes_limit(is_on, threshold, replies, post, step),
        step::answer(replies, 0) is Some,
    ensures
        daemon::answers_stored(
            post,
            DaemonCommand::GetBatteryHealthOptimizer,
            Some(DaemonResponse::GetBatteryHealthOptimizer { is_on, threshold }),
        ),
{
}

} // verus!
