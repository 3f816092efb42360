//! Going on with an operation once a round of actions was performed.

use vstd::prelude::*;

use crate::charger::{show_desired, ChargerDomain};
use crate::command::EcCommand;
use crate::manager::DeviceManager;
use crate::manager::charge::command_round;
use crate::manager::light::color_round;
use crate::manager::step;
use crate::manager::step::{
    answer_at, clock_at, online_at, saved_at, span_took, Action, Outcome, Reply, Step, Task,
};
use crate::packet::RazerPacket;
use crate::profile::byte_to_bho;

verus! {

/// A value that a reply carries.
pub open spec fn carried<T>(reply: Option<RazerPacket>, value: spec_fn(RazerPacket) -> T) -> Option<
    T,
> {
    match reply {
        Some(p) => Some(value(p)),
        None => None,
    }
}

/// A fan speed in a reply, in RPM.
pub open spec fn rpm_in(p: RazerPacket) -> u16 {
    (p.args@[2] * 100) as u16
}

impl DeviceManager {
    /// The outcome of a live read.
    pub open spec fn live_outcome(self, task: Task, reply: Option<RazerPacket>) -> Option<Outcome> {
        match task {
            Task::ResolveDesired => Some(
                Outcome::Desired(
                    match self.config {
                        Some(c) => Some(
                            crate::charger::shown_state(c, self.resolved(reply), self.lighting()),
                        ),
                        None => None,
                    },
                ),
            ),
            Task::ZoneRead => Some(
                Outcome::Zone(carried(reply, |p: RazerPacket| (p.args@[2], p.args@[3]))),
            ),
            Task::BoostRead | Task::BrightnessRead => Some(
                Outcome::Byte(carried(reply, |p: RazerPacket| p.args@[2])),
            ),
            Task::ClassRead => Some(Outcome::Byte(carried(reply, |p: RazerPacket| p.args@[0]))),
            Task::DomainRead => Some(
                Outcome::Domain(
                    carried(reply, |p: RazerPacket| ChargerDomain::of_class(p.args@[0])),
                ),
            ),
            Task::LimitRead => Some(
                Outcome::Limit(
                    carried(reply, |p: RazerPacket| crate::profile::unpacked_limit(p.args@[0])),
                ),
            ),
            Task::SpeedRead => Some(
                Outcome::Speed(carried(reply, |p: RazerPacket| rpm_in(p))),
            ),
            Task::TachRead => Some(
                Outcome::Number(
                    match reply {
                        Some(p) => rpm_in(p) as i32,
                        None => (-1) as i32,
                    },
                ),
            ),
            _ => None,
        }
    }

    /// From `self`, the replies to the round that left `task` open lead to
    /// `post` and ask for `step`.
    pub open spec fn resumes(
        self,
        task: Task,
        replies: Seq<Reply>,
        post: DeviceManager,
        step: Step,
    ) -> bool {
        let first = step::answer(replies, 0);
        match task {
            Task::ResolveWrite { ac, pwr, cpu, gpu } => self.writes_in_domain(
                ac as int,
                pwr,
                cpu,
                gpu,
                self.resolved(first),
                None,
                post,
                step,
            ),
            Task::ResolveCycle { read } => {
                let class = if read {
                    first
                } else {
                    None
                };
                match step::clock(
                    replies,
                    if read {
                        1
                    } else {
                        0
                    },
                ) {
                    Some(now) => self.presses(self.resolved(class), now, post, step),
                    None => post == self && step == Step::Done(Outcome::Cycle(None)),
                }
            },
            Task::ResolveReapply => self.reapplies(self.resolved(first), post, step),
            Task::Applied { domain, wire, writes, after } => self.concludes_apply(
                domain,
                wire,
                writes,
                after,
                replies,
                post,
                step,
            ),
            Task::Written { pwr, domain, save, deferred, writes, key } => self.concludes_write(
                pwr,
                domain,
                save,
                deferred,
                writes,
                key,
                replies,
                post,
                step,
            ),
            Task::Reapplied { domain, wire, writes } => {
                &&& post == self.reapplied(domain, wire, writes, replies)
                &&& step == Step::Done(Outcome::Flag(step::took(replies, writes.power)))
            },
            Task::SlotApplied { writes } => {
                &&& post == self.relatched(writes, replies)
                &&& step == Step::Done(Outcome::Flag(step::took(replies, writes.power)))
            },
            Task::SyncOnline => self.concludes_online(step::online(replies, 0), post, step),
            Task::SyncClass { attempt, read, answered } => self.concludes_class(
                attempt,
                answered,
                if read {
                    step::answer(
                        replies,
                        if attempt > 0 {
                            1
                        } else {
                            0
                        },
                    )
                } else {
                    None
                },
                post,
                step,
            ),
            Task::SyncBlind => self.concludes_blind(first, post, step),
            Task::BinaryOnline => self.concludes_binary(step::online(replies, 0), post, step),
            Task::BinaryApplied { writes } => {
                &&& post == self.relatched(writes, replies)
                &&& step == Step::Done(Outcome::Nothing)
            },
            Task::ColorSent { red, green, blue, save } => {
                let sent = step::answer(
                    replies,
                    if save {
                        1
                    } else {
                        0
                    },
                );
                &&& post == self
                &&& match sent {
                    None => step == Step::Done(Outcome::Flag(false)),
                    Some(_) => step::asks(
                        step,
                        seq![Action::Command(EcCommand::StaticColor { red, green, blue })],
                        Task::ColorFlushed { saved: save ==> step::saved(replies, 0) },
                    ),
                }
            },
            Task::ColorFlushed { saved } => post == self && step == Step::Done(
                Outcome::Flag(first is Some && saved),
            ),
            Task::LightingSaved { enabled, previous } => self.concludes_gate(
                enabled,
                previous,
                replies,
                post,
                step,
            ),
            Task::LightingColor { red, green, blue, previous } => match first {
                Some(_) => post == self && step::asks(
                    step,
                    seq![Action::Command(EcCommand::StaticColor { red, green, blue })],
                    Task::LightingFlushed { previous },
                ),
                None => self.reverts_gate(previous, post, step),
            },
            Task::LightingFlushed { previous } => match first {
                Some(_) => post == self && step == Step::Done(Outcome::Flag(true)),
                None => self.reverts_gate(previous, post, step),
            },
            Task::LightingReverted { previous } => {
                &&& post == (if step::saved(replies, 0) {
                    self
                } else {
                    self.with_gate(previous)
                })
                &&& step == Step::Done(Outcome::Flag(false))
            },
            Task::Stored { save, deferred, counted } => {
                &&& post == self
                &&& step == Step::Done(
                    Outcome::Flag(
                        (deferred || step::took(replies, counted)) && (save ==> step::saved(
                            replies,
                            0,
                        )),
                    ),
                )
            },
            Task::CurveSaved { restore } => self.concludes_curve(restore, replies, post, step),
            Task::CurveDriven { rpm, driven } => {
                &&& post == self.driven(rpm, driven, replies)
                &&& step == Step::Done(Outcome::Nothing)
            },
            Task::LimitSent { is_on, threshold } => self.concludes_limit(
                is_on,
                threshold,
                replies,
                post,
                step,
            ),
            Task::LimitStored { save } => post == self && step == Step::Done(
                Outcome::Flag(save ==> step::saved(replies, 1)),
            ),
            Task::LimitRestored => {
                &&& post == self
                &&& match first {
                    Some(_) => step::asks(
                        step,
                        seq![Action::Command(EcCommand::ChargeLimitCommit)],
                        Task::LimitCommitted,
                    ),
                    None => step == Step::Done(Outcome::Nothing),
                }
            },
            Task::UnlockSaved { previous, mirrored } => self.concludes_unlock(
                previous,
                mirrored,
                replies,
                post,
                step,
            ),
            Task::LimitCommitted | Task::Ignore => post == self && step == Step::Done(
                Outcome::Nothing,
            ),
            _ => post == self && Some(step) == (match self.live_outcome(task, first) {
                Some(outcome) => Some(Step::Done(outcome)),
                None => None,
            }),
        }
    }

    fn live_result(&self, task: Task, reply: Option<RazerPacket>) -> (r: Outcome)
        requires
            self.live_outcome(task, reply) is Some,
        ensures
            Some(r) == self.live_outcome(task, reply),
    {
        match task {
            Task::ResolveDesired => {
                let domain = self.resolve_domain(reply);
                let lighting = self.get_static_lighting();
                Outcome::Desired(
                    match &self.config {
                        Some(c) => Some(show_desired(c, domain, lighting)),
                        None => None,
                    },
                )
            },
            Task::ZoneRead => Outcome::Zone(
                match reply {
                    Some(p) => Some((p.args[2], p.args[3])),
                    None => None,
                },
            ),
            Task::BoostRead | Task::BrightnessRead => Outcome::Byte(
                match reply {
                    Some(p) => Some(p.args[2]),
                    None => None,
                },
            ),
            Task::ClassRead => Outcome::Byte(
                match reply {
                    Some(p) => Some(p.args[0]),
                    None => None,
                },
            ),
            Task::DomainRead => Outcome::Domain(
                match reply {
                    Some(p) => Some(ChargerDomain::from_actp(p.args[0])),
                    None => None,
                },
            ),
            Task::LimitRead => Outcome::Limit(
                match reply {
                    Some(p) => Some(byte_to_bho(p.args[0])),
                    None => None,
                },
            ),
            Task::SpeedRead => Outcome::Speed(
                match reply {
                    Some(p) => Some(p.args[2] as u16 * 100),
                    None => None,
                },
            ),
            _ => Outcome::Number(
                match reply {
                    Some(p) => p.args[2] as i32 * 100,
                    None => -1,
                },
            ),
        }
    }

    /// Goes on with the operation that left `task` open, given the replies to
    /// its round. A reply that is missing counts as a failure.
    pub fn resume(&mut self, task: Task, replies: &Vec<Reply>) -> (step: Step)
        requires
            old(self).wf(),
        ensures
            final(self).wf(),
            old(self).resumes(task, replies@, *final(self), step),
    {
        match task {
            Task::ResolveWrite { ac, pwr, cpu, gpu } => {
                let domain = self.resolve_domain(answer_at(replies, 0));
                self.set_power_mode_in_domain(ac, pwr, cpu, gpu, domain, None)
            },
            Task::ResolveCycle { read } => {
                let class = if read {
                    answer_at(replies, 0)
                } else {
                    None
                };
                let at: usize = if read {
                    1
                } else {
                    0
                };
                match clock_at(replies, at) {
                    Some(now) => {
                        let domain = self.resolve_domain(class);
                        self.press_power_key(domain, now)
                    },
                    None => Step::Done(Outcome::Cycle(None)),
                }
            },
            Task::ResolveReapply => {
                let domain = self.resolve_domain(answer_at(replies, 0));
                self.reapply_in_domain(domain)
            },
            Task::Applied { domain, wire, writes, after } => self.conclude_apply(
                domain,
                wire,
                writes,
                after,
                replies,
            ),
            Task::Written { pwr, domain, save, deferred, writes, key } => self.conclude_write(
                pwr,
                domain,
                save,
                deferred,
                writes,
                key,
                replies,
            ),
            Task::Reapplied { domain, wire, writes } => self.conclude_reapply(
                domain,
                wire,
                writes,
                replies,
            ),
            Task::SlotApplied { writes } => self.conclude_slot(writes, replies),
            Task::SyncOnline => self.conclude_online(online_at(replies, 0)),
            Task::SyncClass { attempt, read, answered } => {
                let at: usize = if attempt > 0 {
                    1
                } else {
                    0
                };
                let class = if read {
                    answer_at(replies, at)
                } else {
                    None
                };
                self.conclude_class(attempt, answered, class)
            },
            Task::SyncBlind => self.conclude_blind(answer_at(replies, 0)),
            Task::BinaryOnline => self.conclude_binary(online_at(replies, 0)),
            Task::BinaryApplied { writes } => {
                self.note_relatch(writes, replies);
                Step::Done(Outcome::Nothing)
            },
            Task::ColorSent { red, green, blue, save } => {
                let at: usize = if save {
                    1
                } else {
                    0
                };
                if answer_at(replies, at).is_none() {
                    return Step::Done(Outcome::Flag(false));
                }
                let saved = !save || saved_at(replies, 0);
                color_round(red, green, blue, Task::ColorFlushed { saved })
            },
            Task::ColorFlushed { saved } => {
                let ok = answer_at(replies, 0).is_some();
                Step::Done(Outcome::Flag(ok && saved))
            },
            Task::LightingSaved { enabled, previous } => self.conclude_gate(
                enabled,
                previous,
                replies,
            ),
            Task::LightingColor { red, green, blue, previous } => {
                if answer_at(replies, 0).is_some() {
                    color_round(red, green, blue, Task::LightingFlushed { previous })
                } else {
                    self.revert_gate(previous)
                }
            },
            Task::LightingFlushed { previous } => {
                if answer_at(replies, 0).is_some() {
                    Step::Done(Outcome::Flag(true))
                } else {
                    self.revert_gate(previous)
                }
            },
            Task::LightingReverted { previous } => {
                if !saved_at(replies, 0) {
                    if let Some(cfg) = &mut self.config {
                        cfg.static_lighting = previous;
                    }
                }
                Step::Done(Outcome::Flag(false))
            },
            Task::Stored { save, deferred, counted } => {
                let res = deferred || span_took(replies, counted);
                let saved = !save || saved_at(replies, 0);
                Step::Done(Outcome::Flag(res && saved))
            },
            Task::CurveSaved { restore } => self.conclude_curve(restore, replies),
            Task::CurveDriven { rpm, driven } => self.conclude_drive(rpm, driven, replies),
            Task::LimitSent { is_on, threshold } => self.conclude_limit(is_on, threshold, replies),
            Task::LimitStored { save } => {
                let saved = !save || saved_at(replies, 1);
                Step::Done(Outcome::Flag(saved))
            },
            Task::LimitRestored => {
                if answer_at(replies, 0).is_some() {
                    command_round(EcCommand::ChargeLimitCommit, Task::LimitCommitted)
                } else {
                    Step::Done(Outcome::Nothing)
                }
            },
            Task::UnlockSaved { previous, mirrored } => self.conclude_unlock(
                previous,
                mirrored,
                replies,
            ),
            Task::LimitCommitted | Task::Ignore => Step::Done(Outcome::Nothing),
            Task::ResolveDesired
            | Task::ZoneRead
            | Task::BoostRead
            | Task::BrightnessRead
            | Task::LimitRead
            | Task::SpeedRead
            | Task::TachRead
            | Task::ClassRead
            | Task::DomainRead => Step::Done(self.live_result(task, answer_at(replies, 0))),
        }
    }
}

} // verus!
