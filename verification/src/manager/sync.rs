//! Keeping up with the power adapter.

use vstd::prelude::*;

use crate::charger::ChargerDomain;
use crate::command::EcCommand;
use crate::laptop::RazerLaptop;
use crate::manager::DeviceManager;
use crate::manager::power::ask_class;
use crate::manager::step;
use crate::manager::step::{
    span_took, Action, AfterApply, Outcome, Reply, Step, Task, Writes,
};
use crate::packet::RazerPacket;

verus! {

/// Tries to read the adapter class while it is online.
pub const CLASS_ATTEMPTS: u8 = 3;

/// Wait between two such tries.
pub const CLASS_RETRY_MS: u64 = 400;

/// The charger domain whose stored slot belongs to the adapter flag.
pub open spec fn binary_domain(online: bool) -> ChargerDomain {
    if online {
        ChargerDomain::Barrel
    } else {
        ChargerDomain::Battery
    }
}

impl DeviceManager {
    /// From `self`, the adapter flag `ac` leads to `post` and asks for `step`.
    pub open spec fn takes_flag(self, ac: bool, post: DeviceManager, step: Step) -> bool {
        step matches Step::Perform { actions, task } && task matches Task::SlotApplied { writes }
            && self.mirrored(ac).writes_domain(binary_domain(ac), post, actions@, writes)
    }

    /// Brings the mirrors in line with the adapter flag and applies the stored
    /// slot. It succeeded when the profile was confirmed.
    pub fn set_ac_state(&mut self, ac: bool) -> (step: Step)
        requires
            old(self).wf(),
        ensures
            final(self).wf(),
            old(self).takes_flag(ac, *final(self), step),
    {
        self.set_ac_mirror(ac);
        let domain = if ac {
            ChargerDomain::Barrel
        } else {
            ChargerDomain::Battery
        };
        let (actions, writes) = self.write_domain(domain);
        Step::Perform { actions, task: Task::SlotApplied { writes } }
    }

    pub(crate) fn conclude_slot(&mut self, writes: Writes, replies: &Vec<Reply>) -> (step: Step)
        requires
            old(self).wf(),
        ensures
            final(self).wf(),
            *final(self) == old(self).relatched(writes, replies@),
            step == Step::Done(Outcome::Flag(step::took(replies@, writes.power))),
    {
        self.note_relatch(writes, replies);
        Step::Done(Outcome::Flag(span_took(replies, writes.power)))
    }

    /// Brings the charger domain in line with the adapter. UPower is asked
    /// first.
    pub fn sync_charger_domain(&self) -> (step: Step)
        ensures
            step::asks(step, seq![Action::ReadOnline], Task::SyncOnline),
    {
        online_round(Task::SyncOnline)
    }

    /// From `self`, trying to read the adapter class for the `attempt`th time
    /// asks for `step`.
    pub open spec fn tries_class(self, attempt: u8, answered: bool, step: Step) -> bool {
        let read = self.device is Some;
        step::asks(
            step,
            (if attempt > 0 {
                seq![Action::Sleep { ms: CLASS_RETRY_MS }]
            } else {
                seq![]
            }) + (if read {
                seq![Action::Command(EcCommand::ReadCharger)]
            } else {
                seq![]
            }),
            Task::SyncClass { attempt, read, answered },
        )
    }

    fn try_class(&self, attempt: u8, answered: bool) -> (step: Step)
        ensures
            self.tries_class(attempt, answered, step),
    {
        let mut actions: Vec<Action> = Vec::new();
        if attempt > 0 {
            actions.push(Action::Sleep { ms: CLASS_RETRY_MS });
        }
        let read = self.device.is_some();
        if read {
            actions.push(Action::Command(EcCommand::ReadCharger));
        }
        assert(actions@ =~= (if attempt > 0 {
            seq![Action::Sleep { ms: CLASS_RETRY_MS }]
        } else {
            seq![]
        }) + (if read {
            seq![Action::Command(EcCommand::ReadCharger)]
        } else {
            seq![]
        }));
        Step::Perform { actions, task: Task::SyncClass { attempt, read, answered } }
    }

    /// The binary fallback leads from `self` to `post` and asks for `step`.
    pub open spec fn falls_back(self, post: DeviceManager, step: Step) -> bool {
        &&& post == (DeviceManager { fan_curve_established: false, ..self })
        &&& step::asks(step, seq![Action::ReadOnline], Task::BinaryOnline)
    }

    /// Applies the stored slot that belongs to what UPower says.
    pub fn set_ac_state_get(&mut self) -> (step: Step)
        requires
            old(self).wf(),
        ensures
            final(self).wf(),
            old(self).falls_back(*final(self), step),
    {
        self.fan_curve_established = false;
        online_round(Task::BinaryOnline)
    }

    /// From `self`, the answer of UPower leads to `post` and asks for `step`.
    /// An adapter that is offline means battery, without asking the EC. One
    /// that is online is told apart by its class. Without UPower the class
    /// alone has to do.
    pub open spec fn concludes_online(
        self,
        online: Option<bool>,
        post: DeviceManager,
        step: Step,
    ) -> bool {
        match online {
            Some(false) => self.applies(ChargerDomain::Battery, AfterApply::Sync, post, step),
            Some(true) => post == self && self.tries_class(0, false, step),
            None => if self.device is Some {
                post == self && step::asks(
                    step,
                    seq![Action::Command(EcCommand::ReadCharger)],
                    Task::SyncBlind,
                )
            } else {
                self.falls_back(post, step)
            },
        }
    }

    pub(crate) fn conclude_online(&mut self, online: Option<bool>) -> (step: Step)
        requires
            old(self).wf(),
        ensures
            final(self).wf(),
            old(self).concludes_online(online, *final(self), step),
    {
        match online {
            Some(false) => self.plan_apply(ChargerDomain::Battery, AfterApply::Sync),
            Some(true) => self.try_class(0, false),
            None => {
                if self.device.is_some() {
                    ask_class(Task::SyncBlind)
                } else {
                    self.set_ac_state_get()
                }
            },
        }
    }

    /// From `self`, the adapter class while online leads to `post` and asks
    /// for `step`. Barrel and USB-PD are applied. No answer, or one that says
    /// battery, is tried again; after the last try USB-PD is applied, the
    /// smallest surface.
    pub open spec fn concludes_class(
        self,
        attempt: u8,
        answered: bool,
        class: Option<RazerPacket>,
        post: DeviceManager,
        step: Step,
    ) -> bool {
        let domain = match class {
            Some(p) => ChargerDomain::of_class(p.args@[0]),
            None => ChargerDomain::Battery,
        };
        if !(domain is Battery) {
            self.applies(domain, AfterApply::Sync, post, step)
        } else if attempt + 1 < CLASS_ATTEMPTS {
            post == self && self.tries_class((attempt + 1) as u8, answered || class is Some, step)
        } else {
            self.applies(ChargerDomain::Pd, AfterApply::Sync, post, step)
        }
    }

    pub(crate) fn conclude_class(
        &mut self,
        attempt: u8,
        answered: bool,
        class: Option<RazerPacket>,
    ) -> (step: Step)
        requires
            old(self).wf(),
        ensures
            final(self).wf(),
            old(self).concludes_class(attempt, answered, class, *final(self), step),
    {
        if let Some(p) = class {
            let domain = ChargerDomain::from_actp(p.args[0]);
            if domain != ChargerDomain::Battery {
                return self.plan_apply(domain, AfterApply::Sync);
            }
        }
        if attempt < CLASS_ATTEMPTS - 1 {
            self.try_class(attempt + 1, answered || class.is_some())
        } else {
            self.plan_apply(ChargerDomain::Pd, AfterApply::Sync)
        }
    }

    /// From `self`, the adapter class without UPower leads to `post` and asks
    /// for `step`.
    pub open spec fn concludes_blind(
        self,
        class: Option<RazerPacket>,
        post: DeviceManager,
        step: Step,
    ) -> bool {
        match class {
            Some(p) => self.applies(
                ChargerDomain::of_class(p.args@[0]),
                AfterApply::Sync,
                post,
                step,
            ),
            None => self.falls_back(post, step),
        }
    }

    pub(crate) fn conclude_blind(&mut self, class: Option<RazerPacket>) -> (step: Step)
        requires
            old(self).wf(),
        ensures
            final(self).wf(),
            old(self).concludes_blind(class, *final(self), step),
    {
        match class {
            Some(p) => self.plan_apply(ChargerDomain::from_actp(p.args[0]), AfterApply::Sync),
            None => self.set_ac_state_get(),
        }
    }

    /// The mirror of the adapter flag alone.
    pub open spec fn plugged(self, online: bool) -> DeviceManager {
        DeviceManager {
            device: match self.device {
                Some(d) => Some(RazerLaptop { ac_state: online as u8, ..d }),
                None => None,
            },
            ..self
        }
    }

    /// From `self`, the answer of UPower in the binary fallback leads to `post`
    /// and asks for `step`. No answer changes nothing.
    pub open spec fn concludes_binary(
        self,
        online: Option<bool>,
        post: DeviceManager,
        step: Step,
    ) -> bool {
        match online {
            None => post == self && step == Step::Done(Outcome::Nothing),
            Some(o) => step matches Step::Perform { actions, task } && task
                matches Task::BinaryApplied { writes } && self.plugged(o).writes_domain(
                binary_domain(o),
                post,
                actions@,
                writes,
            ),
        }
    }

    pub(crate) fn conclude_binary(&mut self, online: Option<bool>) -> (step: Step)
        requires
            old(self).wf(),
        ensures
            final(self).wf(),
            old(self).concludes_binary(online, *final(self), step),
    {
        match online {
            None => Step::Done(Outcome::Nothing),
            Some(o) => {
                if let Some(laptop) = &mut self.device {
                    laptop.set_ac_state(o);
                }
                let domain = if o {
                    ChargerDomain::Barrel
                } else {
                    ChargerDomain::Battery
                };
                let (actions, writes) = self.write_domain(domain);
                Step::Perform { actions, task: Task::BinaryApplied { writes } }
            },
        }
    }
}

/// A round that asks UPower.
fn online_round(task: Task) -> (step: Step)
    ensures
        step::asks(step, seq![Action::ReadOnline], task),
{
    let mut actions: Vec<Action> = Vec::new();
    actions.push(Action::ReadOnline);
    assert(actions@ =~= seq![Action::ReadOnline]);
    Step::Perform { actions, task }
}

} // verus!
