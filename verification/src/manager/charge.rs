//! The battery health optimizer.

use vstd::prelude::*;

use crate::command::EcCommand;
use crate::config::Configuration;
use crate::manager::DeviceManager;
use crate::manager::power;
use crate::manager::step;
use crate::manager::step::{answer_at, Action, Outcome, Reply, Step, Task};
use crate::profile::bho_threshold_valid;

verus! {

impl DeviceManager {
    /// A laptop with the optimizer is attached.
    pub open spec fn optimizes(self) -> bool {
        self.device matches Some(d) && d.has_bho()
    }

    /// A charge limit asks for `step`. A threshold outside 50 to 80 is
    /// refused, and so is every one on a model without the optimizer.
    pub open spec fn starts_limit(self, is_on: bool, threshold: u8, step: Step) -> bool {
        if 50 <= threshold <= 80 && self.optimizes() {
            step::asks(
                step,
                seq![
                    Action::Command(
                        EcCommand::ChargeLimit {
                            packed: crate::profile::packed_limit(is_on, threshold),
                        },
                    ),
                ],
                Task::LimitSent { is_on, threshold },
            )
        } else {
            step == Step::Done(Outcome::Flag(false))
        }
    }

    /// Sets the charge limit.
    pub fn set_bho_handler(&self, is_on: bool, threshold: u8) -> (step: Step)
        ensures
            self.starts_limit(is_on, threshold, step),
    {
        if !bho_threshold_valid(threshold) {
            return Step::Done(Outcome::Flag(false));
        }
        if let Some(laptop) = &self.device {
            if let Some(write) = laptop.set_bho(is_on, threshold) {
                return command_round(write, Task::LimitSent { is_on, threshold });
            }
        }
        Step::Done(Outcome::Flag(false))
    }

    /// The configuration with another charge limit.
    pub open spec fn storing_limit(self, is_on: bool, threshold: u8) -> DeviceManager {
        DeviceManager {
            config: match self.config {
                Some(c) => Some(Configuration { bho_on: is_on, bho_threshold: threshold, ..c }),
                None => None,
            },
            ..self
        }
    }

    /// From `self`, a charge limit confirmed or not leads to `post` and asks
    /// for `step`: only a confirmed one is committed and stored.
    pub open spec fn concludes_limit(
        self,
        is_on: bool,
        threshold: u8,
        replies: Seq<Reply>,
        post: DeviceManager,
        step: Step,
    ) -> bool {
        if step::answer(replies, 0) is None {
            post == self && step == Step::Done(Outcome::Flag(false))
        } else {
            &&& post == self.storing_limit(is_on, threshold)
            &&& step::asks(
                step,
                seq![Action::Command(EcCommand::ChargeLimitCommit)] + power::saves(
                    self.config is Some,
                ),
                Task::LimitStored { save: self.config is Some },
            )
        }
    }

    pub(crate) fn conclude_limit(
        &mut self,
        is_on: bool,
        threshold: u8,
        replies: &Vec<Reply>,
    ) -> (step: Step)
        requires
            old(self).wf(),
        ensures
            final(self).wf(),
            old(self).concludes_limit(is_on, threshold, replies@, *final(self), step),
    {
        if answer_at(replies, 0).is_none() {
            return Step::Done(Outcome::Flag(false));
        }
        let mut actions: Vec<Action> = Vec::new();
        actions.push(Action::Command(EcCommand::ChargeLimitCommit));
        let mut save = false;
        if let Some(config) = &mut self.config {
            config.bho_on = is_on;
            config.bho_threshold = threshold;
            actions.push(Action::Save);
            save = true;
        }
        assert(actions@ =~= seq![Action::Command(EcCommand::ChargeLimitCommit)] + power::saves(
            save,
        ));
        Step::Perform { actions, task: Task::LimitStored { save } }
    }

    /// The stored charge limit, `None` on a model without the optimizer.
    pub fn get_bho_handler(&self) -> (r: Option<(bool, u8)>)
        ensures
            r == (match self.config {
                Some(c) if self.optimizes() => Some((c.bho_on, c.bho_threshold)),
                _ => None,
            }),
    {
        let has_bho = match &self.device {
            Some(laptop) => laptop.have_feature("bho".to_owned()),
            None => false,
        };
        if !has_bho {
            return None;
        }
        match &self.config {
            Some(config) => Some((config.bho_on, config.bho_threshold)),
            None => None,
        }
    }

    /// Writing the stored charge limit again asks for `step`.
    pub open spec fn limits_again(self, step: Step) -> bool {
        match self.config {
            Some(c) if c.bho_on && self.optimizes() => step::asks(
                step,
                seq![
                    Action::Command(
                        EcCommand::ChargeLimit {
                            packed: crate::profile::packed_limit(true, c.bho_threshold),
                        },
                    ),
                ],
                Task::LimitRestored,
            ),
            _ => step == Step::Done(Outcome::Nothing),
        }
    }

    /// Writes the stored charge limit when the optimizer is on.
    pub fn restore_bho(&self) -> (step: Step)
        ensures
            self.limits_again(step),
    {
        if let Some(config) = &self.config {
            if config.bho_on {
                if let Some(laptop) = &self.device {
                    if let Some(write) = laptop.set_bho(true, config.bho_threshold) {
                        return command_round(write, Task::LimitRestored);
                    }
                }
            }
        }
        Step::Done(Outcome::Nothing)
    }
}

/// A round of one EC command.
pub(crate) fn command_round(command: EcCommand, task: Task) -> (step: Step)
    ensures
        step::asks(step, seq![Action::Command(command)], task),
{
    let mut actions: Vec<Action> = Vec::new();
    actions.push(Action::Command(command));
    assert(actions@ =~= seq![Action::Command(command)]);
    Step::Perform { actions, task }
}

} // verus!
