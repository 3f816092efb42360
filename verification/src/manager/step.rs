//! What the device manager asks the outside to do, and how it goes on.
//!
//! An operation of the manager is a chain of rounds. A round is a list of
//! actions, all of which are performed in order whatever becomes of each; their
//! replies, one per action, go back to the manager together with the task that
//! the round left open.

use vstd::prelude::*;

use crate::charger::ChargerDomain;
use crate::command::EcCommand;
use crate::comms::DesiredStateWire;
use crate::packet::RazerPacket;

verus! {

/// One thing to do outside.
#[derive(Debug, Clone, Copy, PartialEq, Eq, Structural)]
pub enum Action {
    /// Write the configuration of the manager to its file.
    Save,
    /// Have the EC confirm a command.
    Command(EcCommand),
    /// Ask UPower whether the adapter is online.
    ReadOnline,
    /// Read a monotonic clock, in nanoseconds.
    ReadClock,
    /// Wait.
    Sleep { ms: u64 },
}

/// What came of an action.
#[derive(Debug, Clone, Copy, PartialEq, Eq)]
pub enum Reply {
    /// The configuration was written, or could not be.
    Saved(bool),
    /// The reply that confirms the command, if there is one.
    Answer(Option<RazerPacket>),
    /// What UPower says, if anything.
    Online(Option<bool>),
    /// The time in nanoseconds.
    Clock(u64),
    /// The wait is over.
    Slept,
}

/// A run of actions of a round, `from` included, `to` not.
#[derive(Debug, Clone, Copy, PartialEq, Eq, Structural)]
pub struct Span {
    pub from: usize,
    pub to: usize,
}

/// Where in a round the writes stand whose confirmation counts. `None` stands
/// for writes that the round does not hold.
#[derive(Debug, Clone, Copy, PartialEq, Eq, Structural)]
pub struct Writes {
    /// The profile writes.
    pub power: Option<Span>,
    /// The writes that latch the fan curve again.
    pub relatch: Option<Span>,
}

/// What follows the application of a charger domain.
#[derive(Debug, Clone, Copy, PartialEq, Eq, Structural)]
pub enum AfterApply {
    /// Report the wire that was applied.
    Report,
    /// Nothing: the domain was synchronised.
    Sync,
    /// A press of the power key at `now` is complete.
    Key { now: u64, cold: bool },
    /// A power request goes on; `key` is the time of the press that made it.
    Write { ac: usize, pwr: u8, cpu: u8, gpu: u8, key: Option<u64> },
}

/// What a round left open.
#[allow(inconsistent_fields)]
#[derive(Debug, Clone, Copy, PartialEq, Eq, Structural)]
pub enum Task {
    /// A power request waits for the adapter class.
    ResolveWrite { ac: usize, pwr: u8, cpu: u8, gpu: u8 },
    /// A press of the power key waits for the adapter class, where `read`, and
    /// the time.
    ResolveCycle { read: bool },
    /// A re-application waits for the adapter class.
    ResolveReapply,
    /// The desired state waits for the adapter class.
    ResolveDesired,
    /// A charger domain was applied.
    Applied { domain: ChargerDomain, wire: Option<u8>, writes: Writes, after: AfterApply },
    /// A power request was stored, where `save`, and written, unless `deferred`.
    Written {
        pwr: u8,
        domain: ChargerDomain,
        save: bool,
        deferred: bool,
        writes: Writes,
        key: Option<u64>,
    },
    /// The profile was applied again.
    Reapplied { domain: ChargerDomain, wire: u8, writes: Writes },
    /// A stored slot was applied.
    SlotApplied { writes: Writes },
    /// A synchronisation waits for UPower.
    SyncOnline,
    /// A synchronisation with the adapter online waits for its class, after
    /// `attempt` earlier tries; `read` tells that it was asked for, `answered`
    /// that an earlier try had an answer.
    SyncClass { attempt: u8, read: bool, answered: bool },
    /// A synchronisation without UPower waits for the adapter class.
    SyncBlind,
    /// The binary fallback waits for UPower.
    BinaryOnline,
    /// The binary fallback applied a stored slot.
    BinaryApplied { writes: Writes },
    /// A colour was stored, where `save`, and written once.
    ColorSent { red: u8, green: u8, blue: u8, save: bool },
    /// The colour was written the second time.
    ColorFlushed { saved: bool },
    /// The lighting switch was stored.
    LightingSaved { enabled: bool, previous: bool },
    /// The lighting switch went on and the colour was written once.
    LightingColor { red: u8, green: u8, blue: u8, previous: bool },
    /// The lighting switch went on and the colour was written twice.
    LightingFlushed { previous: bool },
    /// The lighting switch was put back.
    LightingReverted { previous: bool },
    /// A setting was stored, where `save`, and written, unless `deferred`:
    /// `counted` are the writes that decide.
    Stored { save: bool, deferred: bool, counted: Option<Span> },
    /// A fan curve was stored; `restore` is the stored speed that the fans
    /// are handed back to.
    CurveSaved { restore: Option<i32> },
    /// The fan curve drove the fans.
    CurveDriven { rpm: u16, driven: Span },
    /// A charge limit was written.
    LimitSent { is_on: bool, threshold: u8 },
    /// A charge limit was committed and stored, where `save`.
    LimitStored { save: bool },
    /// The stored charge limit was written.
    LimitRestored,
    /// The stored charge limit was committed.
    LimitCommitted,
    /// The experimental unlock was stored; before, it and its mirror were
    /// `previous` and `mirrored`.
    UnlockSaved { previous: bool, mirrored: bool },
    /// A zone was read.
    ZoneRead,
    /// A boost tier was read.
    BoostRead,
    /// The brightness was read.
    BrightnessRead,
    /// The charge limit was read.
    LimitRead,
    /// A fan speed was read.
    SpeedRead,
    /// The tachometer was read for a client that wants a number.
    TachRead,
    /// The adapter class was read.
    ClassRead,
    /// The adapter class was read for the domain that it stands for.
    DomainRead,
    /// Nothing depends on what came of the round.
    Ignore,
}

/// How an operation ended.
#[derive(Debug, Clone, Copy, PartialEq, Eq)]
pub enum Outcome {
    /// Nothing to tell.
    Nothing,
    /// Success or failure.
    Flag(bool),
    /// A byte that the EC gave, or the wire that was applied.
    Byte(Option<u8>),
    /// A press of the power key: wire, domain, cold.
    Cycle(Option<(u8, ChargerDomain, bool)>),
    /// What should hold right now.
    Desired(Option<DesiredStateWire>),
    /// Profile and fan state of a zone.
    Zone(Option<(u8, u8)>),
    /// Charge limit: on, threshold.
    Limit(Option<(bool, u8)>),
    /// A fan speed.
    Speed(Option<u16>),
    /// A fan speed, -1 for none.
    Number(i32),
    /// The charger domain, if the EC gave it.
    Domain(Option<ChargerDomain>),
}

/// What an operation asks for next.
#[derive(Debug)]
pub enum Step {
    /// Perform these actions and hand the replies back with the task.
    Perform { actions: Vec<Action>, task: Task },
    /// The operation is over.
    Done(Outcome),
}

/// The step asks for exactly these actions and leaves `task` open.
pub open spec fn asks(step: Step, actions: Seq<Action>, task: Task) -> bool {
    step matches Step::Perform { actions: a, task: t } && a@ == actions && t == task
}

/// The reply that confirms action `i`, if there is one. A reply that is
/// missing or of another kind counts as a failure.
pub open spec fn answer(replies: Seq<Reply>, i: int) -> Option<RazerPacket> {
    if 0 <= i < replies.len() {
        match replies[i] {
            Reply::Answer(a) => a,
            _ => None,
        }
    } else {
        None
    }
}

/// Whether every action of a span was confirmed.
pub open spec fn confirmed(replies: Seq<Reply>, span: Span) -> bool {
    forall|i: int| span.from <= i < span.to ==> (#[trigger] answer(replies, i)) is Some
}

/// Whether the writes of a span are there and were all confirmed.
pub open spec fn took(replies: Seq<Reply>, span: Option<Span>) -> bool {
    span matches Some(s) && confirmed(replies, s)
}

/// Whether the configuration was written by action `i`.
pub open spec fn saved(replies: Seq<Reply>, i: int) -> bool {
    0 <= i < replies.len() && replies[i] == Reply::Saved(true)
}

/// What UPower said in action `i`.
pub open spec fn online(replies: Seq<Reply>, i: int) -> Option<bool> {
    if 0 <= i < replies.len() {
        match replies[i] {
            Reply::Online(o) => o,
            _ => None,
        }
    } else {
        None
    }
}

/// The time that action `i` read.
pub open spec fn clock(replies: Seq<Reply>, i: int) -> Option<u64> {
    if 0 <= i < replies.len() {
        match replies[i] {
            Reply::Clock(t) => Some(t),
            _ => None,
        }
    } else {
        None
    }
}

pub fn answer_at(replies: &Vec<Reply>, i: usize) -> (r: Option<RazerPacket>)
    ensures
        r == answer(replies@, i as int),
{
    if i < replies.len() {
        match replies[i] {
            Reply::Answer(a) => a,
            _ => None,
        }
    } else {
        None
    }
}

pub fn all_confirmed(replies: &Vec<Reply>, span: Span) -> (r: bool)
    ensures
        r == confirmed(replies@, span),
{
    let mut i: usize = span.from;
    while i < span.to
        invariant
            span.from <= i,
            i <= span.to || i == span.from,
            forall|j: int| span.from <= j < i ==> (#[trigger] answer(replies@, j)) is Some,
        decreases span.to - i,
    {
        if answer_at(replies, i).is_none() {
            assert(answer(replies@, i as int) is None);
            return false;
        }
        i = i + 1;
    }
    true
}

pub fn span_took(replies: &Vec<Reply>, span: Option<Span>) -> (r: bool)
    ensures
        r == took(replies@, span),
{
    match span {
        Some(s) => all_confirmed(replies, s),
        None => false,
    }
}

pub fn saved_at(replies: &Vec<Reply>, i: usize) -> (r: bool)
    ensures
        r == saved(replies@, i as int),
{
    if i < replies.len() {
        match replies[i] {
            Reply::Saved(ok) => ok,
            _ => false,
        }
    } else {
        false
    }
}

pub fn online_at(replies: &Vec<Reply>, i: usize) -> (r: Option<bool>)
    ensures
        r == online(replies@, i as int),
{
    if i < replies.len() {
        match replies[i] {
            Reply::Online(o) => o,
            _ => None,
        }
    } else {
        None
    }
}

pub fn clock_at(replies: &Vec<Reply>, i: usize) -> (r: Option<u64>)
    ensures
        r == clock(replies@, i as int),
{
    if i < replies.len() {
        match replies[i] {
            Reply::Clock(t) => Some(t),
            _ => None,
        }
    } else {
        None
    }
}

/// EC commands as actions.
pub open spec fn commands(writes: Seq<EcCommand>) -> Seq<Action> {
    writes.map_values(|c: EcCommand| Action::Command(c))
}

/// `writes` as a list that may be absent.
pub open spec fn listed(writes: Option<Seq<EcCommand>>) -> Seq<EcCommand> {
    match writes {
        Some(w) => w,
        None => seq![],
    }
}

/// Where `writes` stand when `before` actions come first.
pub open spec fn placed(before: nat, writes: Option<Seq<EcCommand>>) -> Option<Span> {
    match writes {
        Some(w) => Some(Span { from: before as usize, to: (before + w.len()) as usize }),
        None => None,
    }
}

/// A round that does `lead`, then lighting, profile and fan writes, and at last
/// latches the fan curve again; `at` tells where the writes stand that count.
pub open spec fn laid_out(
    actions: Seq<Action>,
    lead: Seq<Action>,
    light: Seq<EcCommand>,
    power: Option<Seq<EcCommand>>,
    fan: Seq<EcCommand>,
    relatch: Option<Seq<EcCommand>>,
    at: Writes,
) -> bool {
    let lit = lead.len() + light.len();
    let fanned = lit + listed(power).len() + fan.len();
    &&& actions == lead + commands(light) + commands(listed(power)) + commands(fan) + commands(
        listed(relatch),
    )
    &&& at.power == placed(lit, power)
    &&& at.relatch == placed(fanned, relatch)
}

/// Appends EC commands to a round; returns where they stand.
pub fn push_commands(actions: &mut Vec<Action>, writes: &Vec<EcCommand>) -> (span: Span)
    ensures
        final(actions)@ == old(actions)@ + commands(writes@),
        span.from == old(actions)@.len(),
        span.to == old(actions)@.len() + writes@.len(),
{
    let from: usize = actions.len();
    let ghost before = actions@;
    let mut i: usize = 0;
    while i < writes.len()
        invariant
            i <= writes@.len(),
            actions@ == before + commands(writes@.take(i as int)),
        decreases writes@.len() - i,
    {
        actions.push(Action::Command(writes[i]));
        assert(commands(writes@.take(i + 1)) =~= commands(writes@.take(i as int)).push(
            Action::Command(writes@[i as int]),
        ));
        i = i + 1;
        assert(actions@ =~= before + commands(writes@.take(i as int)));
    }
    assert(writes@.take(i as int) =~= writes@);
    Span { from, to: actions.len() }
}

} // verus!
