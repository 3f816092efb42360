//! One confirmed exchange with the embedded controller: a report is written,
//! then the reply is read until it answers this very report.

use vstd::prelude::*;

use crate::laptop::RazerLaptop;
use crate::packet;
use crate::packet::{RazerPacket, FRAME_LEN};
use crate::text;
use crate::text::hex_byte;

verus! {

/// Writes that one exchange may make.
pub const SEND_WRITE_ATTEMPTS: usize = 3;

/// Reads that follow one write at most.
pub const SEND_READ_POLLS: usize = 20;

/// Pause between two reads, and after a failed write.
pub const SEND_POLL_INTERVAL_MS: u64 = 5;

/// What a reply means for the exchange.
#[derive(Debug, Clone, Copy, PartialEq, Eq, Structural)]
pub enum ResponseAction {
    /// The reply answers the request with success.
    Accept,
    /// The EC is still busy, or the buffer holds an earlier reply: read again.
    KeepPolling,
    /// The EC reports failure: write again.
    Resend,
    /// The EC does not know the command: give up.
    Unsupported,
}

/// `remaining_packets` that the reply to a read has to carry, where it is
/// known.
pub fn expected_reply_remaining(class: u8, id: u8) -> (r: Option<u16>)
    ensures
        r == (if class == 0x07 && id == 0x92 {
            Some(1u16)
        } else {
            None
        }),
{
    match (class, id) {
        (0x07, 0x92) => Some(0x0001),
        _ => None,
    }
}

/// A reply that speaks of the command of `request`: same class and id, and the
/// `remaining_packets` that belongs to it. Writes echo that field. Reads
/// (command id with bit 7 set) use it for data of their own: 1 for the charge
/// limit, anything otherwise.
pub open spec fn concerns(request: RazerPacket, response: RazerPacket) -> bool {
    &&& response.command_class == request.command_class
    &&& response.command_id == request.command_id
    &&& if request.command_id < 0x80 {
        response.remaining_packets == request.remaining_packets
    } else {
        request.command_class == 0x07 && request.command_id == 0x92
            ==> response.remaining_packets == 1
    }
}

/// A reply that confirms `request`: it concerns the command, carries success
/// and the transaction id of this very write.
pub open spec fn confirms(request: RazerPacket, response: RazerPacket) -> bool {
    &&& concerns(request, response)
    &&& response.status == RazerPacket::RAZER_CMD_SUCCESSFUL
    &&& response.id == request.id
}

/// A status by which the EC, or an earlier reply in its buffer, asks to be
/// read again.
pub open spec fn busy(status: u8) -> bool {
    status == RazerPacket::RAZER_CMD_BUSY || status == RazerPacket::RAZER_CMD_NEW || status
        == RazerPacket::RAZER_CMD_TIMEOUT
}

/// What `response` means for the exchange that wrote `request`.
pub open spec fn verdict(request: RazerPacket, response: RazerPacket) -> ResponseAction {
    if confirms(request, response) {
        ResponseAction::Accept
    } else if !concerns(request, response) || busy(response.status) || response.status
        == RazerPacket::RAZER_CMD_SUCCESSFUL {
        ResponseAction::KeepPolling
    } else if response.status == RazerPacket::RAZER_CMD_NOT_SUPPORTED {
        ResponseAction::Unsupported
    } else {
        ResponseAction::Resend
    }
}

/// Holds a reply against the request that was just written.
pub fn classify_response(request: &RazerPacket, response: &RazerPacket) -> (r: ResponseAction)
    ensures
        r == verdict(*request, *response),
{
    if response.command_class != request.command_class || response.command_id
        != request.command_id {
        return ResponseAction::KeepPolling;
    }
    let id = request.command_id;
    assert((id & 0x80 != 0) == (id >= 0x80)) by (bit_vector);
    let is_get = id & 0x80 != 0;
    if is_get {
        if let Some(expected) = expected_reply_remaining(
            request.command_class,
            request.command_id,
        ) {
            if response.remaining_packets != expected {
                return ResponseAction::KeepPolling;
            }
        }
    } else if response.remaining_packets != request.remaining_packets {
        return ResponseAction::KeepPolling;
    }
    if response.status == RazerPacket::RAZER_CMD_SUCCESSFUL {
        if response.id != request.id {
            return ResponseAction::KeepPolling;
        }
        ResponseAction::Accept
    } else if response.status == RazerPacket::RAZER_CMD_BUSY || response.status
        == RazerPacket::RAZER_CMD_NEW || response.status == RazerPacket::RAZER_CMD_TIMEOUT {
        ResponseAction::KeepPolling
    } else if response.status == RazerPacket::RAZER_CMD_NOT_SUPPORTED {
        ResponseAction::Unsupported
    } else {
        ResponseAction::Resend
    }
}

/// Time that the EC needs to latch a thermal write before the next command.
pub fn thermal_settle_ms(command_class: u8, command_id: u8) -> (ms: u64)
    ensures
        ms == settle(command_class, command_id),
{
    match (command_class, command_id) {
        (0x0d, 0x02) => 200,
        (0x0d, 0x01) | (0x0d, 0x07) => 100,
        _ => 0,
    }
}

/// Time that the EC needs to latch a thermal write: 200 ms for a fan mode,
/// 100 ms for a fan speed or a boost tier, none for anything else.
pub open spec fn settle(class: u8, id: u8) -> u64 {
    if class == 0x0d && id == 0x02 {
        200
    } else if class == 0x0d && (id == 0x01 || id == 0x07) {
        100
    } else {
        0
    }
}

/// The transaction id that follows `current`.
pub open spec fn next_tid(current: u8) -> u8 {
    if current >= 30 {
        1
    } else {
        (current + 1) as u8
    }
}

/// The transaction id that follows `current`: 1 to 30, then 1 again.
pub fn advance_tid(current: u8) -> (next: u8)
    requires
        current < 255,
    ensures
        next == next_tid(current),
        1 <= next <= 30,
{
    let next: u8 = current + 1;
    if next > 30 {
        1
    } else {
        next
    }
}

/// The transaction id after `n` writes.
pub open spec fn tid_after(start: u8, n: nat) -> u8
    decreases n,
{
    if n == 0 {
        start
    } else {
        next_tid(tid_after(start, (n - 1) as nat))
    }
}

/// From the start the ids run 1, 2, .., 30 and then from 1 again; neither 0
/// nor 31 is ever written.
pub proof fn transaction_ids_cycle(n: nat)
    requires
        n > 0,
    ensures
        tid_after(0, n) == (n - 1) % 30 + 1,
        1 <= tid_after(0, n) <= 30,
    decreases n,
{
    reveal_with_fuel(tid_after, 2);
    if n > 1 {
        transaction_ids_cycle((n - 1) as nat);
    }
}

/// An exchange under way.
#[derive(Debug)]
pub struct Exchange {
    /// The report as last written.
    pub request: RazerPacket,
    /// Writes made.
    pub writes: usize,
    /// Replies looked at since the last write.
    pub polls: usize,
    /// The last step asked for a write whose result is not known yet.
    pub writing: bool,
}

/// What the exchange asks for next. Each waits `delay_ms` first.
#[derive(Debug)]
pub enum LinkStep {
    /// Write this HID buffer as a feature report.
    Write { delay_ms: u64, frame: Vec<u8> },
    /// Read a feature report.
    Read { delay_ms: u64 },
    /// The exchange is over: the reply that confirms it, if there is one.
    Finish { delay_ms: u64, reply: Option<RazerPacket> },
}

/// A write of `request` under transaction id `id`: `sent` is the report as it
/// goes out and `buf` its HID buffer.
pub open spec fn goes_out(request: RazerPacket, id: u8, sent: RazerPacket, buf: Seq<u8>) -> bool {
    let addressed = RazerPacket { id, ..request };
    &&& sent == (RazerPacket { crc: packet::checksum(addressed), ..addressed })
    &&& buf == packet::frame(sent)
}

impl Exchange {
    /// Counters within their bounds.
    pub open spec fn wf(self) -> bool {
        &&& 1 <= self.writes <= SEND_WRITE_ATTEMPTS
        &&& self.polls < SEND_READ_POLLS
        &&& self.writing ==> self.polls == 0
    }

    /// Steps that are left at most.
    pub open spec fn budget(self) -> int {
        (SEND_WRITE_ATTEMPTS - self.writes) * (SEND_READ_POLLS + 1) + (SEND_READ_POLLS
            - self.polls) + if self.writing {
            1int
        } else {
            0
        }
    }
}

/// The state in which every write of an exchange leaves laptop and exchange.
pub open spec fn written(
    before: RazerLaptop,
    request: RazerPacket,
    writes: int,
    after: RazerLaptop,
    ex: Exchange,
    delay: u64,
    step: LinkStep,
) -> bool {
    let id = next_tid(before.transaction_id);
    &&& after == (RazerLaptop { transaction_id: id, ..before })
    &&& ex.writes == writes
    &&& ex.polls == 0
    &&& ex.writing
    &&& step matches LinkStep::Write { delay_ms, frame } && delay_ms == delay && goes_out(
        request,
        id,
        ex.request,
        frame@,
    )
}

/// Sending `report` takes the laptop from `before` to `after`, starts the exchange
/// `ex` and asks for `step`.
pub open spec fn sends(
    before: RazerLaptop,
    report: RazerPacket,
    after: RazerLaptop,
    ex: Exchange,
    step: LinkStep,
) -> bool {
    written(before, report, 1, after, ex, 0, step)
}

/// A write that was made, or failed, takes laptop and exchange from `before` and
/// `from` to `after` and `to`, and asks for `step`.
pub open spec fn after_write(
    before: RazerLaptop,
    from: Exchange,
    ok: bool,
    after: RazerLaptop,
    to: Exchange,
    step: LinkStep,
) -> bool {
    &&& ok ==> {
        &&& after == before
        &&& to == (Exchange { polls: 0, writing: false, ..from })
        &&& step matches LinkStep::Read { delay_ms } && delay_ms == 0
    }
    &&& !ok && from.writes < SEND_WRITE_ATTEMPTS ==> written(
        before,
        from.request,
        from.writes + 1,
        after,
        to,
        SEND_POLL_INTERVAL_MS,
        step,
    )
    &&& !ok && from.writes == SEND_WRITE_ATTEMPTS ==> {
        &&& after == before
        &&& to == from
        &&& step matches LinkStep::Finish { delay_ms, reply } && delay_ms
            == SEND_POLL_INTERVAL_MS && reply is None
    }
}

/// A read that brought `received` in takes laptop and exchange from `before`
/// and `from` to `after` and `to`, and asks for `step`.
pub open spec fn after_read(
    before: RazerLaptop,
    from: Exchange,
    received: Option<Vec<u8>>,
    after: RazerLaptop,
    to: Exchange,
    step: LinkStep,
) -> bool {
    match heard(from.request, received) {
        (ResponseAction::Accept, reply) => {
            &&& after == before
            &&& to == from
            &&& step == (LinkStep::Finish {
                delay_ms: settle(
                    from.request.command_class,
                    from.request.command_id,
                ),
                reply,
            })
        },
        (ResponseAction::KeepPolling, _) => {
            &&& after == before
            &&& if from.polls + 1 < SEND_READ_POLLS {
                &&& to == (Exchange {
                    polls: (from.polls + 1) as usize,
                    writing: false,
                    ..from
                })
                &&& step == (LinkStep::Read { delay_ms: SEND_POLL_INTERVAL_MS })
            } else {
                &&& to == from
                &&& step == (LinkStep::Finish { delay_ms: 0, reply: None })
            }
        },
        (ResponseAction::Resend, _) => {
            if from.writes < SEND_WRITE_ATTEMPTS {
                written(
                    before,
                    from.request,
                    from.writes + 1,
                    after,
                    to,
                    0,
                    step,
                )
            } else {
                &&& after == before
                &&& to == from
                &&& step == (LinkStep::Finish { delay_ms: 0, reply: None })
            }
        },
        (ResponseAction::Unsupported, _) => {
            let class = from.request.command_class;
            let id = from.request.command_id;
            let known = before.unsupported_cmds@;
            &&& after == (RazerLaptop {
                unsupported_cmds: after.unsupported_cmds,
                ..before
            })
            &&& after.unsupported_cmds@ == (if recorded(known, class, id) {
                known
            } else {
                known.push((class, id))
            })
            &&& to == from
            &&& step == (LinkStep::Finish { delay_ms: 0, reply: None })
        },
    }
}

/// Whether a command is recorded as unsupported.
pub open spec fn recorded(commands: Seq<(u8, u8)>, class: u8, id: u8) -> bool {
    commands.contains((class, id))
}

fn is_recorded(commands: &Vec<(u8, u8)>, class: u8, id: u8) -> (r: bool)
    ensures
        r == recorded(commands@, class, id),
{
    let mut i: usize = 0;
    while i < commands.len()
        invariant
            i <= commands@.len(),
            forall|j: int| 0 <= j < i ==> commands@[j] != (class, id),
        decreases commands@.len() - i,
    {
        if commands[i].0 == class && commands[i].1 == id {
            assert(commands@[i as int] == (class, id));
            return true;
        }
        i = i + 1;
    }
    false
}

/// A reply that would confirm `request` but for its transaction id: the EC had
/// it in its buffer from an earlier write.
pub open spec fn stale(request: RazerPacket, response: RazerPacket) -> bool {
    &&& concerns(request, response)
    &&& response.status == RazerPacket::RAZER_CMD_SUCCESSFUL
    &&& response.id != request.id
}

fn is_stale(request: &RazerPacket, response: &RazerPacket) -> (r: bool)
    ensures
        r == stale(*request, *response),
{
    // Under the id of the request it would be accepted.
    let awaited = RazerPacket { id: response.id, ..*request };
    response.id != request.id && matches!(
        classify_response(&awaited, response),
        ResponseAction::Accept
    )
}

/// How the journal puts it that a reply is stale.
pub open spec fn stale_text(request: RazerPacket, response: RazerPacket) -> Seq<char> {
    "Stale reply (TID 0x"@ + text::hex2(response.id) + ", expected 0x"@ + text::hex2(request.id)
        + ") for class 0x"@ + text::hex2(response.command_class) + " id 0x"@ + text::hex2(
        response.command_id,
    ) + " — polling on"@
}

/// A command that the EC does not support, for the journal.
#[derive(Debug)]
pub struct Rejection {
    /// It is the first time that the EC says so of the command.
    pub first: bool,
    pub text: String,
}

/// How the journal puts it that a command is not supported.
pub open spec fn rejection_text(first: bool, class: u8, id: u8) -> Seq<char> {
    let short = "Command not supported (class 0x"@ + text::hex2(class) + " id 0x"@ + text::hex2(id)
        + ")"@;
    if first {
        short
            + " — further rejects of this command log at debug level only; the write itself keeps being sent (wire parity)"@
    } else {
        short
    }
}

impl RazerLaptop {
    fn next_transaction_id(&mut self) -> (id: u8)
        requires
            old(self).wf(),
        ensures
            id == next_tid(old(self).transaction_id),
            *final(self) == (RazerLaptop { transaction_id: id, ..*old(self) }),
            final(self).wf(),
    {
        self.transaction_id = advance_tid(self.transaction_id);
        self.transaction_id
    }

    fn write_report(&mut self, ex: &mut Exchange, delay_ms: u64) -> (step: LinkStep)
        requires
            old(self).wf(),
            old(ex).writes < SEND_WRITE_ATTEMPTS,
        ensures
            final(self).wf(),
            final(ex).wf(),
            written(
                *old(self),
                old(ex).request,
                old(ex).writes + 1,
                *final(self),
                *final(ex),
                delay_ms,
                step,
            ),
    {
        ex.request.id = self.next_transaction_id();
        let frame = ex.request.calc_crc();
        ex.writes = ex.writes + 1;
        ex.polls = 0;
        ex.writing = true;
        LinkStep::Write { delay_ms, frame }
    }

    /// Starts the exchange that sends `report` and has it confirmed.
    pub fn send_report(&mut self, report: RazerPacket) -> (r: (Exchange, LinkStep))
        requires
            old(self).wf(),
        ensures
            final(self).wf(),
            r.0.wf(),
            sends(*old(self), report, *final(self), r.0, r.1),
    {
        let mut ex = Exchange { request: report, writes: 0, polls: 0, writing: false };
        let step = self.write_report(&mut ex, 0);
        (ex, step)
    }

    /// Goes on once the write was made (`ok`) or failed. A failed write is
    /// made again under the next transaction id, until the attempts are used
    /// up.
    pub fn report_written(&mut self, ex: &mut Exchange, ok: bool) -> (step: LinkStep)
        requires
            old(self).wf(),
            old(ex).wf(),
        ensures
            final(self).wf(),
            final(ex).wf(),
            after_write(*old(self), *old(ex), ok, *final(self), *final(ex), step),
            old(ex).writing && !(step is Finish) ==> final(ex).budget() < old(ex).budget(),
    {
        if ok {
            ex.polls = 0;
            ex.writing = false;
            return LinkStep::Read { delay_ms: 0 };
        }
        if ex.writes < SEND_WRITE_ATTEMPTS {
            self.write_report(ex, SEND_POLL_INTERVAL_MS)
        } else {
            LinkStep::Finish { delay_ms: SEND_POLL_INTERVAL_MS, reply: None }
        }
    }

    /// What the journal is told when a read says that the command is not
    /// supported: the first time at length, afterwards in short.
    pub fn rejection(&self, ex: &Exchange, received: &Option<Vec<u8>>) -> (r: Option<Rejection>)
        ensures
            r is Some <==> heard(ex.request, *received).0 is Unsupported,
            r matches Some(told) ==> {
                let class = ex.request.command_class;
                let id = ex.request.command_id;
                &&& told.first == !recorded(self.unsupported_cmds@, class, id)
                &&& told.text@ == rejection_text(told.first, class, id)
            },
    {
        let unsupported = match read_report(received) {
            Some(reply) => matches!(
                classify_response(&ex.request, &reply),
                ResponseAction::Unsupported
            ),
            None => false,
        };
        if !unsupported {
            return None;
        }
        let class = ex.request.command_class;
        let id = ex.request.command_id;
        let first = !is_recorded(&self.unsupported_cmds, class, id);
        let mut text = "Command not supported (class 0x".to_owned();
        text.append(hex_byte(class).as_str());
        text.append(" id 0x");
        text.append(hex_byte(id).as_str());
        text.append(")");
        if first {
            text.append(
                " — further rejects of this command log at debug level only; the write itself keeps being sent (wire parity)",
            );
        }
        Some(Rejection { first, text })
    }

    /// What the journal is told when a read brings in the reply to an earlier
    /// write.
    pub fn stale_reply(&self, ex: &Exchange, received: &Option<Vec<u8>>) -> (r: Option<String>)
        ensures
            r is Some <==> (brought(*received) matches Some(p) && stale(ex.request, p)),
            r matches Some(told) ==> told@ == stale_text(ex.request, brought(*received)->0),
    {
        match read_report(received) {
            Some(p) => {
                if !is_stale(&ex.request, &p) {
                    return None;
                }
                let mut text = "Stale reply (TID 0x".to_owned();
                text.append(hex_byte(p.id).as_str());
                text.append(", expected 0x");
                text.append(hex_byte(ex.request.id).as_str());
                text.append(") for class 0x");
                text.append(hex_byte(p.command_class).as_str());
                text.append(" id 0x");
                text.append(hex_byte(p.command_id).as_str());
                text.append(" — polling on");
                Some(text)
            },
            None => None,
        }
    }

    /// Goes on once a feature report was read: `received` holds the bytes that
    /// came in, `None` a failed read. What is not a whole report counts as one
    /// more fruitless look.
    pub fn report_received(&mut self, ex: &mut Exchange, received: Option<Vec<u8>>) -> (step:
        LinkStep)
        requires
            old(self).wf(),
            old(ex).wf(),
        ensures
            final(self).wf(),
            final(ex).wf(),
            after_read(*old(self), *old(ex), received, *final(self), *final(ex), step),
            !old(ex).writing && !(step is Finish) ==> final(ex).budget() < old(ex).budget(),
    {
        let response = read_report(&received);
        assert(heard(ex.request, received).1 == response);
        let action = match &response {
            Some(reply) => classify_response(&ex.request, reply),
            None => ResponseAction::KeepPolling,
        };
        match action {
            ResponseAction::Accept => {
                let delay_ms = thermal_settle_ms(ex.request.command_class, ex.request.command_id);
                LinkStep::Finish { delay_ms, reply: response }
            },
            ResponseAction::KeepPolling => {
                if ex.polls + 1 < SEND_READ_POLLS {
                    ex.polls = ex.polls + 1;
                    ex.writing = false;
                    LinkStep::Read { delay_ms: SEND_POLL_INTERVAL_MS }
                } else {
                    LinkStep::Finish { delay_ms: 0, reply: None }
                }
            },
            ResponseAction::Resend => {
                if ex.writes < SEND_WRITE_ATTEMPTS {
                    self.write_report(ex, 0)
                } else {
                    LinkStep::Finish { delay_ms: 0, reply: None }
                }
            },
            ResponseAction::Unsupported => {
                let class = ex.request.command_class;
                let id = ex.request.command_id;
                if !is_recorded(&self.unsupported_cmds, class, id) {
                    self.unsupported_cmds.push((class, id));
                }
                LinkStep::Finish { delay_ms: 0, reply: None }
            },
        }
    }
}

/// The report that a read brought in, `None` when it failed or was not a whole
/// report.
pub open spec fn brought(received: Option<Vec<u8>>) -> Option<RazerPacket> {
    match received {
        Some(bytes) if bytes@.len() == FRAME_LEN => Some(
            choose|p: RazerPacket| packet::frame(p) == bytes@,
        ),
        _ => None,
    }
}

fn read_report(received: &Option<Vec<u8>>) -> (r: Option<RazerPacket>)
    ensures
        r == brought(*received),
{
    match received {
        Some(bytes) => {
            if bytes.len() == FRAME_LEN {
                let decoded = RazerPacket::decode(bytes);
                proof {
                    assert(bytes@.take(FRAME_LEN as int) =~= bytes@);
                    let p = decoded->0;
                    assert forall|q: RazerPacket| packet::frame(q) == bytes@ implies q == p by {
                        packet::frame_is_injective(q, p);
                    }
                }
                decoded
            } else {
                None
            }
        },
        None => None,
    }
}

/// What a read means for the exchange, and the report that it brought in.
pub open spec fn heard(request: RazerPacket, received: Option<Vec<u8>>) -> (
    ResponseAction,
    Option<RazerPacket>,
) {
    match brought(received) {
        Some(response) => (verdict(request, response), Some(response)),
        None => (ResponseAction::KeepPolling, None),
    }
}

/// An exchange comes to its end: along any run the steps are no more than the
/// budget it starts with, which is at most three writes and sixty reads.
pub proof fn exchange_is_bounded(run: Seq<Exchange>)
    requires
        run.len() > 0,
        forall|i: int| 0 <= i < run.len() ==> (#[trigger] run[i]).wf(),
        forall|i: int|
            #![trigger run[i]]
            0 <= i && i + 1 < run.len() ==> run[i + 1].budget() < run[i].budget(),
    ensures
        run.len() <= run[0].budget() + 1,
        run.len() <= 64,
    decreases run.len(),
{
    if run.len() > 1 {
        let rest = run.drop_first();
        assert forall|i: int| 0 <= i < rest.len() implies (#[trigger] rest[i]).wf() by {
            assert(rest[i] == run[i + 1]);
        }
        assert forall|i: int|
            #![trigger rest[i]]
            0 <= i && i + 1 < rest.len() implies rest[i + 1].budget() < rest[i].budget() by {
            assert(rest[i] == run[i + 1]);
            assert(rest[i + 1] == run[i + 2]);
        }
        exchange_is_bounded(rest);
        assert(run[1] == rest[0]);
    }
}

/// A reply is taken for the answer exactly where it names the command that was
/// written, carries its transaction id and reports success. A write also has
/// its packet count echoed; the read of the charge limit is answered with one.
pub proof fn only_its_own_reply_confirms(request: RazerPacket, response: RazerPacket)
    ensures
        verdict(request, response) is Accept <==> {
            &&& response.command_class == request.command_class
            &&& response.command_id == request.command_id
            &&& response.id == request.id
            &&& response.status == 2
            &&& request.command_id < 0x80 ==> response.remaining_packets
                == request.remaining_packets
            &&& request.command_class == 0x07 && request.command_id == 0x92
                ==> response.remaining_packets == 1
        },
{
}

/// A reply that names another command, or the same one while the controller is
/// still at it, is waited out; one that is refused for good is not asked for
/// again; after any other failure the command is written anew.
pub proof fn every_other_reply_is_waited_out_or_ends(request: RazerPacket, response: RazerPacket)
    ensures
        response.command_class != request.command_class || response.command_id
            != request.command_id ==> verdict(request, response) is KeepPolling,
        response.status <= 1 || response.status == 4 ==> verdict(request, response)
            is KeepPolling,
        verdict(request, response) is Unsupported ==> response.status == 5,
        verdict(request, response) is Resend ==> response.status == 3 || response.status > 5,
        ({
            &&& response.command_class == request.command_class
            &&& response.command_id == request.command_id
            &&& request.command_id < 0x80 && response.remaining_packets
                == request.remaining_packets
        }) ==> {
            &&& response.status == 5 ==> verdict(request, response) is Unsupported
            &&& response.status == 3 || response.status > 5 ==> verdict(request, response)
                is Resend
            &&& response.status == 2 && response.id != request.id ==> verdict(request, response)
                is KeepPolling
        },
{
}

/// A report goes out at once, as it was given but for its transaction id, which
/// follows the last one, and its checksum. Nothing else of the laptop changes.
pub proof fn a_report_goes_out_at_once(
    before: RazerLaptop,
    report: RazerPacket,
    after: RazerLaptop,
    ex: Exchange,
    step: LinkStep,
)
    requires
        sends(before, report, after, ex, step),
    ensures
        step matches LinkStep::Write { delay_ms, frame } && delay_ms == 0 && frame@
            == packet::frame(ex.request),
        ex.writes == 1 && ex.polls == 0 && ex.writing,
        before.transaction_id < 30 ==> ex.request.id == before.transaction_id + 1,
        before.transaction_id >= 30 ==> ex.request.id == 1,
        ex.request.crc == packet::checksum(ex.request),
        ex.request == (RazerPacket { id: ex.request.id, crc: ex.request.crc, ..report }),
        after == (RazerLaptop { transaction_id: ex.request.id, ..before }),
{
}

/// A report goes out under the next transaction id with its checksum. Once it
/// was written the reply is looked for at once; where the write failed it is
/// made again after 5 ms, three times in all, and then the exchange is lost.
pub proof fn a_failed_write_is_made_again(
    before: RazerLaptop,
    from: Exchange,
    ok: bool,
    after: RazerLaptop,
    to: Exchange,
    step: LinkStep,
)
    requires
        from.wf(),
        after_write(before, from, ok, after, to, step),
    ensures
        from.writes <= 3,
        ok ==> step == (LinkStep::Read { delay_ms: 0 }) && !to.writing && to.polls == 0 && to.writes
            == from.writes && to.request == from.request && after == before,
        !ok && from.writes < 3 ==> {
            &&& to.writes == from.writes + 1
            &&& step matches LinkStep::Write { delay_ms, frame } && delay_ms == 5 && frame@
                == packet::frame(to.request)
            &&& to.request.id == next_tid(before.transaction_id)
            &&& to.request.command_class == from.request.command_class
            &&& to.request.command_id == from.request.command_id
            &&& to.request.args == from.request.args
            &&& to.request.data_size == from.request.data_size
            &&& after.transaction_id == to.request.id
        },
        !ok && from.writes == 3 ==> step == (LinkStep::Finish { delay_ms: 5, reply: None }),
{
}

/// A reply that confirms the command ends the exchange and is its result. One
/// that does not is looked past, every 5 ms and twenty times in all. A refusal
/// for good ends the exchange without a result and is recorded once; after any
/// other failure the report is written anew, three times in all.
pub proof fn a_reply_decides_the_exchange(
    before: RazerLaptop,
    from: Exchange,
    received: Option<Vec<u8>>,
    p: RazerPacket,
    after: RazerLaptop,
    to: Exchange,
    step: LinkStep,
)
    requires
        from.wf(),
        after_read(before, from, received, after, to, step),
        brought(received) == Some(p),
    ensures
        verdict(from.request, p) is Accept ==> (step matches LinkStep::Finish { reply, .. } && reply
            == Some(p)) && after == before,
        verdict(from.request, p) is KeepPolling && from.polls < 19 ==> step == (LinkStep::Read {
            delay_ms: 5,
        }) && to.polls == from.polls + 1 && to.writes == from.writes && to.request == from.request,
        verdict(from.request, p) is KeepPolling && from.polls == 19 ==> step == (LinkStep::Finish {
            delay_ms: 0,
            reply: None,
        }),
        verdict(from.request, p) is Resend && from.writes < 3 ==> (step matches LinkStep::Write {
            delay_ms,
            frame,
        } && delay_ms == 0 && frame@ == packet::frame(to.request) && to.writes == from.writes + 1
            && to.request.id == next_tid(before.transaction_id) && to.request.args
            == from.request.args),
        verdict(from.request, p) is Resend && from.writes == 3 ==> step == (LinkStep::Finish {
            delay_ms: 0,
            reply: None,
        }),
        verdict(from.request, p) is Unsupported ==> {
            let command = (from.request.command_class, from.request.command_id);
            &&& step == (LinkStep::Finish { delay_ms: 0, reply: None })
            &&& after.unsupported_cmds@.contains(command)
            &&& before.unsupported_cmds@.contains(command) ==> after.unsupported_cmds@
                == before.unsupported_cmds@
            &&& !before.unsupported_cmds@.contains(command) ==> after.unsupported_cmds@
                == before.unsupported_cmds@ + seq![command]
        },
        !(verdict(from.request, p) is Unsupported) ==> after.unsupported_cmds
            == before.unsupported_cmds,
        from.polls <= 19,
{
    let command = (from.request.command_class, from.request.command_id);
    let known = before.unsupported_cmds@;
    assert(known.push(command) =~= known + seq![command]);
    assert(known.push(command)[known.len() as int] == command);
}

/// A read that failed, or brought less than a whole report, is one more
/// fruitless look.
pub proof fn a_broken_read_is_looked_past(
    before: RazerLaptop,
    from: Exchange,
    received: Option<Vec<u8>>,
    after: RazerLaptop,
    to: Exchange,
    step: LinkStep,
)
    requires
        from.wf(),
        after_read(before, from, received, after, to, step),
        received matches Some(bytes) ==> bytes@.len() != 91,
    ensures
        after == before,
        from.polls < 19 ==> step == (LinkStep::Read { delay_ms: 5 }) && to.polls == from.polls + 1
            && to.writes == from.writes && to.request == from.request,
        from.polls == 19 ==> step == (LinkStep::Finish { delay_ms: 0, reply: None }),
{
}

/// After a confirmed profile write the controller is given 200 ms to settle,
/// after a confirmed fan or boost write 100 ms, after anything else nothing.
pub proof fn a_confirmed_thermal_write_settles(
    before: RazerLaptop,
    from: Exchange,
    received: Option<Vec<u8>>,
    p: RazerPacket,
    after: RazerLaptop,
    to: Exchange,
    step: LinkStep,
)
    requires
        after_read(before, from, received, after, to, step),
        brought(received) == Some(p),
        verdict(from.request, p) is Accept,
    ensures
        step matches LinkStep::Finish { delay_ms, .. } && {
            let class = from.request.command_class;
            let id = from.request.command_id;
            &&& class == 0x0d && id == 0x02 ==> delay_ms == 200
            &&& class == 0x0d && (id == 0x01 || id == 0x07) ==> delay_ms == 100
            &&& class != 0x0d || id > 0x07 || (0x02 < id < 0x07) || id == 0 ==> delay_ms == 0
        },
{
}

} // verus!
