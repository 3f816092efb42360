//! The 90-byte feature report of the embedded controller (EC), carried in a
//! 91-byte HID buffer whose first byte is the report id.

use vstd::prelude::*;

verus! {

/// Number of argument bytes in a report.
pub const ARGS_LEN: usize = 80;

/// Length of the HID buffer: the report id and the 90-byte report.
pub const FRAME_LEN: usize = 91;

/// Position of the checksum in the HID buffer.
pub const CRC_AT: usize = 89;

/// One report, sent to the EC as a request or read back as its reply.
#[derive(Debug, Clone, Copy, PartialEq, Eq)]
pub struct RazerPacket {
    pub report: u8,
    pub status: u8,
    pub id: u8,
    pub remaining_packets: u16,
    pub protocol_type: u8,
    pub data_size: u8,
    pub command_class: u8,
    pub command_id: u8,
    pub args: [u8; 80],
    pub crc: u8,
    pub reserved: u8,
}

/// XOR of all bytes of `s`.
pub open spec fn xor_all(s: Seq<u8>) -> u8
    decreases s.len(),
{
    if s.len() == 0 {
        0
    } else {
        xor_all(s.drop_last()) ^ s.last()
    }
}

/// The report bytes `[2..88)` that the checksum covers, in wire order:
/// `remaining_packets` big-endian, the header, the arguments.
pub open spec fn checked_bytes(p: RazerPacket) -> Seq<u8> {
    seq![
        (p.remaining_packets / 256) as u8,
        (p.remaining_packets % 256) as u8,
        p.protocol_type,
        p.data_size,
        p.command_class,
        p.command_id,
    ] + p.args@
}

/// The checksum of a report.
pub open spec fn checksum(p: RazerPacket) -> u8 {
    xor_all(checked_bytes(p))
}

/// The HID buffer that carries `p`, checksum byte included as it stands in `p`.
pub open spec fn frame(p: RazerPacket) -> Seq<u8> {
    seq![p.report, p.status, p.id] + checked_bytes(p) + seq![p.crc, p.reserved]
}

/// The same buffer with `remaining_packets` in little-endian order.
pub open spec fn little_endian_frame(p: RazerPacket) -> Seq<u8> {
    frame(p).update(3, (p.remaining_packets % 256) as u8).update(
        4,
        (p.remaining_packets / 256) as u8,
    )
}

/// Calls `bincode::serialize` on the fields of `p` in declaration order, the
/// arguments split into arrays that serde covers.
///
/// Claimed of bincode 1.3: with the fixed-width little-endian encoding that its
/// root functions use, integers and arrays of bytes are written back to back
/// with neither tags nor length prefixes, and writing to memory cannot fail.
#[verifier::external_body]
fn bincode_serialize(p: &RazerPacket) -> (buf: Vec<u8>)
    ensures
        buf@ == little_endian_frame(*p),
{
    let a: [u8; 32] = p.args[0..32].try_into().unwrap();
    let b: [u8; 32] = p.args[32..64].try_into().unwrap();
    let c: [u8; 16] = p.args[64..80].try_into().unwrap();
    let head = (p.report, p.status, p.id, p.remaining_packets, p.protocol_type);
    let body = (p.data_size, p.command_class, p.command_id, a, b, c, p.crc, p.reserved);
    bincode::serialize(&(head, body)).unwrap()
}

/// Calls `bincode::deserialize` for the fields of a report in declaration order.
///
/// Claimed of bincode 1.3: the same encoding is read back; every byte pattern
/// is a value of these field types, bytes after the last field are allowed,
/// and the only failure is an input that ends too early.
#[verifier::external_body]
fn bincode_deserialize(buf: &[u8]) -> (r: Option<RazerPacket>)
    ensures
        r is Some <==> buf@.len() >= FRAME_LEN,
        r matches Some(p) ==> little_endian_frame(p) == buf@.take(FRAME_LEN as int),
{
    let ((report, status, id, remaining_packets, protocol_type), body): (
        (u8, u8, u8, u16, u8),
        (u8, u8, u8, [u8; 32], [u8; 32], [u8; 16], u8, u8),
    ) = bincode::deserialize(buf).ok()?;
    let (data_size, command_class, command_id, a, b, c, crc, reserved) = body;
    let args: [u8; 80] = [&a[..], &b[..], &c[..]].concat().try_into().ok()?;
    Some(RazerPacket {
        report, status, id, remaining_packets, protocol_type, data_size, command_class,
        command_id, args, crc, reserved,
    })
}

impl RazerPacket {
    /// Status of a request that is still to be processed.
    pub const RAZER_CMD_NEW: u8 = 0x00;

    /// The EC is still working on the request.
    pub const RAZER_CMD_BUSY: u8 = 0x01;

    /// The EC carried the request out.
    pub const RAZER_CMD_SUCCESSFUL: u8 = 0x02;

    /// The EC reports that the request failed.
    pub const RAZER_CMD_FAILURE: u8 = 0x03;

    /// The EC ran out of time on the request.
    pub const RAZER_CMD_TIMEOUT: u8 = 0x04;

    /// The EC does not know the request.
    pub const RAZER_CMD_NOT_SUPPORTED: u8 = 0x05;

    /// A fresh request: all argument bytes zero, the transaction id still to
    /// be assigned when it is written.
    pub fn new(command_class: u8, command_id: u8, data_size: u8) -> (p: RazerPacket)
        ensures
            p.report == 0,
            p.status == RazerPacket::RAZER_CMD_NEW,
            p.id == 0x1f,
            p.remaining_packets == 0,
            p.protocol_type == 0,
            p.data_size == data_size,
            p.command_class == command_class,
            p.command_id == command_id,
            forall|i: int| 0 <= i < 80 ==> p.args@[i] == 0,
            p.crc == 0,
            p.reserved == 0,
    {
        RazerPacket {
            report: 0x00,
            status: RazerPacket::RAZER_CMD_NEW,
            id: 0x1F,
            remaining_packets: 0x0000,
            protocol_type: 0x00,
            data_size,
            command_class,
            command_id,
            args: [0x00u8; 80],
            crc: 0x00,
            reserved: 0x00,
        }
    }

    /// Sets the checksum and returns the HID buffer to write.
    pub fn calc_crc(&mut self) -> (buf: Vec<u8>)
        ensures
            *final(self) == (RazerPacket { crc: checksum(*old(self)), ..*old(self) }),
            buf@ == frame(*final(self)),
            buf@.len() == FRAME_LEN,
    {
        let mut buf = bincode_serialize(self);
        let low = buf[3];
        buf[3] = buf[4];
        buf[4] = low;
        assert(buf@ =~= frame(*self));
        let mut res: u8 = 0x00;
        let mut i: usize = 3;
        let ghost covered = buf@.subrange(3, 89);
        assert(covered =~= checked_bytes(*self));
        assert(covered.take(0) =~= Seq::<u8>::empty());
        while i < CRC_AT
            invariant
                3 <= i <= 89,
                buf@.len() == FRAME_LEN,
                covered == buf@.subrange(3, 89),
                res == xor_all(covered.take(i - 3)),
            decreases 89 - i,
        {
            assert(covered.take(i - 2).drop_last() =~= covered.take(i - 3));
            res = res ^ buf[i];
            i = i + 1;
        }
        assert(covered.take(86) =~= covered);
        self.crc = res;
        buf[CRC_AT] = res;
        assert(checked_bytes(*self) =~= checked_bytes(*old(self)));
        assert(buf@ =~= frame(*self));
        buf
    }

    /// Reads a report out of an HID buffer.
    pub fn decode(buf: &Vec<u8>) -> (r: Option<RazerPacket>)
        ensures
            r is Some <==> buf@.len() >= FRAME_LEN,
            r matches Some(p) ==> frame(p) == buf@.take(FRAME_LEN as int),
    {
        if buf.len() < FRAME_LEN {
            return None;
        }
        let mut swapped = buf.clone();
        let high = swapped[3];
        swapped[3] = swapped[4];
        swapped[4] = high;
        let r = bincode_deserialize(swapped.as_slice());
        proof {
            if let Some(p) = r {
                let le = little_endian_frame(p);
                assert(le == swapped@.take(FRAME_LEN as int));
                assert forall|i: int| 0 <= i < FRAME_LEN implies frame(p)[i] == buf@[i] by {
                    assert(le[i] == swapped@[i]);
                    assert(le[3] == swapped@[3]);
                    assert(le[4] == swapped@[4]);
                }
                assert(frame(p) =~= buf@.take(FRAME_LEN as int));
            }
        }
        r
    }
}

/// Two reports with the same HID buffer are the same report.
pub proof fn frame_is_injective(p: RazerPacket, q: RazerPacket)
    requires
        frame(p) == frame(q),
    ensures
        p == q,
{
    assert forall|i: int| 0 <= i < 80 implies p.args@[i] == q.args@[i] by {
        assert(frame(p)[9 + i] == p.args@[i]);
        assert(frame(q)[9 + i] == q.args@[i]);
    }
    assert(p.args =~= q.args);
    let f = frame(p);
    let g = frame(q);
    assert(f[0] == g[0] && f[1] == g[1] && f[2] == g[2] && f[3] == g[3] && f[4] == g[4]);
    assert(f[5] == g[5] && f[6] == g[6] && f[7] == g[7] && f[8] == g[8]);
    assert(f[89] == g[89] && f[90] == g[90]);
    assert(p.remaining_packets / 256 == q.remaining_packets / 256);
    assert(p.remaining_packets % 256 == q.remaining_packets % 256);
}

/// What `decode` reads from the buffer that `calc_crc` wrote is the report
/// that was written.
pub proof fn decode_inverts_calc_crc(written: RazerPacket, read: RazerPacket, buf: Seq<u8>)
    requires
        buf == frame(written),
        frame(read) == buf.take(FRAME_LEN as int),
    ensures
        read == written,
{
    assert(buf.take(FRAME_LEN as int) =~= buf);
    frame_is_injective(read, written);
}

/// Exchanging two adjacent bytes leaves the XOR of a sequence as it was, so
/// the checksum does not depend on the byte order of `remaining_packets`.
pub proof fn xor_ignores_leading_order(a: u8, b: u8, rest: Seq<u8>)
    ensures
        xor_all(seq![a, b] + rest) == xor_all(seq![b, a] + rest),
    decreases rest.len(),
{
    let l = seq![a, b] + rest;
    let r = seq![b, a] + rest;
    if rest.len() == 0 {
        assert(l =~= seq![a, b]);
        assert(r =~= seq![b, a]);
        reveal_with_fuel(xor_all, 3);
        assert(seq![a, b].drop_last() =~= seq![a]);
        assert(seq![b, a].drop_last() =~= seq![b]);
        assert(seq![a].drop_last() =~= Seq::<u8>::empty());
        assert(seq![b].drop_last() =~= Seq::<u8>::empty());
        assert((0u8 ^ a) ^ b == (0u8 ^ b) ^ a) by (bit_vector);
    } else {
        assert(l.drop_last() =~= seq![a, b] + rest.drop_last());
        assert(r.drop_last() =~= seq![b, a] + rest.drop_last());
        xor_ignores_leading_order(a, b, rest.drop_last());
    }
}

/// A report on the wire is 91 bytes: the header field by field, the packet count
/// with its higher byte first, eighty arguments, the checksum and a last byte.
pub proof fn a_frame_has_its_fields_in_place(p: RazerPacket, i: int)
    requires
        0 <= i < 80,
    ensures
        ({
            let f = frame(p);
            &&& f.len() == 91
            &&& f[0] == p.report && f[1] == p.status && f[2] == p.id
            &&& f[3] * 256 + f[4] == p.remaining_packets
            &&& f[5] == p.protocol_type && f[6] == p.data_size
            &&& f[7] == p.command_class && f[8] == p.command_id
            &&& f[9 + i] == p.args@[i]
            &&& f[89] == p.crc && f[90] == p.reserved
        }),
{
}

/// The checksum makes the bytes from the packet count to itself cancel out, and
/// depends on none of the others.
pub proof fn the_checksum_cancels_the_report(p: RazerPacket, q: RazerPacket)
    requires
        p.crc == checksum(p),
        q.remaining_packets == p.remaining_packets && q.protocol_type == p.protocol_type,
        q.data_size == p.data_size && q.command_class == p.command_class,
        q.command_id == p.command_id && q.args == p.args,
    ensures
        xor_all(frame(p).subrange(3, 90)) == 0,
        checksum(q) == checksum(p),
{
    let all = frame(p).subrange(3, 90);
    assert(all.drop_last() =~= checked_bytes(p));
    assert(all.last() == p.crc);
    let x = p.crc;
    assert(x ^ x == 0) by (bit_vector);
}

} // verus!
