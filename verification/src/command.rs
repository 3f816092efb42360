//! Requests that the daemon makes of the embedded controller (EC), and the
//! report that carries each of them.

use vstd::prelude::*;

use crate::packet::RazerPacket;

verus! {

/// LED storage that keyboard lighting uses.
pub const VARSTORE: u8 = 0x01;

/// The lid logo LED.
pub const LOGO_LED: u8 = 0x04;

/// The keyboard backlight LED.
pub const BACKLIGHT_LED: u8 = 0x05;

/// The one lighting effect in use: a static colour.
pub const STATIC: u8 = 0x06;

/// Zone of the CPU, its fan and its boost tier.
pub const CPU_ZONE: u8 = 0x01;

/// Zone of the GPU, its fan and its boost tier.
pub const GPU_ZONE: u8 = 0x02;

/// One request to the EC.
#[derive(Debug, Clone, Copy, PartialEq, Eq, Structural)]
pub enum EcCommand {
    /// Performance profile of a zone, with its automatic (0) or manual (1) fan.
    ZoneMode { zone: u8, mode: u8, manual: u8 },
    /// Fan speed of a zone in hundreds of RPM.
    ZoneSpeed { zone: u8, hundreds: u8 },
    /// Boost tier of a zone.
    Boost { zone: u8, tier: u8 },
    /// Keyboard brightness.
    Brightness { value: u8 },
    /// Effect of the lid logo.
    LogoEffect { effect: u8 },
    /// On/off state of the lid logo.
    LogoState { state: u8 },
    /// Static keyboard colour.
    StaticColor { red: u8, green: u8, blue: u8 },
    /// Charge limit of the battery health optimizer, packed in one byte.
    ChargeLimit { packed: u8 },
    /// Commit of a charge limit.
    ChargeLimitCommit,
    /// Reads the profile and fan state of a zone.
    ReadZone { zone: u8 },
    /// Reads the fan tachometer of a zone.
    ReadTach { zone: u8 },
    /// Reads the stored fan setpoint of a zone.
    ReadSetpoint { zone: u8 },
    /// Reads the boost tier of a zone.
    ReadBoost { zone: u8 },
    /// Reads the keyboard brightness.
    ReadBrightness,
    /// Reads the packed charge limit.
    ReadChargeLimit,
    /// Reads the class of the power adapter.
    ReadCharger,
}

/// The argument bytes of a report: `given`, then zeros up to the end.
pub open spec fn padded(given: Seq<u8>) -> Seq<u8> {
    Seq::new(80, |i: int| if i < given.len() { given[i] } else { 0 })
}

impl EcCommand {
    /// Command class, command id and data size on the wire.
    pub open spec fn header(self) -> (u8, u8, u8) {
        match self {
            EcCommand::ZoneMode { .. } => (0x0d, 0x02, 4),
            EcCommand::ZoneSpeed { .. } => (0x0d, 0x01, 3),
            EcCommand::Boost { .. } => (0x0d, 0x07, 3),
            EcCommand::Brightness { .. } => (0x03, 0x03, 3),
            EcCommand::LogoEffect { .. } => (0x03, 0x02, 3),
            EcCommand::LogoState { .. } => (0x03, 0x00, 3),
            EcCommand::StaticColor { .. } => (0x03, 0x0a, 4),
            EcCommand::ChargeLimit { .. } => (0x07, 0x12, 1),
            EcCommand::ChargeLimitCommit => (0x07, 0x0f, 1),
            EcCommand::ReadZone { .. } => (0x0d, 0x82, 4),
            EcCommand::ReadTach { .. } => (0x0d, 0x88, 4),
            EcCommand::ReadSetpoint { .. } => (0x0d, 0x81, 3),
            EcCommand::ReadBoost { .. } => (0x0d, 0x87, 3),
            EcCommand::ReadBrightness => (0x03, 0x83, 3),
            EcCommand::ReadChargeLimit => (0x07, 0x92, 1),
            EcCommand::ReadCharger => (0x07, 0x8c, 2),
        }
    }

    /// The argument bytes that are not zero padding. Class 0x0d commands start
    /// with the profile id 1.
    pub open spec fn arguments(self) -> Seq<u8> {
        match self {
            EcCommand::ZoneMode { zone, mode, manual } => seq![0x01, zone, mode, manual],
            EcCommand::ZoneSpeed { zone, hundreds } => seq![0x01, zone, hundreds],
            EcCommand::Boost { zone, tier } => seq![0x01, zone, tier],
            EcCommand::Brightness { value } => seq![VARSTORE, BACKLIGHT_LED, value],
            EcCommand::LogoEffect { effect } => seq![0x00, LOGO_LED, effect],
            EcCommand::LogoState { state } => seq![0x00, LOGO_LED, state],
            EcCommand::StaticColor { red, green, blue } => seq![STATIC, red, green, blue],
            EcCommand::ChargeLimit { packed } => seq![packed],
            EcCommand::ChargeLimitCommit => seq![],
            EcCommand::ReadZone { zone } => seq![0x01, zone],
            EcCommand::ReadTach { zone } => seq![0x01, zone],
            EcCommand::ReadSetpoint { zone } => seq![0x01, zone],
            EcCommand::ReadBoost { zone } => seq![0x01, zone],
            EcCommand::ReadBrightness => seq![VARSTORE, BACKLIGHT_LED],
            EcCommand::ReadChargeLimit => seq![],
            EcCommand::ReadCharger => seq![],
        }
    }

    /// `remaining_packets` of the request: 1 for the charge limit read, else 0.
    pub open spec fn remaining(self) -> u16 {
        if self is ReadChargeLimit {
            1
        } else {
            0
        }
    }

    /// Whether the command writes keyboard or logo lighting.
    pub open spec fn lights(self) -> bool {
        self is Brightness || self is LogoEffect || self is LogoState || self is StaticColor
    }

    /// Whether the command only reads.
    pub open spec fn reads(self) -> bool {
        self.header().1 >= 0x80
    }

    /// The report to send for this command.
    pub fn packet(&self) -> (p: RazerPacket)
        ensures
            (p.command_class, p.command_id, p.data_size) == self.header(),
            p.remaining_packets == self.remaining(),
            p.args@ == padded(self.arguments()),
            p.report == 0,
            p.status == RazerPacket::RAZER_CMD_NEW,
            p.id == 0x1f,
            p.protocol_type == 0,
            p.crc == 0,
            p.reserved == 0,
    {
        match *self {
            EcCommand::ZoneMode { zone, mode, manual } => {
                report4(0x0d, 0x02, 4, 0x01, zone, mode, manual)
            },
            EcCommand::ZoneSpeed { zone, hundreds } => report3(0x0d, 0x01, 3, 0x01, zone, hundreds),
            EcCommand::Boost { zone, tier } => report3(0x0d, 0x07, 3, 0x01, zone, tier),
            EcCommand::Brightness { value } => {
                report3(0x03, 0x03, 3, VARSTORE, BACKLIGHT_LED, value)
            },
            EcCommand::LogoEffect { effect } => report3(0x03, 0x02, 3, 0x00, LOGO_LED, effect),
            EcCommand::LogoState { state } => report3(0x03, 0x00, 3, 0x00, LOGO_LED, state),
            EcCommand::StaticColor { red, green, blue } => {
                let mut params: Vec<u8> = Vec::new();
                params.push(red);
                params.push(green);
                params.push(blue);
                let p = standard_effect_report(STATIC, &params);
                assert(params@.take(3) =~= params@);
                assert(p.args@ =~= padded(self.arguments()));
                p
            },
            EcCommand::ChargeLimit { packed } => {
                let p = report3(0x07, 0x12, 1, packed, 0, 0);
                assert(p.args@ =~= padded(self.arguments()));
                p
            },
            EcCommand::ChargeLimitCommit => {
                let p = RazerPacket::new(0x07, 0x0f, 1);
                assert(p.args@ =~= padded(self.arguments()));
                p
            },
            EcCommand::ReadZone { zone } => {
                let p = report3(0x0d, 0x82, 4, 0x01, zone, 0);
                assert(p.args@ =~= padded(self.arguments()));
                p
            },
            EcCommand::ReadTach { zone } => {
                let p = report3(0x0d, 0x88, 4, 0x01, zone, 0);
                assert(p.args@ =~= padded(self.arguments()));
                p
            },
            EcCommand::ReadSetpoint { zone } => {
                let p = report3(0x0d, 0x81, 3, 0x01, zone, 0);
                assert(p.args@ =~= padded(self.arguments()));
                p
            },
            EcCommand::ReadBoost { zone } => {
                let p = report3(0x0d, 0x87, 3, 0x01, zone, 0);
                assert(p.args@ =~= padded(self.arguments()));
                p
            },
            EcCommand::ReadBrightness => {
                let p = report3(0x03, 0x83, 3, VARSTORE, BACKLIGHT_LED, 0);
                assert(p.args@ =~= padded(self.arguments()));
                p
            },
            EcCommand::ReadChargeLimit => {
                let mut p = RazerPacket::new(0x07, 0x92, 1);
                p.remaining_packets = 0x0001;
                assert(p.args@ =~= padded(self.arguments()));
                p
            },
            EcCommand::ReadCharger => {
                let p = RazerPacket::new(0x07, 0x8c, 2);
                assert(p.args@ =~= padded(self.arguments()));
                p
            },
        }
    }
}

/// A fresh report as `RazerPacket::new` makes it, apart from its arguments.
pub open spec fn fresh(p: RazerPacket, class: u8, id: u8, size: u8) -> bool {
    &&& p.report == 0
    &&& p.status == RazerPacket::RAZER_CMD_NEW
    &&& p.id == 0x1f
    &&& p.remaining_packets == 0
    &&& p.protocol_type == 0
    &&& p.data_size == size
    &&& p.command_class == class
    &&& p.command_id == id
    &&& p.crc == 0
    &&& p.reserved == 0
}

fn report3(class: u8, id: u8, size: u8, a: u8, b: u8, c: u8) -> (p: RazerPacket)
    ensures
        fresh(p, class, id, size),
        p.args@ == padded(seq![a, b, c]),
{
    let mut p = RazerPacket::new(class, id, size);
    p.args[0] = a;
    p.args[1] = b;
    p.args[2] = c;
    assert(p.args@ =~= padded(seq![a, b, c]));
    p
}

fn report4(class: u8, id: u8, size: u8, a: u8, b: u8, c: u8, d: u8) -> (p: RazerPacket)
    ensures
        fresh(p, class, id, size),
        p.args@ == padded(seq![a, b, c, d]),
{
    let mut p = report3(class, id, size, a, b, c);
    p.args[3] = d;
    assert(p.args@ =~= padded(seq![a, b, c, d]));
    p
}

/// The legacy matrix effect report: the effect id, then at most 79 parameter
/// bytes; what does not fit is left out.
pub fn standard_effect_report(effect_id: u8, params: &Vec<u8>) -> (p: RazerPacket)
    ensures
        ({
            let kept = if params@.len() < 79 { params@.len() as int } else { 79 };
            &&& fresh(p, 0x03, 0x0a, (1 + kept) as u8)
            &&& p.args@ == padded(seq![effect_id] + params@.take(kept))
        }),
{
    let len: usize = if params.len() < 79 { params.len() } else { 79 };
    let mut p = RazerPacket::new(0x03, 0x0a, 1 + len as u8);
    p.args[0] = effect_id;
    let mut i: usize = 0;
    while i < len
        invariant
            i <= len <= 79,
            len <= params@.len(),
            fresh(p, 0x03, 0x0a, (1 + len) as u8),
            p.args@[0] == effect_id,
            forall|j: int| 0 <= j < i ==> p.args@[1 + j] == params@[j],
            forall|j: int| i < j < 80 ==> p.args@[j] == 0,
        decreases len - i,
    {
        p.args[1 + i] = params[i];
        i = i + 1;
    }
    let ghost given = seq![effect_id] + params@.take(len as int);
    assert forall|j: int| 0 <= j < 80 implies p.args@[j] == padded(given)[j] by {
        if 1 <= j <= len {
            assert(p.args@[1 + (j - 1)] == params@[j - 1]);
        }
    }
    assert(p.args@ =~= padded(given));
    p
}

/// What a fan, profile or boost write says on the wire: class 0x0d, the profile
/// id 1 first, then the zone, then the value.
pub proof fn thermal_writes_name_their_zone(zone: u8, x: u8, y: u8)
    ensures
        ({
            let c = EcCommand::ZoneMode { zone, mode: x, manual: y };
            &&& c.header() == (0x0du8, 0x02u8, 4u8)
            &&& padded(c.arguments()).take(4) == seq![1u8, zone, x, y]
        }),
        ({
            let c = EcCommand::ZoneSpeed { zone, hundreds: x };
            &&& c.header() == (0x0du8, 0x01u8, 3u8)
            &&& padded(c.arguments()).take(4) == seq![1u8, zone, x, 0]
        }),
        ({
            let c = EcCommand::Boost { zone, tier: x };
            &&& c.header() == (0x0du8, 0x07u8, 3u8)
            &&& padded(c.arguments()).take(4) == seq![1u8, zone, x, 0]
        }),
{
    assert(padded(seq![1u8, zone, x, y]).take(4) =~= seq![1u8, zone, x, y]);
    assert(padded(seq![1u8, zone, x]).take(4) =~= seq![1u8, zone, x, 0]);
}

/// What a lighting or charge limit write says on the wire.
pub proof fn other_writes_name_their_target(x: u8, y: u8, z: u8)
    ensures
        ({
            let c = EcCommand::Brightness { value: x };
            &&& c.header() == (0x03u8, 0x03u8, 3u8)
            &&& padded(c.arguments()).take(4) == seq![1u8, 5, x, 0]
        }),
        ({
            let c = EcCommand::LogoEffect { effect: x };
            &&& c.header() == (0x03u8, 0x02u8, 3u8)
            &&& padded(c.arguments()).take(4) == seq![0u8, 4, x, 0]
        }),
        ({
            let c = EcCommand::LogoState { state: x };
            &&& c.header() == (0x03u8, 0x00u8, 3u8)
            &&& padded(c.arguments()).take(4) == seq![0u8, 4, x, 0]
        }),
        ({
            let c = EcCommand::StaticColor { red: x, green: y, blue: z };
            &&& c.header() == (0x03u8, 0x0au8, 4u8)
            &&& padded(c.arguments()).take(4) == seq![6u8, x, y, z]
        }),
        ({
            let c = EcCommand::ChargeLimit { packed: x };
            &&& c.header() == (0x07u8, 0x12u8, 1u8)
            &&& padded(c.arguments()).take(4) == seq![x, 0, 0, 0]
        }),
        EcCommand::ChargeLimitCommit.header() == (0x07u8, 0x0fu8, 1u8),
        padded(EcCommand::ChargeLimitCommit.arguments()).take(4) == seq![0u8, 0, 0, 0],
{
    assert(padded(seq![1u8, 5, x]).take(4) =~= seq![1u8, 5, x, 0]);
    assert(padded(seq![0u8, 4, x]).take(4) =~= seq![0u8, 4, x, 0]);
    assert(padded(seq![6u8, x, y, z]).take(4) =~= seq![6u8, x, y, z]);
    assert(padded(seq![x]).take(4) =~= seq![x, 0, 0, 0]);
    assert(padded(Seq::<u8>::empty()).take(4) =~= seq![0u8, 0, 0, 0]);
}

/// A read is the write of the same value with the top bit of its id set, names
/// the same zone or LED, and carries no value of its own. The tachometer and
/// the adapter class, which nothing writes, have ids of their own.
pub proof fn a_read_is_its_write_with_the_top_bit(zone: u8, x: u8, y: u8)
    ensures
        ({
            let w = EcCommand::ZoneMode { zone, mode: x, manual: y };
            let r = EcCommand::ReadZone { zone };
            &&& r.header().0 == w.header().0 && r.header().1 == w.header().1 + 0x80
            &&& r.header().2 == 4
            &&& padded(r.arguments()).take(4) == seq![1u8, zone, 0, 0]
        }),
        ({
            let w = EcCommand::ZoneSpeed { zone, hundreds: x };
            let r = EcCommand::ReadSetpoint { zone };
            &&& r.header().0 == w.header().0 && r.header().1 == w.header().1 + 0x80
            &&& r.header().2 == 3
            &&& padded(r.arguments()).take(4) == seq![1u8, zone, 0, 0]
        }),
        ({
            let w = EcCommand::Boost { zone, tier: x };
            let r = EcCommand::ReadBoost { zone };
            &&& r.header().0 == w.header().0 && r.header().1 == w.header().1 + 0x80
            &&& r.header().2 == 3
            &&& padded(r.arguments()).take(4) == seq![1u8, zone, 0, 0]
        }),
        ({
            let w = EcCommand::Brightness { value: x };
            let r = EcCommand::ReadBrightness;
            &&& r.header().0 == w.header().0 && r.header().1 == w.header().1 + 0x80
            &&& r.header().2 == 3
            &&& padded(r.arguments()).take(4) == seq![1u8, 5, 0, 0]
        }),
        ({
            let w = EcCommand::ChargeLimit { packed: x };
            let r = EcCommand::ReadChargeLimit;
            &&& r.header().0 == w.header().0 && r.header().1 == w.header().1 + 0x80
            &&& r.header().2 == 1
            &&& padded(r.arguments()).take(4) == seq![0u8, 0, 0, 0]
        }),
        ({
            let tach = EcCommand::ReadTach { zone };
            let charger = EcCommand::ReadCharger;
            &&& tach.header() == (0x0du8, 0x88u8, 4u8)
            &&& padded(tach.arguments()).take(4) == seq![1u8, zone, 0, 0]
            &&& charger.header() == (0x07u8, 0x8cu8, 2u8)
            &&& padded(charger.arguments()).take(4) == seq![0u8, 0, 0, 0]
        }),
{
    assert(padded(seq![1u8, zone]).take(4) =~= seq![1u8, zone, 0, 0]);
    assert(padded(seq![1u8, 5u8]).take(4) =~= seq![1u8, 5, 0, 0]);
    assert(padded(Seq::<u8>::empty()).take(4) =~= seq![0u8, 0, 0, 0]);
}

/// Behind its fourth argument no command carries anything, and only the read
/// of the charge limit announces a packet to follow.
pub proof fn commands_end_in_zeros(c: EcCommand, i: int)
    requires
        4 <= i < 80,
    ensures
        padded(c.arguments()).len() == 80,
        padded(c.arguments())[i] == 0,
        c is ReadChargeLimit ==> c.remaining() == 1,
        !(c is ReadChargeLimit) ==> c.remaining() == 0,
{
}

} // verus!
