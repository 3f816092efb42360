//! The power-mode key: recognising a press among input events, and the profile
//! that it goes to.

use vstd::prelude::*;

use crate::comms::{DaemonCommand, DaemonResponse};
use crate::gpu::file_says;
use crate::profile::advance;
use crate::text;
use crate::text::{parse_unsigned, words};

verus! {

/// Scancode of the key.
pub const POWER_KEY_SCANCODE: i32 = 0x700d3;

/// Event types and codes of the input subsystem.
pub const EV_SYN: u16 = 0x00;

pub const EV_KEY: u16 = 0x01;

pub const EV_MSC: u16 = 0x04;

pub const MSC_SCAN: u16 = 0x04;

/// Size of an input event on 64-bit machines: the time, the type, the code,
/// the value.
pub const EVENT_SIZE: usize = 24;

/// Keycode that the key is mapped to. Devices that can send the key declare it.
pub const KEY_UNKNOWN: usize = 240;

/// Time that has to pass between two presses, in nanoseconds: 250 ms.
pub const DEBOUNCE_NS: u64 = 250_000_000;

/// An input event without its time.
#[derive(Debug, Clone, Copy, PartialEq, Eq, Structural)]
pub struct InputEvent {
    pub kind: u16,
    pub code: u16,
    pub value: i32,
}

/// A 16-bit number of two bytes, lower byte first.
pub open spec fn le16(s: Seq<u8>, at: int) -> int {
    s[at] + s[at + 1] * 256
}

/// A signed 32-bit number of four bytes, lowest byte first.
pub open spec fn le32(s: Seq<u8>, at: int) -> int {
    let n = le16(s, at) + le16(s, at + 2) * 65536;
    if n >= 0x8000_0000 {
        n - 0x1_0000_0000
    } else {
        n
    }
}

/// Event `n` of a buffer of events, `None` behind the last whole one. Numbers
/// are little-endian.
pub fn event_at(buf: &Vec<u8>, n: usize) -> (r: Option<InputEvent>)
    ensures
        r is Some <==> (n + 1) * EVENT_SIZE <= buf@.len(),
        r matches Some(e) ==> {
            &&& e.kind == le16(buf@, n * EVENT_SIZE + 16)
            &&& e.code == le16(buf@, n * EVENT_SIZE + 18)
            &&& e.value == le32(buf@, n * EVENT_SIZE + 20)
        },
{
    if n >= buf.len() / EVENT_SIZE {
        return None;
    }
    let at: usize = n * EVENT_SIZE;
    let kind: u16 = buf[at + 16] as u16 + buf[at + 17] as u16 * 256;
    let code: u16 = buf[at + 18] as u16 + buf[at + 19] as u16 * 256;
    let low: i64 = buf[at + 20] as i64 + buf[at + 21] as i64 * 256;
    let high: i64 = buf[at + 22] as i64 + buf[at + 23] as i64 * 256;
    let n32: i64 = low + high * 65536;
    let value: i32 = if n32 >= 0x8000_0000 {
        (n32 - 0x1_0000_0000) as i32
    } else {
        n32 as i32
    };
    Some(InputEvent { kind, code, value })
}

/// Watches input devices for the key.
#[derive(Debug)]
pub struct KeyWatch {
    /// Per device: the current frame announced the scancode.
    pub armed: Vec<bool>,
    /// Time of the last press that counted.
    pub last_trigger: Option<u64>,
}

impl KeyWatch {
    /// The scancode is announced.
    pub open spec fn announces(e: InputEvent) -> bool {
        e.kind == EV_MSC && e.code == MSC_SCAN && e.value == POWER_KEY_SCANCODE
    }

    /// A key goes down.
    pub open spec fn goes_down(e: InputEvent) -> bool {
        e.kind == EV_KEY && e.value == 1
    }

    /// Enough time has passed since the last press that counted.
    pub open spec fn rested(self, now: u64) -> bool {
        self.last_trigger matches Some(t) ==> now >= t && now - t >= DEBOUNCE_NS
    }

    /// Device `i` armed or not after an event: armed from the announcement to
    /// the key going down or the end of the frame.
    pub open spec fn armed_after(self, i: int, e: InputEvent) -> bool {
        KeyWatch::announces(e) || (self.armed@[i] && !KeyWatch::goes_down(e) && e.kind != EV_SYN)
    }

    /// From `self`, event `e` of device `i` at time `now` leads to `post`, and
    /// is a press or not.
    pub open spec fn feeds(
        self,
        i: int,
        e: InputEvent,
        now: u64,
        post: KeyWatch,
        pressed: bool,
    ) -> bool {
        &&& pressed == (self.armed@[i] && KeyWatch::goes_down(e) && self.rested(now))
        &&& post.armed@ == self.armed@.update(i, self.armed_after(i, e))
        &&& post.last_trigger == (if pressed {
            Some(now)
        } else {
            self.last_trigger
        })
    }

    pub fn new(devices: usize) -> (r: KeyWatch)
        ensures
            r.armed@ == Seq::new(devices as nat, |i: int| false),
            r.last_trigger is None,
    {
        let mut armed: Vec<bool> = Vec::new();
        while armed.len() < devices
            invariant
                armed@.len() <= devices,
                forall|i: int| 0 <= i < armed@.len() ==> !armed@[i],
            decreases devices - armed@.len(),
        {
            armed.push(false);
        }
        assert(armed@ =~= Seq::new(devices as nat, |i: int| false));
        KeyWatch { armed, last_trigger: None }
    }

    /// Takes an event of device `i` in at time `now`; tells whether the power
    /// key was pressed. It was when a key goes down in the frame that announced
    /// the scancode, unless the last press was just before.
    pub fn feed(&mut self, i: usize, e: InputEvent, now: u64) -> (pressed: bool)
        requires
            i < old(self).armed@.len(),
        ensures
            old(self).feeds(i as int, e, now, *final(self), pressed),
    {
        let mut pressed = false;
        if e.kind == EV_MSC && e.code == MSC_SCAN && e.value == POWER_KEY_SCANCODE {
            self.armed.set(i, true);
        } else if e.kind == EV_KEY && self.armed[i] && e.value == 1 {
            self.armed.set(i, false);
            let debounced = match self.last_trigger {
                Some(t) => now >= t && now - t >= DEBOUNCE_NS,
                None => true,
            };
            if debounced {
                self.last_trigger = Some(now);
                pressed = true;
            }
        } else if e.kind == EV_SYN {
            self.armed.set(i, false);
        }
        assert(self.armed@ =~= old(self).armed@.update(
            i as int,
            old(self).armed_after(i as int, e),
        ));
        pressed
    }

    /// Forgets device `i`, which is gone.
    pub fn forget(&mut self, i: usize)
        requires
            i < old(self).armed@.len(),
        ensures
            final(self).armed@ == old(self).armed@.remove(i as int),
            final(self).last_trigger == old(self).last_trigger,
    {
        self.armed.remove(i);
    }
}

/// Two presses of the key count only when enough time lies between them.
pub proof fn presses_keep_their_distance(before: KeyWatch, t: u64, now: u64)
    requires
        before.last_trigger == Some(t),
        before.rested(now),
    ensures
        now >= t + 250_000_000,
{
}

/// An announcement does not outlive its frame: once a device sent the end of a
/// frame, a key that goes down there is not the power key.
pub proof fn announcement_ends_with_its_frame(watch: KeyWatch, i: int, end: InputEvent)
    requires
        end.kind == EV_SYN,
    ensures
        !watch.armed_after(i, end),
{
}

/// The power key is a key that goes down right after its scancode was announced
/// on the same device, a quarter of a second or more after the last press that
/// counted. The announcement itself is no press.
pub proof fn a_press_follows_its_scancode(
    watch: KeyWatch,
    i: int,
    scan: InputEvent,
    then: u64,
    mid: KeyWatch,
    early: bool,
    key: InputEvent,
    now: u64,
    post: KeyWatch,
    pressed: bool,
)
    requires
        0 <= i < watch.armed@.len(),
        watch.feeds(i, scan, then, mid, early),
        mid.feeds(i, key, now, post, pressed),
        scan.kind == 4 && scan.code == 4 && scan.value == 0x700d3,
    ensures
        !early,
        pressed <==> key.kind == 1 && key.value == 1 && (watch.last_trigger matches Some(t) ==> now
            - t >= 250_000_000),
        pressed ==> post.last_trigger == Some(now),
        !pressed ==> post.last_trigger == watch.last_trigger,
{
}

/// A device that announced nothing presses nothing, whatever key goes down, and
/// only the scancode of the power key changes that. Other devices are left as
/// they are.
pub proof fn nothing_else_is_a_press(
    watch: KeyWatch,
    i: int,
    j: int,
    e: InputEvent,
    now: u64,
    post: KeyWatch,
    pressed: bool,
)
    requires
        0 <= i < watch.armed@.len(),
        0 <= j < watch.armed@.len(),
        watch.feeds(i, e, now, post, pressed),
    ensures
        post.armed@.len() == watch.armed@.len(),
        j != i ==> post.armed@[j] == watch.armed@[j],
        !watch.armed@[i] ==> !pressed,
        !watch.armed@[i] && post.armed@[i] ==> e.kind == 4 && e.code == 4 && e.value == 0x700d3,
        e.kind == 0 || (e.kind == 1 && e.value == 1) ==> !post.armed@[i],
        watch.armed@[i] && e.kind != 0 && !(e.kind == 1 && e.value == 1) ==> post.armed@[i],
{
}

/// The words of a capability bitmap that can be read, in order.
pub open spec fn bitmap_words(caps: Seq<Seq<char>>) -> Seq<nat>
    decreases caps.len(),
{
    if caps.len() == 0 {
        seq![]
    } else {
        let before = bitmap_words(caps.drop_last());
        match text::unsigned(caps.last(), 16, 0xffff_ffff_ffff_ffff) {
            Some(w) => before.push(w),
            None => before,
        }
    }
}

/// Whether a bitmap of 64-bit words, the most significant first, has a bit.
pub open spec fn bit_set(words: Seq<nat>, bit: nat) -> bool {
    let from_end = bit / 64;
    &&& from_end < words.len()
    &&& ((words[words.len() - 1 - from_end] as u64) >> ((bit % 64) as u64)) & 1u64 == 1
}

/// Whether a key capability bitmap has a bit.
pub fn key_bitmap_has(caps_key: &str, bit: usize) -> (r: bool)
    ensures
        r == bit_set(bitmap_words(text::words_of(caps_key@)), bit as nat),
{
    let pieces = words(caps_key);
    let ghost all = text::words_of(caps_key@);
    assert(text::views(pieces@).len() == pieces@.len());
    let mut list: Vec<u64> = Vec::new();
    let mut i: usize = 0;
    assert(all.take(0) =~= Seq::<Seq<char>>::empty());
    assert(list@.map_values(|w: u64| w as nat) =~= Seq::<nat>::empty());
    while i < pieces.len()
        invariant
            i <= pieces@.len(),
            all == text::views(pieces@),
            list@.map_values(|w: u64| w as nat) == bitmap_words(all.take(i as int)),
        decreases pieces@.len() - i,
    {
        let ghost next = all.take(i + 1);
        let ghost before = list@.map_values(|w: u64| w as nat);
        assert(next.drop_last() =~= all.take(i as int));
        assert(next.last() == pieces@[i as int]@);
        if let Some(w) = parse_unsigned(pieces[i].as_str(), 16, 0xffff_ffff_ffff_ffff) {
            list.push(w);
            assert(list@.map_values(|w: u64| w as nat) =~= before.push(w as nat));
        }
        i = i + 1;
    }
    assert(all.take(i as int) =~= all);
    let ghost seen = list@.map_values(|w: u64| w as nat);
    let word_from_lsb: usize = bit / 64;
    if list.len() <= word_from_lsb {
        return false;
    }
    let w: u64 = list[list.len() - 1 - word_from_lsb];
    assert(seen[seen.len() - 1 - word_from_lsb] == w as nat);
    let shift: u64 = (bit % 64) as u64;
    (w >> shift) & 1 == 1
}

/// A power supply as sysfs has it.
#[derive(Debug)]
pub struct PowerSupply {
    pub kind: Option<String>,
    pub online: Option<String>,
}

impl PowerSupply {
    /// A mains supply that says whether it is online.
    pub open spec fn tells(self) -> bool {
        crate::gpu::says(self.kind, "Mains"@) && self.online is Some
    }
}

/// What the first mains supply says; without one the laptop counts as plugged
/// in.
pub open spec fn plugged_in(supplies: Seq<PowerSupply>) -> bool
    decreases supplies.len(),
{
    if supplies.len() == 0 {
        true
    } else if supplies[0].tells() {
        crate::gpu::says(supplies[0].online, "1"@)
    } else {
        plugged_in(supplies.drop_first())
    }
}

/// Whether the laptop is plugged in, by its power supplies.
pub fn on_ac_power(supplies: &Vec<PowerSupply>) -> (plugged: bool)
    ensures
        plugged == plugged_in(supplies@),
{
    let mut i: usize = 0;
    assert(supplies@.skip(0) =~= supplies@);
    while i < supplies.len()
        invariant
            i <= supplies@.len(),
            plugged_in(supplies@) == plugged_in(supplies@.skip(i as int)),
        decreases supplies@.len() - i,
    {
        let ghost rest = supplies@.skip(i as int);
        assert(rest[0] == supplies@[i as int]);
        assert(rest.drop_first() =~= supplies@.skip(i + 1));
        if file_says(&supplies[i].kind, "Mains") && supplies[i].online.is_some() {
            return file_says(&supplies[i].online, "1");
        }
        i = i + 1;
    }
    true
}

/// The profiles that the key goes through: plugged in Balanced, Performance,
/// Silent; on battery Balanced, Battery Saver.
pub open spec fn key_order(plugged: bool) -> Seq<u8> {
    if plugged {
        seq![0u8, 2u8, 5u8]
    } else {
        seq![6u8, 3u8]
    }
}

/// The slot of the configuration for the power source.
pub open spec fn slot_for(plugged: bool) -> usize {
    if plugged {
        1
    } else {
        0
    }
}

/// The byte in an answer to a query of the key.
pub open spec fn byte_in(response: Option<DaemonResponse>) -> Option<u8> {
    match response {
        Some(DaemonResponse::GetPwrLevel { pwr }) => Some(pwr),
        Some(DaemonResponse::GetCPUBoost { cpu }) => Some(cpu),
        Some(DaemonResponse::GetGPUBoost { gpu }) => Some(gpu),
        _ => None,
    }
}

/// A byte that the daemon answered with.
pub fn query_u8(response: Option<DaemonResponse>) -> (r: Option<u8>)
    ensures
        r == byte_in(response),
{
    match response {
        Some(DaemonResponse::GetPwrLevel { pwr }) => Some(pwr),
        Some(DaemonResponse::GetCPUBoost { cpu }) => Some(cpu),
        Some(DaemonResponse::GetGPUBoost { gpu }) => Some(gpu),
        _ => None,
    }
}

/// The queries of a press: the current profile and the stored boost tiers.
pub open spec fn queries(plugged: bool) -> (DaemonCommand, DaemonCommand, DaemonCommand) {
    (
        DaemonCommand::GetPwrLevel { ac: slot_for(plugged) },
        DaemonCommand::GetCPUBoost { ac: slot_for(plugged) },
        DaemonCommand::GetGPUBoost { ac: slot_for(plugged) },
    )
}

/// What a press asks the daemon for: the current profile and the stored boost
/// tiers.
pub fn key_queries(plugged: bool) -> (r: (DaemonCommand, DaemonCommand, DaemonCommand))
    ensures
        r == queries(plugged),
{
    let ac: usize = if plugged {
        1
    } else {
        0
    };
    (
        DaemonCommand::GetPwrLevel { ac },
        DaemonCommand::GetCPUBoost { ac },
        DaemonCommand::GetGPUBoost { ac },
    )
}

/// The profile `next` that a press goes to from `current`, and the request that
/// takes it there.
pub open spec fn cycles(
    plugged: bool,
    current: u8,
    cpu: Option<u8>,
    gpu: Option<u8>,
    next: u8,
    request: DaemonCommand,
) -> bool {
    &&& next == crate::profile::advanced(key_order(plugged), Some(current))
    &&& key_order(plugged).contains(next)
    &&& request == (DaemonCommand::SetPowerMode {
        ac: slot_for(plugged),
        pwr: next,
        cpu: match cpu {
            Some(v) => v,
            None => 0,
        },
        gpu: match gpu {
            Some(v) => v,
            None => 0,
        },
    })
}

/// The profile that a press goes to, and the request that takes it there. The
/// stored boost tiers travel along, so that they stay stored. Without a current
/// profile there is none.
pub fn cycle_profile(
    plugged: bool,
    current: Option<u8>,
    cpu: Option<u8>,
    gpu: Option<u8>,
) -> (r: Option<(u8, DaemonCommand)>)
    ensures
        r is Some <==> current is Some,
        r matches Some((next, request)) ==> cycles(plugged, current->0, cpu, gpu, next, request),
{
    if current.is_none() {
        return None;
    }
    let mut order: Vec<u8> = Vec::new();
    if plugged {
        order.push(0);
        order.push(2);
        order.push(5);
    } else {
        order.push(6);
        order.push(3);
    }
    assert(order@ =~= key_order(plugged));
    let next = advance(&order, current);
    let ac: usize = if plugged {
        1
    } else {
        0
    };
    let request = DaemonCommand::SetPowerMode {
        ac,
        pwr: next,
        cpu: cpu.unwrap_or(0),
        gpu: gpu.unwrap_or(0),
    };
    Some((next, request))
}

/// Whether the daemon took the request.
pub fn cycle_took(response: Option<DaemonResponse>) -> (r: bool)
    ensures
        r == (response == Some(DaemonResponse::SetPowerMode { result: true })),
{
    match response {
        Some(DaemonResponse::SetPowerMode { result }) => result,
        _ => false,
    }
}

/// The name that a press shows for a profile.
pub open spec fn name_shown(wire: u8) -> Seq<char> {
    if wire == 0 || wire == 6 {
        "Balanced"@
    } else if wire == 2 {
        "Performance"@
    } else if wire == 5 {
        "Silent"@
    } else if wire == 3 {
        "Battery Saver"@
    } else {
        "Unknown"@
    }
}

/// The name that is shown for the profile.
pub fn shown_name(wire: u8) -> (name: &'static str)
    ensures
        name@ == name_shown(wire),
{
    match wire {
        0 | 6 => "Balanced",
        2 => "Performance",
        5 => "Silent",
        3 => "Battery Saver",
        _ => "Unknown",
    }
}

/// Plugged in the key walks Balanced, Performance, Silent and begins again; on
/// battery it changes between Balanced and Battery Saver. It asks for that
/// profile in the slot of the power source, with the tiers that are stored.
pub proof fn the_key_walks_its_profiles(
    plugged: bool,
    current: u8,
    cpu: Option<u8>,
    gpu: Option<u8>,
    next: u8,
    request: DaemonCommand,
)
    requires
        cycles(plugged, current, cpu, gpu, next, request),
    ensures
        plugged && current == 0 ==> next == 2,
        plugged && current == 2 ==> next == 5,
        plugged && current != 0 && current != 2 ==> next == 0,
        !plugged && current == 6 ==> next == 3,
        !plugged && current != 6 ==> next == 6,
        request matches DaemonCommand::SetPowerMode { ac, pwr, cpu: c, gpu: g } && {
            &&& plugged ==> ac == 1
            &&& !plugged ==> ac == 0
            &&& pwr == next
            &&& cpu matches Some(v) ==> c == v
            &&& cpu is None ==> c == 0
            &&& gpu matches Some(v) ==> g == v
            &&& gpu is None ==> g == 0
        },
{
    let order = key_order(plugged);
    if order.contains(current) {
        order.index_of_first_ensures(current);
    }
}

/// The key never asks for Gaming, Custom or Turbo, and goes to the Balanced of
/// the power source from anything that it does not go through.
pub proof fn key_never_leaves_its_profiles(plugged: bool, w: u8)
    ensures
        key_order(plugged).contains(w) ==> w != 1 && w != 4 && w != 7,
        !key_order(plugged).contains(w) ==> crate::profile::advanced(key_order(plugged), Some(w))
            == (if plugged {
            0u8
        } else {
            6u8
        }),
{
    let order = key_order(plugged);
    if order.contains(w) {
        let i = choose|i: int| 0 <= i < order.len() && order[i] == w;
    }
}

/// The first mains supply that says whether it is online decides; without one
/// the laptop counts as plugged in.
pub proof fn the_first_mains_supply_decides(a: Seq<PowerSupply>, s: PowerSupply, b: Seq<PowerSupply>)
    requires
        forall|i: int| 0 <= i < a.len() ==> !(#[trigger] a[i]).tells(),
    ensures
        plugged_in(a),
        s.tells() ==> plugged_in(a + seq![s] + b) == crate::gpu::says(s.online, "1"@),
    decreases a.len(),
{
    let all = a + seq![s] + b;
    if a.len() > 0 {
        let rest = a.drop_first();
        assert(!a[0].tells());
        assert forall|i: int| 0 <= i < rest.len() implies !(#[trigger] rest[i]).tells() by {
            assert(rest[i] == a[i + 1]);
        }
        assert(all[0] == a[0]);
        assert(all.drop_first() =~= rest + seq![s] + b);
        the_first_mains_supply_decides(rest, s, b);
    } else {
        assert(all[0] == s);
    }
}

/// A press asks for the profile and then for the tiers of CPU and GPU, all in
/// the slot that its request names, and takes each from the answer to it.
pub proof fn a_press_asks_in_the_slot_of_its_request(
    plugged: bool,
    current: u8,
    cpu: Option<u8>,
    gpu: Option<u8>,
    next: u8,
    request: DaemonCommand,
    v: u8,
)
    requires
        cycles(plugged, current, cpu, gpu, next, request),
    ensures
        request matches DaemonCommand::SetPowerMode { ac, .. } && queries(plugged) == (
            DaemonCommand::GetPwrLevel { ac },
            DaemonCommand::GetCPUBoost { ac },
            DaemonCommand::GetGPUBoost { ac },
        ),
        byte_in(Some(DaemonResponse::GetPwrLevel { pwr: v })) == Some(v),
        byte_in(Some(DaemonResponse::GetCPUBoost { cpu: v })) == Some(v),
        byte_in(Some(DaemonResponse::GetGPUBoost { gpu: v })) == Some(v),
        byte_in(None) is None,
{
}

/// A profile that the key goes to is shown under the name that it has
/// everywhere; another one is not named.
pub proof fn the_key_names_its_profiles(plugged: bool, w: u8)
    ensures
        key_order(plugged).contains(w) ==> name_shown(w) == crate::comms::profile_label(w),
        w == 1 || w == 4 || w >= 7 ==> name_shown(w) == "Unknown"@,
        name_shown(0) == name_shown(6),
{
    let order = key_order(plugged);
    if order.contains(w) {
        let i = choose|i: int| 0 <= i < order.len() && order[i] == w;
        assert(order[i] == w);
    }
}

} // verus!
