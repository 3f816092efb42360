//! The capability matrix: which profiles and boost tiers each power domain and
//! model offers, and how stored values are held to it.

use vstd::prelude::*;

use crate::config::{Configuration, PowerConfig};
use crate::text;
use crate::text::decimal;

verus! {

pub const PID_BLADE_14_2025: u16 = 0x02C5;

pub const PID_BLADE_16_2025: u16 = 0x02C6;

pub const PID_BLADE_18_2025: u16 = 0x02C7;

/// Whether the model with this product id ships Turbo.
pub fn turbo_is_stock(pid: u16) -> (r: bool)
    ensures
        r == (pid == PID_BLADE_18_2025),
{
    pid == PID_BLADE_18_2025
}

/// Whether the model with this product id ships the Max boost tier.
pub fn max_tier_is_stock(pid: u16) -> (r: bool)
    ensures
        r == (pid == PID_BLADE_18_2025),
{
    pid == PID_BLADE_18_2025
}

/// The profiles of a power domain. On battery: Balanced 6, Battery Saver 3,
/// always. Plugged in: Balanced 0, Performance 2, Silent 5 and Custom 4 always,
/// Turbo 7 where stock or unlocked, Gaming 1 where unlocked.
pub open spec fn offered(turbo_stock: bool, plugged: bool, experimental: bool) -> Set<u8> {
    if !plugged {
        set![6u8, 3u8]
    } else {
        Set::new(
            |w: u8|
                w == 0 || w == 2 || w == 5 || w == 4 || (w == 7 && (experimental || turbo_stock))
                    || (w == 1 && experimental),
        )
    }
}

/// Whether a profile is on the surface of a power domain.
pub fn profile_allowed_with(turbo_stock: bool, plugged: bool, pwr: u8, experimental: bool) -> (r:
    bool)
    ensures
        r == offered(turbo_stock, plugged, experimental).contains(pwr),
{
    match (pwr, plugged) {
        (0, true) | (2, true) | (4, true) | (5, true) => true,
        (3, false) | (6, false) => true,
        (7, true) => experimental || turbo_stock,
        (1, true) => experimental,
        _ => false,
    }
}

/// The boost tiers: Low 0, Medium 1, High 2 always, Max 3 where stock or
/// unlocked.
pub open spec fn tier_offered(max_stock: bool, boost: u8, experimental: bool) -> bool {
    boost <= 2 || (boost == 3 && (experimental || max_stock))
}

/// Whether a boost tier is offered.
pub fn boost_tier_valid_with(max_stock: bool, boost: u8, experimental: bool) -> (r: bool)
    ensures
        r == tier_offered(max_stock, boost, experimental),
{
    boost <= 2 || (boost == 3 && (experimental || max_stock))
}

/// The surface of a power domain in display order.
pub open spec fn surface(turbo_stock: bool, plugged: bool, experimental: bool) -> Seq<u8> {
    if !plugged {
        seq![6u8, 3u8]
    } else {
        let turbo = if experimental || turbo_stock {
            seq![7u8]
        } else {
            seq![]
        };
        let gaming = if experimental {
            seq![1u8]
        } else {
            seq![]
        };
        seq![0u8, 2u8, 5u8] + turbo + seq![4u8] + gaming
    }
}

/// The surface of a power domain in display order.
pub fn effective_profiles(turbo_stock: bool, plugged: bool, experimental: bool) -> (wires: Vec<u8>)
    ensures
        wires@ == surface(turbo_stock, plugged, experimental),
{
    let mut wires: Vec<u8> = Vec::new();
    if !plugged {
        wires.push(6);
        wires.push(3);
    } else {
        wires.push(0);
        wires.push(2);
        wires.push(5);
        if experimental || turbo_stock {
            wires.push(7);
        }
        wires.push(4);
        if experimental {
            wires.push(1);
        }
    }
    assert(wires@ =~= surface(turbo_stock, plugged, experimental));
    wires
}

/// What the power key steps through: the surface without Custom 4 and
/// Gaming 1, which a stray press must never reach.
pub open spec fn cycle(turbo_stock: bool, plugged: bool, experimental: bool) -> Seq<u8> {
    if !plugged {
        seq![6u8, 3u8]
    } else if experimental || turbo_stock {
        seq![0u8, 2u8, 5u8, 7u8]
    } else {
        seq![0u8, 2u8, 5u8]
    }
}

/// Whether the power key passes over a wire value.
pub fn cycle_excluded(wire: u8) -> (r: bool)
    ensures
        r == (wire == 4 || wire == 1),
{
    wire == 4 || wire == 1
}

/// The wires of `from` that the power key does not pass over, in order.
pub open spec fn kept(from: Seq<u8>) -> Seq<u8>
    decreases from.len(),
{
    if from.len() == 0 {
        seq![]
    } else if from.last() == 4 || from.last() == 1 {
        kept(from.drop_last())
    } else {
        kept(from.drop_last()).push(from.last())
    }
}

/// What the power key steps through.
pub fn cycle_order(turbo_stock: bool, plugged: bool, experimental: bool) -> (order: Vec<u8>)
    ensures
        order@ == cycle(turbo_stock, plugged, experimental),
{
    let wires = effective_profiles(turbo_stock, plugged, experimental);
    let mut order: Vec<u8> = Vec::new();
    let mut i: usize = 0;
    assert(kept(wires@.take(0)) =~= Seq::<u8>::empty());
    while i < wires.len()
        invariant
            i <= wires@.len(),
            order@ == kept(wires@.take(i as int)),
        decreases wires@.len() - i,
    {
        assert(wires@.take(i + 1).drop_last() =~= wires@.take(i as int));
        if !cycle_excluded(wires[i]) {
            order.push(wires[i]);
        }
        i = i + 1;
    }
    assert(wires@.take(i as int) =~= wires@);
    proof {
        kept_surface_is_cycle(turbo_stock, plugged, experimental);
    }
    order
}

/// The cycle of the power key is the surface without Custom and Gaming.
pub proof fn kept_surface_is_cycle(turbo_stock: bool, plugged: bool, experimental: bool)
    ensures
        kept(surface(turbo_stock, plugged, experimental)) == cycle(
            turbo_stock,
            plugged,
            experimental,
        ),
{
    let s = surface(turbo_stock, plugged, experimental);
    reveal_with_fuel(kept, 7);
    let d1 = s.drop_last();
    let d2 = d1.drop_last();
    let d3 = d2.drop_last();
    let d4 = d3.drop_last();
    let d5 = d4.drop_last();
    assert(kept(s) =~= cycle(turbo_stock, plugged, experimental));
}

/// The step that a press of the power key takes from `current`: the next wire
/// of `order` with wrap-around, or its first where `current` is not in it.
pub open spec fn advanced(order: Seq<u8>, current: Option<u8>) -> u8
    recommends
        order.len() > 0,
{
    match current {
        Some(c) if order.contains(c) => {
            let next = order.index_of_first(c)->0 + 1;
            order[if next < order.len() {
                next
            } else {
                0
            }]
        },
        _ => order[0],
    }
}

/// The step that a press of the power key takes from `current`.
pub fn advance(order: &Vec<u8>, current: Option<u8>) -> (next: u8)
    requires
        order@.len() > 0,
    ensures
        next == advanced(order@, current),
        order@.contains(next),
{
    if let Some(c) = current {
        let mut i: usize = 0;
        while i < order.len()
            invariant
                i <= order@.len(),
                order@.len() > 0,
                        current == Some(c),
                forall|j: int| 0 <= j < i ==> order@[j] != c,
            decreases order@.len() - i,
        {
            if order[i] == c {
                proof {
                    assert(order@.contains(c));
                    order@.index_of_first_ensures(c);
                    assert(order@.index_of_first(c)->0 == i);
                }
                let next: usize = if i + 1 == order.len() {
                    0
                } else {
                    i + 1
                };
                return order[next];
            }
            i = i + 1;
        }
        assert(!order@.contains(c));
    }
    order[0]
}

/// Why a power request is refused.
pub open spec fn refusal(pid: u16, ac: int, pwr: u8, cpu: u8, gpu: u8, experimental: bool) -> Option<
    Seq<char>,
> {
    let stock = pid == PID_BLADE_18_2025;
    if ac > 1 {
        Some("ac index out of range"@)
    } else if !offered(stock, ac == 1, experimental).contains(pwr) {
        if ac == 1 && pwr == 7 {
            Some("Turbo needs the experimental opt-in on this model"@)
        } else if ac == 1 && pwr == 1 {
            Some("profile needs the experimental opt-in"@)
        } else if pwr <= 7 {
            Some("profile not offered in this power domain"@)
        } else {
            Some("unknown profile value"@)
        }
    } else if !tier_offered(stock, cpu, experimental) || !tier_offered(stock, gpu, experimental) {
        Some("boost tier out of range (0..=2; the Max tier needs an unlock on this model)"@)
    } else {
        None
    }
}

/// Holds a power request to the matrix of the model.
pub fn validate_power_request(
    pid: u16,
    ac: usize,
    pwr: u8,
    cpu: u8,
    gpu: u8,
    experimental: bool,
) -> (r: Result<(), &'static str>)
    ensures
        r is Ok <==> refusal(pid, ac as int, pwr, cpu, gpu, experimental) is None,
        r matches Err(reason) ==> refusal(pid, ac as int, pwr, cpu, gpu, experimental) == Some(
            reason@,
        ),
{
    if ac > 1 {
        return Err("ac index out of range");
    }
    let plugged = ac == 1;
    if !profile_allowed_with(turbo_is_stock(pid), plugged, pwr, experimental) {
        return Err(
            match (pwr, plugged) {
                (7, true) => "Turbo needs the experimental opt-in on this model",
                (1, true) => "profile needs the experimental opt-in",
                (0..=7, _) => "profile not offered in this power domain",
                _ => "unknown profile value",
            },
        );
    }
    let max_stock = max_tier_is_stock(pid);
    if !boost_tier_valid_with(max_stock, cpu, experimental) || !boost_tier_valid_with(
        max_stock,
        gpu,
        experimental,
    ) {
        return Err(
            "boost tier out of range (0..=2; the Max tier needs an unlock on this model)",
        );
    }
    Ok(())
}

/// Charge limits that the optimizer takes: 50 to 80 percent.
pub fn bho_threshold_valid(threshold: u8) -> (r: bool)
    ensures
        r == (50 <= threshold <= 80),
{
    50 <= threshold && threshold <= 80
}

/// A charge limit in one byte: bit 7 is on/off, the rest the threshold.
pub open spec fn packed_limit(is_on: bool, threshold: u8) -> u8 {
    if is_on {
        threshold | 0x80
    } else {
        threshold
    }
}

/// A charge limit byte taken apart.
pub open spec fn unpacked_limit(u: u8) -> (bool, u8) {
    (u >= 0x80, u % 0x80)
}

pub fn bho_to_byte(is_on: bool, threshold: u8) -> (u: u8)
    ensures
        u == packed_limit(is_on, threshold),
{
    if is_on {
        return threshold | 0b1000_0000;
    }
    threshold
}

pub fn byte_to_bho(u: u8) -> (r: (bool, u8))
    ensures
        r == unpacked_limit(u),
{
    assert((u & 0x80 != 0) == (u >= 0x80)) by (bit_vector);
    assert(u & 0x7f == u % 0x80) by (bit_vector);
    (u & 0b1000_0000 != 0, u & 0b0111_1111)
}

/// A charge limit survives the byte, as long as the threshold leaves bit 7
/// free.
pub proof fn charge_limit_round_trip(is_on: bool, threshold: u8)
    requires
        threshold < 0x80,
    ensures
        unpacked_limit(packed_limit(is_on, threshold)) == (is_on, threshold),
{
    assert(threshold < 0x80 ==> (threshold | 0x80) >= 0x80 && (threshold | 0x80) % 0x80
        == threshold) by (bit_vector);
}

/// The profile a slot falls back to: Balanced of its domain.
pub open spec fn balanced(ac: int) -> u8 {
    if ac == 1 {
        0
    } else {
        6
    }
}

/// A slot holds only what the matrix offers.
pub open spec fn slot_valid(
    p: PowerConfig,
    ac: int,
    turbo_stock: bool,
    max_stock: bool,
    experimental: bool,
) -> bool {
    &&& offered(turbo_stock, ac == 1, experimental).contains(p.power_mode)
    &&& tier_offered(max_stock, p.cpu_boost, experimental)
    &&& tier_offered(max_stock, p.gpu_boost, experimental)
    &&& p.logo_state <= 2
}

/// A configuration holds only what the matrix offers.
pub open spec fn config_valid(c: Configuration, turbo_stock: bool, max_stock: bool) -> bool {
    &&& slot_valid(c.power@[0], 0, turbo_stock, max_stock, c.experimental_profiles)
    &&& slot_valid(c.power@[1], 1, turbo_stock, max_stock, c.experimental_profiles)
    &&& 50 <= c.bho_threshold <= 80
}

/// Whether Turbo counts as stock: while no model is known, every value that
/// some model ships is kept.
pub open spec fn stock_on(pid: Option<u16>) -> bool {
    match pid {
        None => true,
        Some(p) => p == PID_BLADE_18_2025,
    }
}

/// A configuration that is valid on the given model, or on some model while
/// none is known.
pub open spec fn valid_on(c: Configuration, pid: Option<u16>) -> bool {
    config_valid(c, stock_on(pid), stock_on(pid))
}

/// A slot with every value that the matrix does not offer reset.
pub open spec fn repaired_slot(
    p: PowerConfig,
    ac: int,
    turbo_stock: bool,
    max_stock: bool,
    experimental: bool,
) -> PowerConfig {
    PowerConfig {
        power_mode: if offered(turbo_stock, ac == 1, experimental).contains(p.power_mode) {
            p.power_mode
        } else {
            balanced(ac)
        },
        cpu_boost: if tier_offered(max_stock, p.cpu_boost, experimental) {
            p.cpu_boost
        } else {
            2
        },
        gpu_boost: if tier_offered(max_stock, p.gpu_boost, experimental) {
            p.gpu_boost
        } else {
            2
        },
        logo_state: if p.logo_state <= 2 {
            p.logo_state
        } else {
            0
        },
        ..p
    }
}

/// A configuration with every value that the matrix does not offer reset.
pub open spec fn repaired(c: Configuration, pid: Option<u16>) -> Configuration {
    let stock = stock_on(pid);
    let exp = c.experimental_profiles;
    Configuration {
        power: [
            repaired_slot(c.power@[0], 0, stock, stock, exp),
            repaired_slot(c.power@[1], 1, stock, stock, exp),
        ],
        bho_threshold: if 50 <= c.bho_threshold <= 80 {
            c.bho_threshold
        } else {
            80
        },
        ..c
    }
}

fn sanitize_slot(
    p: &mut PowerConfig,
    plugged: bool,
    turbo_stock: bool,
    max_stock: bool,
    experimental: bool,
) -> (changed: bool)
    ensures
        *final(p) == repaired_slot(
            *old(p),
            if plugged {
                1
            } else {
                0
            },
            turbo_stock,
            max_stock,
            experimental,
        ),
        changed == !slot_valid(
            *old(p),
            if plugged {
                1
            } else {
                0
            },
            turbo_stock,
            max_stock,
            experimental,
        ),
{
    let mut changed = false;
    if !profile_allowed_with(turbo_stock, plugged, p.power_mode, experimental) {
        p.power_mode = if plugged {
            0
        } else {
            6
        };
        changed = true;
    }
    if !boost_tier_valid_with(max_stock, p.cpu_boost, experimental) {
        p.cpu_boost = 2;
        changed = true;
    }
    if !boost_tier_valid_with(max_stock, p.gpu_boost, experimental) {
        p.gpu_boost = 2;
        changed = true;
    }
    if p.logo_state > 2 {
        p.logo_state = 0;
        changed = true;
    }
    changed
}

/// Resets every stored value that the matrix does not offer; tells whether
/// there was one. Without a model only values that no model offers are reset.
/// Fan speeds and curves are left alone: the model range is applied to them
/// when they are written.
pub fn sanitize_loaded_config(cfg: &mut Configuration, pid: Option<u16>) -> (changed: bool)
    ensures
        *final(cfg) == repaired(*old(cfg), pid),
        changed == !valid_on(*old(cfg), pid),
{
    let turbo_stock = match pid {
        None => true,
        Some(p) => turbo_is_stock(p),
    };
    let max_stock = match pid {
        None => true,
        Some(p) => max_tier_is_stock(p),
    };
    let experimental = cfg.experimental_profiles;
    let battery = sanitize_slot(&mut cfg.power[0], false, turbo_stock, max_stock, experimental);
    let ac = sanitize_slot(&mut cfg.power[1], true, turbo_stock, max_stock, experimental);
    let mut changed = battery || ac;
    if !bho_threshold_valid(cfg.bho_threshold) {
        cfg.bho_threshold = 80;
        changed = true;
    }
    assert(cfg.power =~= repaired(*old(cfg), pid).power);
    changed
}

/// Name of the supply that a slot is for.
pub open spec fn supply(ac: int) -> Seq<char> {
    if ac == 1 {
        "AC"@
    } else {
        "battery"@
    }
}

/// A line where `broken` holds, else none.
pub open spec fn told(broken: bool, line: Seq<char>) -> Seq<Seq<char>> {
    if broken {
        seq![line]
    } else {
        seq![]
    }
}

/// What the journal is told of the values of a slot that are reset.
pub open spec fn slot_repairs(
    p: PowerConfig,
    ac: int,
    turbo_stock: bool,
    max_stock: bool,
    experimental: bool,
) -> Seq<Seq<char>> {
    told(
        !offered(turbo_stock, ac == 1, experimental).contains(p.power_mode),
        "config sanitized: stored profile "@ + text::dec(p.power_mode as nat)
            + " is not valid on "@ + supply(ac) + " — reset to "@ + text::dec(balanced(ac) as nat),
    ) + told(
        !tier_offered(max_stock, p.cpu_boost, experimental),
        "config sanitized: stored CPU boost "@ + text::dec(p.cpu_boost as nat)
            + " out of range on "@ + supply(ac) + " — reset to 2"@,
    ) + told(
        !tier_offered(max_stock, p.gpu_boost, experimental),
        "config sanitized: stored GPU boost "@ + text::dec(p.gpu_boost as nat)
            + " out of range on "@ + supply(ac) + " — reset to 2"@,
    ) + told(
        p.logo_state > 2,
        "config sanitized: stored logo state "@ + text::dec(p.logo_state as nat)
            + " out of range on "@ + supply(ac) + " — reset to 0"@,
    )
}

/// What the journal is told of the values of a configuration that are reset.
pub open spec fn repairs(c: Configuration, pid: Option<u16>) -> Seq<Seq<char>> {
    let stock = stock_on(pid);
    let exp = c.experimental_profiles;
    slot_repairs(c.power@[0], 0, stock, stock, exp) + slot_repairs(
        c.power@[1],
        1,
        stock,
        stock,
        exp,
    ) + told(
        !(50 <= c.bho_threshold <= 80),
        "config sanitized: stored BHO threshold "@ + text::dec(c.bho_threshold as nat)
            + " outside 50..=80 — reset to 80"@,
    )
}

fn tell(lines: &mut Vec<String>, broken: bool, line: String)
    ensures
        text::views(final(lines)@) == text::views(old(lines)@) + told(broken, line@),
{
    let ghost before = lines@;
    if broken {
        lines.push(line);
    }
    assert(text::views(lines@) =~= text::views(before) + told(broken, line@));
}

fn repair_line(what: &str, value: u8, how: &str, supply: &str, reset: &str) -> (line: String)
    ensures
        line@ == what@ + text::dec(value as nat) + how@ + supply@ + reset@,
{
    let mut line = what.to_owned();
    line.append(decimal(value as u64).as_str());
    line.append(how);
    line.append(supply);
    line.append(reset);
    line
}

fn tell_slot(
    lines: &mut Vec<String>,
    p: &PowerConfig,
    plugged: bool,
    turbo_stock: bool,
    max_stock: bool,
    experimental: bool,
)
    ensures
        text::views(final(lines)@) == text::views(old(lines)@) + slot_repairs(
            *p,
            if plugged {
                1
            } else {
                0
            },
            turbo_stock,
            max_stock,
            experimental,
        ),
{
    let ghost before = text::views(lines@);
    let on = if plugged {
        "AC"
    } else {
        "battery"
    };
    let profile = profile_allowed_with(turbo_stock, plugged, p.power_mode, experimental);
    let mut line = repair_line(
        "config sanitized: stored profile ",
        p.power_mode,
        " is not valid on ",
        on,
        " — reset to ",
    );
    line.append(
        decimal(
            if plugged {
                0
            } else {
                6
            },
        ).as_str(),
    );
    tell(lines, !profile, line);
    let cpu = boost_tier_valid_with(max_stock, p.cpu_boost, experimental);
    let line = repair_line(
        "config sanitized: stored CPU boost ",
        p.cpu_boost,
        " out of range on ",
        on,
        " — reset to 2",
    );
    tell(lines, !cpu, line);
    let gpu = boost_tier_valid_with(max_stock, p.gpu_boost, experimental);
    let line = repair_line(
        "config sanitized: stored GPU boost ",
        p.gpu_boost,
        " out of range on ",
        on,
        " — reset to 2",
    );
    tell(lines, !gpu, line);
    let line = repair_line(
        "config sanitized: stored logo state ",
        p.logo_state,
        " out of range on ",
        on,
        " — reset to 0",
    );
    tell(lines, p.logo_state > 2, line);
    let ghost ac: int = if plugged {
        1
    } else {
        0
    };
    assert(text::views(lines@) =~= before + slot_repairs(
        *p,
        ac,
        turbo_stock,
        max_stock,
        experimental,
    ));
}

/// The lines for the journal on the values of a configuration that are reset,
/// one for each: those of the battery slot, those of the AC slot, the charge
/// limit.
pub fn repair_lines(cfg: &Configuration, pid: Option<u16>) -> (lines: Vec<String>)
    ensures
        text::views(lines@) == repairs(*cfg, pid),
{
    let turbo_stock = match pid {
        None => true,
        Some(p) => turbo_is_stock(p),
    };
    let max_stock = match pid {
        None => true,
        Some(p) => max_tier_is_stock(p),
    };
    let experimental = cfg.experimental_profiles;
    let mut lines: Vec<String> = Vec::new();
    assert(text::views(lines@) =~= Seq::<Seq<char>>::empty());
    tell_slot(&mut lines, &cfg.power[0], false, turbo_stock, max_stock, experimental);
    tell_slot(&mut lines, &cfg.power[1], true, turbo_stock, max_stock, experimental);
    let mut line = "config sanitized: stored BHO threshold ".to_owned();
    line.append(decimal(cfg.bho_threshold as u64).as_str());
    line.append(" outside 50..=80 — reset to 80");
    tell(&mut lines, !bho_threshold_valid(cfg.bho_threshold), line);
    assert(text::views(lines@) =~= repairs(*cfg, pid));
    lines
}

/// Nothing is reset without a line in the journal, and there is no line where
/// nothing is reset.
pub proof fn every_repair_is_told(c: Configuration, pid: Option<u16>)
    ensures
        repairs(c, pid).len() == 0 <==> valid_on(c, pid),
        repairs(c, pid).len() == 0 ==> repaired(c, pid) == c,
{
    if valid_on(c, pid) {
        assert(repaired(c, pid).power =~= c.power);
    }
}

/// The surface lists each profile that is allowed, once, and nothing else.
pub proof fn surface_is_what_is_offered(turbo_stock: bool, plugged: bool, experimental: bool, w: u8)
    ensures
        surface(turbo_stock, plugged, experimental).contains(w) <==> offered(
            turbo_stock,
            plugged,
            experimental,
        ).contains(w),
        surface(turbo_stock, plugged, experimental).no_duplicates(),
{
    let s = surface(turbo_stock, plugged, experimental);
    if s.contains(w) {
        let i = choose|i: int| 0 <= i < s.len() && s[i] == w;
    }
    if offered(turbo_stock, plugged, experimental).contains(w) {
        if !plugged {
            assert(s[0] == 6 && s[1] == 3);
        } else {
            assert(s[0] == 0 && s[1] == 2 && s[2] == 5);
            if experimental || turbo_stock {
                assert(s[3] == 7 && s[4] == 4);
                if experimental {
                    assert(s[5] == 1);
                }
            } else {
                assert(s[3] == 4);
            }
        }
    }
}

/// On battery the surface never grows, whatever the model or the unlock.
pub proof fn battery_never_gains(turbo_stock: bool, experimental: bool)
    ensures
        surface(turbo_stock, false, experimental) == seq![6u8, 3u8],
        offered(turbo_stock, false, experimental) == offered(false, false, false),
{
}

/// No profile is offered both on battery and plugged in.
pub proof fn domains_are_disjoint(t1: bool, e1: bool, t2: bool, e2: bool, w: u8)
    ensures
        !(offered(t1, true, e1).contains(w) && offered(t2, false, e2).contains(w)),
{
}

/// The unlock only adds, and with it every model offers the same.
pub proof fn unlock_is_the_full_surface(turbo_stock: bool, plugged: bool, w: u8, tier: u8)
    ensures
        offered(turbo_stock, plugged, false).contains(w) ==> offered(
            turbo_stock,
            plugged,
            true,
        ).contains(w),
        offered(turbo_stock, plugged, true) =~= offered(false, plugged, true),
        tier_offered(turbo_stock, tier, false) ==> tier_offered(turbo_stock, tier, true),
        tier_offered(turbo_stock, tier, true) == tier_offered(false, tier, true),
{
}

/// The power key never lands on Custom or Gaming, and only on what is offered.
pub proof fn cycle_is_safe(turbo_stock: bool, plugged: bool, experimental: bool, w: u8)
    ensures
        cycle(turbo_stock, plugged, experimental).contains(w) <==> offered(
            turbo_stock,
            plugged,
            experimental,
        ).contains(w) && w != 4 && w != 1,
        cycle(turbo_stock, plugged, experimental).len() >= 2,
        cycle(turbo_stock, plugged, experimental)[0] == balanced(
            if plugged {
                1
            } else {
                0
            },
        ),
{
    let s = cycle(turbo_stock, plugged, experimental);
    if s.contains(w) {
        let i = choose|i: int| 0 <= i < s.len() && s[i] == w;
    }
    if offered(turbo_stock, plugged, experimental).contains(w) && w != 4 && w != 1 {
        if !plugged {
            assert(s[0] == 6 && s[1] == 3);
        } else {
            assert(s[0] == 0 && s[1] == 2 && s[2] == 5);
            if experimental || turbo_stock {
                assert(s[3] == 7);
            }
        }
    }
}

/// Steps of the power key walk the cycle in order and wrap around; from
/// anything that is not on it they go to Balanced.
pub proof fn steps_walk_the_cycle(
    turbo_stock: bool,
    plugged: bool,
    experimental: bool,
    i: int,
    stray: u8,
)
    ensures
        ({
            let order = cycle(turbo_stock, plugged, experimental);
            &&& 0 <= i < order.len() ==> advanced(order, Some(order[i])) == order[(if i + 1
                < order.len() {
                i + 1
            } else {
                0
            })]
            &&& !order.contains(stray) ==> advanced(order, Some(stray)) == order[0]
            &&& advanced(order, None) == order[0]
        }),
{
    let order = cycle(turbo_stock, plugged, experimental);
    if 0 <= i < order.len() {
        assert(order.contains(order[i]));
        order.index_of_first_ensures(order[i]);
        let k = order.index_of_first(order[i])->0;
        assert(order[k] == order[i]);
        assert(order.no_duplicates());
        assert(k == i);
    }
}

/// A repaired configuration is valid on the model it was repaired for; a valid
/// one is left as it is, so that a second repair changes nothing.
pub proof fn repair_is_exact(c: Configuration, pid: Option<u16>)
    ensures
        valid_on(repaired(c, pid), pid),
        valid_on(c, pid) ==> repaired(c, pid) == c,
        repaired(repaired(c, pid), pid) == repaired(c, pid),
{
    let once = repaired(c, pid);
    assert(valid_on(once, pid));
    if valid_on(c, pid) {
        assert(once.power =~= c.power);
    }
    assert(repaired(once, pid).power =~= once.power);
}

/// While no model is known only values that no model offers are reset: what is
/// valid on some model stays as it is.
pub proof fn union_pass_is_weaker(c: Configuration, pid: u16)
    ensures
        valid_on(c, Some(pid)) ==> valid_on(c, None),
        valid_on(c, Some(pid)) ==> repaired(c, None) == c,
        repaired(repaired(c, None), Some(pid)) == repaired(c, Some(pid)),
{
    if valid_on(c, Some(pid)) {
        repair_is_exact(c, None);
    }
    assert(repaired(repaired(c, None), Some(pid)).power =~= repaired(c, Some(pid)).power);
}

/// The factory configuration is valid on every model.
pub proof fn factory_is_valid(c: Configuration, pid: Option<u16>)
    requires
        c.is_factory(),
    ensures
        valid_on(c, pid),
{
}

/// A request that is not refused asks only for what the model offers in the
/// slot, and a slot that held it would be valid.
pub proof fn accepted_means_offered(
    pid: u16,
    ac: int,
    pwr: u8,
    cpu: u8,
    gpu: u8,
    experimental: bool,
)
    requires
        0 <= ac,
    ensures
        refusal(pid, ac, pwr, cpu, gpu, experimental) is None <==> ac <= 1 && offered(
            stock_on(Some(pid)),
            ac == 1,
            experimental,
        ).contains(pwr) && tier_offered(stock_on(Some(pid)), cpu, experimental) && tier_offered(
            stock_on(Some(pid)),
            gpu,
            experimental,
        ),
{
}

/// On battery Balanced and Battery Saver are offered, whatever the model or the
/// unlock. Plugged in it is Balanced, Performance, Silent and Custom; Turbo
/// where the model ships it or the unlock is on; Gaming with the unlock alone.
/// Tiers go up to High, and to Max where the model ships it or the unlock is on.
pub proof fn the_offer_of_a_domain(stock: bool, plugged: bool, unlocked: bool, w: u8)
    ensures
        !plugged ==> (offered(stock, plugged, unlocked).contains(w) <==> w == 6 || w == 3),
        plugged && !unlocked && !stock ==> (offered(stock, plugged, unlocked).contains(w) <==> w
            == 0 || w == 2 || w == 4 || w == 5),
        plugged && !unlocked && stock ==> (offered(stock, plugged, unlocked).contains(w) <==> w == 0
            || w == 2 || w == 4 || w == 5 || w == 7),
        plugged && unlocked ==> (offered(stock, plugged, unlocked).contains(w) <==> w == 0 || w == 1
            || w == 2 || w == 4 || w == 5 || w == 7),
        tier_offered(stock, w, unlocked) <==> (if stock || unlocked {
            w <= 3
        } else {
            w <= 2
        }),
        stock_on(Some(0x02C7)) && !stock_on(Some(0x02C5)) && !stock_on(Some(0x02C6)),
{
}

/// A refused request is told why: the slot, the missing unlock, the domain, a
/// profile that does not exist, or a tier.
pub proof fn a_refusal_gives_its_reason(pid: u16, ac: int, pwr: u8, cpu: u8, gpu: u8)
    requires
        pid != 0x02C7,
    ensures
        ac > 1 ==> refusal(pid, ac, pwr, cpu, gpu, false) == Some("ac index out of range"@),
        refusal(pid, 1, 7, cpu, gpu, false) == Some(
            "Turbo needs the experimental opt-in on this model"@,
        ),
        refusal(pid, 1, 1, cpu, gpu, false) == Some("profile needs the experimental opt-in"@),
        pwr == 3 || pwr == 6 ==> refusal(pid, 1, pwr, cpu, gpu, false) == Some(
            "profile not offered in this power domain"@,
        ),
        pwr <= 7 && pwr != 3 && pwr != 6 ==> refusal(pid, 0, pwr, cpu, gpu, false) == Some(
            "profile not offered in this power domain"@,
        ),
        pwr > 7 && 0 <= ac <= 1 ==> refusal(pid, ac, pwr, cpu, gpu, false) == Some(
            "unknown profile value"@,
        ),
        cpu > 2 || gpu > 2 ==> refusal(pid, 1, 0, cpu, gpu, false) == Some(
            "boost tier out of range (0..=2; the Max tier needs an unlock on this model)"@,
        ),
        cpu <= 2 && gpu <= 2 ==> refusal(pid, 1, 0, cpu, gpu, false) is None && refusal(
            pid,
            0,
            6,
            cpu,
            gpu,
            false,
        ) is None,
        cpu <= 3 && gpu <= 3 ==> refusal(pid, 1, 7, cpu, gpu, true) is None && refusal(
            0x02C7,
            1,
            7,
            cpu,
            gpu,
            false,
        ) is None,
{
}

/// A repair resets what is not offered and nothing else: a profile to the
/// Balanced of its slot, a tier to High, a logo state to off, a threshold to 80.
pub proof fn a_repair_resets_only_what_is_not_offered(c: Configuration, pid: u16, ac: int)
    requires
        0 <= ac < 2,
        pid != 0x02C7,
        !c.experimental_profiles,
    ensures
        ({
            let r = repaired(c, Some(pid));
            let was = c.power@[ac];
            let now = r.power@[ac];
            &&& ac == 0 && (was.power_mode == 6 || was.power_mode == 3) ==> now.power_mode
                == was.power_mode
            &&& ac == 0 && was.power_mode != 6 && was.power_mode != 3 ==> now.power_mode == 6
            &&& ac == 1 && (was.power_mode == 0 || was.power_mode == 2 || was.power_mode == 4
                || was.power_mode == 5) ==> now.power_mode == was.power_mode
            &&& ac == 1 && (was.power_mode == 1 || was.power_mode == 3 || was.power_mode > 5)
                ==> now.power_mode == 0
            &&& now.cpu_boost == (if was.cpu_boost <= 2 { was.cpu_boost } else { 2 })
            &&& now.gpu_boost == (if was.gpu_boost <= 2 { was.gpu_boost } else { 2 })
            &&& now.logo_state == (if was.logo_state <= 2 { was.logo_state } else { 0 })
            &&& now.fan_rpm == was.fan_rpm && now.brightness == was.brightness && now.fan_curve
                == was.fan_curve
            &&& 50 <= c.bho_threshold <= 80 ==> r.bho_threshold == c.bho_threshold
            &&& c.bho_threshold < 50 || c.bho_threshold > 80 ==> r.bho_threshold == 80
            &&& r.static_color == c.static_color && r.static_lighting == c.static_lighting
            &&& r.bho_on == c.bho_on && !r.experimental_profiles
        }),
{
}

/// The charge limit travels as one byte: the threshold, with the top bit set
/// while the limit is on.
pub proof fn a_limit_is_its_threshold_with_the_top_bit(is_on: bool, threshold: u8, u: u8)
    requires
        threshold < 128,
    ensures
        is_on ==> packed_limit(is_on, threshold) == threshold + 128,
        !is_on ==> packed_limit(is_on, threshold) == threshold,
        u >= 128 ==> unpacked_limit(u) == (true, (u - 128) as u8),
        u < 128 ==> unpacked_limit(u) == (false, u),
{
    assert(threshold < 128 ==> threshold | 0x80 == threshold + 128) by (bit_vector);
}

} // verus!
