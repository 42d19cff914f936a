use vstd::prelude::*;

use crate::controller::TriggerMode;
use crate::utils::{amp_to_strength, strength_of};

verus! {

/// Number of resistance zones along the trigger travel.
pub const ZONE_COUNT: usize = 10;

// ------------------------------------------------------------------
// Zone encoding
// ------------------------------------------------------------------

/// A requested zone strength, limited to the controller's maximum of 8.
pub open spec fn zone_level(z: u8) -> u8 {
    if z > 8 {
        8
    } else {
        z
    }
}

/// Active-zone mask of the first `n` zones: bit `i` is set when zone `i` has a non-zero level.
pub open spec fn active_prefix(zones: Seq<u8>, n: nat) -> u16
    decreases n,
{
    if n == 0 {
        0
    } else if zone_level(zones[n - 1]) > 0 {
        active_prefix(zones, (n - 1) as nat) | (1u16 << ((n - 1) as u16))
    } else {
        active_prefix(zones, (n - 1) as nat)
    }
}

/// Packed strengths of the first `n` zones: the 3-bit field `i` holds level minus one
/// for an active zone `i`.
pub open spec fn strength_prefix(zones: Seq<u8>, n: nat) -> u32
    decreases n,
{
    if n == 0 {
        0
    } else if zone_level(zones[n - 1]) > 0 {
        strength_prefix(zones, (n - 1) as nat) | (((zone_level(zones[n - 1]) - 1) as u32) << ((3 * (
        n - 1)) as u32))
    } else {
        strength_prefix(zones, (n - 1) as nat)
    }
}

/// The active-zone mask of ten zones.
pub open spec fn zone_mask(zones: Seq<u8>) -> u16 {
    active_prefix(zones, 10)
}

/// The packed strengths of ten zones.
pub open spec fn zone_strengths(zones: Seq<u8>) -> u32 {
    strength_prefix(zones, 10)
}

/// Whether bit `i` of an active-zone mask is set.
pub open spec fn zone_is_active(mask: u16, i: int) -> bool {
    (mask >> (i as u16)) & 1 == 1
}

/// The 3-bit field `i` of a packed strength word.
pub open spec fn zone_field(strengths: u32, i: int) -> u32 {
    (strengths >> ((3 * i) as u32)) & 7
}

/// The zoned resistance that ten zone levels describe.
pub open spec fn feedback_of(zones: Seq<u8>) -> TriggerMode {
    TriggerMode::Feedback(zone_mask(zones), zone_strengths(zones))
}

/// The zoned vibration that ten zone levels and a frequency describe.
pub open spec fn pulse_ab_of(zones: Seq<u8>, freq: u8) -> TriggerMode {
    TriggerMode::PulseAB(zone_mask(zones), zone_strengths(zones), freq)
}

// ------------------------------------------------------------------
// Zone layouts
// ------------------------------------------------------------------

/// How many zones at the end of the travel form the wall: `wall_zones` limited to 1..=9.
pub open spec fn wall_count(wall_zones: u8) -> int {
    if wall_zones < 1 {
        1
    } else if wall_zones > 9 {
        9
    } else {
        wall_zones as int
    }
}

/// Ten zones of the same level.
pub open spec fn uniform_zones(level: u8) -> Seq<u8> {
    Seq::new(10, |_i: int| level)
}

/// The zones with the last `wall_count(wall_zones)` of them raised to full strength.
pub open spec fn with_wall(zones: Seq<u8>, wall_zones: u8) -> Seq<u8> {
    Seq::new(10, |i: int| if i >= 10 - wall_count(wall_zones) { 8 } else { zones[i] })
}

/// Zones from `start` onwards at `level`, the ones before it empty.
pub open spec fn zones_from(start: int, level: u8) -> Seq<u8> {
    Seq::new(10, |i: int| if i >= start { level } else { 0 })
}

/// Feedback strength (0..=8) that a constant force maps to; zero force stays zero.
pub open spec fn force_strength(force: u8) -> u8 {
    if force == 0 {
        0
    } else {
        strength_of(force)
    }
}

/// Feedback strength (0..=8) that a vibration amplitude maps to: a quarter of it,
/// rounded up, between 1 and 8; zero amplitude stays zero.
pub open spec fn vibration_strength(amp: u8) -> u8 {
    if amp == 0 {
        0
    } else {
        let q = (if amp as int + 3 > 255 { 255 } else { amp as int + 3 }) / 4;
        if q < 1 {
            1
        } else if q > 8 {
            8
        } else {
            q as u8
        }
    }
}

/// The first zone of a static brake wall placed at pedal position `static_at` (0..=255).
pub open spec fn static_wall_start(static_at: u8) -> int {
    let s = static_at as int * 10 / 256;
    if s > 9 {
        9
    } else {
        s
    }
}

/// The stronger of the feedback strengths of a force and of a vibration amplitude.
pub open spec fn max_strength(base_force: u8, amp: u8) -> u8 {
    if force_strength(base_force) >= vibration_strength(amp) {
        force_strength(base_force)
    } else {
        vibration_strength(amp)
    }
}

/// A vibration amplitude limited to the zone scale 1..=8.
pub open spec fn zone_amp(amp: u8) -> u8 {
    if amp < 1 {
        1
    } else if amp > 8 {
        8
    } else {
        amp
    }
}

/// Vibration at `zone_amp(amp)` over the whole travel, with the wall at full strength.
pub open spec fn vibration_wall_of(amp: u8, freq: u8, wall_zones: u8) -> TriggerMode {
    pulse_ab_of(with_wall(uniform_zones(zone_amp(amp)), wall_zones), freq)
}

/// Vibration over resistance: every zone at `max_strength(base_force, amp)`, the wall at full
/// strength when the pedal is inside it.
pub open spec fn vibrating_resistance_of(
    base_force: u8,
    freq: u8,
    amp: u8,
    in_wall: bool,
    wall_zones: u8,
) -> TriggerMode {
    let zones = uniform_zones(max_strength(base_force, amp));
    pulse_ab_of(if in_wall { with_wall(zones, wall_zones) } else { zones }, freq)
}

/// Resistance only in the wall at the end of the travel.
pub open spec fn wall_of(wall_zones: u8) -> TriggerMode {
    feedback_of(with_wall(uniform_zones(0), wall_zones))
}

/// Static brake resistance from `static_at` on at the strength of `force_byte`, plus the wall.
pub open spec fn brake_walls_of(static_at: u8, force_byte: u8, wall_zones: u8) -> TriggerMode {
    feedback_of(with_wall(zones_from(static_wall_start(static_at), strength_of(force_byte)), wall_zones))
}

// ------------------------------------------------------------------
// Builders
// ------------------------------------------------------------------

/// No resistance.
pub fn off() -> (mode: TriggerMode)
    ensures
        mode == TriggerMode::Off,
{
    TriggerMode::Off
}

/// Constant resistance.
pub fn rigid(force: u8) -> (mode: TriggerMode)
    ensures
        mode == TriggerMode::Rigid(force),
{
    TriggerMode::Rigid(force)
}

/// Plain vibration.
pub fn vibration(freq: u8, amp: u8) -> (mode: TriggerMode)
    ensures
        mode == TriggerMode::Pulse(freq, amp),
{
    TriggerMode::Pulse(freq, amp)
}

fn force_to_feedback_strength(force: u8) -> (strength: u8)
    ensures
        strength == force_strength(force),
{
    if force == 0 {
        0
    } else {
        amp_to_strength(force)
    }
}

fn vibration_to_feedback_strength(amp: u8) -> (strength: u8)
    ensures
        strength == vibration_strength(amp),
{
    if amp == 0 {
        0
    } else {
        let q = amp.saturating_add(3) / 4;
        if q < 1 {
            1
        } else if q > 8 {
            8
        } else {
            q
        }
    }
}

proof fn lemma_set_active_bit(a: u16, k: u16)
    requires
        k < 10,
        a < (1u16 << k),
    ensures
        (a | (1u16 << k)) < (1u16 << (k + 1) as u16),
        forall|j: u16| j < k ==> #[trigger] ((a | (1u16 << k)) >> j) & 1 == (a >> j) & 1,
        ((a | (1u16 << k)) >> k) & 1 == 1,
        a < (1u16 << (k + 1) as u16),
{
    assert((a | (1u16 << k)) < (1u16 << (k + 1) as u16)) by (bit_vector)
        requires
            k < 10,
            a < (1u16 << k),
    ;
    assert forall|j: u16| j < k implies #[trigger] ((a | (1u16 << k)) >> j) & 1 == (a >> j) & 1 by {
        assert(((a | (1u16 << k)) >> j) & 1 == (a >> j) & 1) by (bit_vector)
            requires
                k < 10,
                j < k,
        ;
    }
    assert(((a | (1u16 << k)) >> k) & 1 == 1) by (bit_vector)
        requires
            k < 10,
            a < (1u16 << k),
    ;
    assert(a < (1u16 << (k + 1) as u16)) by (bit_vector)
        requires
            k < 10,
            a < (1u16 << k),
    ;
}

proof fn lemma_keep_active_bit(a: u16, k: u16)
    requires
        k < 10,
        a < (1u16 << k),
    ensures
        (a >> k) & 1 == 0,
        a < (1u16 << (k + 1) as u16),
{
    assert((a >> k) & 1 == 0 && a < (1u16 << (k + 1) as u16)) by (bit_vector)
        requires
            k < 10,
            a < (1u16 << k),
    ;
}

proof fn lemma_set_strength_field(s: u32, k: u32, v: u32)
    requires
        k < 10,
        v < 8,
        s < (1u32 << (3 * k) as u32),
    ensures
        (s | (v << (3 * k) as u32)) < (1u32 << (3 * k + 3) as u32),
        forall|j: u32|
            j < k ==> #[trigger] ((s | (v << (3 * k) as u32)) >> (3 * j) as u32) & 7 == (s >> (3
                * j) as u32) & 7,
        ((s | (v << (3 * k) as u32)) >> (3 * k) as u32) & 7 == v,
{
    assert((s | (v << (3 * k) as u32)) < (1u32 << (3 * k + 3) as u32)) by (bit_vector)
        requires
            k < 10,
            v < 8,
            s < (1u32 << (3 * k) as u32),
    ;
    assert forall|j: u32| j < k implies #[trigger] ((s | (v << (3 * k) as u32)) >> (3 * j) as u32)
        & 7 == (s >> (3 * j) as u32) & 7 by {
        assert(((s | (v << (3 * k) as u32)) >> (3 * j) as u32) & 7 == (s >> (3 * j) as u32) & 7)
            by (bit_vector)
            requires
                k < 10,
                j < k,
                v < 8,
        ;
    }
    assert(((s | (v << (3 * k) as u32)) >> (3 * k) as u32) & 7 == v) by (bit_vector)
        requires
            k < 10,
            v < 8,
            s < (1u32 << (3 * k) as u32),
    ;
}

proof fn lemma_keep_strength_field(s: u32, k: u32)
    requires
        k < 10,
        s < (1u32 << (3 * k) as u32),
    ensures
        (s >> (3 * k) as u32) & 7 == 0,
        s < (1u32 << (3 * k + 3) as u32),
{
    assert((s >> (3 * k) as u32) & 7 == 0 && s < (1u32 << (3 * k + 3) as u32)) by (bit_vector)
        requires
            k < 10,
            s < (1u32 << (3 * k) as u32),
    ;
}

proof fn lemma_prefix_reads_back(zones: Seq<u8>, n: nat)
    requires
        n <= 10,
        zones.len() == 10,
    ensures
        active_prefix(zones, n) < (1u16 << (n as u16)),
        strength_prefix(zones, n) < (1u32 << ((3 * n) as u32)),
        forall|i: int|
            0 <= i < n ==> #[trigger] zone_is_active(active_prefix(zones, n), i) == (zone_level(
                zones[i],
            ) > 0),
        forall|i: int|
            0 <= i < n ==> #[trigger] zone_field(strength_prefix(zones, n), i) == (if zone_level(
                zones[i],
            ) > 0 {
                (zone_level(zones[i]) - 1) as u32
            } else {
                0u32
            }),
    decreases n,
{
    if n == 0 {
        assert(0u16 < (1u16 << 0u16)) by (bit_vector);
        assert(0u32 < (1u32 << 0u32)) by (bit_vector);
    } else {
        let k = (n - 1) as nat;
        lemma_prefix_reads_back(zones, k);
        let a = active_prefix(zones, k);
        let s = strength_prefix(zones, k);
        let lvl = zone_level(zones[k as int]);
        if lvl > 0 {
            lemma_set_active_bit(a, k as u16);
            lemma_set_strength_field(s, k as u32, (lvl - 1) as u32);
            assert forall|i: int| 0 <= i < n implies #[trigger] zone_is_active(
                active_prefix(zones, n),
                i,
            ) == (zone_level(zones[i]) > 0) by {
                if i < k {
                    assert(zone_is_active(a, i) == (zone_level(zones[i]) > 0));
                    assert((i as u16) < (k as u16));
                }
            }
            assert forall|i: int| 0 <= i < n implies #[trigger] zone_field(
                strength_prefix(zones, n),
                i,
            ) == (if zone_level(zones[i]) > 0 {
                (zone_level(zones[i]) - 1) as u32
            } else {
                0u32
            }) by {
                if i < k {
                    assert(zone_field(s, i) == (if zone_level(zones[i]) > 0 {
                        (zone_level(zones[i]) - 1) as u32
                    } else {
                        0u32
                    }));
                    assert((i as u32) < (k as u32));
                    assert((3 * i) as u32 == 3 * (i as u32));
                }
            }
        } else {
            lemma_keep_active_bit(a, k as u16);
            lemma_keep_strength_field(s, k as u32);
        }
    }
}

/// Law: the zone encoding reads back. Bit `i` of the mask tells whether zone `i` is active,
/// the 3-bit field `i` holds its level (capped at 8) minus one, and nothing lies beyond the
/// ten zones.
pub proof fn lemma_zone_encoding_reads_back(zones: Seq<u8>)
    requires
        zones.len() == 10,
    ensures
        zone_mask(zones) < 1024,
        zone_strengths(zones) < 0x4000_0000,
        forall|i: int|
            0 <= i < 10 ==> #[trigger] zone_is_active(zone_mask(zones), i) == (zone_level(zones[i])
                > 0),
        forall|i: int|
            0 <= i < 10 ==> #[trigger] zone_field(zone_strengths(zones), i) == (if zone_level(
                zones[i],
            ) > 0 {
                (zone_level(zones[i]) - 1) as u32
            } else {
                0u32
            }),
{
    lemma_prefix_reads_back(zones, 10);
    assert((1u16 << 10u16) == 1024u16) by (bit_vector);
    assert((1u32 << 30u32) == 0x4000_0000u32) by (bit_vector);
}

fn encode_zones(zones: &[u8; 10]) -> (res: (u16, u32))
    ensures
        res == (zone_mask(zones@), zone_strengths(zones@)),
{
    let mut active = 0u16;
    let mut strength = 0u32;
    let mut i: usize = 0;
    while i < 10
        invariant
            0 <= i <= 10,
            active == active_prefix(zones@, i as nat),
            strength == strength_prefix(zones@, i as nat),
        decreases 10 - i,
    {
        let z = zones[i];
        let zone_strength = if z > 8 {
            8
        } else {
            z
        };
        if zone_strength > 0 {
            active = active | (1u16 << (i as u16));
            strength = strength | (((zone_strength - 1) as u32) << ((3 * i) as u32));
        }
        i = i + 1;
    }
    (active, strength)
}

fn pulse_ab_from_zones(zones: &[u8; 10], freq: u8) -> (mode: TriggerMode)
    ensures
        mode == pulse_ab_of(zones@, freq),
{
    let (active, strength) = encode_zones(zones);
    TriggerMode::PulseAB(active, strength, freq)
}

fn feedback(zones: &[u8; 10]) -> (mode: TriggerMode)
    ensures
        mode == feedback_of(zones@),
{
    let (active, force) = encode_zones(zones);
    TriggerMode::Feedback(active, force)
}

fn wall_zone_count(wall_zones: u8) -> (w: usize)
    ensures
        w == wall_count(wall_zones),
        1 <= w <= 9,
{
    if wall_zones < 1 {
        1
    } else if wall_zones > 9 {
        9
    } else {
        wall_zones as usize
    }
}

fn raise_wall(zones: &mut [u8; 10], wall_zones: u8)
    ensures
        final(zones)@ == with_wall(old(zones)@, wall_zones),
{
    let w = wall_zone_count(wall_zones);
    let mut i: usize = 10 - w;
    while i < 10
        invariant
            10 - wall_count(wall_zones) <= i <= 10,
            forall|j: int|
                0 <= j < 10 ==> #[trigger] zones@[j] == (if 10 - wall_count(wall_zones) <= j < i {
                    8u8
                } else {
                    old(zones)@[j]
                }),
        decreases 10 - i,
    {
        zones[i] = 8;
        i = i + 1;
    }
    assert(zones@ =~= with_wall(old(zones)@, wall_zones));
}

/// Vibration over a base strength, with a full-strength wall at the end of the travel.
pub fn vibration_wall(amp: u8, freq: u8, wall_zones: u8) -> (mode: TriggerMode)
    ensures
        mode == vibration_wall_of(amp, freq, wall_zones),
{
    let a = if amp < 1 {
        1
    } else if amp > 8 {
        8
    } else {
        amp
    };
    let mut zones = [a; 10];
    assert(zones@ =~= uniform_zones(a));
    raise_wall(&mut zones, wall_zones);
    pulse_ab_from_zones(&zones, freq)
}

/// Vibration layered over resistance: every zone at the stronger of the force's and the
/// amplitude's feedback strength, with the wall at full strength when the pedal is in it.
pub fn build_vibrating_resistance(
    base_force: u8,
    freq: u8,
    amp: u8,
    in_wall: bool,
    wall_zones: u8,
) -> (mode: TriggerMode)
    ensures
        mode == vibrating_resistance_of(base_force, freq, amp, in_wall, wall_zones),
{
    let base_strength = force_to_feedback_strength(base_force);
    let buzz_strength = vibration_to_feedback_strength(amp);
    let combined_strength = if base_strength >= buzz_strength {
        base_strength
    } else {
        buzz_strength
    };
    let mut zones = [combined_strength; 10];
    assert(zones@ =~= uniform_zones(combined_strength));
    if in_wall {
        raise_wall(&mut zones, wall_zones);
    }
    pulse_ab_from_zones(&zones, freq)
}

/// Resistance only at the end of the travel: a full-strength wall, nothing before it.
pub fn build_wall(wall_zones: u8) -> (mode: TriggerMode)
    ensures
        mode == wall_of(wall_zones),
{
    let mut zones = [0u8; 10];
    assert(zones@ =~= uniform_zones(0));
    raise_wall(&mut zones, wall_zones);
    feedback(&zones)
}

/// A static brake wall: resistance from pedal position `static_at` on, at the strength of
/// `force_byte`, with the end wall at full strength.
pub fn build_brake_walls(static_at: u8, force_byte: u8, wall_zones: u8) -> (mode: TriggerMode)
    ensures
        mode == brake_walls_of(static_at, force_byte, wall_zones),
{
    let strength = amp_to_strength(force_byte);
    let s = (static_at as usize) * 10 / 256;
    let start = if s > 9 {
        9
    } else {
        s
    };
    let mut zones = [0u8; 10];
    let mut i: usize = start;
    while i < 10
        invariant
            start <= i <= 10,
            start == static_wall_start(static_at),
            strength == strength_of(force_byte),
            forall|j: int|
                0 <= j < 10 ==> #[trigger] zones@[j] == (if start <= j < i {
                    strength
                } else {
                    0u8
                }),
        decreases 10 - i,
    {
        zones[i] = strength;
        i = i + 1;
    }
    assert(zones@ =~= zones_from(static_wall_start(static_at), strength_of(force_byte)));
    raise_wall(&mut zones, wall_zones);
    feedback(&zones)
}

// ------------------------------------------------------------------
// Laws
// ------------------------------------------------------------------

/// Law: a stronger vibration never maps to a weaker feedback strength, and the strength stays
/// on the 0..=8 scale.
pub proof fn lemma_vibration_strength_monotone(a: u8, b: u8)
    requires
        a <= b,
    ensures
        vibration_strength(a) <= vibration_strength(b),
        vibration_strength(b) <= 8,
{
}

/// Law: vibration over resistance follows the stronger of the two, so a stronger vibration
/// never weakens it.
pub proof fn lemma_max_strength_monotone(base_force: u8, a: u8, b: u8)
    requires
        a <= b,
    ensures
        max_strength(base_force, a) <= max_strength(base_force, b),
        max_strength(base_force, a) >= force_strength(base_force),
        max_strength(base_force, a) >= vibration_strength(a),
        max_strength(base_force, b) <= 8,
{
    lemma_vibration_strength_monotone(a, b);
}

/// Law: the zones of vibration over resistance read back as the combined strength before the
/// wall and full strength inside it (when the pedal is in it).
pub proof fn lemma_vibrating_resistance_zones(
    base_force: u8,
    freq: u8,
    amp: u8,
    in_wall: bool,
    wall_zones: u8,
)
    ensures
        ({
            let level = max_strength(base_force, amp);
            match vibrating_resistance_of(base_force, freq, amp, in_wall, wall_zones) {
                TriggerMode::PulseAB(mask, strengths, f) => {
                    &&& f == freq
                    &&& forall|i: int|
                        0 <= i < 10 ==> {
                            let lvl = if in_wall && i >= 10 - wall_count(wall_zones) {
                                8u8
                            } else {
                                level
                            };
                            &&& #[trigger] zone_is_active(mask, i) == (lvl > 0)
                            &&& zone_field(strengths, i) == (if lvl > 0 {
                                (lvl - 1) as u32
                            } else {
                                0u32
                            })
                        }
                },
                _ => false,
            }
        }),
{
    let level = max_strength(base_force, amp);
    let zones = if in_wall {
        with_wall(uniform_zones(level), wall_zones)
    } else {
        uniform_zones(level)
    };
    lemma_zone_encoding_reads_back(zones);
    lemma_max_strength_monotone(base_force, amp, amp);
}

/// Law: the end wall is exactly the last `wall_count(wall_zones)` zones, at full strength.
pub proof fn lemma_wall_zones(wall_zones: u8)
    ensures
        match wall_of(wall_zones) {
            TriggerMode::Feedback(mask, strengths) => forall|i: int|
                0 <= i < 10 ==> {
                    &&& #[trigger] zone_is_active(mask, i) == (i >= 10 - wall_count(wall_zones))
                    &&& zone_field(strengths, i) == (if i >= 10 - wall_count(wall_zones) {
                        7u32
                    } else {
                        0u32
                    })
                },
            _ => false,
        },
{
    lemma_zone_encoding_reads_back(with_wall(uniform_zones(0), wall_zones));
}

/// Law: the vibrating wall carries its amplitude. Every zone before the wall vibrates at the
/// amplitude limited to 1..=8, every wall zone at full strength, at the given frequency.
pub proof fn lemma_vibration_wall_zones(amp: u8, freq: u8, wall_zones: u8)
    ensures
        match vibration_wall_of(amp, freq, wall_zones) {
            TriggerMode::PulseAB(mask, strengths, f) => {
                &&& f == freq
                &&& forall|i: int|
                    0 <= i < 10 ==> {
                        &&& #[trigger] zone_is_active(mask, i)
                        &&& zone_field(strengths, i) == (if i >= 10 - wall_count(wall_zones) {
                            7u32
                        } else if amp < 1 {
                            0u32
                        } else if amp > 8 {
                            7u32
                        } else {
                            (amp - 1) as u32
                        })
                    }
            },
            _ => false,
        },
{
    lemma_zone_encoding_reads_back(with_wall(uniform_zones(zone_amp(amp)), wall_zones));
}

} // verus!
