use vstd::prelude::*;

verus! {

/// The strength level (1 to 8) that a byte amplitude maps to: one level per 32 steps.
pub open spec fn strength_of(amp_byte: u8) -> u8 {
    (amp_byte / 32 + 1) as u8
}

/// Maps an amplitude byte onto the controller's 1..=8 feedback strength scale.
pub fn amp_to_strength(amp_byte: u8) -> (strength: u8)
    ensures
        strength == strength_of(amp_byte),
        1 <= strength <= 8,
{
    let s = amp_byte / 32 + 1;
    if s < 1 {
        1
    } else if s > 8 {
        8
    } else {
        s
    }
}

/// Whether a pedal sits inside its wall, given whether it was inside before.
///
/// Engaging needs `engage_at`; once engaged the wall holds until the pedal drops below `release_at`.
pub open spec fn wall_engaged(value: u8, engaged: bool, engage_at: u8, release_at: u8) -> bool {
    if engaged {
        value >= release_at
    } else {
        value >= engage_at
    }
}

/// Hysteresis for the pedal wall.
pub fn wall_state(value: u8, engaged: bool, engage_at: u8, release_at: u8) -> (inside: bool)
    ensures
        inside == wall_engaged(value, engaged, engage_at, release_at),
{
    if engaged {
        value >= release_at
    } else {
        value >= engage_at
    }
}

/// Law: the strength scale rises with the amplitude.
pub proof fn lemma_strength_monotone(a: u8, b: u8)
    requires
        a <= b,
    ensures
        strength_of(a) <= strength_of(b),
        1 <= strength_of(a) <= 8,
{
}

/// Law: the wall has hysteresis. With the release point at or below the engage point, a pedal
/// that would enter the wall is also one that stays in it, the wall is entered no earlier than
/// `engage_at` and left no later than below `release_at`, and pressing further never leaves it.
pub proof fn lemma_wall_hysteresis(v: u8, w: u8, engaged: bool, engage_at: u8, release_at: u8)
    requires
        release_at <= engage_at,
        v <= w,
    ensures
        wall_engaged(v, false, engage_at, release_at) ==> wall_engaged(v, true, engage_at, release_at),
        wall_engaged(v, false, engage_at, release_at) <==> v >= engage_at,
        !wall_engaged(v, true, engage_at, release_at) <==> v < release_at,
        wall_engaged(v, engaged, engage_at, release_at) ==> wall_engaged(w, engaged, engage_at, release_at),
{
}

} // verus!
