use vstd::prelude::*;

use crate::controller::TriggerMode;
use crate::trigger_builders::{
    brake_walls_of, build_brake_walls, build_vibrating_resistance, build_wall, off, rigid,
    vibrating_resistance_of, vibration, vibration_wall, vibration_wall_of, wall_of,
};
use crate::utils::{amp_to_strength, strength_of, wall_engaged, wall_state};

verus! {

/// How long an ABS pulse lasts after slip was seen, in nanoseconds.
pub const ABS_HOLD_NS: u64 = 80_000_000;

/// How long a wheelspin buzz lasts after slip was seen, in nanoseconds.
pub const WHEELSPIN_HOLD_NS: u64 = 80_000_000;

/// The surface under the driven wheels, which shapes the wheelspin buzz.
#[derive(Debug, Clone, Copy, PartialEq, Eq, Structural)]
pub enum Surface {
    /// A driven wheel is in standing water.
    Puddle,
    /// Strong surface rumble (gravel, dirt).
    Rough,
    /// Moderate surface rumble.
    Bumpy,
    /// Tarmac.
    Smooth,
}

/// A yes/no fact about each wheel: front-left, front-right, rear-left, rear-right.
#[derive(Debug, Clone, Copy, PartialEq, Eq, Structural)]
pub struct WheelFlags {
    pub fl: bool,
    pub fr: bool,
    pub rl: bool,
    pub rr: bool,
}

/// What one telemetry packet tells the trigger logic.
///
/// The pedal bytes, gear, drive train and running flag come straight from the packet. The
/// remaining fields are the outcome of the physics measurements that the game reports as
/// floats (speed, slip, rpm, puddle depth, surface rumble), each compared against its
/// threshold, and the pedal resistance curves evaluated for this frame.
#[derive(Debug, Clone, Copy, PartialEq, Eq, Structural)]
pub struct TelemetryFrame {
    /// Zero when no race is running.
    pub is_running: i32,
    pub gear: u8,
    /// Throttle pedal, 0..=255.
    pub accel: u8,
    /// Brake pedal, 0..=255.
    pub brake: u8,
    /// Handbrake, 0..=255.
    pub handbrake: u8,
    /// 0 front-wheel, 1 rear-wheel, anything else all-wheel drive.
    pub drive_train: i32,
    /// Brake resistance from the brake curve at the current pedal position.
    pub brake_force: u8,
    /// Throttle resistance from the throttle curve at the current pedal position.
    pub throttle_force: u8,
    /// The car is at least as fast as the ABS minimum speed.
    pub abs_speed: bool,
    /// Wheels whose slip ratio, in magnitude, reached the ABS slip threshold.
    pub abs_slip: WheelFlags,
    /// Wheels whose combined slip, in magnitude, reached the ABS combined-slip threshold.
    pub abs_combined_slip: WheelFlags,
    /// Engine rpm over the rev-limit share of maximum rpm.
    pub over_rev: bool,
    /// The car is at least as fast as the wheelspin minimum speed.
    pub wheelspin_speed: bool,
    /// Wheels whose slip ratio reached the wheelspin threshold.
    pub wheelspin_slip: WheelFlags,
    /// Wheels standing in water.
    pub in_puddle: WheelFlags,
    /// Wheels on strong surface rumble.
    pub heavy_rumble: WheelFlags,
    /// Wheels on moderate (or stronger) surface rumble.
    pub light_rumble: WheelFlags,
}

/// Whether a fact holds of some wheel.
pub open spec fn any_wheel(w: WheelFlags) -> bool {
    w.fl || w.fr || w.rl || w.rr
}

/// Whether a fact holds of some driven wheel: the front pair for front-wheel drive (0), the
/// rear pair for rear-wheel drive (1), any wheel otherwise.
pub open spec fn any_driven(drive_train: i32, w: WheelFlags) -> bool {
    if drive_train == 0 {
        w.fl || w.fr
    } else if drive_train == 1 {
        w.rl || w.rr
    } else {
        any_wheel(w)
    }
}

/// The surface under the driven wheels: water first, then strong rumble, then moderate rumble.
pub open spec fn surface_of(f: TelemetryFrame) -> Surface {
    if any_driven(f.drive_train, f.in_puddle) {
        Surface::Puddle
    } else if any_driven(f.drive_train, f.heavy_rumble) {
        Surface::Rough
    } else if any_driven(f.drive_train, f.light_rumble) {
        Surface::Bumpy
    } else {
        Surface::Smooth
    }
}

/// The effect settings that the trigger logic reads.
#[derive(Debug, Clone, Copy, PartialEq, Eq, Structural)]
pub struct EffectSettings {
    /// Zones at the end of the travel that form the wall.
    pub wall_zones: u8,
    pub enable_brake_resistance: bool,
    pub brake_wall_engage_at: u8,
    pub brake_wall_release_at: u8,
    pub enable_brake_static_wall: bool,
    pub brake_static_wall_at: u8,
    pub brake_static_wall_force: u8,
    pub enable_handbrake_bonus: bool,
    pub handbrake_bonus: u8,
    pub enable_abs: bool,
    pub abs_brake_threshold: u8,
    pub abs_freq: u8,
    pub abs_amp: u8,
    pub enable_throttle_resistance: bool,
    pub accel_deadzone: u8,
    pub throttle_wall_engage_at: u8,
    pub throttle_wall_release_at: u8,
    pub enable_rev_limiter: bool,
    pub rev_limit_freq: u8,
    pub rev_limit_amp: u8,
    /// How long the rev-limiter buzz holds, in nanoseconds.
    pub rev_limit_hold_ns: u64,
    pub enable_wheelspin_buzz: bool,
    pub wheelspin_amp: u8,
    /// Gear-shift kick on the throttle.
    pub enable_gear_shift: bool,
    /// Gear-shift kick on the brake.
    pub enable_gear_shift_brake: bool,
    pub gear_shift_freq: u8,
    pub gear_shift_amp: u8,
    /// How long a gear-shift kick lasts, in nanoseconds.
    pub gear_shift_duration_ns: u64,
}

/// The settings a fresh installation starts with.
pub open spec fn default_settings() -> EffectSettings {
    EffectSettings {
        wall_zones: 2,
        enable_brake_resistance: true,
        brake_wall_engage_at: 250,
        brake_wall_release_at: 200,
        enable_brake_static_wall: false,
        brake_static_wall_at: 128,
        brake_static_wall_force: 255,
        enable_handbrake_bonus: true,
        handbrake_bonus: 60,
        enable_abs: true,
        abs_brake_threshold: 80,
        abs_freq: 10,
        abs_amp: 20,
        enable_throttle_resistance: true,
        accel_deadzone: 50,
        throttle_wall_engage_at: 250,
        throttle_wall_release_at: 200,
        enable_rev_limiter: true,
        rev_limit_freq: 20,
        rev_limit_amp: 10,
        rev_limit_hold_ns: 120_000_000,
        enable_wheelspin_buzz: true,
        wheelspin_amp: 3,
        enable_gear_shift: true,
        enable_gear_shift_brake: true,
        gear_shift_freq: 20,
        gear_shift_amp: 255,
        gear_shift_duration_ns: 100_000_000,
    }
}

impl Default for EffectSettings {
    fn default() -> (s: Self)
        ensures
            s == default_settings(),
    {
        EffectSettings {
            wall_zones: 2,
            enable_brake_resistance: true,
            brake_wall_engage_at: 250,
            brake_wall_release_at: 200,
            enable_brake_static_wall: false,
            brake_static_wall_at: 128,
            brake_static_wall_force: 255,
            enable_handbrake_bonus: true,
            handbrake_bonus: 60,
            enable_abs: true,
            abs_brake_threshold: 80,
            abs_freq: 10,
            abs_amp: 20,
            enable_throttle_resistance: true,
            accel_deadzone: 50,
            throttle_wall_engage_at: 250,
            throttle_wall_release_at: 200,
            enable_rev_limiter: true,
            rev_limit_freq: 20,
            rev_limit_amp: 10,
            rev_limit_hold_ns: 120_000_000,
            enable_wheelspin_buzz: true,
            wheelspin_amp: 3,
            enable_gear_shift: true,
            enable_gear_shift_brake: true,
            gear_shift_freq: 20,
            gear_shift_amp: 255,
            gear_shift_duration_ns: 100_000_000,
        }
    }
}

/// The memory of the trigger logic between frames. Times are nanoseconds on a monotonic clock.
#[derive(Debug, Clone, Copy, PartialEq, Eq, Structural)]
pub struct LogicState {
    /// Gear of the last running frame, 0 before any.
    pub prev_gear: u8,
    /// End of the current gear-shift kick.
    pub shift_until: Option<u64>,
    /// End of the current rev-limiter buzz.
    pub rev_until: Option<u64>,
    /// End of the current ABS pulse.
    pub abs_until: Option<u64>,
    /// End of the current wheelspin buzz.
    pub wheelspin_until: Option<u64>,
    /// The brake pedal is inside its wall.
    pub l2_in_wall: bool,
    /// The throttle pedal is inside its wall.
    pub r2_in_wall: bool,
}

/// Turns telemetry frames into trigger modes, remembering timed effects and wall hysteresis.
pub struct ControllerLogic {
    prev_gear: u8,
    shift_until: Option<u64>,
    rev_until: Option<u64>,
    abs_until: Option<u64>,
    wheelspin_until: Option<u64>,
    l2_in_wall: bool,
    r2_in_wall: bool,
}

impl View for ControllerLogic {
    type V = LogicState;

    closed spec fn view(&self) -> LogicState {
        LogicState {
            prev_gear: self.prev_gear,
            shift_until: self.shift_until,
            rev_until: self.rev_until,
            abs_until: self.abs_until,
            wheelspin_until: self.wheelspin_until,
            l2_in_wall: self.l2_in_wall,
            r2_in_wall: self.r2_in_wall,
        }
    }
}

// ------------------------------------------------------------------
// The model
// ------------------------------------------------------------------

/// The state before any frame.
pub open spec fn initial_state() -> LogicState {
    LogicState {
        prev_gear: 0,
        shift_until: None,
        rev_until: None,
        abs_until: None,
        wheelspin_until: None,
        l2_in_wall: false,
        r2_in_wall: false,
    }
}

/// A timed effect is running at `now` when it ends later than `now`.
pub open spec fn running_at(until: Option<u64>, now: u64) -> bool {
    match until {
        Some(u) => now < u,
        None => false,
    }
}

/// `now` plus a duration, as a deadline.
pub open spec fn deadline(now: u64, duration: u64) -> Option<u64> {
    Some((now + duration) as u64)
}

/// Whether the sum of a time and a duration is representable.
pub open spec fn fits(now: u64, duration: u64) -> bool {
    now + duration <= u64::MAX
}

/// The clock readings on which every deadline of a frame is representable.
pub open spec fn clock_ok(s: EffectSettings, now: u64) -> bool {
    &&& fits(now, s.gear_shift_duration_ns)
    &&& fits(now, s.rev_limit_hold_ns)
    &&& fits(now, ABS_HOLD_NS)
    &&& fits(now, WHEELSPIN_HOLD_NS)
}

/// Whether this frame starts a gear-shift kick: a shift effect is enabled and the gear moved
/// away from a known (non-zero) previous gear.
pub open spec fn gear_shifted(st: LogicState, f: TelemetryFrame, s: EffectSettings) -> bool {
    (s.enable_gear_shift || s.enable_gear_shift_brake) && st.prev_gear != 0 && f.gear
        != st.prev_gear
}

/// The state after the gear of a running frame has been taken into account.
pub open spec fn after_gear(st: LogicState, f: TelemetryFrame, s: EffectSettings, now: u64) -> LogicState {
    if s.enable_gear_shift || s.enable_gear_shift_brake {
        LogicState {
            prev_gear: f.gear,
            shift_until: if gear_shifted(st, f, s) {
                deadline(now, s.gear_shift_duration_ns)
            } else {
                st.shift_until
            },
            ..st
        }
    } else {
        st
    }
}

/// The gear-shift kick for a pedal, if one is running: a vibrating wall when the pedal is
/// past the midpoint between its wall and the end of travel, plain vibration before that.
pub open spec fn shift_burst_spec(
    st: LogicState,
    s: EffectSettings,
    now: u64,
    pedal: u8,
    wall_engage_at: u8,
) -> Option<TriggerMode> {
    if running_at(st.shift_until, now) {
        if pedal as int >= (wall_engage_at as int + 255) / 2 {
            Some(vibration_wall_of(strength_of(s.gear_shift_amp), s.gear_shift_freq, s.wall_zones))
        } else {
            Some(TriggerMode::Pulse(s.gear_shift_freq, s.gear_shift_amp))
        }
    } else {
        None
    }
}

/// The brake resistance before effects: the curve when brake resistance is on, plus the
/// handbrake bonus (saturating) while the handbrake is pulled.
pub open spec fn brake_base_force(f: TelemetryFrame, s: EffectSettings) -> u8 {
    let curve = if s.enable_brake_resistance {
        f.brake_force
    } else {
        0u8
    };
    if s.enable_handbrake_bonus && f.handbrake > 0 {
        if curve as int + s.handbrake_bonus as int > 255 {
            255u8
        } else {
            (curve + s.handbrake_bonus) as u8
        }
    } else {
        curve
    }
}

/// ABS fires on this frame.
pub open spec fn abs_fires(f: TelemetryFrame, s: EffectSettings) -> bool {
    s.enable_abs && f.brake >= s.abs_brake_threshold && f.abs_speed && (any_wheel(f.abs_slip)
        || any_wheel(f.abs_combined_slip))
}

/// The left (brake) trigger: the new state and its mode.
pub open spec fn l2_spec(st: LogicState, f: TelemetryFrame, s: EffectSettings, now: u64) -> (LogicState, TriggerMode) {
    let burst = if s.enable_gear_shift_brake {
        shift_burst_spec(st, s, now, f.brake, s.brake_wall_engage_at)
    } else {
        None
    };
    if burst is Some {
        (st, burst->0)
    } else {
        let handbrake = s.enable_handbrake_bonus && f.handbrake > 0;
        let base = brake_base_force(f, s);
        let in_wall = wall_engaged(f.brake, st.l2_in_wall, s.brake_wall_engage_at, s.brake_wall_release_at);
        let abs_until = if abs_fires(f, s) {
            deadline(now, ABS_HOLD_NS)
        } else {
            st.abs_until
        };
        let st2 = LogicState { l2_in_wall: in_wall, abs_until, ..st };
        let mode = if running_at(abs_until, now) {
            if !s.enable_brake_resistance {
                TriggerMode::Pulse(s.abs_freq, s.abs_amp)
            } else {
                vibrating_resistance_of(base, s.abs_freq, s.abs_amp, in_wall, s.wall_zones)
            }
        } else if in_wall {
            wall_of(s.wall_zones)
        } else if s.enable_brake_static_wall {
            brake_walls_of(s.brake_static_wall_at, s.brake_static_wall_force, s.wall_zones)
        } else if !s.enable_brake_resistance {
            if handbrake {
                TriggerMode::Rigid(s.handbrake_bonus)
            } else {
                TriggerMode::Off
            }
        } else {
            TriggerMode::Rigid(base)
        };
        (st2, mode)
    }
}

/// Wheelspin buzz frequency and amplitude for a surface: deep and soft in water, hard on
/// rough ground, medium on bumpy ground, the configured amplitude on tarmac.
pub open spec fn surface_buzz(surface: Surface, wheelspin_amp: u8) -> (u8, u8) {
    match surface {
        Surface::Puddle => (100u8, if wheelspin_amp / 2 < 1 { 1u8 } else { (wheelspin_amp / 2) as u8 }),
        Surface::Rough => (20u8, 15u8),
        Surface::Bumpy => (60u8, 8u8),
        Surface::Smooth => (100u8, wheelspin_amp),
    }
}

/// The rev limiter fires on this frame.
pub open spec fn rev_fires(f: TelemetryFrame, s: EffectSettings) -> bool {
    s.enable_rev_limiter && f.accel >= s.accel_deadzone && f.over_rev
}

/// Wheelspin is detected on this frame.
pub open spec fn wheelspin_fires(f: TelemetryFrame, s: EffectSettings) -> bool {
    s.enable_wheelspin_buzz && f.wheelspin_speed && f.accel >= s.accel_deadzone && any_driven(
        f.drive_train,
        f.wheelspin_slip,
    )
}

/// The right (throttle) trigger: the new state and its mode.
pub open spec fn r2_spec(st: LogicState, f: TelemetryFrame, s: EffectSettings, now: u64) -> (LogicState, TriggerMode) {
    let burst = if s.enable_gear_shift {
        shift_burst_spec(st, s, now, f.accel, s.throttle_wall_engage_at)
    } else {
        None
    };
    if burst is Some {
        (st, burst->0)
    } else {
        let base = if s.enable_throttle_resistance {
            f.throttle_force
        } else {
            0u8
        };
        let in_wall = wall_engaged(f.accel, st.r2_in_wall, s.throttle_wall_engage_at, s.throttle_wall_release_at);
        let rev_until = if rev_fires(f, s) {
            deadline(now, s.rev_limit_hold_ns)
        } else {
            st.rev_until
        };
        let wheelspin_until = if wheelspin_fires(f, s) {
            deadline(now, WHEELSPIN_HOLD_NS)
        } else {
            st.wheelspin_until
        };
        let (freq, amp) = surface_buzz(surface_of(f), s.wheelspin_amp);
        let st2 = LogicState { r2_in_wall: in_wall, rev_until, wheelspin_until, ..st };
        let mode = if running_at(rev_until, now) {
            if !s.enable_throttle_resistance {
                TriggerMode::Pulse(s.rev_limit_freq, s.rev_limit_amp)
            } else {
                vibrating_resistance_of(base, s.rev_limit_freq, s.rev_limit_amp, in_wall, s.wall_zones)
            }
        } else if running_at(wheelspin_until, now) {
            if !s.enable_throttle_resistance {
                TriggerMode::Pulse(freq, amp)
            } else {
                vibrating_resistance_of(base, freq, amp, in_wall, s.wall_zones)
            }
        } else if in_wall {
            wall_of(s.wall_zones)
        } else if !s.enable_throttle_resistance {
            TriggerMode::Off
        } else {
            TriggerMode::Rigid(base)
        };
        (st2, mode)
    }
}

/// One frame: idle triggers while no race runs, otherwise the gear is tracked and then the
/// brake trigger and the throttle trigger are decided in turn.
pub open spec fn update_spec(st: LogicState, f: TelemetryFrame, s: EffectSettings, now: u64) -> (LogicState, TriggerMode, TriggerMode) {
    if f.is_running == 0 {
        (st, TriggerMode::Off, TriggerMode::Off)
    } else {
        let st1 = after_gear(st, f, s, now);
        let (st2, left) = l2_spec(st1, f, s, now);
        let (st3, right) = r2_spec(st2, f, s, now);
        (st3, left, right)
    }
}

// ------------------------------------------------------------------
// The implementation
// ------------------------------------------------------------------

fn any_wheel_exec(w: &WheelFlags) -> (r: bool)
    ensures
        r == any_wheel(*w),
{
    w.fl || w.fr || w.rl || w.rr
}

/// Whether a fact holds of some driven wheel of the drive train.
pub fn any_driven_wheel(drive_train: i32, w: &WheelFlags) -> (r: bool)
    ensures
        r == any_driven(drive_train, *w),
{
    match drive_train {
        0 => w.fl || w.fr,
        1 => w.rl || w.rr,
        _ => w.fl || w.fr || w.rl || w.rr,
    }
}

/// The surface under the driven wheels.
pub fn classify_surface(t: &TelemetryFrame) -> (surface: Surface)
    ensures
        surface == surface_of(*t),
{
    if any_driven_wheel(t.drive_train, &t.in_puddle) {
        Surface::Puddle
    } else if any_driven_wheel(t.drive_train, &t.heavy_rumble) {
        Surface::Rough
    } else if any_driven_wheel(t.drive_train, &t.light_rumble) {
        Surface::Bumpy
    } else {
        Surface::Smooth
    }
}

fn still_running(until: Option<u64>, now: u64) -> (r: bool)
    ensures
        r == running_at(until, now),
{
    match until {
        Some(u) => now < u,
        None => false,
    }
}

impl ControllerLogic {
    /// A logic that has seen no frame yet.
    pub fn new() -> (logic: Self)
        ensures
            logic@ == initial_state(),
    {
        ControllerLogic {
            prev_gear: 0,
            shift_until: None,
            rev_until: None,
            abs_until: None,
            wheelspin_until: None,
            l2_in_wall: false,
            r2_in_wall: false,
        }
    }

    /// Decides both trigger modes for one frame at time `now` (nanoseconds, monotonic):
    /// `(left, right)`.
    pub fn update(&mut self, t: &TelemetryFrame, s: &EffectSettings, now: u64) -> (modes: (
        TriggerMode,
        TriggerMode,
    ))
        requires
            clock_ok(*s, now),
        ensures
            (final(self)@, modes.0, modes.1) == update_spec(old(self)@, *t, *s, now),
    {
        if t.is_running == 0 {
            return (off(), off());
        }
        if s.enable_gear_shift || s.enable_gear_shift_brake {
            if self.prev_gear != 0 && t.gear != self.prev_gear {
                self.shift_until = Some(now + s.gear_shift_duration_ns);
            }
            self.prev_gear = t.gear;
        }
        let left = self.l2(t, s, now);
        let right = self.r2(t, s, now);
        (left, right)
    }

    fn shift_burst(&self, s: &EffectSettings, now: u64, pedal: u8, wall_engage_at: u8) -> (burst:
        Option<TriggerMode>)
        ensures
            burst == shift_burst_spec(self@, *s, now, pedal, wall_engage_at),
    {
        if let Some(until) = self.shift_until {
            if now < until {
                if pedal as u16 >= (wall_engage_at as u16 + 255) / 2 {
                    return Some(
                        vibration_wall(
                            amp_to_strength(s.gear_shift_amp),
                            s.gear_shift_freq,
                            s.wall_zones,
                        ),
                    );
                }
                return Some(vibration(s.gear_shift_freq, s.gear_shift_amp));
            }
        }
        None
    }

    fn l2(&mut self, t: &TelemetryFrame, s: &EffectSettings, now: u64) -> (mode: TriggerMode)
        requires
            clock_ok(*s, now),
        ensures
            (final(self)@, mode) == l2_spec(old(self)@, *t, *s, now),
    {
        let brake = t.brake;
        if s.enable_gear_shift_brake {
            if let Some(burst) = self.shift_burst(s, now, brake, s.brake_wall_engage_at) {
                return burst;
            }
        }
        let handbrake = s.enable_handbrake_bonus && t.handbrake > 0;
        let mut base_force: u8 = 0;
        if s.enable_brake_resistance {
            base_force = t.brake_force;
        }
        if handbrake {
            base_force = base_force.saturating_add(s.handbrake_bonus);
        }
        self.l2_in_wall = wall_state(
            brake,
            self.l2_in_wall,
            s.brake_wall_engage_at,
            s.brake_wall_release_at,
        );
        if s.enable_abs && brake >= s.abs_brake_threshold && t.abs_speed && (any_wheel_exec(
            &t.abs_slip,
        ) || any_wheel_exec(&t.abs_combined_slip)) {
            self.abs_until = Some(now + ABS_HOLD_NS);
        }
        let abs_active = still_running(self.abs_until, now);
        if abs_active {
            if !s.enable_brake_resistance {
                return vibration(s.abs_freq, s.abs_amp);
            }
            return build_vibrating_resistance(
                base_force,
                s.abs_freq,
                s.abs_amp,
                self.l2_in_wall,
                s.wall_zones,
            );
        }
        if self.l2_in_wall {
            return build_wall(s.wall_zones);
        }
        if s.enable_brake_static_wall {
            return build_brake_walls(
                s.brake_static_wall_at,
                s.brake_static_wall_force,
                s.wall_zones,
            );
        }
        if !s.enable_brake_resistance {
            return if handbrake {
                rigid(s.handbrake_bonus)
            } else {
                off()
            };
        }
        rigid(base_force)
    }

    fn r2(&mut self, t: &TelemetryFrame, s: &EffectSettings, now: u64) -> (mode: TriggerMode)
        requires
            clock_ok(*s, now),
        ensures
            (final(self)@, mode) == r2_spec(old(self)@, *t, *s, now),
    {
        let accel = t.accel;
        if s.enable_gear_shift {
            if let Some(burst) = self.shift_burst(s, now, accel, s.throttle_wall_engage_at) {
                return burst;
            }
        }
        let mut base_force: u8 = 0;
        if s.enable_throttle_resistance {
            base_force = t.throttle_force;
        }
        self.r2_in_wall = wall_state(
            accel,
            self.r2_in_wall,
            s.throttle_wall_engage_at,
            s.throttle_wall_release_at,
        );
        if s.enable_rev_limiter && accel >= s.accel_deadzone && t.over_rev {
            self.rev_until = Some(now + s.rev_limit_hold_ns);
        }
        let rev_active = still_running(self.rev_until, now);
        let mut wheelspin_active = false;
        let mut wheelspin_freq: u8 = 0;
        let mut wheelspin_amp: u8 = 0;
        if s.enable_wheelspin_buzz && t.wheelspin_speed && accel >= s.accel_deadzone
            && any_driven_wheel(t.drive_train, &t.wheelspin_slip) {
            self.wheelspin_until = Some(now + WHEELSPIN_HOLD_NS);
        }
        if still_running(self.wheelspin_until, now) {
            wheelspin_active = true;
            match classify_surface(t) {
                Surface::Puddle => {
                    wheelspin_freq = 100;
                    let half = s.wheelspin_amp / 2;
                    wheelspin_amp = if half < 1 {
                        1
                    } else {
                        half
                    };
                },
                Surface::Rough => {
                    wheelspin_freq = 20;
                    wheelspin_amp = 15;
                },
                Surface::Bumpy => {
                    wheelspin_freq = 60;
                    wheelspin_amp = 8;
                },
                Surface::Smooth => {
                    wheelspin_freq = 100;
                    wheelspin_amp = s.wheelspin_amp;
                },
            }
        }
        if rev_active {
            if !s.enable_throttle_resistance {
                return vibration(s.rev_limit_freq, s.rev_limit_amp);
            }
            return build_vibrating_resistance(
                base_force,
                s.rev_limit_freq,
                s.rev_limit_amp,
                self.r2_in_wall,
                s.wall_zones,
            );
        }
        if wheelspin_active {
            if !s.enable_throttle_resistance {
                return vibration(wheelspin_freq, wheelspin_amp);
            }
            return build_vibrating_resistance(
                base_force,
                wheelspin_freq,
                wheelspin_amp,
                self.r2_in_wall,
                s.wall_zones,
            );
        }
        if self.r2_in_wall {
            return build_wall(s.wall_zones);
        }
        if !s.enable_throttle_resistance {
            return off();
        }
        rigid(base_force)
    }
}

// ------------------------------------------------------------------
// Laws
// ------------------------------------------------------------------

/// The brake trigger shows no gear-shift kick on this frame.
pub open spec fn no_brake_kick(st: LogicState, f: TelemetryFrame, s: EffectSettings, now: u64) -> bool {
    !(s.enable_gear_shift_brake && running_at(after_gear(st, f, s, now).shift_until, now))
}

/// The throttle trigger shows no gear-shift kick on this frame.
pub open spec fn no_throttle_kick(st: LogicState, f: TelemetryFrame, s: EffectSettings, now: u64) -> bool {
    !(s.enable_gear_shift && running_at(after_gear(st, f, s, now).shift_until, now))
}

/// Law: while no race is running both triggers are released and nothing is remembered.
pub proof fn lemma_idle_when_not_running(st: LogicState, f: TelemetryFrame, s: EffectSettings, now: u64)
    requires
        f.is_running == 0,
    ensures
        update_spec(st, f, s, now) == (st, TriggerMode::Off, TriggerMode::Off),
{
}

/// Law: when ABS fires, the brake trigger pulses at the ABS frequency and amplitude; with
/// brake resistance off it is a plain vibration, with it on the vibration rides on the
/// resistance (and the wall, when the pedal is in it). A gear-shift kick takes precedence.
pub proof fn lemma_abs_pulses(st: LogicState, f: TelemetryFrame, s: EffectSettings, now: u64)
    requires
        clock_ok(s, now),
        f.is_running != 0,
        abs_fires(f, s),
        no_brake_kick(st, f, s, now),
    ensures
        ({
            let left = update_spec(st, f, s, now).1;
            let in_wall = wall_engaged(
                f.brake,
                st.l2_in_wall,
                s.brake_wall_engage_at,
                s.brake_wall_release_at,
            );
            &&& !s.enable_brake_resistance ==> left == TriggerMode::Pulse(s.abs_freq, s.abs_amp)
            &&& s.enable_brake_resistance ==> left == vibrating_resistance_of(
                brake_base_force(f, s),
                s.abs_freq,
                s.abs_amp,
                in_wall,
                s.wall_zones,
            )
        }),
        update_spec(st, f, s, now).0.abs_until == Some((now + ABS_HOLD_NS) as u64),
{
}

/// Law: when the rev limiter fires with a non-zero hold, the throttle trigger buzzes at the
/// rev-limit frequency and amplitude, as plain vibration when throttle resistance is off.
/// A gear-shift kick takes precedence.
pub proof fn lemma_rev_limiter_buzzes(st: LogicState, f: TelemetryFrame, s: EffectSettings, now: u64)
    requires
        clock_ok(s, now),
        f.is_running != 0,
        rev_fires(f, s),
        s.rev_limit_hold_ns > 0,
        no_throttle_kick(st, f, s, now),
    ensures
        ({
            let right = update_spec(st, f, s, now).2;
            let in_wall = wall_engaged(
                f.accel,
                st.r2_in_wall,
                s.throttle_wall_engage_at,
                s.throttle_wall_release_at,
            );
            &&& !s.enable_throttle_resistance ==> right == TriggerMode::Pulse(
                s.rev_limit_freq,
                s.rev_limit_amp,
            )
            &&& s.enable_throttle_resistance ==> right == vibrating_resistance_of(
                f.throttle_force,
                s.rev_limit_freq,
                s.rev_limit_amp,
                in_wall,
                s.wall_zones,
            )
        }),
{
}

/// Law: wheelspin makes the throttle trigger buzz with the surface's frequency and amplitude,
/// unless a gear-shift kick or the rev limiter is running.
pub proof fn lemma_wheelspin_buzzes(st: LogicState, f: TelemetryFrame, s: EffectSettings, now: u64)
    requires
        clock_ok(s, now),
        f.is_running != 0,
        wheelspin_fires(f, s),
        !rev_fires(f, s),
        !running_at(st.rev_until, now),
        no_throttle_kick(st, f, s, now),
    ensures
        ({
            let right = update_spec(st, f, s, now).2;
            let (freq, amp) = surface_buzz(surface_of(f), s.wheelspin_amp);
            let in_wall = wall_engaged(
                f.accel,
                st.r2_in_wall,
                s.throttle_wall_engage_at,
                s.throttle_wall_release_at,
            );
            &&& !s.enable_throttle_resistance ==> right == TriggerMode::Pulse(freq, amp)
            &&& s.enable_throttle_resistance ==> right == vibrating_resistance_of(
                f.throttle_force,
                freq,
                amp,
                in_wall,
                s.wall_zones,
            )
        }),
{
}

/// Law: a gear change from a known gear starts a kick of the configured length on each pedal
/// that has the kick enabled: a vibrating wall when the pedal is past the midpoint between its
/// wall and the end of travel, plain vibration before that.
pub proof fn lemma_gear_change_kicks(st: LogicState, f: TelemetryFrame, s: EffectSettings, now: u64)
    requires
        clock_ok(s, now),
        f.is_running != 0,
        s.enable_gear_shift || s.enable_gear_shift_brake,
        st.prev_gear != 0,
        f.gear != st.prev_gear,
        s.gear_shift_duration_ns > 0,
    ensures
        ({
            let (st2, left, right) = update_spec(st, f, s, now);
            let wall = vibration_wall_of(strength_of(s.gear_shift_amp), s.gear_shift_freq, s.wall_zones);
            let buzz = TriggerMode::Pulse(s.gear_shift_freq, s.gear_shift_amp);
            &&& st2.shift_until == Some((now + s.gear_shift_duration_ns) as u64)
            &&& st2.prev_gear == f.gear
            &&& s.enable_gear_shift_brake ==> left == (if f.brake as int >= (
                s.brake_wall_engage_at as int + 255) / 2 {
                wall
            } else {
                buzz
            })
            &&& s.enable_gear_shift ==> right == (if f.accel as int >= (
                s.throttle_wall_engage_at as int + 255) / 2 {
                wall
            } else {
                buzz
            })
        }),
{
}

/// Law: the first gear seen (from the initial gear 0) starts no kick.
pub proof fn lemma_no_kick_from_unknown_gear(st: LogicState, f: TelemetryFrame, s: EffectSettings, now: u64)
    requires
        st.prev_gear == 0,
    ensures
        after_gear(st, f, s, now).shift_until == st.shift_until,
{
}

/// Law: with no timed effect running, a pedal inside its wall meets the wall.
pub proof fn lemma_wall_holds(st: LogicState, f: TelemetryFrame, s: EffectSettings, now: u64)
    requires
        clock_ok(s, now),
        f.is_running != 0,
        no_brake_kick(st, f, s, now),
        no_throttle_kick(st, f, s, now),
        !abs_fires(f, s),
        !running_at(st.abs_until, now),
        !rev_fires(f, s),
        !running_at(st.rev_until, now),
        !wheelspin_fires(f, s),
        !running_at(st.wheelspin_until, now),
    ensures
        wall_engaged(f.brake, st.l2_in_wall, s.brake_wall_engage_at, s.brake_wall_release_at)
            ==> update_spec(st, f, s, now).1 == wall_of(s.wall_zones),
        wall_engaged(f.accel, st.r2_in_wall, s.throttle_wall_engage_at, s.throttle_wall_release_at)
            ==> update_spec(st, f, s, now).2 == wall_of(s.wall_zones),
        update_spec(st, f, s, now).0.l2_in_wall == wall_engaged(
            f.brake,
            st.l2_in_wall,
            s.brake_wall_engage_at,
            s.brake_wall_release_at,
        ),
        update_spec(st, f, s, now).0.r2_in_wall == wall_engaged(
            f.accel,
            st.r2_in_wall,
            s.throttle_wall_engage_at,
            s.throttle_wall_release_at,
        ),
{
}

/// Law: with nothing timed running and the pedals outside their walls, the triggers give the
/// plain resistance: the static brake wall when one is configured, otherwise the curve (plus
/// handbrake bonus) on the brake, the curve on the throttle; a disabled resistance releases
/// the trigger (the handbrake alone still gives its bonus).
pub proof fn lemma_plain_resistance(st: LogicState, f: TelemetryFrame, s: EffectSettings, now: u64)
    requires
        clock_ok(s, now),
        f.is_running != 0,
        no_brake_kick(st, f, s, now),
        no_throttle_kick(st, f, s, now),
        !abs_fires(f, s),
        !running_at(st.abs_until, now),
        !rev_fires(f, s),
        !running_at(st.rev_until, now),
        !wheelspin_fires(f, s),
        !running_at(st.wheelspin_until, now),
        !wall_engaged(f.brake, st.l2_in_wall, s.brake_wall_engage_at, s.brake_wall_release_at),
        !wall_engaged(f.accel, st.r2_in_wall, s.throttle_wall_engage_at, s.throttle_wall_release_at),
    ensures
        s.enable_brake_static_wall ==> update_spec(st, f, s, now).1 == brake_walls_of(
            s.brake_static_wall_at,
            s.brake_static_wall_force,
            s.wall_zones,
        ),
        !s.enable_brake_static_wall && s.enable_brake_resistance ==> update_spec(st, f, s, now).1
            == TriggerMode::Rigid(brake_base_force(f, s)),
        !s.enable_brake_static_wall && !s.enable_brake_resistance ==> update_spec(st, f, s, now).1
            == (if s.enable_handbrake_bonus && f.handbrake > 0 {
            TriggerMode::Rigid(s.handbrake_bonus)
        } else {
            TriggerMode::Off
        }),
        s.enable_throttle_resistance ==> update_spec(st, f, s, now).2 == TriggerMode::Rigid(
            f.throttle_force,
        ),
        !s.enable_throttle_resistance ==> update_spec(st, f, s, now).2 == TriggerMode::Off,
{
}

/// Law: a timed effect lasts exactly its hold: ABS fired at `t` is running at `now` iff
/// `now < t + 80 ms`.
pub proof fn lemma_abs_hold(st: LogicState, f: TelemetryFrame, s: EffectSettings, t: u64, now: u64)
    requires
        clock_ok(s, t),
        f.is_running != 0,
        abs_fires(f, s),
        no_brake_kick(st, f, s, t),
    ensures
        running_at(update_spec(st, f, s, t).0.abs_until, now) <==> now < t + ABS_HOLD_NS,
{
}

/// Law: ABS needs the brake pedal. Below the ABS brake threshold no new ABS pulse starts,
/// whatever the tires do: the frame decides exactly as it would with no slip on any wheel.
pub proof fn lemma_abs_needs_brake(st: LogicState, f: TelemetryFrame, s: EffectSettings, now: u64)
    requires
        f.brake < s.abs_brake_threshold,
    ensures
        update_spec(st, f, s, now).0.abs_until == st.abs_until,
        update_spec(st, f, s, now) == update_spec(
            st,
            TelemetryFrame {
                abs_slip: WheelFlags { fl: false, fr: false, rl: false, rr: false },
                abs_combined_slip: WheelFlags { fl: false, fr: false, rl: false, rr: false },
                ..f
            },
            s,
            now,
        ),
{
}

/// Law: the rev-limiter buzz lasts its hold. While an earlier over-rev's hold is still running
/// (and no gear-shift kick is on the throttle), the throttle trigger buzzes at the rev-limit
/// frequency and amplitude, whether or not the engine is over the limit on this frame.
/// (A zero hold restarted by an over-rev on this very frame ends the buzz at once.)
pub proof fn lemma_rev_limiter_holds(st: LogicState, f: TelemetryFrame, s: EffectSettings, now: u64)
    requires
        clock_ok(s, now),
        f.is_running != 0,
        running_at(st.rev_until, now),
        s.rev_limit_hold_ns > 0 || !(s.enable_rev_limiter && f.accel >= s.accel_deadzone
            && f.over_rev),
        no_throttle_kick(st, f, s, now),
    ensures
        ({
            let right = update_spec(st, f, s, now).2;
            let in_wall = wall_engaged(
                f.accel,
                st.r2_in_wall,
                s.throttle_wall_engage_at,
                s.throttle_wall_release_at,
            );
            &&& !s.enable_throttle_resistance ==> right == TriggerMode::Pulse(
                s.rev_limit_freq,
                s.rev_limit_amp,
            )
            &&& s.enable_throttle_resistance ==> right == vibrating_resistance_of(
                f.throttle_force,
                s.rev_limit_freq,
                s.rev_limit_amp,
                in_wall,
                s.wall_zones,
            )
        }),
{
}

/// Law: an over-rev at `t` with a hold of `h` keeps the throttle buzzing at every later frame
/// before `t + h` (with no gear-shift kick on the throttle then).
pub proof fn lemma_rev_limiter_buzz_spans_hold(
    st: LogicState,
    f: TelemetryFrame,
    g: TelemetryFrame,
    s: EffectSettings,
    t: u64,
    now: u64,
)
    requires
        clock_ok(s, t),
        clock_ok(s, now),
        f.is_running != 0,
        g.is_running != 0,
        rev_fires(f, s),
        no_throttle_kick(st, f, s, t),
        t <= now,
        now < t + s.rev_limit_hold_ns,
        no_throttle_kick(update_spec(st, f, s, t).0, g, s, now),
        !s.enable_throttle_resistance,
    ensures
        update_spec(update_spec(st, f, s, t).0, g, s, now).2 == TriggerMode::Pulse(
            s.rev_limit_freq,
            s.rev_limit_amp,
        ),
{
    let st1 = update_spec(st, f, s, t).0;
    assert(st1.rev_until == Some((t + s.rev_limit_hold_ns) as u64));
    lemma_rev_limiter_holds(st1, g, s, now);
}

/// Law: wheelspin needs the minimum speed. Below it no new wheelspin buzz starts, whatever the
/// driven wheels do: the frame decides exactly as it would with any other wheel slip.
pub proof fn lemma_wheelspin_needs_speed(
    st: LogicState,
    f: TelemetryFrame,
    slip: WheelFlags,
    s: EffectSettings,
    now: u64,
)
    requires
        !f.wheelspin_speed,
    ensures
        update_spec(st, f, s, now).0.wheelspin_until == st.wheelspin_until,
        update_spec(st, f, s, now) == update_spec(st, TelemetryFrame { wheelspin_slip: slip, ..f }, s, now),
{
}

} // verus!
