use vstd::prelude::*;

use crate::controller::TriggerMode;
use crate::effects::{
    clock_ok, update_spec, ControllerLogic, EffectSettings, LogicState, TelemetryFrame,
};
use crate::trigger_builders::off;

verus! {

/// The trigger modes of one pass of the engine loop while a controller is attached:
/// the logic decides when a frame arrived, both triggers are released when none did.
pub open spec fn loop_modes_spec(
    st: LogicState,
    frame: Option<TelemetryFrame>,
    s: EffectSettings,
    now: u64,
) -> (LogicState, TriggerMode, TriggerMode) {
    match frame {
        Some(f) => update_spec(st, f, s, now),
        None => (st, TriggerMode::Off, TriggerMode::Off),
    }
}

/// One pass of the engine loop: `(left, right)` for the controller.
pub fn loop_modes(
    logic: &mut ControllerLogic,
    frame: Option<&TelemetryFrame>,
    s: &EffectSettings,
    now: u64,
) -> (modes: (TriggerMode, TriggerMode))
    requires
        clock_ok(*s, now),
    ensures
        (final(logic)@, modes.0, modes.1) == loop_modes_spec(
            old(logic)@,
            match frame {
                Some(f) => Some(*f),
                None => None,
            },
            *s,
            now,
        ),
{
    match frame {
        Some(t) => logic.update(t, s, now),
        None => (off(), off()),
    }
}

} // verus!
