//! Input configuration: the key map and the tunable input constants.

use vstd::prelude::*;

verus! {

/// Default camera sensitivity, in thousandths of a radian per pointer
/// count (0.005 rad per count).
pub const DEFAULT_SENSITIVITY: i64 = 5;

/// Largest accepted camera sensitivity (a full radian per pointer count);
/// anything above is surely a configuration mistake.
pub const SENSITIVITY_MAX: i64 = 1000;

/// The keys an action may be bound to.
#[derive(Clone, Copy, PartialEq, Eq, Structural, Debug)]
pub enum KeyBinding {
    ShiftLeft,
    ShiftRight,
    ControlLeft,
    Space,
}

/// A mapping of all the actions to keys; stores the keymap settings.
#[derive(Clone, Copy, PartialEq, Eq, Structural, Debug)]
pub struct InputMap {
    pub velocity_lock: KeyBinding,
}

impl Default for InputMap {
    /// The velocity lock starts on the left shift key.
    fn default() -> (r: InputMap)
        ensures
            r == (InputMap { velocity_lock: KeyBinding::ShiftLeft }),
    {
        InputMap { velocity_lock: KeyBinding::ShiftLeft }
    }
}

/// A settings structure for all the magic input constants.
#[derive(Clone, Copy, PartialEq, Eq, Structural, Debug)]
pub struct InputSettings {
    /// Camera sensitivity / turning speed, in thousandths of a radian per
    /// pointer count.
    pub camera_sensitivity: i64,
}

impl InputSettings {
    /// A sensitivity is usable when it is neither negative nor absurdly
    /// large.
    pub open spec fn wf(self) -> bool {
        0 <= self.camera_sensitivity <= SENSITIVITY_MAX
    }

    /// Builds settings from a configured sensitivity, rejecting a malformed
    /// value (negative, or past [`SENSITIVITY_MAX`]) at configuration-load
    /// time instead of letting it reach the per-tick systems.
    pub fn new(camera_sensitivity: i64) -> (r: Option<InputSettings>)
        ensures
            r is Some <==> 0 <= camera_sensitivity <= SENSITIVITY_MAX,
            r matches Some(s) ==> s == (InputSettings { camera_sensitivity }) && s.wf(),
    {
        if 0 <= camera_sensitivity && camera_sensitivity <= SENSITIVITY_MAX {
            Some(InputSettings { camera_sensitivity })
        } else {
            None
        }
    }
}

impl Default for InputSettings {
    /// The sensitivity the prototype ships with.
    fn default() -> (r: InputSettings)
        ensures
            r == (InputSettings { camera_sensitivity: DEFAULT_SENSITIVITY }),
            r.wf(),
    {
        InputSettings { camera_sensitivity: DEFAULT_SENSITIVITY }
    }
}

} // verus!
