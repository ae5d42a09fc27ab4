//! Camera modes and the input that gates mouse-look. The camera's angles,
//! distances and projections are floating-point and stay with the engine.
use vstd::prelude::*;

verus! {

/// Where the camera sits relative to the entity it follows.
#[derive(Clone, Copy, Debug, PartialEq, Eq, Structural)]
pub enum CameraMode {
    /// At the followed entity's head.
    FirstPerson,
    /// Behind the followed entity, at the camera's distance.
    ThirdPerson,
}

impl Default for CameraMode {
    fn default() -> (mode: Self)
        ensures
            mode == CameraMode::ThirdPerson,
    {
        CameraMode::ThirdPerson
    }
}

/// A key or a mouse button that can gate mouse-look.
#[derive(Clone, Copy, Debug, PartialEq)]
pub enum CameraInput<K, B> {
    Keyboard(K),
    Mouse(B),
}

pub open spec fn spec_motion_gate<K, B>(
    motion_on_input: bool,
    custom_input: Option<CameraInput<K, B>>,
    default_button: B,
) -> Option<CameraInput<K, B>> {
    if !motion_on_input {
        None
    } else {
        match custom_input {
            Some(input) => Some(input),
            None => Some(CameraInput::Mouse(default_button)),
        }
    }
}

/// Without `motion_on_input`, mouse motion always turns the camera, for any
/// custom input. With it, the input to hold is the custom input if one is
/// configured, and the default button if not.
pub proof fn law_input_gating<K, B>(
    motion_on_input: bool,
    custom_input: Option<CameraInput<K, B>>,
    default_button: B,
)
    ensures
        !motion_on_input ==> spec_motion_gate(motion_on_input, custom_input, default_button) is None,
        motion_on_input && custom_input is Some ==> spec_motion_gate(motion_on_input, custom_input, default_button)
            == custom_input,
        motion_on_input && custom_input is None ==> spec_motion_gate(motion_on_input, custom_input, default_button)
            == Some(CameraInput::<K, B>::Mouse(default_button)),
{
}

/// The input that must be held for mouse motion to turn the camera, or
/// `None` when motion always turns it. With `motion_on_input` set, that is
/// the custom input when there is one, else `default_button` (the right
/// mouse button).
pub fn motion_gate<K: Copy, B: Copy>(
    motion_on_input: bool,
    custom_input: Option<CameraInput<K, B>>,
    default_button: B,
) -> (gate: Option<CameraInput<K, B>>)
    ensures
        gate == spec_motion_gate(motion_on_input, custom_input, default_button),
        !motion_on_input ==> gate is None,
        motion_on_input ==> gate == (match custom_input {
            Some(input) => Some(input),
            None => Some(CameraInput::Mouse(default_button)),
        }),
{
    if !motion_on_input {
        return None;
    }
    match custom_input {
        Some(input) => Some(input),
        None => Some(CameraInput::Mouse(default_button)),
    }
}

} // verus!
