use bevy_toolbox::tools_3d::smart_camera::{motion_gate, CameraInput, CameraMode};
use bevy_toolbox::tools_3d::utils::{EasingDirection, EasingStyle};

#[derive(Clone, Copy, Debug, PartialEq)]
enum Key {
    Q,
}

#[derive(Clone, Copy, Debug, PartialEq)]
enum Button {
    Right,
    Back,
}

#[test]
fn motion_is_ungated_without_motion_on_input() {
    assert_eq!(motion_gate::<Key, Button>(false, None, Button::Right), None);
    assert_eq!(motion_gate(false, Some(CameraInput::<Key, Button>::Keyboard(Key::Q)), Button::Right), None);
}

#[test]
fn motion_on_input_uses_custom_input_or_right_button() {
    assert_eq!(motion_gate::<Key, Button>(true, None, Button::Right), Some(CameraInput::Mouse(Button::Right)));
    assert_eq!(
        motion_gate(true, Some(CameraInput::<Key, Button>::Keyboard(Key::Q)), Button::Right),
        Some(CameraInput::Keyboard(Key::Q))
    );
    assert_eq!(
        motion_gate(true, Some(CameraInput::<Key, Button>::Mouse(Button::Back)), Button::Right),
        Some(CameraInput::Mouse(Button::Back))
    );
}

#[test]
fn defaults() {
    assert_eq!(CameraMode::default(), CameraMode::ThirdPerson);
    assert_eq!(EasingStyle::default(), EasingStyle::Linear);
    assert_eq!(EasingDirection::default(), EasingDirection::In);
}
