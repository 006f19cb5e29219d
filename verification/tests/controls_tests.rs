use xrshell::controls::{
    assemble_hand, assemble_input, ControlAction, HandReadings, PointAndClickControls,
};

fn readings(grip_active: bool, point_active: bool, click: bool) -> HandReadings<u32> {
    HandReadings { grip_active, point_active, grip: 7, point: 9, click }
}

#[test]
fn control_scheme_keeps_its_names() {
    let c = PointAndClickControls::new("point_and_click", "Point & Click");
    assert_eq!(c.action_set_name(), "point_and_click");
    assert_eq!(c.localized_name(), "Point & Click");
    assert_eq!(c.left_hand_path(), "/user/hand/left");
    assert_eq!(c.right_hand_path(), "/user/hand/right");
    assert_eq!(c.interaction_profile(), "/interaction_profiles/khr/simple_controller");
}

#[test]
fn binding_table_covers_every_action_on_each_hand() {
    let c = PointAndClickControls::new("point_and_click", "Point & Click");
    let table = c.suggested_bindings();
    let expected = [
        (ControlAction::Grip, "/user/hand/left/input/grip/pose"),
        (ControlAction::Grip, "/user/hand/right/input/grip/pose"),
        (ControlAction::Point, "/user/hand/left/input/aim/pose"),
        (ControlAction::Point, "/user/hand/right/input/aim/pose"),
        (ControlAction::Click, "/user/hand/left/input/select/click"),
        (ControlAction::Click, "/user/hand/right/input/select/click"),
        (ControlAction::MenuButton, "/user/hand/left/input/menu/click"),
        (ControlAction::MenuButton, "/user/hand/right/input/menu/click"),
    ];
    assert_eq!(table.len(), expected.len());
    for (binding, (action, path)) in table.iter().zip(expected.iter()) {
        assert_eq!(binding.action, *action);
        assert_eq!(binding.path, *path);
    }
}

#[test]
fn hand_present_only_when_both_pose_actions_active() {
    assert!(assemble_hand(readings(true, true, false)).is_some());
    assert!(assemble_hand(readings(true, false, true)).is_none());
    assert!(assemble_hand(readings(false, true, true)).is_none());
    assert!(assemble_hand(readings(false, false, false)).is_none());
}

#[test]
fn present_hand_carries_readings_through() {
    let hand = assemble_hand(readings(true, true, true)).unwrap();
    assert_eq!(hand.grip, 7);
    assert_eq!(hand.point, 9);
    assert!(hand.click);
}

#[test]
fn menu_button_needs_active_action_and_press() {
    let lh = readings(true, true, false);
    let rh = readings(false, false, false);
    assert!(assemble_input(lh, rh, true, true).menu_button);
    assert!(!assemble_input(lh, rh, true, false).menu_button);
    assert!(!assemble_input(lh, rh, false, true).menu_button);
}

#[test]
fn input_assembles_each_hand_independently() {
    let inp = assemble_input(readings(true, true, true), readings(true, false, true), false, false);
    assert!(inp.lh.is_some());
    assert!(inp.rh.is_none());
}
