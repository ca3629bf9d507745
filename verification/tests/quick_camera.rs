use editor_core::camera::{CameraMove, Flycam};
use editor_core::editor::Editor;
use editor_core::fixed::{add_clamp, mul_div_clamp, V3};
use editor_core::focus::Focus;
use editor_core::input::FrameInput;
use editor_core::quick::{rank_commands, QuickCommand};
use editor_core::transform::Transform;

#[test]
fn rank_commands_orders_by_edit_distance() {
    let names = vec![
        String::from("Open"),
        String::from("Save"),
        String::from("Save As"),
    ];
    let search = String::from("Save");
    // Distances: "Open" is 4 edits away, "Save" 0, "Save As" 3.
    assert_eq!(rank_commands(&names, &search), vec![1, 2, 0]);
    // Checked against the crate the core relies on for the distance.
    assert_eq!(strsim::levenshtein("Open", "Save"), 4);
    assert_eq!(strsim::levenshtein("Save As", "Save"), 3);
}

#[test]
fn rank_commands_keeps_registration_order_on_ties() {
    let names = vec![
        String::from("Cube"),
        String::from("Cone"),
        String::from("Torus"),
    ];
    // Empty search: distances are the name lengths, 4, 4 and 5; the two
    // four-letter names keep their registration order.
    let search = String::new();
    assert_eq!(rank_commands(&names, &search), vec![0, 1, 2]);
}

#[test]
fn rank_commands_on_empty_list_is_empty() {
    let names: Vec<String> = Vec::new();
    assert_eq!(rank_commands(&names, &String::from("x")), Vec::<usize>::new());
}

#[test]
fn overlay_highlight_moves_and_saturates() {
    let mut quick = QuickCommand::default();
    assert_eq!(quick.selected, 0);
    quick.move_down(3);
    quick.move_down(3);
    assert_eq!(quick.selected, 2);
    quick.move_down(3);
    assert_eq!(quick.selected, 2);
    quick.move_up();
    assert_eq!(quick.selected, 1);
    quick.move_up();
    quick.move_up();
    assert_eq!(quick.selected, 0);
    quick.selected = 5;
    quick.reset_selection();
    assert_eq!(quick.selected, 0);
}

#[test]
fn camera_look_starts_away_from_ui_and_integrates_motion() {
    let mut ed = Editor::new();
    let mut input = FrameInput::idle();
    input.secondary_just_pressed = true;
    input.motion_x = 2000;
    input.motion_y = 1000;
    input.dt = 16;
    input.forward_held = true;
    let mv = ed.flycam_update(&input);
    assert!(ed.camera.looking);
    assert_eq!(ed.focus.current, Focus::Camera);
    // Sensitivity 0.005 per pixel: two pixels turn the heading by -0.010.
    assert_eq!(ed.camera.yaw, -10);
    assert_eq!(ed.camera.pitch, -5);
    // Speed 4.0 over 16 ms moves 0.064 units along the local forward.
    assert_eq!(
        mv,
        CameraMove { right: 0, up: 0, forward: 64 }
    );
}

#[test]
fn camera_look_never_starts_over_ui() {
    let mut ed = Editor::new();
    let mut input = FrameInput::idle();
    input.secondary_just_pressed = true;
    input.over_ui = true;
    let mv = ed.flycam_update(&input);
    assert!(!ed.camera.looking);
    assert_eq!(ed.focus.current, Focus::Idle);
    assert_eq!(mv, CameraMove { right: 0, up: 0, forward: 0 });
}

#[test]
fn camera_pitch_clamps_at_a_quarter_turn() {
    let mut ed = Editor::new();
    let mut start = FrameInput::idle();
    start.secondary_just_pressed = true;
    start.motion_y = 400_000;
    ed.flycam_update(&start);
    assert_eq!(ed.camera.pitch, -1570);
    // Further frames hold the button: still looking, still clamped.
    let mut more = FrameInput::idle();
    more.motion_y = 100_000;
    ed.flycam_update(&more);
    assert!(ed.camera.looking);
    assert_eq!(ed.camera.pitch, -1570);
}

#[test]
fn camera_release_frees_focus_and_unlocks() {
    let mut ed = Editor::new();
    let mut start = FrameInput::idle();
    start.secondary_just_pressed = true;
    ed.flycam_update(&start);
    assert!(ed.camera.looking);
    let mut stop = FrameInput::idle();
    stop.secondary_just_released = true;
    ed.flycam_update(&stop);
    assert!(!ed.camera.looking);
    assert_eq!(ed.focus.current, Focus::Idle);
}

#[test]
fn flycam_defaults_match_the_configuration() {
    let cam = Flycam::default();
    assert_eq!(cam.speed, 4000);
    assert_eq!(cam.sensitivity, 5);
}

#[test]
fn put_object_clamps_into_the_coordinate_range() {
    let mut ed = Editor::new();
    let far = Transform {
        translation: V3 { x: i64::MAX, y: -i64::MAX, z: 0 },
        ..Transform::identity()
    };
    ed.put_object(1, far);
    let stored = ed.get_object(1).unwrap();
    assert_eq!(stored.translation.x, 1_000_000_000_000_000);
    assert_eq!(stored.translation.y, -1_000_000_000_000_000);
    assert_eq!(stored.translation.z, 0);
}

#[test]
fn fixed_point_helpers_truncate_toward_zero() {
    assert_eq!(mul_div_clamp(7, 3, 2, 1_000_000), 10);
    assert_eq!(mul_div_clamp(-7, 3, 2, 1_000_000), -10);
    assert_eq!(mul_div_clamp(5, 5, 1, 10), 10);
    assert_eq!(add_clamp(7, 5, 10), 10);
    assert_eq!(add_clamp(-7, -5, 10), -10);
    assert_eq!(add_clamp(3, 4, 10), 7);
}
