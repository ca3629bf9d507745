use editor_core::editor::Editor;
use editor_core::fixed::{effective_delta, V3};
use editor_core::focus::Focus;
use editor_core::input::FrameInput;
use editor_core::transform::{
    RequestOutcome, SessionState, Transform, TransformSelected, WorldAxis,
};

fn at(x: i64, y: i64, z: i64) -> Transform {
    Transform {
        translation: V3 { x, y, z },
        ..Transform::identity()
    }
}

#[test]
fn snap_truncates_toward_zero_and_release_restores_raw() {
    // An accumulated delta of 3.7 units snaps to 3.0 while the modifier is
    // held, and is 3.7 again the moment it is released.
    assert_eq!(effective_delta(3700, true), 3000);
    assert_eq!(effective_delta(3700, false), 3700);
    assert_eq!(effective_delta(-3700, true), -3000);
    assert_eq!(effective_delta(-3700, false), -3700);
    assert_eq!(effective_delta(999, true), 0);
}

#[test]
fn snapping_is_stateless_across_frames() {
    let mut ed = Editor::new();
    ed.put_object(1, at(0, 0, 0));
    ed.select_entity(1, false);
    assert_eq!(
        ed.transform_selected(TransformSelected::Translate),
        RequestOutcome::Started
    );
    // 370 pixels of horizontal motion accumulate a 3.7-unit delta.
    ed.update_delta(370_000, 0);
    ed.update_transform(true);
    assert_eq!(ed.get_object(1).unwrap().translation, V3 { x: 3000, y: 0, z: 0 });
    // Releasing the modifier recovers the un-snapped value exactly.
    ed.update_transform(false);
    assert_eq!(ed.get_object(1).unwrap().translation, V3 { x: 3700, y: 0, z: 0 });
    ed.update_transform(true);
    assert_eq!(ed.get_object(1).unwrap().translation, V3 { x: 3000, y: 0, z: 0 });
}

#[test]
fn end_to_end_translate_commit() {
    // Select object A only, request Translate, feed motion (4, -2) with no
    // snap and no axis override: the translation becomes
    // home + x_axis * 0.04 + y_axis * 0.02 under the 0.01-scale convention.
    let mut ed = Editor::new();
    ed.put_object(7, at(100, 200, 300));
    ed.select_entity(7, false);
    assert_eq!(
        ed.transform_selected(TransformSelected::Translate),
        RequestOutcome::Started
    );
    assert_eq!(ed.focus.current, Focus::Transform);
    ed.update_delta(4000, -2000);
    ed.update_transform(false);
    assert_eq!(
        ed.get_object(7).unwrap().translation,
        V3 { x: 140, y: 220, z: 300 }
    );
    ed.finish_transform();
    assert!(!ed.session_active());
    assert_eq!(ed.focus.current, Focus::Idle);
    // The committed value stays in place.
    assert_eq!(
        ed.get_object(7).unwrap().translation,
        V3 { x: 140, y: 220, z: 300 }
    );
    // A subsequent request is accepted: the machine returned to idle.
    assert_eq!(
        ed.transform_selected(TransformSelected::Translate),
        RequestOutcome::Started
    );
}

#[test]
fn cancel_restores_every_translation_exactly() {
    let mut ed = Editor::new();
    ed.put_object(1, at(11, 22, 33));
    ed.put_object(2, at(-44, 55, -66));
    ed.select_entity(1, false);
    ed.select_entity(2, true);
    assert_eq!(
        ed.transform_selected(TransformSelected::Translate),
        RequestOutcome::Started
    );
    ed.update_delta(123_000, -45_000);
    ed.update_transform(false);
    assert_ne!(ed.get_object(1).unwrap().translation, V3 { x: 11, y: 22, z: 33 });
    ed.cancel_transform();
    assert_eq!(ed.get_object(1).unwrap(), at(11, 22, 33));
    assert_eq!(ed.get_object(2).unwrap(), at(-44, 55, -66));
    assert!(!ed.session_active());
    assert_eq!(ed.focus.current, Focus::Idle);
}

#[test]
fn request_with_empty_selection_is_refused() {
    let mut ed = Editor::new();
    ed.put_object(1, at(0, 0, 0));
    assert_eq!(
        ed.transform_selected(TransformSelected::Translate),
        RequestOutcome::EmptySelection
    );
    assert!(!ed.session_active());
}

#[test]
fn request_while_session_runs_is_ignored() {
    let mut ed = Editor::new();
    ed.put_object(1, at(0, 0, 0));
    ed.select_entity(1, false);
    assert_eq!(
        ed.transform_selected(TransformSelected::Translate),
        RequestOutcome::Started
    );
    assert_eq!(
        ed.transform_selected(TransformSelected::Rotate),
        RequestOutcome::SessionActive
    );
}

#[test]
fn request_while_camera_holds_focus_is_denied() {
    let mut ed = Editor::new();
    ed.put_object(1, at(0, 0, 0));
    ed.select_entity(1, false);
    let mut input = FrameInput::idle();
    input.secondary_just_pressed = true;
    ed.flycam_update(&input);
    assert_eq!(ed.focus.current, Focus::Camera);
    assert_eq!(
        ed.transform_selected(TransformSelected::Translate),
        RequestOutcome::FocusDenied
    );
    assert!(!ed.session_active());
}

#[test]
fn request_aborts_whole_when_an_object_is_missing() {
    let mut ed = Editor::new();
    ed.put_object(1, at(0, 0, 0));
    ed.put_object(2, at(5, 5, 5));
    ed.select_entity(1, false);
    ed.select_entity(2, true);
    ed.remove_object(2);
    assert_eq!(
        ed.transform_selected(TransformSelected::Translate),
        RequestOutcome::MissingTransform
    );
    // No partial session, and the focus slot was never claimed.
    assert!(!ed.session_active());
    assert_eq!(ed.focus.current, Focus::Idle);
}

#[test]
fn stale_reference_is_skipped_not_fatal() {
    let mut ed = Editor::new();
    ed.put_object(1, at(0, 0, 0));
    ed.put_object(2, at(10, 0, 0));
    ed.select_entity(1, false);
    ed.select_entity(2, true);
    assert_eq!(
        ed.transform_selected(TransformSelected::Translate),
        RequestOutcome::Started
    );
    // Object 2 is destroyed mid-session: the remaining object still applies
    // and restores; the stale entry is skipped each time.
    ed.remove_object(2);
    ed.update_delta(100_000, 0);
    ed.update_transform(false);
    assert_eq!(ed.get_object(1).unwrap().translation, V3 { x: 1000, y: 0, z: 0 });
    assert!(ed.get_object(2).is_none());
    ed.cancel_transform();
    assert_eq!(ed.get_object(1).unwrap().translation, V3 { x: 0, y: 0, z: 0 });
    assert!(ed.get_object(2).is_none());
}

#[test]
fn session_center_is_mean_of_home_translations() {
    let mut ed = Editor::new();
    ed.put_object(1, at(1000, 0, -300));
    ed.put_object(2, at(2000, 500, -100));
    ed.select_entity(1, false);
    ed.select_entity(2, true);
    assert_eq!(
        ed.transform_selected(TransformSelected::Translate),
        RequestOutcome::Started
    );
    match &ed.session {
        SessionState::Active(s) => {
            assert_eq!(s.center, V3 { x: 1500, y: 250, z: -200 });
            // The captured home values are linear for a translate session.
            assert_eq!(s.homes[0].0, 1);
            assert_eq!(s.homes[0].1.as_linear(), V3 { x: 1000, y: 0, z: -300 });
            assert_eq!(s.homes[1].1.as_linear(), V3 { x: 2000, y: 500, z: -100 });
        }
        SessionState::Idle => panic!("session should be active"),
    }
}

#[test]
fn rotate_session_captures_angular_homes() {
    let mut ed = Editor::new();
    let home = Transform {
        rotation: V3 { x: 100, y: 200, z: 300 },
        ..Transform::identity()
    };
    ed.put_object(4, home);
    ed.select_entity(4, false);
    assert_eq!(
        ed.transform_selected(TransformSelected::Rotate),
        RequestOutcome::Started
    );
    match &ed.session {
        SessionState::Active(s) => {
            assert_eq!(s.homes[0].1.as_angular(), V3 { x: 100, y: 200, z: 300 });
        }
        SessionState::Idle => panic!("session should be active"),
    }
}

#[test]
fn axis_key_reconstrains_without_resetting_delta() {
    let mut ed = Editor::new();
    ed.put_object(1, at(0, 0, 0));
    ed.select_entity(1, false);
    assert_eq!(
        ed.transform_selected(TransformSelected::Translate),
        RequestOutcome::Started
    );
    ed.update_delta(4000, -2000);
    ed.update_transform(false);
    assert_eq!(ed.get_object(1).unwrap().translation, V3 { x: 40, y: 20, z: 0 });
    // Re-constraining to the world z axis keeps the accumulated delta; the
    // vertical component stops contributing, so the object jumps.
    ed.set_axis(WorldAxis::Z, false);
    ed.update_transform(false);
    assert_eq!(ed.get_object(1).unwrap().translation, V3 { x: 0, y: 0, z: 40 });
}

#[test]
fn inverted_axis_key_selects_the_complementary_plane() {
    let mut ed = Editor::new();
    ed.put_object(1, at(0, 0, 0));
    ed.select_entity(1, false);
    assert_eq!(
        ed.transform_selected(TransformSelected::Translate),
        RequestOutcome::Started
    );
    ed.update_delta(4000, 0);
    ed.set_axis(WorldAxis::X, true);
    ed.update_transform(false);
    assert_eq!(ed.get_object(1).unwrap().translation, V3 { x: 0, y: 40, z: 40 });
}

#[test]
fn rotate_session_damps_and_turns_about_camera_forward() {
    let mut ed = Editor::new();
    ed.put_object(1, at(0, 0, 0));
    ed.select_entity(1, false);
    assert_eq!(
        ed.transform_selected(TransformSelected::Rotate),
        RequestOutcome::Started
    );
    // 200 pixels in one frame damp to a quarter turn (1.570) before the
    // 0.01 scale: the accumulated angle is 0.015 radians.
    ed.update_delta(200_000, 0);
    ed.update_transform(false);
    // Default rotate constraint is the camera's forward axis (0, 0, -1).
    assert_eq!(ed.get_object(1).unwrap().rotation, V3 { x: 0, y: 0, z: -15 });
    assert_eq!(ed.get_object(1).unwrap().translation, V3 { x: 0, y: 0, z: 0 });
}

#[test]
fn scale_session_uses_horizontal_motion_uniformly() {
    let mut ed = Editor::new();
    ed.put_object(1, at(0, 0, 0));
    ed.select_entity(1, false);
    assert_eq!(
        ed.transform_selected(TransformSelected::Scale),
        RequestOutcome::Started
    );
    // Only horizontal motion counts for scale; default constraint is
    // uniform, on top of the unit home scale.
    ed.update_delta(5000, 777_000);
    ed.update_transform(false);
    assert_eq!(
        ed.get_object(1).unwrap().scale,
        V3 { x: 1050, y: 1050, z: 1050 }
    );
}

#[test]
fn clicks_are_ignored_while_manipulating() {
    let mut ed = Editor::new();
    ed.put_object(1, at(0, 0, 0));
    ed.select_entity(1, false);
    assert_eq!(
        ed.transform_selected(TransformSelected::Translate),
        RequestOutcome::Started
    );
    ed.select_entity(2, false);
    ed.cancel_transform();
    // The click during the session selected nothing.
    assert_eq!(ed.selection.elements(), vec![1]);
}

#[test]
fn delete_key_drains_selection_and_forgets_objects() {
    let mut ed = Editor::new();
    ed.put_object(1, at(0, 0, 0));
    ed.put_object(2, at(1, 1, 1));
    ed.put_object(3, at(2, 2, 2));
    ed.select_entity(1, false);
    ed.select_entity(3, true);
    let mut input = FrameInput::idle();
    input.delete_key = true;
    let drained = ed.keybindings(&input);
    assert_eq!(drained, vec![3, 1]);
    assert!(ed.get_object(1).is_none());
    assert!(ed.get_object(2).is_some());
    assert!(ed.get_object(3).is_none());
    assert_eq!(ed.selection.len(), 0);
}

#[test]
fn quick_overlay_keys_claim_and_release_focus() {
    let mut ed = Editor::new();
    ed.put_object(1, at(0, 0, 0));
    ed.select_entity(1, false);
    let mut open = FrameInput::idle();
    open.quick_key = true;
    ed.keybindings(&open);
    assert_eq!(ed.focus.current, Focus::QuickSearch);
    // The delete key does nothing while the overlay holds the slot.
    let mut del = FrameInput::idle();
    del.delete_key = true;
    assert_eq!(ed.keybindings(&del), Vec::<u64>::new());
    assert!(ed.get_object(1).is_some());
    let mut close = FrameInput::idle();
    close.cancel_key = true;
    ed.keybindings(&close);
    assert_eq!(ed.focus.current, Focus::Idle);
}

#[test]
fn frame_runs_the_whole_translate_flow() {
    let mut ed = Editor::new();
    ed.put_object(7, at(0, 0, 0));
    ed.select_entity(7, false);
    // Frame 1: the translate key starts the session.
    let mut start = FrameInput::idle();
    start.translate_key = true;
    ed.frame(&start);
    assert!(ed.session_active());
    assert_eq!(ed.focus.current, Focus::Transform);
    // Frame 2: pointer motion accumulates and applies.
    let mut drag = FrameInput::idle();
    drag.motion_x = 4000;
    drag.motion_y = -2000;
    ed.frame(&drag);
    assert_eq!(ed.get_object(7).unwrap().translation, V3 { x: 40, y: 20, z: 0 });
    // Frame 3: the confirm click commits and frees the slot.
    let mut confirm = FrameInput::idle();
    confirm.primary_just_pressed = true;
    ed.frame(&confirm);
    assert!(!ed.session_active());
    assert_eq!(ed.focus.current, Focus::Idle);
    assert_eq!(ed.get_object(7).unwrap().translation, V3 { x: 40, y: 20, z: 0 });
}

#[test]
fn frame_applies_snap_only_while_the_modifier_is_held() {
    let mut ed = Editor::new();
    ed.put_object(1, at(0, 0, 0));
    ed.select_entity(1, false);
    let mut start = FrameInput::idle();
    start.translate_key = true;
    ed.frame(&start);
    let mut drag = FrameInput::idle();
    drag.motion_x = 370_000;
    drag.snap_held = true;
    ed.frame(&drag);
    assert_eq!(ed.get_object(1).unwrap().translation, V3 { x: 3000, y: 0, z: 0 });
    ed.frame(&FrameInput::idle());
    assert_eq!(ed.get_object(1).unwrap().translation, V3 { x: 3700, y: 0, z: 0 });
}

#[test]
fn hovering_panels_does_not_steal_focus_from_a_session() {
    let mut ed = Editor::new();
    ed.put_object(1, at(0, 0, 0));
    ed.select_entity(1, false);
    let mut start = FrameInput::idle();
    start.translate_key = true;
    ed.frame(&start);
    assert_eq!(ed.focus.current, Focus::Transform);
    let mut hover = FrameInput::idle();
    hover.over_ui = true;
    ed.frame(&hover);
    assert_eq!(ed.focus.current, Focus::Transform);
    assert!(ed.session_active());
}

#[test]
fn clicks_still_select_while_hovering_panels() {
    let mut ed = Editor::new();
    ed.put_object(1, at(0, 0, 0));
    let mut hover = FrameInput::idle();
    hover.over_ui = true;
    ed.frame(&hover);
    assert_eq!(ed.focus.current, Focus::Gui);
    // A hierarchy-list click arrives while the pointer is over the panel.
    ed.select_entity(1, false);
    assert_eq!(ed.selection.elements(), vec![1]);
}

#[test]
fn default_constraint_follows_the_camera_basis() {
    let mut ed = Editor::new();
    ed.put_object(1, at(0, 0, 0));
    ed.select_entity(1, false);
    // The host turned the camera: its local right now faces world -z.
    ed.set_camera_basis(
        V3 { x: 0, y: 0, z: -1000 },
        V3 { x: 0, y: 1000, z: 0 },
        V3 { x: -1000, y: 0, z: 0 },
    );
    assert_eq!(
        ed.transform_selected(TransformSelected::Translate),
        RequestOutcome::Started
    );
    ed.update_delta(4000, 0);
    ed.update_transform(false);
    assert_eq!(ed.get_object(1).unwrap().translation, V3 { x: 0, y: 0, z: -40 });
}

#[test]
fn frame_cancel_key_restores_and_frees() {
    let mut ed = Editor::new();
    ed.put_object(7, at(9, 9, 9));
    ed.select_entity(7, false);
    let mut start = FrameInput::idle();
    start.rotate_key = true;
    ed.frame(&start);
    let mut drag = FrameInput::idle();
    drag.motion_x = 50_000;
    ed.frame(&drag);
    let mut cancel = FrameInput::idle();
    cancel.cancel_key = true;
    ed.frame(&cancel);
    assert!(!ed.session_active());
    assert_eq!(ed.focus.current, Focus::Idle);
    assert_eq!(ed.get_object(7).unwrap(), at(9, 9, 9));
}
