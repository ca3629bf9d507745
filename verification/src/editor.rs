//! The editor context: the process-wide state the interaction core owns.
//!
//! One [`Editor`] holds the core's model of the scene objects' transforms,
//! the selection set, the single focus slot, the at-most-one transform
//! session, and the fly camera. The host registers objects and their
//! transform values here, feeds one [`FrameInput`] per frame, and reads the
//! resulting transform values and camera movement back. All state is read
//! and mutated in a strict per-frame order — camera, panel hover, transform
//! input, delta accumulation, overlay and delete keys, transform application
//! — on one thread, so the focus slot alone arbitrates who writes.

use vstd::prelude::*;
use std::collections::HashMap;
use crate::camera::{camera_step_cam, camera_step_focus, camera_update, CameraMove, CameraState};
use crate::fixed::{v3_clamp_spec, v3_clamp, V3};
use crate::focus::{gui_hover_spec, Focus, FocusSlot};
use crate::input::FrameInput;
use crate::selection::{toggle_spec, SelectionSet};
use crate::transform::{SessionState, SessionStateView, SessionView, Transform};

verus! {

broadcast use vstd::std_specs::hash::group_hash_axioms;

/// Spec-level snapshot of the whole editor context.
pub ghost struct EditorView {
    /// The core's model of each registered object's transform.
    pub scene: Map<u64, Transform>,
    /// The selected object references, in insertion order.
    pub selection: Seq<u64>,
    /// The consumer owning input this frame.
    pub focus: Focus,
    /// The manipulation in progress, if any.
    pub session: SessionStateView,
    /// The fly camera.
    pub camera: CameraState,
}

/// The editor context.
pub struct Editor {
    /// The core's model of each registered object's transform.
    pub scene: HashMap<u64, Transform>,
    /// The selected object references.
    pub selection: SelectionSet,
    /// The single focus slot.
    pub focus: FocusSlot,
    /// The manipulation in progress, if any.
    pub session: SessionState,
    /// The fly camera.
    pub camera: CameraState,
}

impl Editor {
    /// The spec-level snapshot of this context.
    pub open spec fn view(&self) -> EditorView {
        EditorView {
            scene: self.scene@,
            selection: self.selection@,
            focus: self.focus.current,
            session: match self.session {
                SessionState::Idle => SessionStateView::Idle,
                SessionState::Active(s) => SessionStateView::Active(
                    SessionView { mode: s.mode, homes: s.homes@, center: s.center },
                ),
            },
            camera: self.camera,
        }
    }

    /// Well-formedness: the selection has no duplicates, and a session exists
    /// exactly while the `Transform` consumer holds the focus slot.
    pub open spec fn inv(&self) -> bool {
        &&& self.selection@.no_duplicates()
        &&& (self@.session is Active <==> self.focus.current == Focus::Transform)
    }

    /// A fresh context: empty scene, empty selection, free focus slot, no
    /// session, camera at rest.
    pub fn new() -> (r: Editor)
        ensures
            r@.scene == Map::<u64, Transform>::empty(),
            r@.selection == Seq::<u64>::empty(),
            r@.focus == Focus::Idle,
            r@.session is Idle,
            r@.camera == CameraState::new_spec(),
            r.inv(),
    {
        Editor {
            scene: HashMap::new(),
            selection: SelectionSet::new(),
            focus: FocusSlot::new(),
            session: SessionState::Idle,
            camera: CameraState::new(),
        }
    }

    /// Register an object's transform, or overwrite a registered one, each
    /// component clamped into the model's coordinate range. Object references
    /// are issued externally; the core only stores them.
    pub fn put_object(&mut self, id: u64, t: Transform)
        requires
            old(self).inv(),
        ensures
            final(self).inv(),
            final(self)@ == (EditorView {
                scene: old(self)@.scene.insert(
                    id,
                    Transform {
                        translation: v3_clamp_spec(t.translation),
                        rotation: v3_clamp_spec(t.rotation),
                        scale: v3_clamp_spec(t.scale),
                    },
                ),
                ..old(self)@
            }),
    {
        let clamped = Transform {
            translation: v3_clamp(t.translation),
            rotation: v3_clamp(t.rotation),
            scale: v3_clamp(t.scale),
        };
        self.scene.insert(id, clamped);
    }

    /// The registered transform of an object, if it still resolves.
    pub fn get_object(&self, id: u64) -> (r: Option<Transform>)
        ensures
            match r {
                Some(t) => self@.scene.contains_key(id) && t == self@.scene[id],
                None => !self@.scene.contains_key(id),
            },
    {
        match self.scene.get(&id) {
            Some(t) => Some(*t),
            None => None,
        }
    }

    /// Forget an object the host has destroyed. A session in progress keeps
    /// its entry for the object, and skips it at every later apply or
    /// restore.
    pub fn remove_object(&mut self, id: u64)
        requires
            old(self).inv(),
        ensures
            final(self).inv(),
            final(self)@ == (EditorView { scene: old(self)@.scene.remove(id), ..old(self)@ }),
    {
        self.scene.remove(&id);
    }

    /// Adopt the camera basis the host computed from the camera's yaw and
    /// pitch; turning angles into vectors takes trigonometry, which is the
    /// host's.
    pub fn set_camera_basis(&mut self, right: V3, up: V3, forward: V3)
        requires
            old(self).inv(),
        ensures
            final(self).inv(),
            final(self)@ == (EditorView {
                camera: CameraState { right, up, forward, ..old(self)@.camera },
                ..old(self)@
            }),
    {
        self.camera.right = right;
        self.camera.up = up;
        self.camera.forward = forward;
    }
}

/// The context after an "object clicked" notification: the toggle applies
/// only while the focus slot is free or held by the panels — a click during a
/// manipulation or a camera look selects nothing. Both the viewport pick and
/// the hierarchy-list click raise this same notification.
pub open spec fn select_entity_spec(v: EditorView, target: u64, additive: bool) -> EditorView {
    if v.focus == Focus::Idle || v.focus == Focus::Gui {
        EditorView { selection: toggle_spec(v.selection, target, additive), ..v }
    } else {
        v
    }
}

/// The scene after forgetting the first `n` drained references.
pub open spec fn remove_ids(scene: Map<u64, Transform>, ids: Seq<u64>, n: int) -> Map<
    u64,
    Transform,
>
    decreases n,
{
    if n <= 0 {
        scene
    } else {
        remove_ids(scene, ids, n - 1).remove(ids[n - 1])
    }
}

/// The context after the delete command: the selection is drained and every
/// drained object is forgotten, most recently selected first.
pub open spec fn delete_selected_spec(v: EditorView) -> EditorView {
    EditorView {
        selection: Seq::<u64>::empty(),
        scene: remove_ids(v.scene, v.selection.reverse(), v.selection.len() as int),
        ..v
    }
}

/// The context after the overlay and delete key bindings: the search-overlay
/// key claims the slot when it is free or held by the panels (the keypress
/// that opens the overlay is itself aimed at the panels, so the implicit
/// hover claim yields to it); the cancel key releases the overlay's own
/// claim; the delete key drains the selection only while the slot is free.
pub open spec fn keybindings_spec(v: EditorView, input: FrameInput) -> EditorView {
    let v1 = if input.quick_key && (v.focus == Focus::Idle || v.focus == Focus::Gui) {
        EditorView { focus: Focus::QuickSearch, ..v }
    } else if input.cancel_key && v.focus == Focus::QuickSearch {
        EditorView { focus: Focus::Idle, ..v }
    } else {
        v
    };
    if input.delete_key && v1.focus == Focus::Idle {
        delete_selected_spec(v1)
    } else {
        v1
    }
}

/// The context after the camera's frame.
pub open spec fn camera_frame_spec(v: EditorView, input: FrameInput) -> EditorView {
    EditorView {
        camera: camera_step_cam(v.camera, v.focus, input),
        focus: camera_step_focus(v.camera, v.focus, input),
        ..v
    }
}

impl Editor {
    /// Handle an "object clicked" notification carrying the clicked
    /// reference and whether the additive modifier was held at click time.
    pub fn select_entity(&mut self, target: u64, additive: bool)
        requires
            old(self).inv(),
        ensures
            final(self).inv(),
            final(self)@ == select_entity_spec(old(self)@, target, additive),
    {
        if self.focus.current == Focus::Idle || self.focus.current == Focus::Gui {
            self.selection.toggle(target, additive);
        }
    }

    /// Drain the selection for the host's delete command, forgetting each
    /// drained object and returning the drained references, most recently
    /// selected first, for the host to destroy.
    pub fn delete_selected(&mut self) -> (drained: Vec<u64>)
        requires
            old(self).inv(),
        ensures
            final(self).inv(),
            final(self)@ == delete_selected_spec(old(self)@),
            drained@ == old(self)@.selection.reverse(),
    {
        let drained = self.selection.pop_all();
        let ghost ids: Seq<u64> = drained@;
        let n: usize = drained.len();
        let mut i: usize = 0;
        while i < n
            invariant
                n == ids.len(),
                i <= n,
                drained@ == ids,
                self.scene@ == remove_ids(old(self)@.scene, ids, i as int),
                self.selection@ == Seq::<u64>::empty(),
                self.selection@.no_duplicates(),
                self.focus == old(self).focus,
                self.session == old(self).session,
                self.camera == old(self).camera,
            decreases n - i,
        {
            self.scene.remove(&drained[i]);
            i += 1;
        }
        drained
    }

    /// Apply the overlay and delete key bindings for this frame; the drained
    /// references are returned when the delete key fired, and empty
    /// otherwise.
    pub fn keybindings(&mut self, input: &FrameInput) -> (drained: Vec<u64>)
        requires
            old(self).inv(),
        ensures
            final(self).inv(),
            final(self)@ == keybindings_spec(old(self)@, *input),
            input.delete_key && keybindings_quick_focus(old(self)@, *input) == Focus::Idle
                ==> drained@ == old(self)@.selection.reverse(),
            !(input.delete_key && keybindings_quick_focus(old(self)@, *input) == Focus::Idle)
                ==> drained@ == Seq::<u64>::empty(),
    {
        if input.quick_key && (self.focus.current == Focus::Idle || self.focus.current
            == Focus::Gui) {
            self.focus.current = Focus::QuickSearch;
        } else if input.cancel_key && self.focus.current == Focus::QuickSearch {
            self.focus.current = Focus::Idle;
        }
        if input.delete_key && self.focus.current == Focus::Idle {
            self.delete_selected()
        } else {
            Vec::new()
        }
    }

    /// Advance the fly camera by one frame; see
    /// [`crate::camera::camera_update`].
    pub fn flycam_update(&mut self, input: &FrameInput) -> (mv: CameraMove)
        requires
            old(self).inv(),
        ensures
            final(self).inv(),
            final(self)@ == camera_frame_spec(old(self)@, *input),
            mv == crate::camera::camera_move_of(old(self)@.camera, old(self)@.focus, *input),
    {
        camera_update(&mut self.camera, &mut self.focus, input)
    }
}

/// What one frame hands back to the host: the camera's movement request and
/// the references drained by a delete, for the host to apply and destroy.
pub struct FrameOutput {
    /// Camera-local movement to apply along the camera's basis.
    pub camera_move: CameraMove,
    /// References drained by the delete command, most recently selected
    /// first; empty when it did not fire.
    pub deleted: Vec<u64>,
}

/// The context after one whole frame, in the fixed per-frame order: the
/// camera, then the implicit panel-hover claim, then the transform input
/// dispatch, then delta accumulation, then the overlay and delete keys, then
/// the transform application.
pub open spec fn frame_spec(v: EditorView, input: FrameInput) -> EditorView {
    let v1 = camera_frame_spec(v, input);
    let v2 = EditorView { focus: gui_hover_spec(v1.focus, input.over_ui), ..v1 };
    let v3 = crate::transform::transform_input_spec(v2, input);
    let v4 = crate::transform::update_delta_spec(v3, input.motion_x as int, input.motion_y as int);
    let v5 = keybindings_spec(v4, input);
    crate::transform::apply_transform_spec(v5, input.snap_held)
}

/// The references one frame's delete drains: the selection as it stood at
/// the delete check, most recently selected first, when the key fired while
/// the slot was free; empty otherwise.
pub open spec fn frame_deleted_spec(v: EditorView, input: FrameInput) -> Seq<u64> {
    let v1 = camera_frame_spec(v, input);
    let v2 = EditorView { focus: gui_hover_spec(v1.focus, input.over_ui), ..v1 };
    let v3 = crate::transform::transform_input_spec(v2, input);
    let v4 = crate::transform::update_delta_spec(v3, input.motion_x as int, input.motion_y as int);
    if input.delete_key && keybindings_quick_focus(v4, input) == Focus::Idle {
        v4.selection.reverse()
    } else {
        Seq::<u64>::empty()
    }
}

impl Editor {
    /// Advance the whole core by one frame of input, in the fixed per-frame
    /// order. Selection-click notifications arrive separately through
    /// [`Editor::select_entity`], raised by the host's pick and list panels.
    pub fn frame(&mut self, input: &FrameInput) -> (out: FrameOutput)
        requires
            old(self).inv(),
        ensures
            final(self).inv(),
            final(self)@ == frame_spec(old(self)@, *input),
            out.camera_move == crate::camera::camera_move_of(
                old(self)@.camera,
                old(self)@.focus,
                *input,
            ),
            out.deleted@ == frame_deleted_spec(old(self)@, *input),
    {
        let camera_move: CameraMove = self.flycam_update(input);
        self.focus.gui_hover(input.over_ui);
        proof {
            assert(self.inv());
        }
        self.transform_input(input);
        self.update_delta(input.motion_x, input.motion_y);
        let deleted: Vec<u64> = self.keybindings(input);
        self.update_transform(input.snap_held);
        FrameOutput { camera_move, deleted }
    }
}

/// The focus after the overlay key binding alone, before the delete check.
pub open spec fn keybindings_quick_focus(v: EditorView, input: FrameInput) -> Focus {
    if input.quick_key && (v.focus == Focus::Idle || v.focus == Focus::Gui) {
        Focus::QuickSearch
    } else if input.cancel_key && v.focus == Focus::QuickSearch {
        Focus::Idle
    } else {
        v.focus
    }
}

} // verus!
