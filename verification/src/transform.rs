//! The transform session: a transactional manipulation of the selected
//! objects' transforms.
//!
//! A session captures, for every selected object, its pre-manipulation value
//! (the *home* value) for the requested kind of manipulation, and an
//! accumulated input delta. Every frame the live value is recomputed as
//! `home + projected(effective delta)` — never by incrementing the live value
//! — so repeated frames are idempotent and cancellation restores every home
//! value exactly. Commit keeps the last-applied values; both commit and
//! cancel destroy the session and release its focus claim.
//!
//! Rotations are carried as Euler angle triples in thousandths of a radian;
//! the host converts to and from its quaternion form at the boundary, and a
//! session's rotation delta turns about the constraint axis by adding the
//! axis scaled by the effective angle onto the home triple.

use vstd::prelude::*;
use std::collections::HashMap;
use crate::camera::CameraState;
use crate::editor::{Editor, EditorView};
use crate::fixed::{
    add_clamp,
    clamp_coord_spec,
    clamp_i128,
    clamp_spec,
    div_trunc,
    div_trunc_i128,
    effective_delta,
    effective_delta_spec,
    lemma_div_trunc_bounds,
    scale_input,
    scaled_input_spec,
    v3_add,
    v3_add_spec,
    v3_scale,
    v3_scale_spec,
    COORD_LIMIT,
    V3,
};
use crate::focus::{claim_granted, release_spec, Focus};
use crate::input::FrameInput;

verus! {

broadcast use vstd::std_specs::hash::group_hash_axioms;

/// Bound on one frame's damped rotation motion, thousandths of a radian: a
/// quarter turn, truncated. The host's damping curve flattens large pointer
/// spikes; this core clamps to the same bound, a documented tunable.
pub const ROT_DAMP_LIMIT: i64 = 1570;

/// A manipulation request: which kind of session to start.
#[derive(Clone, Copy, PartialEq, Eq, Structural, Debug)]
pub enum TransformSelected {
    /// Move the selected objects.
    Translate,
    /// Turn the selected objects.
    Rotate,
    /// Stretch the selected objects.
    Scale,
}

/// One object's transform as this core models it: translation and scale in
/// thousandths of a unit, rotation as Euler angles in thousandths of a
/// radian.
#[derive(Clone, Copy, PartialEq, Eq, Structural, Debug)]
pub struct Transform {
    /// Position, thousandths of a unit.
    pub translation: V3,
    /// Orientation as Euler angles, thousandths of a radian.
    pub rotation: V3,
    /// Scale factors, thousandths.
    pub scale: V3,
}

impl Transform {
    /// The identity transform: at the origin, unturned, unit scale.
    pub fn identity() -> (r: Transform)
        ensures
            r == Transform::identity_spec(),
    {
        Transform { translation: V3::zero(), rotation: V3::zero(), scale: V3::one() }
    }

    /// Spec value of [`Transform::identity`].
    pub open spec fn identity_spec() -> Transform {
        Transform {
            translation: V3 { x: 0, y: 0, z: 0 },
            rotation: V3 { x: 0, y: 0, z: 0 },
            scale: V3 { x: 1000, y: 1000, z: 1000 },
        }
    }
}

/// An object's home value, typed by the manipulation kind it was captured
/// for: a linear triple for translate and scale, an angular triple for
/// rotate. Mixing the two is a programming error, not a runtime case, so the
/// typed accessors demand the matching variant.
#[derive(Clone, Copy, PartialEq, Eq, Structural, Debug)]
pub enum TransformHome {
    /// A captured translation or scale.
    Linear(V3),
    /// A captured rotation, Euler angles in thousandths of a radian.
    Angular(V3),
}

impl TransformHome {
    /// The captured triple, whichever variant holds it.
    pub open spec fn value(self) -> V3 {
        match self {
            TransformHome::Linear(v) => v,
            TransformHome::Angular(v) => v,
        }
    }

    /// The captured linear value of a translate or scale session.
    pub fn as_linear(&self) -> (r: V3)
        requires
            self is Linear,
        ensures
            r == self.value(),
    {
        match self {
            TransformHome::Linear(v) => *v,
            TransformHome::Angular(v) => *v,
        }
    }

    /// The captured angular value of a rotate session.
    pub fn as_angular(&self) -> (r: V3)
        requires
            self is Angular,
        ensures
            r == self.value(),
    {
        match self {
            TransformHome::Linear(v) => *v,
            TransformHome::Angular(v) => *v,
        }
    }
}

/// A session's manipulation kind with its kind-specific payload: the
/// accumulated input delta and the axis constraint the delta is projected
/// onto.
#[derive(Clone, Copy, PartialEq, Eq, Structural, Debug)]
pub enum TransformMode {
    /// Two-dimensional delta projected onto two basis vectors.
    Translate {
        /// Accumulated horizontal delta, thousandths of a unit.
        delta_x: i64,
        /// Accumulated vertical delta, thousandths of a unit.
        delta_y: i64,
        /// Basis the horizontal delta moves along.
        x_axis: V3,
        /// Basis the vertical delta moves along.
        y_axis: V3,
    },
    /// One-dimensional angle about one axis.
    Rotate {
        /// Accumulated angle, thousandths of a radian.
        delta: i64,
        /// The turn axis.
        axis: V3,
    },
    /// One-dimensional factor along one axis (uniform by default).
    Scale {
        /// Accumulated factor, thousandths.
        delta: i64,
        /// The stretch axis.
        axis: V3,
    },
}

/// The kind a mode belongs to.
pub open spec fn mode_kind(mode: TransformMode) -> TransformSelected {
    match mode {
        TransformMode::Translate { .. } => TransformSelected::Translate,
        TransformMode::Rotate { .. } => TransformSelected::Rotate,
        TransformMode::Scale { .. } => TransformSelected::Scale,
    }
}

/// The manipulation in progress: its mode, every involved object's home
/// value in selection order, and the geometric center of the involved
/// objects' home translations (for the host's gizmo placement).
pub struct Session {
    /// The manipulation kind, its accumulated delta and its axis constraint.
    pub mode: TransformMode,
    /// Each involved object with its home value, in selection order.
    pub homes: Vec<(u64, TransformHome)>,
    /// Mean of the involved objects' home translations.
    pub center: V3,
}

/// Whether a manipulation is in progress: at most one session exists at a
/// time, and none between manipulations.
pub enum SessionState {
    /// No manipulation is in progress.
    Idle,
    /// One manipulation is in progress.
    Active(Session),
}

/// Spec-level snapshot of a [`Session`].
pub ghost struct SessionView {
    /// The manipulation kind, its accumulated delta and its axis constraint.
    pub mode: TransformMode,
    /// Each involved object with its home value, in selection order.
    pub homes: Seq<(u64, TransformHome)>,
    /// Mean of the involved objects' home translations.
    pub center: V3,
}

/// Spec-level snapshot of a [`SessionState`].
pub ghost enum SessionStateView {
    /// No manipulation is in progress.
    Idle,
    /// One manipulation is in progress.
    Active(SessionView),
}

/// The home value the requested kind captures from an object's transform.
pub open spec fn home_of(t: Transform, kind: TransformSelected) -> TransformHome {
    match kind {
        TransformSelected::Translate => TransformHome::Linear(t.translation),
        TransformSelected::Rotate => TransformHome::Angular(t.rotation),
        TransformSelected::Scale => TransformHome::Linear(t.scale),
    }
}

/// One frame's damped rotation motion: clamped into a quarter turn.
pub open spec fn rot_damp(m: int) -> int {
    clamp_spec(m, ROT_DAMP_LIMIT as int)
}

/// One object's live value under a mode: the home value plus the effective
/// delta projected onto the mode's axis constraint.
pub open spec fn applied_transform(t: Transform, home: TransformHome, mode: TransformMode, snapping: bool) -> Transform {
    match mode {
        TransformMode::Translate { delta_x, delta_y, x_axis, y_axis } => {
            let offset = v3_add_spec(
                v3_scale_spec(x_axis, effective_delta_spec(delta_x as int, snapping)),
                v3_scale_spec(y_axis, effective_delta_spec(delta_y as int, snapping)),
            );
            Transform { translation: v3_add_spec(home.value(), offset), ..t }
        },
        TransformMode::Rotate { delta, axis } => {
            let offset = v3_scale_spec(axis, effective_delta_spec(delta as int, snapping));
            Transform { rotation: v3_add_spec(home.value(), offset), ..t }
        },
        TransformMode::Scale { delta, axis } => {
            let offset = v3_scale_spec(axis, effective_delta_spec(delta as int, snapping));
            Transform { scale: v3_add_spec(home.value(), offset), ..t }
        },
    }
}

/// One object's transform with the mode's component restored to its home
/// value, all other components kept.
pub open spec fn restored_transform(t: Transform, home: TransformHome, mode: TransformMode) -> Transform {
    match mode {
        TransformMode::Translate { .. } => Transform { translation: home.value(), ..t },
        TransformMode::Rotate { .. } => Transform { rotation: home.value(), ..t },
        TransformMode::Scale { .. } => Transform { scale: home.value(), ..t },
    }
}

/// The scene after writing one session entry's live value; an entry whose
/// object no longer resolves in the scene is skipped.
pub open spec fn apply_one(
    scene: Map<u64, Transform>,
    entry: (u64, TransformHome),
    mode: TransformMode,
    snapping: bool,
) -> Map<u64, Transform> {
    if scene.contains_key(entry.0) {
        scene.insert(entry.0, applied_transform(scene[entry.0], entry.1, mode, snapping))
    } else {
        scene
    }
}

/// The scene after writing the first `n` session entries' live values.
pub open spec fn apply_scene(
    scene: Map<u64, Transform>,
    homes: Seq<(u64, TransformHome)>,
    mode: TransformMode,
    snapping: bool,
    n: int,
) -> Map<u64, Transform>
    decreases n,
{
    if n <= 0 {
        scene
    } else {
        apply_one(apply_scene(scene, homes, mode, snapping, n - 1), homes[n - 1], mode, snapping)
    }
}

/// The scene after restoring one session entry's home value; an entry whose
/// object no longer resolves in the scene is skipped.
pub open spec fn restore_one(
    scene: Map<u64, Transform>,
    entry: (u64, TransformHome),
    mode: TransformMode,
) -> Map<u64, Transform> {
    if scene.contains_key(entry.0) {
        scene.insert(entry.0, restored_transform(scene[entry.0], entry.1, mode))
    } else {
        scene
    }
}

/// The scene after restoring the first `n` session entries' home values.
pub open spec fn restore_scene(
    scene: Map<u64, Transform>,
    homes: Seq<(u64, TransformHome)>,
    mode: TransformMode,
    n: int,
) -> Map<u64, Transform>
    decreases n,
{
    if n <= 0 {
        scene
    } else {
        restore_one(restore_scene(scene, homes, mode, n - 1), homes[n - 1], mode)
    }
}

/// How a manipulation request ended. Everything but `Started` is a logged
/// no-op for the caller: no state changes and no session starts.
#[derive(Clone, Copy, PartialEq, Eq, Structural, Debug)]
pub enum RequestOutcome {
    /// A session started.
    Started,
    /// A session already exists; it must be committed or cancelled first.
    SessionActive,
    /// Nothing is selected.
    EmptySelection,
    /// The focus arbiter rejected the `Transform` claim.
    FocusDenied,
    /// A selected object no longer resolves in the scene, so the entry was
    /// aborted whole rather than starting an inconsistent session.
    MissingTransform,
}

/// A world axis the constraint can be switched to mid-session.
#[derive(Clone, Copy, PartialEq, Eq, Structural, Debug)]
pub enum WorldAxis {
    /// The world x direction.
    X,
    /// The world y direction.
    Y,
    /// The world z direction.
    Z,
}

/// The constraint vector an axis key selects: the world axis itself, or the
/// complementary plane diagonal while the invert modifier is held.
pub open spec fn axis_vec_spec(axis: WorldAxis, invert: bool) -> V3 {
    let base = match axis {
        WorldAxis::X => V3 { x: 1000, y: 0, z: 0 },
        WorldAxis::Y => V3 { x: 0, y: 1000, z: 0 },
        WorldAxis::Z => V3 { x: 0, y: 0, z: 1000 },
    };
    if invert {
        V3 { x: (1000 - base.x) as i64, y: (1000 - base.y) as i64, z: (1000 - base.z) as i64 }
    } else {
        base
    }
}

/// Whether every selected object still resolves in the scene.
pub open spec fn all_present(scene: Map<u64, Transform>, sel: Seq<u64>) -> bool {
    forall|i: int| 0 <= i < sel.len() ==> scene.contains_key(sel[i])
}

/// The home values a session captures: one entry per selected object, in
/// selection order.
pub open spec fn homes_spec(scene: Map<u64, Transform>, sel: Seq<u64>, kind: TransformSelected) -> Seq<
    (u64, TransformHome),
> {
    Seq::new(sel.len(), |i: int| (sel[i], home_of(scene[sel[i]], kind)))
}

/// Sum of the selected objects' translations along one projection, each
/// clamped into the coordinate range.
pub open spec fn translation_sum(
    scene: Map<u64, Transform>,
    sel: Seq<u64>,
    pick: spec_fn(V3) -> i64,
) -> int
    decreases sel.len(),
{
    if sel.len() == 0 {
        0
    } else {
        translation_sum(scene, sel.drop_last(), pick) + clamp_coord_spec(
            pick(scene[sel.last()].translation) as int,
        )
    }
}

/// The geometric center a session records for gizmo placement: the mean of
/// the selected objects' translations, componentwise, truncated toward zero.
pub open spec fn center_spec(scene: Map<u64, Transform>, sel: Seq<u64>) -> V3 {
    V3 {
        x: clamp_coord_spec(div_trunc(translation_sum(scene, sel, |v: V3| v.x), sel.len() as int)) as i64,
        y: clamp_coord_spec(div_trunc(translation_sum(scene, sel, |v: V3| v.y), sel.len() as int)) as i64,
        z: clamp_coord_spec(div_trunc(translation_sum(scene, sel, |v: V3| v.z), sel.len() as int)) as i64,
    }
}

/// A fresh session's mode: zero accumulated delta, and the default axis
/// constraint read off the camera — translation moves in the camera's
/// right/up plane, rotation turns about the camera's forward axis, scale
/// stretches uniformly.
pub open spec fn init_mode_spec(kind: TransformSelected, cam: CameraState) -> TransformMode {
    match kind {
        TransformSelected::Translate => TransformMode::Translate {
            delta_x: 0,
            delta_y: 0,
            x_axis: cam.right,
            y_axis: cam.up,
        },
        TransformSelected::Rotate => TransformMode::Rotate { delta: 0, axis: cam.forward },
        TransformSelected::Scale => TransformMode::Scale {
            delta: 0,
            axis: V3 { x: 1000, y: 1000, z: 1000 },
        },
    }
}

/// How a manipulation request ends on a given context: an existing session,
/// an empty selection and a rejected focus claim are no-ops, in that order of
/// checks; a selected object without scene data aborts the entry whole; only
/// then does a session start.
pub open spec fn request_outcome_spec(v: EditorView, kind: TransformSelected) -> RequestOutcome {
    if v.session is Active {
        RequestOutcome::SessionActive
    } else if v.selection.len() == 0 {
        RequestOutcome::EmptySelection
    } else if !claim_granted(v.focus, Focus::Transform) {
        RequestOutcome::FocusDenied
    } else if !all_present(v.scene, v.selection) {
        RequestOutcome::MissingTransform
    } else {
        RequestOutcome::Started
    }
}

/// The context after a manipulation request: on `Started` a session exists
/// with every selected object's home value captured, the camera-derived
/// default constraint, zero delta and the recorded center, and the focus
/// slot is claimed; on every other outcome nothing changes.
pub open spec fn request_spec(v: EditorView, kind: TransformSelected) -> EditorView {
    if request_outcome_spec(v, kind) == RequestOutcome::Started {
        EditorView {
            focus: Focus::Transform,
            session: SessionStateView::Active(
                SessionView {
                    mode: init_mode_spec(kind, v.camera),
                    homes: homes_spec(v.scene, v.selection, kind),
                    center: center_spec(v.scene, v.selection),
                },
            ),
            ..v
        }
    } else {
        v
    }
}

/// One frame's damped, scaled rotation contribution: the motion clamped into
/// a quarter turn, then scaled by the 0.01 convention.
pub open spec fn rot_contribution(m: int) -> int {
    div_trunc(rot_damp(m), 100)
}

/// A session's mode after one frame of pointer motion: translation
/// accumulates both directions (vertical negated), rotation accumulates the
/// damped sum of both, scale accumulates horizontal motion only; every
/// accumulator stays clamped in the coordinate range. Axis constraints are
/// untouched.
pub open spec fn accumulate_mode(mode: TransformMode, mx: int, my: int) -> TransformMode {
    match mode {
        TransformMode::Translate { delta_x, delta_y, x_axis, y_axis } => TransformMode::Translate {
            delta_x: clamp_coord_spec(delta_x + scaled_input_spec(mx)) as i64,
            delta_y: clamp_coord_spec(delta_y - scaled_input_spec(my)) as i64,
            x_axis,
            y_axis,
        },
        TransformMode::Rotate { delta, axis } => TransformMode::Rotate {
            delta: clamp_coord_spec(
                clamp_coord_spec(delta + rot_contribution(mx)) + rot_contribution(my),
            ) as i64,
            axis,
        },
        TransformMode::Scale { delta, axis } => TransformMode::Scale {
            delta: clamp_coord_spec(delta + scaled_input_spec(mx)) as i64,
            axis,
        },
    }
}

/// The context after one frame of pointer motion: only an active session's
/// accumulated delta changes.
pub open spec fn update_delta_spec(v: EditorView, mx: int, my: int) -> EditorView {
    match v.session {
        SessionStateView::Idle => v,
        SessionStateView::Active(s) => EditorView {
            session: SessionStateView::Active(
                SessionView { mode: accumulate_mode(s.mode, mx, my), ..s },
            ),
            ..v
        },
    }
}

/// A session's mode after an axis key: the constraint switches to the chosen
/// world axis (translation keeps only that one basis), the accumulated delta
/// and the home values stay — so the manipulated objects may jump, which is
/// the accepted behavior.
pub open spec fn reconstrain_mode(mode: TransformMode, axis: WorldAxis, invert: bool) -> TransformMode {
    let vec = axis_vec_spec(axis, invert);
    match mode {
        TransformMode::Translate { delta_x, delta_y, .. } => TransformMode::Translate {
            delta_x,
            delta_y,
            x_axis: vec,
            y_axis: V3 { x: 0, y: 0, z: 0 },
        },
        TransformMode::Rotate { delta, .. } => TransformMode::Rotate { delta, axis: vec },
        TransformMode::Scale { delta, .. } => TransformMode::Scale { delta, axis: vec },
    }
}

/// The context after an axis key: only an active session's constraint
/// changes.
pub open spec fn set_axis_spec(v: EditorView, axis: WorldAxis, invert: bool) -> EditorView {
    match v.session {
        SessionStateView::Idle => v,
        SessionStateView::Active(s) => EditorView {
            session: SessionStateView::Active(
                SessionView { mode: reconstrain_mode(s.mode, axis, invert), ..s },
            ),
            ..v
        },
    }
}

/// The context after one frame's apply: every session entry whose object
/// still resolves is written `home + projected(effective delta)`; without a
/// session nothing changes.
pub open spec fn apply_transform_spec(v: EditorView, snapping: bool) -> EditorView {
    match v.session {
        SessionStateView::Idle => v,
        SessionStateView::Active(s) => EditorView {
            scene: apply_scene(v.scene, s.homes, s.mode, snapping, s.homes.len() as int),
            ..v
        },
    }
}

/// The context after a commit: the live values stay as last applied, the
/// session is destroyed and its focus claim released. Recording history is
/// deferred.
pub open spec fn commit_spec(v: EditorView) -> EditorView {
    match v.session {
        SessionStateView::Idle => v,
        SessionStateView::Active(_) => EditorView {
            session: SessionStateView::Idle,
            focus: release_spec(v.focus, Focus::Transform),
            ..v
        },
    }
}

/// The context after a cancel: every session entry whose object still
/// resolves is restored to its home value exactly, then the session is
/// destroyed and its focus claim released — a cancelled manipulation is
/// observably a no-op.
pub open spec fn cancel_spec(v: EditorView) -> EditorView {
    match v.session {
        SessionStateView::Idle => v,
        SessionStateView::Active(s) => EditorView {
            scene: restore_scene(v.scene, s.homes, s.mode, s.homes.len() as int),
            session: SessionStateView::Idle,
            focus: release_spec(v.focus, Focus::Transform),
            ..v
        },
    }
}

/// The per-frame transform input dispatch: a kind key requests a session; if
/// one is then running, an axis key re-constrains it, and a confirm input
/// commits while a cancel input cancels. A request while a session already
/// runs is deliberately ignored.
pub open spec fn transform_input_spec(v: EditorView, input: FrameInput) -> EditorView {
    let v1 = if input.translate_key {
        request_spec(v, TransformSelected::Translate)
    } else if input.rotate_key {
        request_spec(v, TransformSelected::Rotate)
    } else if input.scale_key {
        request_spec(v, TransformSelected::Scale)
    } else {
        v
    };
    if v1.session is Idle {
        v1
    } else {
        let v2 = if input.axis_x_key {
            set_axis_spec(v1, WorldAxis::X, input.additive_held)
        } else if input.axis_y_key {
            set_axis_spec(v1, WorldAxis::Y, input.additive_held)
        } else if input.axis_z_key {
            set_axis_spec(v1, WorldAxis::Z, input.additive_held)
        } else {
            v1
        };
        if input.primary_just_pressed {
            commit_spec(v2)
        } else if input.secondary_just_pressed || input.cancel_key {
            cancel_spec(v2)
        } else {
            v2
        }
    }
}

/// The captured triple of a home value, whichever variant holds it.
fn home_value_of(h: TransformHome) -> (r: V3)
    ensures
        r == h.value(),
{
    match h {
        TransformHome::Linear(v) => v,
        TransformHome::Angular(v) => v,
    }
}

/// Exec counterpart of [`home_of`].
fn capture_home(t: &Transform, kind: TransformSelected) -> (r: TransformHome)
    ensures
        r == home_of(*t, kind),
{
    match kind {
        TransformSelected::Translate => TransformHome::Linear(t.translation),
        TransformSelected::Rotate => TransformHome::Angular(t.rotation),
        TransformSelected::Scale => TransformHome::Linear(t.scale),
    }
}

/// Exec counterpart of [`axis_vec_spec`].
fn axis_vec(axis: WorldAxis, invert: bool) -> (r: V3)
    ensures
        r == axis_vec_spec(axis, invert),
{
    let base: V3 = match axis {
        WorldAxis::X => V3::unit_x(),
        WorldAxis::Y => V3::unit_y(),
        WorldAxis::Z => V3::unit_z(),
    };
    if invert {
        V3 { x: 1000 - base.x, y: 1000 - base.y, z: 1000 - base.z }
    } else {
        base
    }
}

/// One entry's live value; exec counterpart of [`applied_transform`].
fn compute_applied(cur: &Transform, home: TransformHome, mode: &TransformMode, snapping: bool) -> (r:
    Transform)
    ensures
        r == applied_transform(*cur, home, *mode, snapping),
{
    match mode {
        TransformMode::Translate { delta_x, delta_y, x_axis, y_axis } => {
            let ex: i64 = effective_delta(*delta_x, snapping);
            let ey: i64 = effective_delta(*delta_y, snapping);
            let offset: V3 = v3_add(v3_scale(*x_axis, ex), v3_scale(*y_axis, ey));
            Transform { translation: v3_add(home_value_of(home), offset), ..*cur }
        },
        TransformMode::Rotate { delta, axis } => {
            let eff: i64 = effective_delta(*delta, snapping);
            let offset: V3 = v3_scale(*axis, eff);
            Transform { rotation: v3_add(home_value_of(home), offset), ..*cur }
        },
        TransformMode::Scale { delta, axis } => {
            let eff: i64 = effective_delta(*delta, snapping);
            let offset: V3 = v3_scale(*axis, eff);
            Transform { scale: v3_add(home_value_of(home), offset), ..*cur }
        },
    }
}

/// One entry's restored value; exec counterpart of [`restored_transform`].
fn compute_restored(cur: &Transform, home: TransformHome, mode: &TransformMode) -> (r: Transform)
    ensures
        r == restored_transform(*cur, home, *mode),
{
    match mode {
        TransformMode::Translate { .. } => Transform {
            translation: home_value_of(home),
            ..*cur
        },
        TransformMode::Rotate { .. } => Transform { rotation: home_value_of(home), ..*cur },
        TransformMode::Scale { .. } => Transform { scale: home_value_of(home), ..*cur },
    }
}

/// Mean of the registered translations of `ids`, componentwise; exec
/// counterpart of [`center_spec`].
fn translation_center(scene: &HashMap<u64, Transform>, ids: &Vec<u64>) -> (c: V3)
    requires
        ids@.len() > 0,
        all_present(scene@, ids@),
    ensures
        c == center_spec(scene@, ids@),
{
    let ghost l: int = COORD_LIMIT as int;
    let n: usize = ids.len();
    let mut sx: i128 = 0;
    let mut sy: i128 = 0;
    let mut sz: i128 = 0;
    let mut j: usize = 0;
    while j < n
        invariant
            n == ids@.len(),
            j <= n,
            all_present(scene@, ids@),
            l == COORD_LIMIT as int,
            sx == translation_sum(scene@, ids@.subrange(0, j as int), |v: V3| v.x),
            sy == translation_sum(scene@, ids@.subrange(0, j as int), |v: V3| v.y),
            sz == translation_sum(scene@, ids@.subrange(0, j as int), |v: V3| v.z),
            -(j as int) * l <= sx <= (j as int) * l,
            -(j as int) * l <= sy <= (j as int) * l,
            -(j as int) * l <= sz <= (j as int) * l,
        decreases n - j,
    {
        broadcast use vstd::std_specs::hash::group_hash_axioms;

        let t: Transform = match scene.get(&ids[j]) {
            Some(t) => *t,
            None => {
                proof {
                    assert(scene@.contains_key(ids@[j as int]));
                }
                unreached()
            },
        };
        let cx: i64 = add_clamp(t.translation.x, 0, COORD_LIMIT);
        let cy: i64 = add_clamp(t.translation.y, 0, COORD_LIMIT);
        let cz: i64 = add_clamp(t.translation.z, 0, COORD_LIMIT);
        proof {
            assert((j as int) * l <= 0xffffffffffffffff * 1000000000000000int && ((j + 1) as int)
                * l == (j as int) * l + l && -(((j + 1) as int) * l) == -((j as int) * l) - l)
                by (nonlinear_arith)
                requires
                    0 <= j <= 0xffffffffffffffff,
                    l == 1000000000000000int,
            ;
            let prefix = ids@.subrange(0, (j + 1) as int);
            assert(prefix.drop_last() =~= ids@.subrange(0, j as int));
            assert(prefix.last() == ids@[j as int]);
        }
        sx = sx + (cx as i128);
        sy = sy + (cy as i128);
        sz = sz + (cz as i128);
        j += 1;
    }
    proof {
        assert(ids@.subrange(0, n as int) =~= ids@);
        assert((n as int) * l <= 0xffffffffffffffff * 1000000000000000int) by (nonlinear_arith)
            requires
                0 <= n <= 0xffffffffffffffff,
                l == 1000000000000000int,
        ;
    }
    let n64: u64 = n as u64;
    V3 {
        x: clamp_i128(div_trunc_i128(sx, n64), COORD_LIMIT),
        y: clamp_i128(div_trunc_i128(sy, n64), COORD_LIMIT),
        z: clamp_i128(div_trunc_i128(sz, n64), COORD_LIMIT),
    }
}

impl Editor {
    /// Whether a manipulation session exists right now.
    pub fn session_active(&self) -> (b: bool)
        ensures
            b == (self@.session is Active),
    {
        match &self.session {
            SessionState::Idle => false,
            SessionState::Active(_) => true,
        }
    }

    /// Request a manipulation of the selected objects. Starts a session only
    /// while none exists, something is selected, the focus arbiter grants the
    /// `Transform` claim, and every selected object still has scene data; the
    /// returned outcome says which of these held, and on anything but
    /// `Started` nothing changes.
    pub fn transform_selected(&mut self, kind: TransformSelected) -> (outcome: RequestOutcome)
        requires
            old(self).inv(),
        ensures
            final(self).inv(),
            final(self)@ == request_spec(old(self)@, kind),
            outcome == request_outcome_spec(old(self)@, kind),
    {
        if self.session_active() {
            return RequestOutcome::SessionActive;
        }
        let ids: Vec<u64> = self.selection.elements();
        if ids.len() == 0 {
            return RequestOutcome::EmptySelection;
        }
        if !self.focus.would_grant(Focus::Transform) {
            return RequestOutcome::FocusDenied;
        }
        let ghost sel: Seq<u64> = self.selection@;
        let n: usize = ids.len();
        let mut homes: Vec<(u64, TransformHome)> = Vec::new();
        let mut j: usize = 0;
        while j < n
            invariant
                old(self).inv(),
                !(old(self)@.session is Active),
                old(self)@.selection.len() > 0,
                claim_granted(old(self)@.focus, Focus::Transform),
                n == ids@.len(),
                ids@ == sel,
                sel == old(self)@.selection,
                j <= n,
                self.scene@ == old(self).scene@,
                self.selection == old(self).selection,
                self.focus == old(self).focus,
                self.camera == old(self).camera,
                self.session == old(self).session,
                self@.session == old(self)@.session,
                sel == self.selection@,
                homes@.len() == j,
                forall|i: int|
                    0 <= i < j ==> homes@[i] == (sel[i], home_of(self.scene@[sel[i]], kind)),
                forall|i: int| 0 <= i < j ==> self.scene@.contains_key(sel[i]),
            decreases n - j,
        {
            match self.scene.get(&ids[j]) {
                Some(t) => {
                    homes.push((ids[j], capture_home(t, kind)));
                },
                None => {
                    proof {
                        assert(!all_present(self.scene@, sel)) by {
                            assert(0 <= (j as int) < sel.len() && !self.scene@.contains_key(
                                sel[j as int],
                            ));
                        }
                    }
                    return RequestOutcome::MissingTransform;
                },
            }
            j += 1;
        }
        proof {
            assert(homes@ =~= homes_spec(self.scene@, sel, kind));
        }
        let center: V3 = translation_center(&self.scene, &ids);
        let mode: TransformMode = match kind {
            TransformSelected::Translate => TransformMode::Translate {
                delta_x: 0,
                delta_y: 0,
                x_axis: self.camera.right,
                y_axis: self.camera.up,
            },
            TransformSelected::Rotate => TransformMode::Rotate {
                delta: 0,
                axis: self.camera.forward,
            },
            TransformSelected::Scale => TransformMode::Scale {
                delta: 0,
                axis: V3 { x: 1000, y: 1000, z: 1000 },
            },
        };
        let _granted: bool = self.focus.try_claim(Focus::Transform);
        self.session = SessionState::Active(Session { mode, homes, center });
        RequestOutcome::Started
    }

    /// Accumulate one frame of pointer motion into the active session's
    /// delta; without a session this is a no-op.
    pub fn update_delta(&mut self, motion_x: i64, motion_y: i64)
        requires
            old(self).inv(),
        ensures
            final(self).inv(),
            final(self)@ == update_delta_spec(old(self)@, motion_x as int, motion_y as int),
    {
        match &mut self.session {
            SessionState::Idle => {},
            SessionState::Active(s) => {
                match &mut s.mode {
                    TransformMode::Translate { delta_x, delta_y, .. } => {
                        let dx: i64 = scale_input(motion_x);
                        let dy: i64 = scale_input(motion_y);
                        *delta_x = add_clamp(*delta_x, dx, COORD_LIMIT);
                        *delta_y = add_clamp(*delta_y, -dy, COORD_LIMIT);
                    },
                    TransformMode::Rotate { delta, .. } => {
                        let cx: i64 = rot_step(motion_x);
                        let cy: i64 = rot_step(motion_y);
                        *delta = add_clamp(add_clamp(*delta, cx, COORD_LIMIT), cy, COORD_LIMIT);
                    },
                    TransformMode::Scale { delta, .. } => {
                        let dx: i64 = scale_input(motion_x);
                        *delta = add_clamp(*delta, dx, COORD_LIMIT);
                    },
                }
            },
        }
    }

    /// Switch the active session's constraint to a world axis (or, with the
    /// invert modifier, to the complementary plane); the accumulated delta
    /// and the home values are deliberately kept.
    pub fn set_axis(&mut self, axis: WorldAxis, invert: bool)
        requires
            old(self).inv(),
        ensures
            final(self).inv(),
            final(self)@ == set_axis_spec(old(self)@, axis, invert),
    {
        let vec: V3 = axis_vec(axis, invert);
        match &mut self.session {
            SessionState::Idle => {},
            SessionState::Active(s) => {
                match &mut s.mode {
                    TransformMode::Translate { x_axis, y_axis, .. } => {
                        *x_axis = vec;
                        *y_axis = V3 { x: 0, y: 0, z: 0 };
                    },
                    TransformMode::Rotate { axis, .. } => {
                        *axis = vec;
                    },
                    TransformMode::Scale { axis, .. } => {
                        *axis = vec;
                    },
                }
            },
        }
    }

    /// Write every session entry's live value, `home + projected(effective
    /// delta)`, into the scene; entries whose object no longer resolves are
    /// skipped for the frame. Recomputing from the home value keeps repeated
    /// frames idempotent. Without a session this is a no-op.
    pub fn update_transform(&mut self, snapping: bool)
        requires
            old(self).inv(),
        ensures
            final(self).inv(),
            final(self)@ == apply_transform_spec(old(self)@, snapping),
    {
        let ghost scene0: Map<u64, Transform> = self.scene@;
        match &self.session {
            SessionState::Idle => {},
            SessionState::Active(s) => {
                let n: usize = s.homes.len();
                let mut i: usize = 0;
                while i < n
                    invariant
                        n == s.homes@.len(),
                        i <= n,
                        self.scene@ == apply_scene(
                            scene0,
                            s.homes@,
                            s.mode,
                            snapping,
                            i as int,
                        ),
                        self.selection == old(self).selection,
                        self.focus == old(self).focus,
                        self.camera == old(self).camera,
                        self.session == old(self).session,
                        self@.session == old(self)@.session,
                    decreases n - i,
                {
                    broadcast use vstd::std_specs::hash::group_hash_axioms;

                    let (id, home): (u64, TransformHome) = s.homes[i];
                    match self.scene.get(&id) {
                        Some(cur) => {
                            let new_t: Transform = compute_applied(cur, home, &s.mode, snapping);
                            self.scene.insert(id, new_t);
                        },
                        None => {},
                    }
                    i += 1;
                }
            },
        }
    }

    /// Commit the active session: the live values stay as last applied, the
    /// session is destroyed and its focus claim released. Without a session
    /// this is a no-op. Recording history is deferred.
    pub fn finish_transform(&mut self)
        requires
            old(self).inv(),
        ensures
            final(self).inv(),
            final(self)@ == commit_spec(old(self)@),
    {
        if self.session_active() {
            self.session = SessionState::Idle;
            self.focus.release(Focus::Transform);
        }
    }

    /// Cancel the active session: every entry whose object still resolves is
    /// restored to its home value exactly, then the session is destroyed and
    /// its focus claim released. Without a session this is a no-op.
    pub fn cancel_transform(&mut self)
        requires
            old(self).inv(),
        ensures
            final(self).inv(),
            final(self)@ == cancel_spec(old(self)@),
    {
        let ghost scene0: Map<u64, Transform> = self.scene@;
        match &self.session {
            SessionState::Idle => {
                return ;
            },
            SessionState::Active(s) => {
                let n: usize = s.homes.len();
                let mut i: usize = 0;
                while i < n
                    invariant
                        n == s.homes@.len(),
                        i <= n,
                        self.scene@ == restore_scene(scene0, s.homes@, s.mode, i as int),
                        self.selection == old(self).selection,
                        self.focus == old(self).focus,
                        self.camera == old(self).camera,
                        self.session == old(self).session,
                        self@.session == old(self)@.session,
                    decreases n - i,
                {
                    broadcast use vstd::std_specs::hash::group_hash_axioms;

                    let (id, home): (u64, TransformHome) = s.homes[i];
                    match self.scene.get(&id) {
                        Some(cur) => {
                            let new_t: Transform = compute_restored(cur, home, &s.mode);
                            self.scene.insert(id, new_t);
                        },
                        None => {},
                    }
                    i += 1;
                }
            },
        }
        self.session = SessionState::Idle;
        self.focus.release(Focus::Transform);
    }

    /// The per-frame transform input dispatch: a kind key requests a session;
    /// while one runs, an axis key re-constrains it, the confirm input
    /// commits it and a cancel input cancels it.
    pub fn transform_input(&mut self, input: &FrameInput)
        requires
            old(self).inv(),
        ensures
            final(self).inv(),
            final(self)@ == transform_input_spec(old(self)@, *input),
    {
        if input.translate_key {
            let _outcome = self.transform_selected(TransformSelected::Translate);
        } else if input.rotate_key {
            let _outcome = self.transform_selected(TransformSelected::Rotate);
        } else if input.scale_key {
            let _outcome = self.transform_selected(TransformSelected::Scale);
        }
        if !self.session_active() {
            return ;
        }
        if input.axis_x_key {
            self.set_axis(WorldAxis::X, input.additive_held);
        } else if input.axis_y_key {
            self.set_axis(WorldAxis::Y, input.additive_held);
        } else if input.axis_z_key {
            self.set_axis(WorldAxis::Z, input.additive_held);
        }
        if input.primary_just_pressed {
            self.finish_transform();
        } else if input.secondary_just_pressed || input.cancel_key {
            self.cancel_transform();
        }
    }
}

/// Restoring home values that were captured from the scene itself, with the
/// scene unchanged in between, writes back exactly what is already there.
proof fn lemma_restore_captured(
    scene: Map<u64, Transform>,
    sel: Seq<u64>,
    kind: TransformSelected,
    mode: TransformMode,
    n: int,
)
    requires
        0 <= n <= sel.len(),
        all_present(scene, sel),
        mode_kind(mode) == kind,
    ensures
        restore_scene(scene, homes_spec(scene, sel, kind), mode, n) == scene,
    decreases n,
{
    if n > 0 {
        lemma_restore_captured(scene, sel, kind, mode, n - 1);
        let homes = homes_spec(scene, sel, kind);
        let id = sel[n - 1];
        assert(homes[n - 1] == (id, home_of(scene[id], kind)));
        assert(scene.contains_key(id));
        let t = scene[id];
        assert(restored_transform(t, home_of(t, kind), mode) == t);
        assert(scene.insert(id, t) =~= scene);
    }
}

/// Applying a session never registers or forgets an object: it only writes
/// over objects that are already there.
proof fn lemma_apply_preserves_keys(
    scene: Map<u64, Transform>,
    homes: Seq<(u64, TransformHome)>,
    mode: TransformMode,
    snapping: bool,
    n: int,
)
    ensures
        forall|k: u64|
            apply_scene(scene, homes, mode, snapping, n).contains_key(k) == scene.contains_key(k),
    decreases n,
{
    if n > 0 {
        lemma_apply_preserves_keys(scene, homes, mode, snapping, n - 1);
    }
}

/// Starting a session and immediately cancelling it is observably a no-op:
/// every involved object's captured component — its translation for a
/// translate session — is restored to its exact pre-session value, the whole
/// scene is unchanged, no session is left alive and the focus slot is free.
pub proof fn lemma_cancel_after_start_restores(v: EditorView, kind: TransformSelected)
    requires
        request_outcome_spec(v, kind) == RequestOutcome::Started,
    ensures
        cancel_spec(request_spec(v, kind)).scene == v.scene,
        cancel_spec(request_spec(v, kind)).selection == v.selection,
        cancel_spec(request_spec(v, kind)).camera == v.camera,
        cancel_spec(request_spec(v, kind)).session is Idle,
        cancel_spec(request_spec(v, kind)).focus == Focus::Idle,
{
    let started = request_spec(v, kind);
    let homes = homes_spec(v.scene, v.selection, kind);
    assert(homes.len() == v.selection.len());
    lemma_restore_captured(
        v.scene,
        v.selection,
        kind,
        init_mode_spec(kind, v.camera),
        v.selection.len() as int,
    );
}

/// Starting a session, accumulating a delta and committing leaves the
/// last-applied transforms in place, leaves no session alive, frees the
/// focus slot — and a subsequent manipulation request of the same objects is
/// accepted again.
pub proof fn lemma_commit_after_apply(
    v: EditorView,
    kind: TransformSelected,
    mx: int,
    my: int,
    snapping: bool,
)
    requires
        request_outcome_spec(v, kind) == RequestOutcome::Started,
    ensures
        ({
            let applied = apply_transform_spec(
                update_delta_spec(request_spec(v, kind), mx, my),
                snapping,
            );
            let committed = commit_spec(applied);
            &&& committed.scene == applied.scene
            &&& committed.session is Idle
            &&& committed.focus == Focus::Idle
            &&& request_outcome_spec(committed, kind) == RequestOutcome::Started
        }),
{
    let started = request_spec(v, kind);
    let moved = update_delta_spec(started, mx, my);
    let applied = apply_transform_spec(moved, snapping);
    let committed = commit_spec(applied);
    let homes = homes_spec(v.scene, v.selection, kind);
    lemma_apply_preserves_keys(
        v.scene,
        homes,
        accumulate_mode(init_mode_spec(kind, v.camera), mx, my),
        snapping,
        homes.len() as int,
    );
    assert(all_present(committed.scene, committed.selection));
}

/// A key that none of the first `n` session entries names is untouched by an
/// apply pass.
proof fn lemma_apply_scene_untouched(
    scene: Map<u64, Transform>,
    homes: Seq<(u64, TransformHome)>,
    mode: TransformMode,
    snapping: bool,
    n: int,
    k: u64,
)
    requires
        forall|j: int| 0 <= j < n ==> (#[trigger] homes[j]).0 != k,
    ensures
        apply_scene(scene, homes, mode, snapping, n).contains_key(k) == scene.contains_key(k),
        scene.contains_key(k) ==> apply_scene(scene, homes, mode, snapping, n)[k] == scene[k],
    decreases n,
{
    if n > 0 {
        lemma_apply_scene_untouched(scene, homes, mode, snapping, n - 1, k);
    }
}

/// The value an apply pass leaves at the `j`-th entry's object, when the
/// first `n` entries name distinct objects: the live value computed from the
/// untouched pre-pass value.
proof fn lemma_apply_scene_at(
    scene: Map<u64, Transform>,
    homes: Seq<(u64, TransformHome)>,
    mode: TransformMode,
    snapping: bool,
    n: int,
    j: int,
)
    requires
        0 <= j < n <= homes.len(),
        forall|p: int, q: int|
            0 <= p < q < n ==> (#[trigger] homes[p]).0 != (#[trigger] homes[q]).0,
        scene.contains_key(homes[j].0),
    ensures
        apply_scene(scene, homes, mode, snapping, n).contains_key(homes[j].0),
        apply_scene(scene, homes, mode, snapping, n)[homes[j].0] == applied_transform(
            scene[homes[j].0],
            homes[j].1,
            mode,
            snapping,
        ),
    decreases n,
{
    if j == n - 1 {
        lemma_apply_scene_untouched(scene, homes, mode, snapping, n - 1, homes[j].0);
    } else {
        lemma_apply_scene_at(scene, homes, mode, snapping, n - 1, j);
    }
}

/// A key that none of the first `n` session entries names is untouched by a
/// restore pass.
proof fn lemma_restore_scene_untouched(
    scene: Map<u64, Transform>,
    homes: Seq<(u64, TransformHome)>,
    mode: TransformMode,
    n: int,
    k: u64,
)
    requires
        forall|j: int| 0 <= j < n ==> (#[trigger] homes[j]).0 != k,
    ensures
        restore_scene(scene, homes, mode, n).contains_key(k) == scene.contains_key(k),
        scene.contains_key(k) ==> restore_scene(scene, homes, mode, n)[k] == scene[k],
    decreases n,
{
    if n > 0 {
        lemma_restore_scene_untouched(scene, homes, mode, n - 1, k);
    }
}

/// The value a restore pass leaves at the `j`-th entry's object, when the
/// first `n` entries name distinct objects.
proof fn lemma_restore_scene_at(
    scene: Map<u64, Transform>,
    homes: Seq<(u64, TransformHome)>,
    mode: TransformMode,
    n: int,
    j: int,
)
    requires
        0 <= j < n <= homes.len(),
        forall|p: int, q: int|
            0 <= p < q < n ==> (#[trigger] homes[p]).0 != (#[trigger] homes[q]).0,
        scene.contains_key(homes[j].0),
    ensures
        restore_scene(scene, homes, mode, n).contains_key(homes[j].0),
        restore_scene(scene, homes, mode, n)[homes[j].0] == restored_transform(
            scene[homes[j].0],
            homes[j].1,
            mode,
        ),
    decreases n,
{
    if j == n - 1 {
        lemma_restore_scene_untouched(scene, homes, mode, n - 1, homes[j].0);
    } else {
        lemma_restore_scene_at(scene, homes, mode, n - 1, j);
    }
}

/// Restoring over an applied value recovers the original exactly: the apply
/// wrote only the mode's component, and the restore writes that component's
/// captured home value back.
proof fn lemma_applied_then_restored(
    t: Transform,
    home: TransformHome,
    mode: TransformMode,
    snapping: bool,
)
    requires
        home == home_of(t, mode_kind(mode)),
    ensures
        restored_transform(applied_transform(t, home, mode, snapping), home, mode) == t,
{
}

/// Starting a session, dragging, applying and then cancelling is observably
/// a no-op: every involved object is restored to its exact pre-session
/// transform, bit for bit, whatever delta was accumulated and whether or not
/// snapping was held at the apply; no session is left and the focus slot is
/// free.
pub proof fn lemma_cancel_after_drag_restores(
    v: EditorView,
    kind: TransformSelected,
    mx: int,
    my: int,
    snapping: bool,
)
    requires
        request_outcome_spec(v, kind) == RequestOutcome::Started,
        v.selection.no_duplicates(),
    ensures
        ({
            let dragged = update_delta_spec(request_spec(v, kind), mx, my);
            let cancelled = cancel_spec(apply_transform_spec(dragged, snapping));
            &&& cancelled.scene == v.scene
            &&& cancelled.session is Idle
            &&& cancelled.focus == Focus::Idle
        }),
{
    let homes = homes_spec(v.scene, v.selection, kind);
    let mode = accumulate_mode(init_mode_spec(kind, v.camera), mx, my);
    let n = homes.len() as int;
    assert(mode_kind(mode) == kind);
    assert forall|p: int, q: int| 0 <= p < q < n implies (#[trigger] homes[p]).0 != (
    #[trigger] homes[q]).0 by {
        assert(homes[p].0 == v.selection[p]);
        assert(homes[q].0 == v.selection[q]);
    }
    let applied = apply_scene(v.scene, homes, mode, snapping, n);
    let restored = restore_scene(applied, homes, mode, n);
    assert forall|k: u64| #[trigger]
        restored.contains_key(k) == v.scene.contains_key(k) && (v.scene.contains_key(k)
            ==> restored[k] == v.scene[k]) by {
        if exists|j: int| 0 <= j < n && (#[trigger] homes[j]).0 == k {
            let j = choose|j: int| 0 <= j < n && (#[trigger] homes[j]).0 == k;
            assert(v.scene.contains_key(k));
            lemma_apply_scene_at(v.scene, homes, mode, snapping, n, j);
            lemma_restore_scene_at(applied, homes, mode, n, j);
            assert(homes[j].1 == home_of(v.scene[k], kind));
            lemma_applied_then_restored(v.scene[k], homes[j].1, mode, snapping);
        } else {
            assert(forall|j: int| 0 <= j < n ==> (#[trigger] homes[j]).0 != k);
            lemma_apply_scene_untouched(v.scene, homes, mode, snapping, n, k);
            lemma_restore_scene_untouched(applied, homes, mode, n, k);
        }
    }
    assert(restored =~= v.scene);
}

/// Applying twice writes the same value as applying once: the live value is
/// recomputed from the home value and the delta, never from the previous
/// live value.
proof fn lemma_applied_idempotent(
    t: Transform,
    home: TransformHome,
    mode: TransformMode,
    snapping: bool,
)
    ensures
        applied_transform(applied_transform(t, home, mode, snapping), home, mode, snapping)
            == applied_transform(t, home, mode, snapping),
{
}

/// Repeated apply frames are idempotent given the same accumulated delta:
/// the live values are recomputed from the captured home values, so a second
/// apply pass with an unchanged session leaves the scene exactly as the
/// first pass did.
pub proof fn lemma_apply_idempotent(
    v: EditorView,
    kind: TransformSelected,
    mx: int,
    my: int,
    snapping: bool,
)
    requires
        request_outcome_spec(v, kind) == RequestOutcome::Started,
        v.selection.no_duplicates(),
    ensures
        ({
            let dragged = update_delta_spec(request_spec(v, kind), mx, my);
            let once = apply_transform_spec(dragged, snapping);
            apply_transform_spec(once, snapping) == once
        }),
{
    let homes = homes_spec(v.scene, v.selection, kind);
    let mode = accumulate_mode(init_mode_spec(kind, v.camera), mx, my);
    let n = homes.len() as int;
    assert forall|p: int, q: int| 0 <= p < q < n implies (#[trigger] homes[p]).0 != (
    #[trigger] homes[q]).0 by {
        assert(homes[p].0 == v.selection[p]);
        assert(homes[q].0 == v.selection[q]);
    }
    let once = apply_scene(v.scene, homes, mode, snapping, n);
    let twice = apply_scene(once, homes, mode, snapping, n);
    assert forall|k: u64| #[trigger]
        twice.contains_key(k) == once.contains_key(k) && (once.contains_key(k) ==> twice[k]
            == once[k]) by {
        if exists|j: int| 0 <= j < n && (#[trigger] homes[j]).0 == k {
            let j = choose|j: int| 0 <= j < n && (#[trigger] homes[j]).0 == k;
            assert(v.scene.contains_key(k));
            lemma_apply_scene_at(v.scene, homes, mode, snapping, n, j);
            lemma_apply_scene_at(once, homes, mode, snapping, n, j);
            lemma_applied_idempotent(v.scene[k], homes[j].1, mode, snapping);
        } else {
            assert(forall|j: int| 0 <= j < n ==> (#[trigger] homes[j]).0 != k);
            lemma_apply_scene_untouched(v.scene, homes, mode, snapping, n, k);
            lemma_apply_scene_untouched(once, homes, mode, snapping, n, k);
        }
    }
    assert(twice =~= once);
}

/// Snapping is stateless with respect to the accumulated delta: while the
/// modifier is held the effective delta is the accumulated delta truncated
/// toward zero to the nearest whole unit, and the moment it is released the
/// exact accumulated delta is effective again — applying a session never
/// changes the session itself.
pub proof fn lemma_snapping_stateless(v: EditorView, d: int, snapping: bool)
    ensures
        effective_delta_spec(d, false) == d,
        d >= 0 ==> effective_delta_spec(d, true) <= d < effective_delta_spec(d, true) + 1000
            && effective_delta_spec(d, true) >= 0,
        d < 0 ==> effective_delta_spec(d, true) - 1000 < d <= 0 && effective_delta_spec(d, true)
            <= 0 && d <= effective_delta_spec(d, true),
        apply_transform_spec(v, snapping).session == v.session,
        apply_transform_spec(v, snapping).selection == v.selection,
        apply_transform_spec(v, snapping).focus == v.focus,
{
    if d >= 0 {
        vstd::arithmetic::div_mod::lemma_fundamental_div_mod(d, 1000);
        vstd::arithmetic::div_mod::lemma_remainder_upper(d, 1000);
        vstd::arithmetic::div_mod::lemma_remainder_lower(d, 1000);
        vstd::arithmetic::div_mod::lemma_div_pos_is_pos(d, 1000);
    } else {
        vstd::arithmetic::div_mod::lemma_fundamental_div_mod(-d, 1000);
        vstd::arithmetic::div_mod::lemma_remainder_upper(-d, 1000);
        vstd::arithmetic::div_mod::lemma_remainder_lower(-d, 1000);
        vstd::arithmetic::div_mod::lemma_div_pos_is_pos(-d, 1000);
    }
}

/// One frame's damped, scaled rotation contribution; exec counterpart of
/// [`rot_contribution`].
fn rot_step(m: i64) -> (r: i64)
    ensures
        r == rot_contribution(m as int),
        -COORD_LIMIT <= r <= COORD_LIMIT,
{
    let damped: i64 = add_clamp(m, 0, ROT_DAMP_LIMIT);
    proof {
        assert((damped as int) * 1 == damped as int) by (nonlinear_arith);
        lemma_div_trunc_bounds(damped as int, 100);
    }
    crate::fixed::mul_div_clamp(damped, 1, 100, COORD_LIMIT)
}

} // verus!
