//! The fly camera: a look/fly navigation mode and one of the focus arbiter's
//! consumers.
//!
//! The camera enters its `Looking` state when the secondary pointer button is
//! pressed while the pointer is not over a UI surface and the focus slot is
//! free or already the camera's; a press that starts over UI never starts a
//! look. While looking it claims the `Camera` focus, asks the host to lock
//! and hide the pointer, turns pointer motion into yaw and pitch (pitch
//! clamped to a quarter turn either way so the view cannot flip), and turns
//! the held movement keys into a camera-local movement vector scaled by
//! elapsed time and configured speed. The host applies that vector along the
//! camera's current basis, so movement is always relative to facing. When the
//! look ends the camera releases the pointer and only its own focus claim.
//!
//! Yaw, pitch and the basis vectors are fixed-point thousandths of a radian
//! and of a unit; turning yaw and pitch into basis vectors takes
//! trigonometry, so the host computes the basis and hands it back through
//! [`crate::editor::Editor::set_camera_basis`].

use vstd::prelude::*;
use crate::fixed::{
    add_clamp,
    clamp_coord_spec,
    clamp_spec,
    div_trunc,
    mul_div_clamp,
    COORD_LIMIT,
    FIXED_UNIT,
    V3,
};
use crate::focus::{release_spec, Focus, FocusSlot};
use crate::input::FrameInput;

verus! {

/// Pitch bound, thousandths of a radian: a quarter turn, truncated.
pub const PITCH_LIMIT: i64 = 1570;

/// Fly-camera configuration: units per second and thousandths of a radian
/// per pixel of pointer motion, both fixed-point thousandths.
#[derive(Clone, Copy, PartialEq, Eq, Structural, Debug)]
pub struct Flycam {
    /// Movement speed, thousandths of a unit per second.
    pub speed: i64,
    /// Look sensitivity, millionths of a radian per thousandth of a pixel.
    pub sensitivity: i64,
}

impl Default for Flycam {
    /// Four units per second, five thousandths of a radian per pixel.
    fn default() -> (r: Flycam)
        ensures
            r.speed == 4000,
            r.sensitivity == 5,
    {
        Flycam { speed: 4000, sensitivity: 5 }
    }
}

/// The camera's state: its configuration, whether it is looking, its
/// orientation angles, and the host-computed local basis in world space.
#[derive(Clone, Copy, PartialEq, Eq, Structural, Debug)]
pub struct CameraState {
    /// Configuration.
    pub flycam: Flycam,
    /// Whether the camera is in its `Looking` state (pointer locked).
    pub looking: bool,
    /// Heading, thousandths of a radian.
    pub yaw: i64,
    /// Elevation, thousandths of a radian, within `[-PITCH_LIMIT, PITCH_LIMIT]`.
    pub pitch: i64,
    /// The camera's local right direction in world space, host-computed.
    pub right: V3,
    /// The camera's local up direction in world space, host-computed.
    pub up: V3,
    /// The camera's local forward direction in world space, host-computed.
    pub forward: V3,
}

impl CameraState {
    /// A camera at rest: default configuration, not looking, level heading,
    /// axis-aligned basis looking down the negative z direction.
    pub fn new() -> (r: CameraState)
        ensures
            r == CameraState::new_spec(),
    {
        CameraState {
            flycam: Flycam::default(),
            looking: false,
            yaw: 0,
            pitch: 0,
            right: V3::unit_x(),
            up: V3::unit_y(),
            forward: V3 { x: 0, y: 0, z: -1000 },
        }
    }

    /// Spec value of [`CameraState::new`].
    pub open spec fn new_spec() -> CameraState {
        CameraState {
            flycam: Flycam { speed: 4000, sensitivity: 5 },
            looking: false,
            yaw: 0,
            pitch: 0,
            right: V3 { x: FIXED_UNIT as i64, y: 0, z: 0 },
            up: V3 { x: 0, y: FIXED_UNIT as i64, z: 0 },
            forward: V3 { x: 0, y: 0, z: -1000i64 },
        }
    }
}

/// The camera's movement request along one of its local axes, thousandths of
/// a unit, for the host to apply along the current basis.
#[derive(Clone, Copy, PartialEq, Eq, Structural, Debug)]
pub struct CameraMove {
    /// Along the camera's local right direction.
    pub right: i64,
    /// Along the camera's local up direction.
    pub up: i64,
    /// Along the camera's local forward direction.
    pub forward: i64,
}

/// Whether the camera is (or stays) looking this frame: the slot must be
/// free or its own; a look starts on a secondary-button press away from UI
/// and ends when the button is released.
pub open spec fn camera_active(cam: CameraState, holder: Focus, input: FrameInput) -> bool {
    &&& holder == Focus::Idle || holder == Focus::Camera
    &&& if cam.looking {
        !input.secondary_just_released
    } else {
        input.secondary_just_pressed && !input.over_ui
    }
}

/// One sensitivity-scaled look step: `m * sensitivity / FIXED_UNIT`,
/// truncated toward zero and clamped into the coordinate range.
pub open spec fn look_step(m: int, sensitivity: int) -> int {
    clamp_coord_spec(div_trunc(m * sensitivity, FIXED_UNIT as int))
}

/// One speed-and-time-scaled movement step: `dt * speed / FIXED_UNIT`,
/// truncated toward zero and clamped into the coordinate range.
pub open spec fn move_step(dt: int, speed: int) -> int {
    clamp_coord_spec(div_trunc(dt * speed, FIXED_UNIT as int))
}

/// The sign of an opposed key pair.
pub open spec fn key_dir(positive: bool, negative: bool) -> int {
    (if positive {
        1int
    } else {
        0int
    }) - (if negative {
        1int
    } else {
        0int
    })
}

/// The camera state after one frame: while active it keeps looking and
/// integrates pointer motion into yaw (negated horizontal motion) and pitch
/// (negated vertical motion, clamped to the pitch bound); otherwise it stops
/// looking and changes nothing else.
pub open spec fn camera_step_cam(cam: CameraState, holder: Focus, input: FrameInput) -> CameraState {
    if camera_active(cam, holder, input) {
        CameraState {
            looking: true,
            yaw: clamp_coord_spec(cam.yaw - look_step(input.motion_x as int, cam.flycam.sensitivity as int)) as i64,
            pitch: clamp_spec(
                cam.pitch - look_step(input.motion_y as int, cam.flycam.sensitivity as int),
                PITCH_LIMIT as int,
            ) as i64,
            ..cam
        }
    } else {
        CameraState { looking: false, ..cam }
    }
}

/// The focus slot after the camera's frame: claimed while active, the
/// camera's own claim released otherwise.
pub open spec fn camera_step_focus(cam: CameraState, holder: Focus, input: FrameInput) -> Focus {
    if camera_active(cam, holder, input) {
        Focus::Camera
    } else {
        release_spec(holder, Focus::Camera)
    }
}

/// The movement request the camera raises this frame: while active, one
/// speed-and-time step per opposed key pair along each local axis; zero
/// otherwise.
pub open spec fn camera_move_of(cam: CameraState, holder: Focus, input: FrameInput) -> CameraMove {
    if camera_active(cam, holder, input) {
        let step = move_step(input.dt as int, cam.flycam.speed as int);
        CameraMove {
            right: (key_dir(input.right_held, input.left_held) * step) as i64,
            up: (key_dir(input.up_held, input.down_held) * step) as i64,
            forward: (key_dir(input.forward_held, input.back_held) * step) as i64,
        }
    } else {
        CameraMove { right: 0, up: 0, forward: 0 }
    }
}

/// Advance the camera by one frame of input. Returns the camera-local
/// movement request; the pointer should be locked exactly while
/// `cam.looking` holds afterwards.
pub fn camera_update(cam: &mut CameraState, focus: &mut FocusSlot, input: &FrameInput) -> (mv:
    CameraMove)
    ensures
        *final(cam) == camera_step_cam(*old(cam), old(focus).current, *input),
        final(focus).current == camera_step_focus(*old(cam), old(focus).current, *input),
        mv == camera_move_of(*old(cam), old(focus).current, *input),
{
    let holder_ok: bool = focus.current == Focus::Idle || focus.current == Focus::Camera;
    let active: bool = holder_ok && if cam.looking {
        !input.secondary_just_released
    } else {
        input.secondary_just_pressed && !input.over_ui
    };

    if !active {
        cam.looking = false;
        focus.release(Focus::Camera);
        return CameraMove { right: 0, up: 0, forward: 0 };
    }

    cam.looking = true;
    let _granted: bool = focus.try_claim(Focus::Camera);

    // Look: integrate sensitivity-scaled pointer motion.
    let step_x: i64 = mul_div_clamp(input.motion_x, cam.flycam.sensitivity, FIXED_UNIT as u64, COORD_LIMIT);
    let step_y: i64 = mul_div_clamp(input.motion_y, cam.flycam.sensitivity, FIXED_UNIT as u64, COORD_LIMIT);
    cam.yaw = add_clamp(cam.yaw, -step_x, COORD_LIMIT);
    cam.pitch = add_clamp(cam.pitch, -step_y, PITCH_LIMIT);

    // Fly: one step per opposed key pair, scaled by time and speed.
    let step: i64 = mul_div_clamp(input.dt, cam.flycam.speed, FIXED_UNIT as u64, COORD_LIMIT);
    CameraMove {
        right: signed_step(input.right_held, input.left_held, step),
        up: signed_step(input.up_held, input.down_held, step),
        forward: signed_step(input.forward_held, input.back_held, step),
    }
}

/// `key_dir(positive, negative) * step` for an already-clamped step.
fn signed_step(positive: bool, negative: bool, step: i64) -> (r: i64)
    requires
        -COORD_LIMIT <= step <= COORD_LIMIT,
    ensures
        r == key_dir(positive, negative) * step,
{
    if positive && !negative {
        proof {
            assert(key_dir(positive, negative) == 1);
            assert(1int * (step as int) == step) by (nonlinear_arith);
        }
        step
    } else if negative && !positive {
        proof {
            assert(key_dir(positive, negative) == -1);
            assert((-1int) * (step as int) == -(step as int)) by (nonlinear_arith);
        }
        -step
    } else {
        proof {
            assert(key_dir(positive, negative) == 0);
            assert(0int * (step as int) == 0) by (nonlinear_arith);
        }
        0
    }
}

} // verus!
