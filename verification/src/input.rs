//! The per-frame input snapshot the host samples and hands to the core.
//!
//! Pointer motion and frame time are fixed-point thousandths (of a pixel and
//! of a second); everything else is the discrete state of the buttons and
//! keys the core reacts to. "Just pressed" fields are edges, "held" fields
//! are levels.

use vstd::prelude::*;

verus! {

/// Everything the core reads from the host's input devices in one frame.
#[derive(Clone, Copy, PartialEq, Eq, Structural, Debug)]
pub struct FrameInput {
    /// Pointer motion this frame, thousandths of a pixel.
    pub motion_x: i64,
    /// Pointer motion this frame, thousandths of a pixel.
    pub motion_y: i64,
    /// Whether the pointer is over a UI surface.
    pub over_ui: bool,
    /// Primary pointer button edge; confirms a manipulation.
    pub primary_just_pressed: bool,
    /// Secondary pointer button edge; starts camera look, cancels a
    /// manipulation.
    pub secondary_just_pressed: bool,
    /// Secondary pointer button release edge; ends camera look.
    pub secondary_just_released: bool,
    /// The additive / invert modifier level (the shift-key equivalent).
    pub additive_held: bool,
    /// The snap modifier level.
    pub snap_held: bool,
    /// Manipulation-kind key edge.
    pub translate_key: bool,
    /// Manipulation-kind key edge.
    pub rotate_key: bool,
    /// Manipulation-kind key edge.
    pub scale_key: bool,
    /// Axis-select key edge.
    pub axis_x_key: bool,
    /// Axis-select key edge.
    pub axis_y_key: bool,
    /// Axis-select key edge.
    pub axis_z_key: bool,
    /// Cancel key edge; cancels a manipulation, closes the search overlay.
    pub cancel_key: bool,
    /// Delete key edge.
    pub delete_key: bool,
    /// Search overlay key edge.
    pub quick_key: bool,
    /// Camera movement key levels, one pair per camera-local axis.
    pub forward_held: bool,
    /// Camera movement key levels, one pair per camera-local axis.
    pub back_held: bool,
    /// Camera movement key levels, one pair per camera-local axis.
    pub right_held: bool,
    /// Camera movement key levels, one pair per camera-local axis.
    pub left_held: bool,
    /// Camera movement key levels, one pair per camera-local axis.
    pub up_held: bool,
    /// Camera movement key levels, one pair per camera-local axis.
    pub down_held: bool,
    /// Elapsed time this frame, thousandths of a second.
    pub dt: i64,
}

impl FrameInput {
    /// A snapshot with nothing pressed, no motion and no elapsed time.
    pub fn idle() -> (r: FrameInput)
        ensures
            r == FrameInput::idle_spec(),
    {
        FrameInput {
            motion_x: 0,
            motion_y: 0,
            over_ui: false,
            primary_just_pressed: false,
            secondary_just_pressed: false,
            secondary_just_released: false,
            additive_held: false,
            snap_held: false,
            translate_key: false,
            rotate_key: false,
            scale_key: false,
            axis_x_key: false,
            axis_y_key: false,
            axis_z_key: false,
            cancel_key: false,
            delete_key: false,
            quick_key: false,
            forward_held: false,
            back_held: false,
            right_held: false,
            left_held: false,
            up_held: false,
            down_held: false,
            dt: 0,
        }
    }

    /// Spec value of [`FrameInput::idle`].
    pub open spec fn idle_spec() -> FrameInput {
        FrameInput {
            motion_x: 0,
            motion_y: 0,
            over_ui: false,
            primary_just_pressed: false,
            secondary_just_pressed: false,
            secondary_just_released: false,
            additive_held: false,
            snap_held: false,
            translate_key: false,
            rotate_key: false,
            scale_key: false,
            axis_x_key: false,
            axis_y_key: false,
            axis_z_key: false,
            cancel_key: false,
            delete_key: false,
            quick_key: false,
            forward_held: false,
            back_held: false,
            right_held: false,
            left_held: false,
            up_held: false,
            down_held: false,
            dt: 0,
        }
    }
}

} // verus!
