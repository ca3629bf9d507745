//! Interaction core of a 3D scene editor.
//!
//! The crate models, over plain fixed-point values, the logic that decides
//! which input consumer owns the pointer and keyboard each frame, which scene
//! objects are selected, and how an in-progress transform manipulation
//! (translate / rotate / scale) accumulates input, snaps, applies, commits and
//! cancels. Rendering, asset I/O and widget drawing belong to the host
//! application, which feeds this core plain input snapshots and reads plain
//! state back.

pub mod camera;
pub mod editor;
pub mod fixed;
pub mod focus;
pub mod input;
pub mod quick;
pub mod selection;
pub mod transform;
