//! What the viewer asks of the host when its state has changed.
//!
//! The host keeps the transforms of the camera, the scene and the devices.
//! An effect tells it which of them to change and how; the effects of one
//! step are carried out in the order in which they are listed.

use crate::camera::{Mode, View as Viewport};
use crate::geometry::Point2DI;
use vstd::prelude::*;

verus! {

#[derive(Clone, Copy, Debug, PartialEq, Eq, Structural)]
pub enum Effect {
    /// The window has the new size of event number `event`: fit the view box
    /// of the scene to the viewport of `view`, and tell the renderer the size
    /// of the framebuffer.
    Resized { event: usize, view: Viewport, framebuffer_size: Point2DI },
    /// Turn the camera in space by the movement of the pointer, a fixed angle
    /// for each pixel.
    Mouselook { movement: Point2DI },
    /// Scale the page about `position`, which is in units of the window:
    /// move `position` to the origin, scale, and move it back. The distance
    /// of the gesture is that of event number `event`.
    PanZoom { event: usize, position: Point2DI },
    /// Turn the camera in space by the angles of event number `event`.
    Look { event: usize },
    /// Replace the eyes of the camera by those of event number `event`.
    SetEyeTransforms { event: usize },
    /// Show the scene that was read for event number `event`: fit its view
    /// box to the viewport, and make a camera for `mode` from the view box
    /// that the scene came with.
    ReplaceScene { event: usize, mode: Mode },
    /// Scale the page about the centre of the window by the fixed step of
    /// the zoom buttons, up or down.
    ZoomButton { zoom_in: bool },
    /// Turn the page about the centre of the window to the angle that the
    /// controls show, whatever the angle before.
    RotateTo,
    /// Make a camera for `mode` from the view box of the scene and the
    /// viewport. Nothing of the camera before is kept.
    RebuildCamera { mode: Mode },
    /// Move the page by `offset` pixels.
    Translate { offset: Point2DI },
}

} // verus!
