//! What the window reports: its size, and the events of the user and of the
//! host itself.

use crate::color::ColorU;
use crate::geometry::Point2DI;
use vstd::prelude::*;

verus! {

/// The size of the window.
#[derive(Clone, Copy, Debug, PartialEq, Eq, Structural)]
pub struct WindowSize {
    /// The size in the units of the window system.
    pub logical_size: Point2DI,
    /// The size in pixels of the framebuffer.
    pub device_size: Point2DI,
}

/// A key of the keyboard.
#[derive(Clone, Copy, Debug, PartialEq, Eq, Structural)]
pub enum Keycode {
    /// A letter or a digit, as its ASCII code in lower case.
    Alphanumeric(u8),
    Escape,
    Tab,
}

/// The bits of `SceneSummary::result_flags` that stand for a feature.
pub const KNOWN_RESULT_FLAGS: u16 = 0x7fff;

/// What a scene that was read holds, as far as the viewer decides by it.
#[derive(Clone, Copy, Debug, PartialEq, Eq, Structural)]
pub struct SceneSummary {
    /// One bit for each feature that the scene uses and the viewer cannot
    /// draw, as the builder of the scene reports them. Only the bits of
    /// `KNOWN_RESULT_FLAGS` stand for a feature.
    pub result_flags: u16,
    /// The one colour of the scene, where everything in it has the same.
    pub monochrome_color: Option<ColorU>,
}

/// How the attempt to read a scene ended.
#[derive(Debug)]
pub enum SceneLoad {
    Loaded(SceneSummary),
    /// The scene could not be read; the text says why.
    Failed(String),
}

/// An event of one batch. Values that only the host computes with, such as
/// the distance of a pinch, stay with the host: an effect names the event that
/// it came from. The position of the pointer comes in pixels of the
/// framebuffer: the host has scaled what the window reports by the factor
/// between the units of the window and pixels.
#[derive(Debug)]
pub enum Event {
    Quit,
    WindowResized(WindowSize),
    KeyDown(Keycode),
    KeyUp(Keycode),
    MouseDown(Point2DI),
    MouseMoved(Point2DI),
    MouseDragged(Point2DI),
    /// A pinch or a scroll about the given position, which is in units of
    /// the window.
    Zoom(Point2DI),
    /// A turn of the head.
    Look,
    /// New eyes from the headset, as many as the number says.
    SetEyeTransforms(usize),
    /// The user asked for another scene, and the host has tried to read it.
    OpenSVG(SceneLoad),
    /// An event that the host posted to itself.
    User { message_type: u32, message_data: u32 },
}

} // verus!
