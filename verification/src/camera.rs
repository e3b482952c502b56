//! The camera as far as decisions depend on it: which kind it is, how many
//! eyes it renders for, and in which directions it is moving.
//!
//! The transforms themselves are kept by the host, which rebuilds and updates
//! them as the effects of this crate say.

use vstd::prelude::*;

verus! {

/// What the viewer shows: a flat page, a scene in space, or that scene in
/// stereo.
#[derive(Clone, Copy, Debug, PartialEq, Eq, Structural)]
pub enum Mode {
    TwoD,
    ThreeD,
    VR,
}

/// A region of the window that a scene is drawn into.
#[derive(Clone, Copy, Debug, PartialEq, Eq, Structural)]
pub enum View {
    /// The whole window.
    Mono,
    /// The part of the window that belongs to one eye.
    Stereo(u32),
}

impl Mode {
    /// The number of viewports that a camera made for this mode starts with.
    pub open spec fn eyes(self) -> usize {
        match self {
            Mode::TwoD | Mode::ThreeD => 1,
            Mode::VR => 2,
        }
    }

    /// The view that viewport number `viewport` is drawn into.
    pub open spec fn view_of(self, viewport: u32) -> View {
        match self {
            Mode::TwoD | Mode::ThreeD => View::Mono,
            Mode::VR => View::Stereo(viewport),
        }
    }

    pub fn viewport_count(self) -> (count: usize)
        ensures
            count == self.eyes(),
    {
        match self {
            Mode::TwoD | Mode::ThreeD => 1,
            Mode::VR => 2,
        }
    }

    pub fn view(self, viewport: u32) -> (view: View)
        ensures
            view == self.view_of(viewport),
    {
        match self {
            Mode::TwoD | Mode::ThreeD => View::Mono,
            Mode::VR => View::Stereo(viewport),
        }
    }
}

/// The direction of travel along one axis.
#[derive(Clone, Copy, Debug, PartialEq, Eq, Structural)]
pub enum Sign {
    Negative,
    Zero,
    Positive,
}

/// The axes along which keys move the camera.
#[derive(Clone, Copy, Debug, PartialEq, Eq, Structural)]
pub enum Axis {
    /// Sideways.
    X,
    /// Along the line of sight.
    Z,
}

/// The direction in which the camera travels. The host turns each sign into a
/// speed that fits the extent of the scene.
#[derive(Clone, Copy, Debug, PartialEq, Eq, Structural)]
pub struct Velocity {
    pub x: Sign,
    pub z: Sign,
}

impl Velocity {
    pub open spec fn zero() -> Velocity {
        Velocity { x: Sign::Zero, z: Sign::Zero }
    }

    pub open spec fn is_zero(self) -> bool {
        self.x == Sign::Zero && self.z == Sign::Zero
    }

    /// `self` with the component along `axis` replaced by `sign`.
    pub open spec fn with_axis(self, axis: Axis, sign: Sign) -> Velocity {
        match axis {
            Axis::X => Velocity { x: sign, z: self.z },
            Axis::Z => Velocity { x: self.x, z: sign },
        }
    }

    /// The component along `axis`.
    pub open spec fn along(self, axis: Axis) -> Sign {
        match axis {
            Axis::X => self.x,
            Axis::Z => self.z,
        }
    }
}

/// The camera: flat, or in space with one viewport or more.
#[derive(Clone, Copy, Debug, PartialEq, Eq, Structural)]
pub enum Camera {
    TwoD,
    ThreeD { velocity: Velocity, eye_count: usize },
}

impl Camera {
    /// A camera in space always has at least one eye.
    pub open spec fn wf(self) -> bool {
        match self {
            Camera::TwoD => true,
            Camera::ThreeD { eye_count, .. } => eye_count >= 1,
        }
    }

    /// The camera that a switch to `mode` starts from: at rest, with the
    /// number of eyes that the mode calls for.
    pub open spec fn fresh(mode: Mode) -> Camera {
        match mode {
            Mode::TwoD => Camera::TwoD,
            _ => Camera::ThreeD { velocity: Velocity::zero(), eye_count: mode.eyes() },
        }
    }

    pub open spec fn in_space(self) -> bool {
        self is ThreeD
    }

    /// The mode that the camera is in. Stereo is nothing but a camera in
    /// space with more than one eye.
    pub open spec fn current_mode(self) -> Mode {
        match self {
            Camera::TwoD => Mode::TwoD,
            Camera::ThreeD { eye_count, .. } => if eye_count > 1 {
                Mode::VR
            } else {
                Mode::ThreeD
            },
        }
    }

    /// The direction of travel; a flat camera does not travel.
    pub open spec fn velocity_of(self) -> Velocity {
        match self {
            Camera::TwoD => Velocity::zero(),
            Camera::ThreeD { velocity, .. } => velocity,
        }
    }

    /// The camera after the velocity along `axis` was set to `sign`. A flat
    /// camera stays as it is.
    pub open spec fn with_velocity_axis(self, axis: Axis, sign: Sign) -> Camera {
        match self {
            Camera::TwoD => Camera::TwoD,
            Camera::ThreeD { velocity, eye_count } => Camera::ThreeD {
                velocity: velocity.with_axis(axis, sign),
                eye_count,
            },
        }
    }

    /// The camera after its eyes were replaced by `count` new ones. A flat
    /// camera stays as it is, and so does any camera when `count` is zero.
    pub open spec fn with_eye_count(self, count: usize) -> Camera {
        match self {
            Camera::ThreeD { velocity, .. } if count >= 1 => Camera::ThreeD {
                velocity,
                eye_count: count,
            },
            _ => self,
        }
    }

    pub fn new(mode: Mode) -> (camera: Camera)
        ensures
            camera == Camera::fresh(mode),
            camera.wf(),
            camera.current_mode() == mode,
    {
        match mode {
            Mode::TwoD => Camera::TwoD,
            _ => Camera::ThreeD {
                velocity: Velocity { x: Sign::Zero, z: Sign::Zero },
                eye_count: mode.viewport_count(),
            },
        }
    }

    pub fn is_3d(&self) -> (in_space: bool)
        ensures
            in_space == self.in_space(),
    {
        match self {
            Camera::ThreeD { .. } => true,
            Camera::TwoD => false,
        }
    }

    pub fn mode(&self) -> (mode: Mode)
        ensures
            mode == self.current_mode(),
    {
        match self {
            Camera::ThreeD { eye_count, .. } => {
                if *eye_count > 1 {
                    Mode::VR
                } else {
                    Mode::ThreeD
                }
            },
            Camera::TwoD => Mode::TwoD,
        }
    }

    pub fn velocity(&self) -> (velocity: Velocity)
        ensures
            velocity == self.velocity_of(),
    {
        match self {
            Camera::ThreeD { velocity, .. } => *velocity,
            Camera::TwoD => Velocity { x: Sign::Zero, z: Sign::Zero },
        }
    }

    /// Sets the velocity along one axis, whatever it was. Says whether the
    /// camera is in space, so that the change took effect.
    pub fn set_velocity_axis(&mut self, axis: Axis, sign: Sign) -> (applied: bool)
        ensures
            *final(self) == old(self).with_velocity_axis(axis, sign),
            applied == old(self).in_space(),
            old(self).wf() ==> final(self).wf(),
    {
        match *self {
            Camera::ThreeD { velocity, eye_count } => {
                let velocity = match axis {
                    Axis::X => Velocity { x: sign, z: velocity.z },
                    Axis::Z => Velocity { x: velocity.x, z: sign },
                };
                *self = Camera::ThreeD { velocity, eye_count };
                true
            },
            Camera::TwoD => false,
        }
    }

    /// Brings the camera to rest along one axis. Keys are not counted: the
    /// release of either of two opposing keys stops the travel.
    pub fn clear_velocity_axis(&mut self, axis: Axis) -> (applied: bool)
        ensures
            *final(self) == old(self).with_velocity_axis(axis, Sign::Zero),
            applied == old(self).in_space(),
            old(self).wf() ==> final(self).wf(),
    {
        self.set_velocity_axis(axis, Sign::Zero)
    }

    /// Whether a step along the velocity moves the camera. The host advances
    /// the position; this says whether there is anything to advance by.
    pub fn integrate_velocity(&self) -> (moved: bool)
        ensures
            moved == !self.velocity_of().is_zero(),
    {
        match self {
            Camera::ThreeD { velocity, .. } => {
                !(matches!(velocity.x, Sign::Zero) && matches!(velocity.z, Sign::Zero))
            },
            Camera::TwoD => false,
        }
    }

    /// Replaces the eyes by `count` new ones. Says whether that took effect:
    /// on a camera in space, and with at least one eye.
    pub fn set_eye_count(&mut self, count: usize) -> (applied: bool)
        ensures
            *final(self) == old(self).with_eye_count(count),
            applied == (old(self).in_space() && count >= 1),
            old(self).wf() ==> final(self).wf(),
    {
        match *self {
            Camera::ThreeD { velocity, .. } => {
                if count >= 1 {
                    *self = Camera::ThreeD { velocity, eye_count: count };
                    true
                } else {
                    false
                }
            },
            Camera::TwoD => false,
        }
    }
}

/// Setting the velocity along an axis twice is the same as setting it to
/// the later value once, and leaves the other axis alone.
pub proof fn lemma_velocity_axis_is_overwritten(
    camera: Camera,
    axis: Axis,
    other: Axis,
    first: Sign,
    second: Sign,
)
    requires
        axis != other,
    ensures
        camera.with_velocity_axis(axis, first).with_velocity_axis(axis, second)
            == camera.with_velocity_axis(axis, second),
        camera.in_space() ==> camera.with_velocity_axis(axis, second).velocity_of().along(axis)
            == second,
        camera.with_velocity_axis(axis, second).velocity_of().along(other)
            == camera.velocity_of().along(other),
{
}

} // verus!
