//! The steps of a frame.
//!
//! A frame goes through its steps in a fixed order: it is prepared, the
//! scene is built, drawn, shown to each further eye where there is more than
//! one, and the frame is closed and presented. Each step takes what the host
//! found out since the step before, changes the state, and answers with a plan
//! of what the host has to carry out before it takes the next step.

use crate::camera::{Camera, Mode, Velocity, View as Viewport};
use crate::color::{ground_line_color, ground_solid_color, BackgroundColor, ColorU, GRIDLINE_COUNT};
use crate::demo::{DemoApp, DemoAppView, Stage};
use crate::dispatch::lemma_events_leave_frame_alone;
use crate::effect::Effect;
use crate::frame::{
    capture_build_time, reported_build_time, Frame, FrameView, RenderCommand, RenderStats,
    RenderTransform,
};
use crate::geometry::Point2DI;
use crate::message::ExpiryNotice;
use crate::ui::UIEvent;
use crate::window::Event;
use vstd::prelude::*;

verus! {

/// Where a scene is drawn to.
#[derive(Clone, Copy, Debug, PartialEq, Eq, Structural)]
pub enum Framebuffer {
    /// The framebuffer of the window, within the viewport of `view`.
    Window { view: Viewport },
    /// A texture of the given size, from which the scene is then shown to
    /// each eye. `allocate` says whether the host has to make the texture:
    /// there is none yet, or the one there is has another size.
    SceneTexture { size: Point2DI, allocate: bool },
}

/// What the host has to do once a frame is prepared.
#[derive(Debug)]
pub struct PreparedFrame {
    /// The number of scenes to draw: one, or two in stereo.
    pub scene_count: u32,
    /// The view to make current.
    pub view: Viewport,
    /// The framebuffer to draw to.
    pub target: Framebuffer,
    /// The colour to clear the framebuffer to.
    pub clear_color: ColorU,
    /// What the events of the batch ask for, in this order.
    pub effects: Vec<Effect>,
    /// The timers to start, one for each notice that the batch put on
    /// display.
    pub notices: Vec<ExpiryNotice>,
}

/// What the host has to do to build the scene.
#[derive(Clone, Copy, Debug, PartialEq, Eq, Structural)]
pub struct BuildPlan {
    /// The kind of transform to build for.
    pub transform: RenderTransform,
    /// The direction to advance the camera in before its transform is
    /// taken.
    pub velocity: Velocity,
    /// Whether outlines are widened as for darkened stems.
    pub stem_darkening: bool,
    /// Whether the scene is built for subpixel antialiasing.
    pub subpixel_aa: bool,
}

impl DemoAppView {
    /// The number of scenes of a frame.
    pub open spec fn scene_count(self) -> u32 {
        if self.is_stereo() {
            2
        } else {
            1
        }
    }

    /// The framebuffer that the first scene of a frame is drawn to, where
    /// the viewport of one eye has the size `eye_viewport_size`.
    pub open spec fn frame_target(self, eye_viewport_size: Point2DI) -> Framebuffer {
        if self.is_stereo() {
            Framebuffer::SceneTexture {
                size: eye_viewport_size,
                allocate: self.scene_framebuffer != Some(eye_viewport_size),
            }
        } else {
            Framebuffer::Window { view: Viewport::Mono }
        }
    }

    /// The colour that the framebuffer of a frame is cleared to: nothing at
    /// all in stereo, where the backdrop is drawn for each eye.
    pub open spec fn frame_clear_color(self) -> ColorU {
        if self.is_stereo() {
            ColorU::transparent_black()
        } else {
            self.background()
        }
    }

    /// The viewer after a frame was prepared with a batch of events.
    pub open spec fn prepared(self, events: Seq<Event>, eye_viewport_size: Point2DI) -> DemoAppView {
        let taken = self.dispatched(events);
        DemoAppView {
            stage: Stage::Prepared,
            gathered_ui_events: taken.ui_events,
            scene_framebuffer: if taken.state.is_stereo() {
                Some(eye_viewport_size)
            } else {
                taken.state.scene_framebuffer
            },
            ..taken.state
        }
    }

    /// The kind of transform that the camera gives.
    pub open spec fn render_kind(self) -> RenderTransform {
        if self.camera.in_space() {
            RenderTransform::Perspective
        } else {
            RenderTransform::Transform2D
        }
    }

    /// What the host has to do to build the scene.
    pub open spec fn build_plan(self) -> BuildPlan {
        BuildPlan {
            transform: self.render_kind(),
            velocity: self.camera.velocity_of(),
            stem_darkening: self.ui.stem_darkening_effect_enabled,
            subpixel_aa: self.ui.subpixel_aa_effect_enabled,
        }
    }

    /// The viewer after the build of the scene was started: the frame has
    /// its transform and its record, and a camera on the move has something
    /// new to show.
    pub open spec fn built(self) -> DemoAppView {
        DemoAppView {
            render_transform: Some(self.render_kind()),
            dirty: self.dirty || !self.camera.velocity_of().is_zero(),
            current_frame: Some(FrameView::opened(self.render_kind(), self.gathered_ui_events)),
            gathered_ui_events: Seq::empty(),
            stage: Stage::Built,
            ..self
        }
    }
}

impl DemoApp {
    /// Starts a frame: takes in the events that came since the last one, and
    /// chooses the framebuffer and the colour to clear it to.
    /// `eye_viewport_size` is the size of the viewport of the first eye; it
    /// is read in stereo only.
    pub fn prepare_frame(&mut self, events: &Vec<Event>, eye_viewport_size: Point2DI) -> (plan:
        PreparedFrame)
        requires
            old(self)@.wf(),
            old(self)@.stage == Stage::Idle,
            old(self)@.can_dispatch(events@),
        ensures
            final(self)@ == old(self)@.prepared(events@, eye_viewport_size),
            final(self)@.wf(),
            plan.scene_count == old(self)@.dispatched(events@).state.scene_count(),
            plan.view == old(self)@.dispatched(events@).state.main_view(),
            plan.target == old(self)@.dispatched(events@).state.frame_target(eye_viewport_size),
            plan.clear_color == old(self)@.dispatched(events@).state.frame_clear_color(),
            plan.effects@ == old(self)@.dispatched(events@).effects,
            plan.notices@ == old(self)@.dispatched(events@).notices,
    {
        proof {
            lemma_events_leave_frame_alone(old(self)@.cleared(), events@);
        }
        let dispatch = self.handle_events(events);
        let view = self.ui.mode.view(0);
        let stereo = matches!(self.camera.mode(), Mode::VR);
        let (scene_count, target, clear_color) = if stereo {
            let allocate = match self.scene_framebuffer {
                Some(size) => size.x != eye_viewport_size.x || size.y != eye_viewport_size.y,
                None => true,
            };
            self.scene_framebuffer = Some(eye_viewport_size);
            (
                2u32,
                Framebuffer::SceneTexture { size: eye_viewport_size, allocate },
                ColorU::new(0, 0, 0, 0),
            )
        } else {
            (1u32, Framebuffer::Window { view: Viewport::Mono }, self.background_color())
        };
        self.gathered_ui_events = dispatch.ui_events;
        self.stage = Stage::Prepared;
        PreparedFrame {
            scene_count,
            view,
            target,
            clear_color,
            effects: dispatch.effects,
            notices: dispatch.notices,
        }
    }

    /// Starts the build of the scene for the camera as it stands, and opens
    /// the record of the frame with the events that came in while the frame
    /// was prepared.
    pub fn build_scene(&mut self) -> (plan: BuildPlan)
        requires
            old(self)@.wf(),
            old(self)@.stage == Stage::Prepared,
        ensures
            final(self)@ == old(self)@.built(),
            final(self)@.wf(),
            plan == old(self)@.build_plan(),
    {
        let transform = if self.camera.is_3d() {
            RenderTransform::Perspective
        } else {
            RenderTransform::Transform2D
        };
        if self.camera.integrate_velocity() {
            self.dirty = true;
        }
        let mut ui_events: Vec<UIEvent> = Vec::new();
        core::mem::swap(&mut ui_events, &mut self.gathered_ui_events);
        self.render_transform = Some(transform);
        self.current_frame = Some(Frame::new(transform, ui_events));
        self.stage = Stage::Built;
        BuildPlan {
            transform,
            velocity: self.camera.velocity(),
            stem_darkening: self.ui.stem_darkening_effect_enabled,
            subpixel_aa: self.ui.subpixel_aa_effect_enabled,
        }
    }
}

/// How the ground under a scene in space is drawn.
#[derive(Clone, Copy, Debug, PartialEq, Eq, Structural)]
pub struct Environment {
    pub ground_color: ColorU,
    pub gridline_color: ColorU,
    /// The number of grid lines in each direction.
    pub gridline_count: i32,
}

impl Environment {
    /// The ground as the viewer draws it.
    pub open spec fn ground() -> Environment {
        Environment {
            ground_color: ground_solid_color(),
            gridline_color: ground_line_color(),
            gridline_count: GRIDLINE_COUNT,
        }
    }
}

/// How the renderer colours the scene.
#[derive(Clone, Copy, Debug, PartialEq, Eq, Structural)]
pub enum RenderMode {
    /// Every path in its own colour.
    Multicolor,
    /// Everything in one colour on the backdrop, which allows effects that
    /// are meant for text.
    Monochrome { fg_color: ColorU, bg_color: ColorU, gamma_correction: bool, defringing: bool },
}

/// What the host has to do to draw the scene.
#[derive(Clone, Copy, Debug, PartialEq, Eq, Structural)]
pub struct DrawPlan {
    /// The view to make current.
    pub view: Viewport,
    /// The ground to draw before the scene, if any.
    pub environment: Option<Environment>,
    pub render_mode: RenderMode,
    /// Whether the scene is drawn with a depth test.
    pub depth: bool,
    /// Whether the framebuffer of the window takes the place of the texture
    /// that the scene was drawn to, once the scene is drawn.
    pub reattach_window_framebuffer: bool,
}

/// What the host has to do to show the scene to one further eye.
#[derive(Clone, Copy, Debug, PartialEq, Eq, Structural)]
pub struct CompositePlan {
    /// The view whose viewport of the window is drawn to and cleared.
    pub view: Viewport,
    pub clear_color: ColorU,
    /// The ground to draw before the scene, if any.
    pub environment: Option<Environment>,
    /// The eye whose transform the texture of the scene is projected
    /// with.
    pub eye: u32,
}

impl DemoAppView {
    /// The ground that goes with the frame under way: there is none under a
    /// flat page, and none on a transparent backdrop.
    pub open spec fn environment(self) -> Option<Environment>
        recommends
            self.current_frame is Some,
    {
        if self.current_frame.unwrap().transform == RenderTransform::Perspective
            && self.ui.background_color != BackgroundColor::Transparent {
            Some(Environment::ground())
        } else {
            None
        }
    }

    /// How the scene on display is coloured: in one colour where it has but
    /// one.
    pub open spec fn render_mode(self) -> RenderMode {
        match self.scene_metadata.monochrome_color {
            None => RenderMode::Multicolor,
            Some(fg_color) => RenderMode::Monochrome {
                fg_color,
                bg_color: self.background(),
                gamma_correction: self.ui.gamma_correction_effect_enabled,
                defringing: self.ui.subpixel_aa_effect_enabled,
            },
        }
    }

    /// What the host has to do to draw the scene. In stereo the ground is
    /// left to the view of each eye.
    pub open spec fn draw_plan(self) -> DrawPlan
        recommends
            self.current_frame is Some,
    {
        DrawPlan {
            view: self.main_view(),
            environment: if self.is_stereo() {
                None
            } else {
                self.environment()
            },
            render_mode: self.render_mode(),
            depth: self.ui.mode != Mode::TwoD,
            reattach_window_framebuffer: self.is_stereo(),
        }
    }

    /// The viewer after the scene was handed to the renderer.
    pub open spec fn drawn(self) -> DemoAppView {
        DemoAppView { stage: Stage::Drawn, ..self }
    }

    /// The viewer after the renderer went through `commands` and counted
    /// `stats` on the way.
    pub open spec fn rendered(self, commands: Seq<RenderCommand>, stats: RenderStats) -> DemoAppView
        recommends
            self.current_frame is Some,
    {
        let frame = self.current_frame.unwrap();
        DemoAppView {
            build_time: reported_build_time(self.build_time, commands),
            current_frame: Some(FrameView { scene_stats: frame.scene_stats.push(stats), ..frame }),
            ..self
        }
    }

    /// Whether the scene can be shown to eye number `eye`: any number will
    /// do where the camera has but one eye, since nothing is shown then.
    pub open spec fn has_eye(self, eye: u32) -> bool {
        match self.camera {
            Camera::ThreeD { eye_count, .. } => eye_count > 1 ==> eye < eye_count,
            Camera::TwoD => true,
        }
    }

    /// What the host has to do to show the scene to eye number `eye`:
    /// nothing, unless the camera has more than one eye.
    pub open spec fn composite_plan(self, eye: u32) -> Option<CompositePlan>
        recommends
            self.current_frame is Some,
    {
        if self.is_stereo() {
            Some(
                CompositePlan {
                    view: Viewport::Stereo(eye),
                    clear_color: self.background(),
                    environment: self.environment(),
                    eye,
                },
            )
        } else {
            None
        }
    }

    /// The viewer after the scene was shown to a further eye.
    pub open spec fn composited(self) -> DemoAppView {
        if self.is_stereo() {
            DemoAppView { stage: Stage::Composited, ..self }
        } else {
            self
        }
    }
}

impl DemoApp {
    /// The ground to draw under the scene of the frame under way, if any.
    pub fn draw_environment(&self) -> (environment: Option<Environment>)
        requires
            self@.current_frame is Some,
        ensures
            environment == self@.environment(),
    {
        let perspective = match &self.current_frame {
            Some(frame) => matches!(frame.transform, RenderTransform::Perspective),
            None => false,
        };
        if !perspective || matches!(self.ui.background_color, BackgroundColor::Transparent) {
            return None;
        }
        Some(
            Environment {
                ground_color: ColorU::new(80, 80, 80, 255),
                gridline_color: ColorU::new(127, 127, 127, 255),
                gridline_count: GRIDLINE_COUNT,
            },
        )
    }

    /// How the renderer is to colour the scene.
    pub fn render_mode(&self) -> (mode: RenderMode)
        ensures
            mode == self@.render_mode(),
    {
        match self.scene_metadata.monochrome_color {
            None => RenderMode::Multicolor,
            Some(fg_color) => RenderMode::Monochrome {
                fg_color,
                bg_color: self.background_color(),
                gamma_correction: self.ui.gamma_correction_effect_enabled,
                defringing: self.ui.subpixel_aa_effect_enabled,
            },
        }
    }

    /// Hands the scene to the renderer.
    pub fn draw_scene(&mut self) -> (plan: DrawPlan)
        requires
            old(self)@.wf(),
            old(self)@.stage == Stage::Built,
        ensures
            final(self)@ == old(self)@.drawn(),
            final(self)@.wf(),
            plan == old(self)@.draw_plan(),
    {
        let stereo = matches!(self.camera.mode(), Mode::VR);
        let environment = if stereo {
            None
        } else {
            self.draw_environment()
        };
        let plan = DrawPlan {
            view: self.ui.mode.view(0),
            environment,
            render_mode: self.render_mode(),
            depth: !matches!(self.ui.mode, Mode::TwoD),
            reattach_window_framebuffer: stereo,
        };
        self.stage = Stage::Drawn;
        plan
    }

    /// Takes note of what the renderer did with the scene: `commands` are
    /// the commands of the build in the order in which the renderer got
    /// them, and `stats` is what it counted.
    pub fn render_vector_scene(&mut self, commands: &Vec<RenderCommand>, stats: RenderStats)
        requires
            old(self)@.wf(),
            old(self)@.stage.has_transform(),
        ensures
            final(self)@ == old(self)@.rendered(commands@, stats),
            final(self)@.wf(),
    {
        self.build_time = capture_build_time(self.build_time, commands);
        match &mut self.current_frame {
            Some(frame) => {
                frame.scene_stats.push(stats);
            },
            None => {},
        }
    }

    /// Shows the scene that was drawn to eye number `render_scene_index`.
    /// There is nothing to do, and nothing changes, unless the camera has
    /// more than one eye.
    pub fn composite_scene(&mut self, render_scene_index: u32) -> (plan: Option<CompositePlan>)
        requires
            old(self)@.wf(),
            old(self)@.stage.is_drawn(),
            old(self)@.has_eye(render_scene_index),
        ensures
            final(self)@ == old(self)@.composited(),
            final(self)@.wf(),
            plan == old(self)@.composite_plan(render_scene_index),
    {
        if !matches!(self.camera.mode(), Mode::VR) {
            return None;
        }
        let plan = CompositePlan {
            view: Viewport::Stereo(render_scene_index),
            clear_color: self.background_color(),
            environment: self.draw_environment(),
            eye: render_scene_index,
        };
        self.stage = Stage::Composited;
        Some(plan)
    }
}

} // verus!
