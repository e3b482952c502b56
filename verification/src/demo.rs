//! The state of the viewer between the steps of a frame.

use crate::camera::{Camera, Mode, View as Viewport};
use crate::color::ColorU;
use crate::frame::{Frame, FrameView, RenderTransform, TimeSpan};
use crate::geometry::Point2DI;
use crate::message::{emit_message, ExpiryNotice, MessageBoard};
use crate::options::{Options, OptionsView};
use crate::ui::{DemoUI, DemoUIView, UIEvent};
use crate::window::{SceneSummary, WindowSize, KNOWN_RESULT_FLAGS};
use pathfinder_svg::BuildResultFlags;
use vstd::prelude::*;
use vstd::string::*;

verus! {

/// How far the frame at hand has come.
#[derive(Clone, Copy, Debug, PartialEq, Eq, Structural)]
pub enum Stage {
    /// No frame is under way.
    Idle,
    /// The events were taken in and the framebuffer was chosen.
    Prepared,
    /// The scene is being built for the transform of this frame.
    Built,
    /// The scene was drawn.
    Drawn,
    /// The scene was drawn for at least one further eye.
    Composited,
    /// The frame is closed, and the controls are about to see its events.
    Finished,
}

impl Stage {
    /// Whether the scene of the frame has a transform: from the build to the
    /// close of the frame.
    pub open spec fn has_transform(self) -> bool {
        self == Stage::Built || self == Stage::Drawn || self == Stage::Composited
    }

    /// Whether a frame is under way and not closed yet.
    pub open spec fn is_under_way(self) -> bool {
        self == Stage::Prepared || self.has_transform()
    }

    /// Whether the scene was drawn and the frame is not closed yet.
    pub open spec fn is_drawn(self) -> bool {
        self == Stage::Drawn || self == Stage::Composited
    }
}

/// What the viewer keeps of the scene on display.
#[derive(Clone, Copy, Debug, PartialEq, Eq, Structural)]
pub struct SceneMetadata {
    /// The one colour of the scene, where everything in it has the same.
    pub monochrome_color: Option<ColorU>,
}

/// The one colour of a scene that is painted with `paints`: there is one
/// where there is any paint at all and no two paints differ.
pub open spec fn single_color(paints: Seq<ColorU>) -> Option<ColorU> {
    if paints.len() > 0 && forall|i: int|
        0 <= i < paints.len() ==> #[trigger] paints[i] == paints[0] {
        Some(paints[0])
    } else {
        None
    }
}

/// Finds the one colour of a scene from the colours of its paints.
pub fn monochrome_color(paints: &Vec<ColorU>) -> (color: Option<ColorU>)
    ensures
        color == single_color(paints@),
{
    if paints.len() == 0 {
        return None;
    }
    let first = paints[0];
    let mut i: usize = 1;
    while i < paints.len()
        invariant
            1 <= i <= paints.len(),
            first == paints@[0],
            forall|k: int| 0 <= k < i ==> #[trigger] paints@[k] == first,
        decreases paints.len() - i,
    {
        if paints[i] != first {
            return None;
        }
        i += 1;
    }
    Some(first)
}

impl SceneMetadata {
    /// What is kept of `scene`.
    pub open spec fn of(scene: SceneSummary) -> SceneMetadata {
        SceneMetadata { monochrome_color: scene.monochrome_color }
    }

    /// Takes from a scene that was read what the viewer keeps of it. The
    /// host, for its part, fits the view box of the scene to the viewport.
    pub fn new_clipping_view_box(scene: &SceneSummary) -> (metadata: SceneMetadata)
        ensures
            metadata == SceneMetadata::of(*scene),
    {
        SceneMetadata { monochrome_color: scene.monochrome_color }
    }
}

/// The names of the features that `result_flags` has a bit for, as the
/// builder of scenes writes them out.
pub uninterp spec fn unsupported_feature_names(result_flags: u16) -> Seq<char>;

/// Writes out the names of the features that `result_flags` has a bit for.
///
/// Trusted: makes a `BuildResultFlags` of `pathfinder_svg` from the bits and
/// formats it with its `Display`. The contract claims no more than that the
/// text depends on the bits alone.
#[verifier::external_body]
fn describe_result_flags(result_flags: u16) -> (names: String)
    ensures
        names@ == unsupported_feature_names(result_flags),
{
    BuildResultFlags::from_bits_truncate(result_flags).to_string()
}

/// The warning that names the features in `names`.
pub open spec fn warning_about(names: Seq<char>) -> Seq<char> {
    "Warning: These features in the SVG are unsupported: "@ + names + "."@
}

/// Whether none of the bits of `result_flags` that stand for a feature is
/// set: whether the flags are a multiple of the first bit that stands for
/// none.
pub open spec fn all_supported(result_flags: u16) -> bool {
    result_flags % 0x8000 == 0
}

/// The notice that tells the user what a scene holds that cannot be drawn.
/// There is none where the scene holds nothing of the kind.
pub open spec fn building_message(result_flags: u16) -> Seq<char> {
    if all_supported(result_flags) {
        Seq::empty()
    } else {
        warning_about(unsupported_feature_names(result_flags))
    }
}

/// Puts the names of features into the warning about them.
pub fn warn_about(names: &str) -> (message: String)
    ensures
        message@ == warning_about(names@),
{
    let mut message = String::from_str("Warning: These features in the SVG are unsupported: ");
    message.append(names);
    message.append(".");
    message
}

/// Says whether a scene holds nothing that cannot be drawn.
pub fn supports_all(result_flags: u16) -> (supported: bool)
    ensures
        supported == all_supported(result_flags),
{
    assert((result_flags & 0x7fff == 0) == (result_flags % 0x8000 == 0)) by (bit_vector);
    result_flags & KNOWN_RESULT_FLAGS == 0
}

pub fn get_svg_building_message(result_flags: u16) -> (message: String)
    ensures
        message@ == building_message(result_flags),
{
    if supports_all(result_flags) {
        return String::new();
    }
    let names = describe_result_flags(result_flags);
    warn_about(names.as_str())
}

/// The viewer.
#[derive(Debug)]
pub struct DemoApp {
    /// Whether the user asked to leave.
    pub should_exit: bool,
    pub options: Options,
    pub window_size: WindowSize,
    pub scene_metadata: SceneMetadata,
    /// The kind of transform that the scene of this frame is drawn with.
    pub render_transform: Option<RenderTransform>,
    pub camera: Camera,
    /// The number of frames shown so far; it starts again from zero after
    /// the largest number.
    pub frame_counter: u32,
    /// Where the next frame is to be saved, if the user asked for that.
    pub pending_screenshot_path: Option<String>,
    /// Whether the pointer turns the camera.
    pub mouselook_enabled: bool,
    /// Whether anything changed that the next frame has to show.
    pub dirty: bool,
    /// The type of the user event that removes a notice.
    pub expire_message_event_id: u32,
    /// The number of the latest notice.
    pub message_epoch: u32,
    /// Where the pointer was last seen, in pixels of the framebuffer.
    pub last_mouse_position: Point2DI,
    pub current_frame: Option<Frame>,
    /// How long the latest build of the scene took.
    pub build_time: Option<TimeSpan>,
    pub ui: DemoUI,
    /// The size of the texture that the scene is drawn to before it is shown
    /// to each eye, where there is one.
    pub scene_framebuffer: Option<Point2DI>,
    pub stage: Stage,
    /// The events for the controls that came in while the frame was
    /// prepared. The record of the frame takes them over.
    pub gathered_ui_events: Vec<UIEvent>,
}

/// The viewer as values.
pub struct DemoAppView {
    pub should_exit: bool,
    pub options: OptionsView,
    pub window_size: WindowSize,
    pub scene_metadata: SceneMetadata,
    pub render_transform: Option<RenderTransform>,
    pub camera: Camera,
    pub frame_counter: u32,
    pub pending_screenshot_path: Option<Seq<char>>,
    pub mouselook_enabled: bool,
    pub dirty: bool,
    pub expire_message_event_id: u32,
    pub message_epoch: u32,
    pub last_mouse_position: Point2DI,
    pub current_frame: Option<FrameView>,
    pub build_time: Option<TimeSpan>,
    pub ui: DemoUIView,
    pub scene_framebuffer: Option<Point2DI>,
    pub stage: Stage,
    pub gathered_ui_events: Seq<UIEvent>,
}

/// The record of the frame at hand, where there is one.
pub open spec fn frame_view(frame: Option<Frame>) -> Option<FrameView> {
    match frame {
        Some(frame) => Some(frame@),
        None => None,
    }
}

impl View for DemoApp {
    type V = DemoAppView;

    open spec fn view(&self) -> DemoAppView {
        DemoAppView {
            should_exit: self.should_exit,
            options: self.options@,
            window_size: self.window_size,
            scene_metadata: self.scene_metadata,
            render_transform: self.render_transform,
            camera: self.camera,
            frame_counter: self.frame_counter,
            pending_screenshot_path: crate::options::text_of(self.pending_screenshot_path),
            mouselook_enabled: self.mouselook_enabled,
            dirty: self.dirty,
            expire_message_event_id: self.expire_message_event_id,
            message_epoch: self.message_epoch,
            last_mouse_position: self.last_mouse_position,
            current_frame: frame_view(self.current_frame),
            build_time: self.build_time,
            ui: self.ui@,
            scene_framebuffer: self.scene_framebuffer,
            stage: self.stage,
            gathered_ui_events: self.gathered_ui_events@,
        }
    }
}

impl DemoAppView {
    /// What holds of the viewer between any two steps: the camera is sound,
    /// and the transform and the record of the frame are there from the
    /// build to the close of the frame, and at no other time.
    pub open spec fn wf(self) -> bool {
        &&& self.camera.wf()
        &&& self.render_transform is Some <==> self.stage.has_transform()
        &&& self.current_frame is Some <==> self.stage.has_transform()
        &&& self.stage.has_transform() ==> self.current_frame.unwrap().transform
            == self.render_transform.unwrap()
        &&& self.stage != Stage::Prepared ==> self.gathered_ui_events.len() == 0
        &&& self.stage.is_under_way() && self.is_stereo() ==> self.scene_framebuffer is Some
    }

    /// Whether the scene is shown to more than one eye.
    pub open spec fn is_stereo(self) -> bool {
        self.camera.current_mode() == Mode::VR
    }

    /// The notice on display with its number.
    pub open spec fn board(self) -> MessageBoard {
        MessageBoard { message: self.ui.message, epoch: self.message_epoch }
    }

    /// The viewer with `board` in place of its notice and number.
    pub open spec fn with_board(self, board: MessageBoard) -> DemoAppView {
        DemoAppView {
            ui: DemoUIView { message: board.message, ..self.ui },
            message_epoch: board.epoch,
            ..self
        }
    }

    /// The colour behind the scene.
    pub open spec fn background(self) -> ColorU {
        self.ui.background_color.color()
    }

    /// The view that the first scene of a frame is drawn into.
    pub open spec fn main_view(self) -> Viewport {
        self.ui.mode.view_of(0)
    }

    /// The viewer as it starts: nothing drawn yet, the camera fresh for the
    /// mode that the options name, and the warning about the scene, where
    /// there is one, on display as the first notice.
    pub open spec fn initial(
        window_size: WindowSize,
        options: OptionsView,
        expire_message_event_id: u32,
        scene: SceneSummary,
    ) -> DemoAppView {
        let quiet = DemoAppView {
            should_exit: false,
            options,
            window_size,
            scene_metadata: SceneMetadata::of(scene),
            render_transform: None,
            camera: Camera::fresh(options.mode),
            frame_counter: 0,
            pending_screenshot_path: None,
            mouselook_enabled: false,
            dirty: true,
            expire_message_event_id,
            message_epoch: 0,
            last_mouse_position: Point2DI::origin(),
            current_frame: None,
            build_time: None,
            ui: DemoUIView::initial(options.mode, options.background_color),
            scene_framebuffer: None,
            stage: Stage::Idle,
            gathered_ui_events: Seq::empty(),
        };
        quiet.with_board(quiet.board().posted(building_message(scene.result_flags)))
    }
}

impl DemoApp {
    /// Sets the viewer up for a scene that the host has read, with the
    /// options as the command line left them. Says what the host has to
    /// schedule so that the warning about the scene goes away again.
    pub fn new(
        window_size: WindowSize,
        options: Options,
        expire_message_event_id: u32,
        scene: &SceneSummary,
    ) -> (started: (DemoApp, Option<ExpiryNotice>))
        ensures
            started.0@ == DemoAppView::initial(
                window_size,
                options@,
                expire_message_event_id,
                *scene,
            ),
            started.0@.wf(),
            started.1 == (MessageBoard { message: Seq::empty(), epoch: 0 }).notice_for(
                expire_message_event_id,
                building_message(scene.result_flags),
            ),
    {
        let message = get_svg_building_message(scene.result_flags);
        let camera = Camera::new(options.mode);
        let mut ui = DemoUI::new(&options);
        let mut message_epoch: u32 = 0;
        let notice = emit_message(&mut ui, &mut message_epoch, expire_message_event_id, message);
        let app = DemoApp {
            should_exit: false,
            options,
            window_size,
            scene_metadata: SceneMetadata::new_clipping_view_box(scene),
            render_transform: None,
            camera,
            frame_counter: 0,
            pending_screenshot_path: None,
            mouselook_enabled: false,
            dirty: true,
            expire_message_event_id,
            message_epoch,
            last_mouse_position: Point2DI::new(0, 0),
            current_frame: None,
            build_time: None,
            ui,
            scene_framebuffer: None,
            stage: Stage::Idle,
            gathered_ui_events: Vec::new(),
        };
        (app, notice)
    }

    /// The colour behind the scene.
    pub fn background_color(&self) -> (color: ColorU)
        ensures
            color == self@.background(),
    {
        self.ui.background_color.to_color()
    }

    pub fn stage(&self) -> (stage: Stage)
        ensures
            stage == self@.stage,
    {
        self.stage
    }
}

} // verus!
