//! How a batch of events changes the viewer.
//!
//! The events of a batch are taken in one after the other, each against the
//! state that the one before left. An event changes the state, may hand an
//! event on to the controls, may ask the host for one effect, and may post a
//! notice, for which the host then starts a timer.

use crate::camera::{Axis, Camera, Sign};
use crate::demo::{
    all_supported, building_message, get_svg_building_message, supports_all, DemoApp,
    DemoAppView, SceneMetadata,
};
use crate::effect::Effect;
use crate::geometry::Point2DI;
use crate::message::{emit_message, expire_message, ExpiryNotice};
use crate::options::OptionsView;
use crate::ui::{MousePosition, UIEvent};
use crate::window::{Event, Keycode, SceneLoad, SceneSummary, WindowSize};
use vstd::prelude::*;
use vstd::string::*;

verus! {

/// The axis that a key moves the camera along, and the direction: `w`
/// (0x77) and `s` (0x73) along the line of sight, `a` (0x61) and `d` (0x64)
/// sideways. No other key moves it.
pub open spec fn key_motion(key: u8) -> Option<(Axis, Sign)> {
    if key == 0x77 {
        Some((Axis::Z, Sign::Negative))
    } else if key == 0x73 {
        Some((Axis::Z, Sign::Positive))
    } else if key == 0x61 {
        Some((Axis::X, Sign::Negative))
    } else if key == 0x64 {
        Some((Axis::X, Sign::Positive))
    } else {
        None
    }
}

pub fn motion_of_key(key: u8) -> (motion: Option<(Axis, Sign)>)
    ensures
        motion == key_motion(key),
{
    if key == 0x77 {
        Some((Axis::Z, Sign::Negative))
    } else if key == 0x73 {
        Some((Axis::Z, Sign::Positive))
    } else if key == 0x61 {
        Some((Axis::X, Sign::Negative))
    } else if key == 0x64 {
        Some((Axis::X, Sign::Positive))
    } else {
        None
    }
}

/// What one event leads to.
pub struct Reaction {
    pub state: DemoAppView,
    /// The event that the controls get to see, if any.
    pub ui_event: Option<UIEvent>,
    /// What the host has to do, if anything.
    pub effect: Option<Effect>,
    /// The timer that the host has to start, if the event put a notice on
    /// display.
    pub notice: Option<ExpiryNotice>,
}

/// What a batch of events leads to.
pub struct Outcome {
    pub state: DemoAppView,
    pub ui_events: Seq<UIEvent>,
    pub effects: Seq<Effect>,
    pub notices: Seq<ExpiryNotice>,
}

/// The text that an event puts on display as a notice: the warning about a
/// scene that was read, or the reason why a scene could not be read. No other
/// event posts anything.
pub open spec fn message_of(event: Event) -> Option<Seq<char>> {
    match event {
        Event::OpenSVG(SceneLoad::Loaded(scene)) => Some(building_message(scene.result_flags)),
        Event::OpenSVG(SceneLoad::Failed(reason)) => Some(reason@),
        _ => None,
    }
}

/// Whether an event puts a notice on display: an empty text is none.
pub open spec fn posts_notice(event: Event) -> bool {
    message_of(event) is Some && message_of(event).unwrap().len() > 0
}

/// There is a warning about a scene exactly where it holds something that
/// cannot be drawn.
pub proof fn lemma_warning_is_not_empty(result_flags: u16)
    ensures
        building_message(result_flags).len() > 0 <==> !all_supported(result_flags),
{
    reveal_strlit(".");
}

/// Says whether an event puts a notice on display.
pub fn event_posts_notice(event: &Event) -> (posts: bool)
    ensures
        posts == posts_notice(*event),
{
    match event {
        Event::OpenSVG(SceneLoad::Loaded(scene)) => {
            proof {
                lemma_warning_is_not_empty(scene.result_flags);
            }
            !supports_all(scene.result_flags)
        },
        Event::OpenSVG(SceneLoad::Failed(reason)) => !reason.as_str().is_empty(),
        _ => false,
    }
}

impl DemoAppView {
    /// Where the pointer is, for a pointer at `position` in the framebuffer,
    /// and how far that is from where it was last seen.
    pub open spec fn pointer_at(self, position: Point2DI) -> MousePosition {
        MousePosition { absolute: position, relative: position.minus(self.last_mouse_position) }
    }

    /// Whether `pointer_at` stays within the numbers that a position can
    /// hold.
    pub open spec fn can_track(self, position: Point2DI) -> bool {
        position.can_subtract(self.last_mouse_position)
    }

    /// The viewer after it saw the pointer at `position`.
    pub open spec fn tracking(self, position: Point2DI) -> DemoAppView {
        DemoAppView { last_mouse_position: self.pointer_at(position).absolute, ..self }
    }

    /// The position that `event` reports for the pointer, where the viewer
    /// follows it: a move counts only while the pointer turns the camera.
    pub open spec fn tracked_position(self, event: Event) -> Option<Point2DI> {
        match event {
            Event::MouseDown(position) => Some(position),
            Event::MouseDragged(position) => Some(position),
            Event::MouseMoved(position) => if self.mouselook_enabled {
                Some(position)
            } else {
                None
            },
            _ => None,
        }
    }

    /// Whether `event` can be taken in: the position that it reports, where
    /// the viewer follows it, can be tracked, and the notice that it posts,
    /// where it posts one, can be numbered.
    pub open spec fn accepts_event(self, event: Event) -> bool {
        &&& match self.tracked_position(event) {
            Some(position) => self.can_track(position),
            None => true,
        }
        &&& match message_of(event) {
            Some(message) => self.board().can_post(message),
            None => true,
        }
    }

    /// The viewer after `message` was posted as a notice.
    pub open spec fn posting(self, message: Seq<char>) -> DemoAppView {
        self.with_board(self.board().posted(message))
    }

    /// The timer that the host has to start when `message` is posted.
    pub open spec fn notice_about(self, message: Seq<char>) -> Option<ExpiryNotice> {
        self.board().notice_for(self.expire_message_event_id, message)
    }

    /// The viewer with the camera moving, or at rest, along one axis. Only a
    /// camera in space moves; the change then has to be shown.
    pub open spec fn steering(self, axis: Axis, sign: Sign) -> DemoAppView {
        if self.camera.in_space() {
            DemoAppView { camera: self.camera.with_velocity_axis(axis, sign), dirty: true, ..self }
        } else {
            self
        }
    }

    /// The viewer after the user asked to leave.
    pub open spec fn quitting(self) -> DemoAppView {
        DemoAppView { should_exit: true, dirty: true, ..self }
    }

    /// The viewer after the window took the size `window_size`.
    pub open spec fn resized(self, window_size: WindowSize) -> DemoAppView {
        DemoAppView { window_size, dirty: true, ..self }
    }

    /// The viewer with something new to show.
    pub open spec fn touched(self) -> DemoAppView {
        DemoAppView { dirty: true, ..self }
    }

    /// The viewer after the headset sent `count` eyes. A flat camera has no
    /// eyes to replace, and a camera in space never goes without.
    pub open spec fn with_eyes(self, count: usize) -> DemoAppView {
        DemoAppView { camera: self.camera.with_eye_count(count), ..self }
    }

    /// The viewer after the user stepped on to the next setting of what the
    /// controls show.
    pub open spec fn cycling_ui(self) -> DemoAppView {
        DemoAppView {
            options: OptionsView { ui: self.options.ui.successor(), ..self.options },
            ..self
        }
    }

    /// The viewer after another scene was read: the warning about it, where
    /// there is one, is posted as a notice, and the camera is made anew for
    /// the mode that the controls show.
    pub open spec fn showing_scene(self, scene: SceneSummary) -> DemoAppView {
        DemoAppView {
            scene_metadata: SceneMetadata::of(scene),
            camera: Camera::fresh(self.ui.mode),
            dirty: true,
            ..self.posting(building_message(scene.result_flags))
        }
    }

    /// The viewer after a scene could not be read: the reason is posted as a
    /// notice, and the scene and the camera are the ones from before.
    pub open spec fn showing_failure(self, reason: Seq<char>) -> DemoAppView {
        DemoAppView { dirty: true, ..self.posting(reason) }
    }

    /// Whether a user event is the timer of the notice on display.
    pub open spec fn is_due(self, message_type: u32, message_data: u32) -> bool {
        message_type == self.expire_message_event_id && self.board().is_current(message_data)
    }

    /// The viewer after a user event: the timer of the notice on display
    /// removes it, any other changes nothing.
    pub open spec fn expiring(self, message_type: u32, message_data: u32) -> DemoAppView {
        if self.is_due(message_type, message_data) {
            self.with_board(self.board().expired(message_data)).touched()
        } else {
            self
        }
    }

    /// What `event`, the one at place `index` of its batch, leads to.
    pub open spec fn after_event(self, event: Event, index: int) -> Reaction {
        let unchanged = Reaction { state: self, ui_event: None, effect: None, notice: None };
        match event {
            Event::Quit | Event::KeyDown(Keycode::Escape) => Reaction {
                state: self.quitting(),
                ..unchanged
            },
            Event::WindowResized(window_size) => Reaction {
                state: self.resized(window_size),
                effect: Some(
                    Effect::Resized {
                        event: index as usize,
                        view: self.main_view(),
                        framebuffer_size: window_size.device_size,
                    },
                ),
                ..unchanged
            },
            Event::MouseDown(position) => Reaction {
                state: self.tracking(position),
                ui_event: Some(UIEvent::MouseDown(self.pointer_at(position))),
                ..unchanged
            },
            Event::MouseMoved(position) => if !self.mouselook_enabled {
                unchanged
            } else if self.camera.in_space() {
                Reaction {
                    state: self.tracking(position).touched(),
                    effect: Some(Effect::Mouselook { movement: self.pointer_at(position).relative }),
                    ..unchanged
                }
            } else {
                Reaction { state: self.tracking(position), ..unchanged }
            },
            Event::MouseDragged(position) => Reaction {
                state: self.tracking(position).touched(),
                ui_event: Some(UIEvent::MouseDragged(self.pointer_at(position))),
                ..unchanged
            },
            Event::Zoom(position) => if self.camera.in_space() {
                unchanged
            } else {
                Reaction {
                    effect: Some(Effect::PanZoom { event: index as usize, position }),
                    ..unchanged
                }
            },
            Event::Look => if self.camera.in_space() {
                Reaction { effect: Some(Effect::Look { event: index as usize }), ..unchanged }
            } else {
                unchanged
            },
            Event::SetEyeTransforms(count) => if self.camera.in_space() && count >= 1 {
                Reaction {
                    state: self.with_eyes(count),
                    effect: Some(Effect::SetEyeTransforms { event: index as usize }),
                    ..unchanged
                }
            } else {
                unchanged
            },
            Event::KeyDown(Keycode::Alphanumeric(key)) => match key_motion(key) {
                Some((axis, sign)) => Reaction { state: self.steering(axis, sign), ..unchanged },
                None => unchanged,
            },
            Event::KeyUp(Keycode::Alphanumeric(key)) => match key_motion(key) {
                Some((axis, _)) => Reaction {
                    state: self.steering(axis, Sign::Zero),
                    ..unchanged
                },
                None => unchanged,
            },
            Event::KeyDown(Keycode::Tab) => Reaction { state: self.cycling_ui(), ..unchanged },
            Event::OpenSVG(SceneLoad::Loaded(scene)) => Reaction {
                state: self.showing_scene(scene),
                ui_event: None,
                effect: Some(Effect::ReplaceScene { event: index as usize, mode: self.ui.mode }),
                notice: self.notice_about(building_message(scene.result_flags)),
            },
            Event::OpenSVG(SceneLoad::Failed(reason)) => Reaction {
                state: self.showing_failure(reason@),
                notice: self.notice_about(reason@),
                ..unchanged
            },
            Event::User { message_type, message_data } => Reaction {
                state: self.expiring(message_type, message_data),
                ..unchanged
            },
            _ => unchanged,
        }
    }

    /// What a batch of events leads to: each event is taken in against the
    /// state that the events before it left, and what is handed on, asked
    /// for and to be scheduled comes in the order of the events.
    pub open spec fn after_events(self, events: Seq<Event>) -> Outcome
        decreases events.len(),
    {
        if events.len() == 0 {
            Outcome {
                state: self,
                ui_events: Seq::empty(),
                effects: Seq::empty(),
                notices: Seq::empty(),
            }
        } else {
            let before = self.after_events(events.drop_last());
            let reaction = before.state.after_event(events.last(), events.len() - 1);
            Outcome {
                state: reaction.state,
                ui_events: match reaction.ui_event {
                    Some(ui_event) => before.ui_events.push(ui_event),
                    None => before.ui_events,
                },
                effects: match reaction.effect {
                    Some(effect) => before.effects.push(effect),
                    None => before.effects,
                },
                notices: match reaction.notice {
                    Some(notice) => before.notices.push(notice),
                    None => before.notices,
                },
            }
        }
    }

    /// Whether a batch of events can be taken in: each event can, against
    /// the state that the events before it left.
    pub open spec fn accepts(self, events: Seq<Event>) -> bool
        decreases events.len(),
    {
        events.len() == 0 || {
            &&& self.accepts(events.drop_last())
            &&& self.after_events(events.drop_last()).state.accepts_event(events.last())
        }
    }

    /// The viewer with nothing new to show.
    pub open spec fn cleared(self) -> DemoAppView {
        DemoAppView { dirty: false, ..self }
    }

    /// What a batch of events leads to when it starts a frame: whether there
    /// is anything new to show is then decided by the batch alone.
    pub open spec fn dispatched(self, events: Seq<Event>) -> Outcome {
        self.cleared().after_events(events)
    }

    /// Whether a batch of events can start a frame.
    pub open spec fn can_dispatch(self, events: Seq<Event>) -> bool {
        self.cleared().accepts(events)
    }
}

/// What the viewer hands back after a batch of events.
#[derive(Debug)]
pub struct Dispatch {
    /// The events that the controls get to see, in the order in which they
    /// came.
    pub ui_events: Vec<UIEvent>,
    /// What the host has to do, in this order.
    pub effects: Vec<Effect>,
    /// The timers that the host has to start, one for each notice that the
    /// batch put on display.
    pub notices: Vec<ExpiryNotice>,
}

impl DemoApp {
    /// Whether `process_mouse_position` may be called with `new_position`.
    pub fn can_process_mouse_position(&self, new_position: Point2DI) -> (ok: bool)
        ensures
            ok == self@.can_track(new_position),
    {
        new_position.subtractable(self.last_mouse_position)
    }

    /// Takes note of the pointer at `new_position`, which is in pixels of the
    /// framebuffer, and says how far that is from where the pointer was last
    /// seen.
    pub fn process_mouse_position(&mut self, new_position: Point2DI) -> (mouse_position:
        MousePosition)
        requires
            old(self)@.can_track(new_position),
        ensures
            mouse_position == old(self)@.pointer_at(new_position),
            final(self)@ == old(self)@.tracking(new_position),
    {
        let relative = new_position.subtract(self.last_mouse_position);
        self.last_mouse_position = new_position;
        MousePosition { absolute: new_position, relative }
    }

    /// Whether `handle_event` may be called with `event`.
    pub fn can_handle_event(&self, event: &Event) -> (ok: bool)
        ensures
            ok == self@.accepts_event(*event),
    {
        match event {
            Event::MouseDown(position) => self.can_process_mouse_position(*position),
            Event::MouseDragged(position) => self.can_process_mouse_position(*position),
            Event::MouseMoved(position) => {
                if self.mouselook_enabled {
                    self.can_process_mouse_position(*position)
                } else {
                    true
                }
            },
            Event::OpenSVG(_) => !event_posts_notice(event) || self.message_epoch < u32::MAX,
            _ => true,
        }
    }

    /// The camera moves, or comes to rest, along one axis.
    fn steer(&mut self, axis: Axis, sign: Sign)
        ensures
            final(self)@ == old(self)@.steering(axis, sign),
    {
        let mut camera = self.camera;
        if camera.set_velocity_axis(axis, sign) {
            self.camera = camera;
            self.dirty = true;
        }
    }

    /// Something has changed that the next frame has to show.
    fn touch(&mut self)
        ensures
            final(self)@ == old(self)@.touched(),
    {
        self.dirty = true;
    }

    fn quit(&mut self)
        ensures
            final(self)@ == old(self)@.quitting(),
    {
        self.should_exit = true;
        self.dirty = true;
    }

    fn resize(&mut self, window_size: WindowSize)
        ensures
            final(self)@ == old(self)@.resized(window_size),
    {
        self.window_size = window_size;
        self.dirty = true;
    }

    /// Takes the eyes that the headset sent. Says whether the camera has
    /// them now.
    fn replace_eyes(&mut self, count: usize) -> (applied: bool)
        ensures
            final(self)@ == old(self)@.with_eyes(count),
            applied == (old(self)@.camera.in_space() && count >= 1),
            !applied ==> final(self)@ == old(self)@,
    {
        let mut camera = self.camera;
        let applied = camera.set_eye_count(count);
        self.camera = camera;
        applied
    }

    fn cycle_ui(&mut self)
        ensures
            final(self)@ == old(self)@.cycling_ui(),
    {
        self.options.ui = self.options.ui.next();
    }

    /// Puts a notice on display, and says which timer the host has to start
    /// for it.
    fn post(&mut self, message: String) -> (notice: Option<ExpiryNotice>)
        requires
            old(self)@.board().can_post(message@),
        ensures
            final(self)@ == old(self)@.posting(message@),
            notice == old(self)@.notice_about(message@),
    {
        emit_message(&mut self.ui, &mut self.message_epoch, self.expire_message_event_id, message)
    }

    fn show_scene(&mut self, scene: &SceneSummary) -> (notice: Option<ExpiryNotice>)
        requires
            old(self)@.board().can_post(building_message(scene.result_flags)),
        ensures
            final(self)@ == old(self)@.showing_scene(*scene),
            notice == old(self)@.notice_about(building_message(scene.result_flags)),
    {
        let notice = self.post(get_svg_building_message(scene.result_flags));
        self.scene_metadata = SceneMetadata::new_clipping_view_box(scene);
        self.camera = Camera::new(self.ui.mode);
        self.dirty = true;
        notice
    }

    fn show_failure(&mut self, reason: &String) -> (notice: Option<ExpiryNotice>)
        requires
            old(self)@.board().can_post(reason@),
        ensures
            final(self)@ == old(self)@.showing_failure(reason@),
            notice == old(self)@.notice_about(reason@),
    {
        let notice = self.post(reason.clone());
        self.dirty = true;
        notice
    }

    fn expire(&mut self, message_type: u32, message_data: u32)
        ensures
            final(self)@ == old(self)@.expiring(message_type, message_data),
    {
        if message_type == self.expire_message_event_id {
            let cleared = expire_message(&mut self.ui, self.message_epoch, message_data);
            if cleared {
                self.dirty = true;
            }
        }
    }

    /// Takes in one event, the one at place `index` of its batch. Hands back
    /// the event that the controls get to see, what the host has to do, and
    /// the timer that it has to start, where there is any of them.
    pub fn handle_event(&mut self, event: &Event, index: usize) -> (reaction: (
        Option<UIEvent>,
        Option<Effect>,
        Option<ExpiryNotice>,
    ))
        requires
            old(self)@.accepts_event(*event),
        ensures
            final(self)@ == old(self)@.after_event(*event, index as int).state,
            reaction.0 == old(self)@.after_event(*event, index as int).ui_event,
            reaction.1 == old(self)@.after_event(*event, index as int).effect,
            reaction.2 == old(self)@.after_event(*event, index as int).notice,
            old(self)@.wf() && !old(self)@.stage.is_under_way() ==> final(self)@.wf(),
    {
        proof {
            lemma_event_leaves_frame_alone(old(self)@, *event, index as int);
        }
        match event {
            Event::Quit | Event::KeyDown(Keycode::Escape) => {
                self.quit();
                (None, None, None)
            },
            Event::WindowResized(new_size) => {
                let view = self.ui.mode.view(0);
                self.resize(*new_size);
                (
                    None,
                    Some(
                        Effect::Resized {
                            event: index,
                            view,
                            framebuffer_size: new_size.device_size,
                        },
                    ),
                    None,
                )
            },
            Event::MouseDown(new_position) => {
                let mouse_position = self.process_mouse_position(*new_position);
                (Some(UIEvent::MouseDown(mouse_position)), None, None)
            },
            Event::MouseMoved(new_position) => {
                if !self.mouselook_enabled {
                    return (None, None, None);
                }
                let mouse_position = self.process_mouse_position(*new_position);
                if self.camera.is_3d() {
                    self.touch();
                    (None, Some(Effect::Mouselook { movement: mouse_position.relative }), None)
                } else {
                    (None, None, None)
                }
            },
            Event::MouseDragged(new_position) => {
                let mouse_position = self.process_mouse_position(*new_position);
                self.touch();
                (Some(UIEvent::MouseDragged(mouse_position)), None, None)
            },
            Event::Zoom(position) => {
                if self.camera.is_3d() {
                    (None, None, None)
                } else {
                    (None, Some(Effect::PanZoom { event: index, position: *position }), None)
                }
            },
            Event::Look => {
                if self.camera.is_3d() {
                    (None, Some(Effect::Look { event: index }), None)
                } else {
                    (None, None, None)
                }
            },
            Event::SetEyeTransforms(count) => {
                if self.replace_eyes(*count) {
                    (None, Some(Effect::SetEyeTransforms { event: index }), None)
                } else {
                    (None, None, None)
                }
            },
            Event::KeyDown(Keycode::Alphanumeric(key)) => {
                match motion_of_key(*key) {
                    Some((axis, sign)) => {
                        self.steer(axis, sign);
                    },
                    None => {},
                }
                (None, None, None)
            },
            Event::KeyUp(Keycode::Alphanumeric(key)) => {
                match motion_of_key(*key) {
                    Some((axis, _)) => {
                        self.steer(axis, Sign::Zero);
                    },
                    None => {},
                }
                (None, None, None)
            },
            Event::KeyDown(Keycode::Tab) => {
                self.cycle_ui();
                (None, None, None)
            },
            Event::OpenSVG(SceneLoad::Loaded(scene)) => {
                let mode = self.ui.mode;
                let notice = self.show_scene(scene);
                (None, Some(Effect::ReplaceScene { event: index, mode }), notice)
            },
            Event::OpenSVG(SceneLoad::Failed(reason)) => {
                let notice = self.show_failure(reason);
                (None, None, notice)
            },
            Event::User { message_type, message_data } => {
                self.expire(*message_type, *message_data);
                (None, None, None)
            },
            _ => (None, None, None),
        }
    }

    /// The position that `event` reports for the pointer, where a viewer
    /// follows it for which `mouselook_enabled` holds.
    fn position_to_track(event: &Event, mouselook_enabled: bool) -> (position: Option<Point2DI>)
        ensures
            forall|state: DemoAppView|
                state.mouselook_enabled == mouselook_enabled ==> position
                    == #[trigger] state.tracked_position(*event),
    {
        match event {
            Event::MouseDown(position) => Some(*position),
            Event::MouseDragged(position) => Some(*position),
            Event::MouseMoved(position) => {
                if mouselook_enabled {
                    Some(*position)
                } else {
                    None
                }
            },
            _ => None,
        }
    }

    /// Whether `handle_events` may be called with `events`: whether the
    /// pointer can be followed through the batch, and every notice that the
    /// batch posts can be numbered.
    pub fn can_handle_events(&self, events: &Vec<Event>) -> (ok: bool)
        ensures
            ok == self@.can_dispatch(events@),
    {
        let mut last = self.last_mouse_position;
        let mut epoch: u32 = self.message_epoch;
        let ghost start = self@.cleared();
        let mut i: usize = 0;
        while i < events.len()
            invariant
                0 <= i <= events.len(),
                start == self@.cleared(),
                start.accepts(events@.take(i as int)),
                last == start.after_events(events@.take(i as int)).state.last_mouse_position,
                epoch == start.after_events(events@.take(i as int)).state.message_epoch,
                self.mouselook_enabled == start.after_events(
                    events@.take(i as int),
                ).state.mouselook_enabled,
            decreases events.len() - i,
        {
            let ghost now = start.after_events(events@.take(i as int)).state;
            proof {
                assert(events@.take(i + 1).drop_last() =~= events@.take(i as int));
                if start.accepts(events@) {
                    lemma_accepts_prefix(start, events@, i + 1);
                }
                lemma_followed_after_event(now, events@[i as int], i as int);
            }
            match Self::position_to_track(&events[i], self.mouselook_enabled) {
                Some(position) => {
                    assert(now.tracked_position(events@[i as int]) == Some(position));
                    if !position.subtractable(last) {
                        return false;
                    }
                    last = position;
                },
                None => {
                    assert(now.tracked_position(events@[i as int]) is None);
                    if event_posts_notice(&events[i]) {
                        if epoch == u32::MAX {
                            return false;
                        }
                        epoch = epoch + 1;
                    }
                },
            }
            i += 1;
        }
        assert(events@.take(i as int) =~= events@);
        true
    }

    /// Takes in the batch of events that starts a frame, in their order.
    pub fn handle_events(&mut self, events: &Vec<Event>) -> (dispatch: Dispatch)
        requires
            old(self)@.can_dispatch(events@),
        ensures
            final(self)@ == old(self)@.dispatched(events@).state,
            dispatch.ui_events@ == old(self)@.dispatched(events@).ui_events,
            dispatch.effects@ == old(self)@.dispatched(events@).effects,
            dispatch.notices@ == old(self)@.dispatched(events@).notices,
            old(self)@.wf() && !old(self)@.stage.is_under_way() ==> final(self)@.wf(),
    {
        proof {
            lemma_events_leave_frame_alone(old(self)@.cleared(), events@);
        }
        let mut ui_events: Vec<UIEvent> = Vec::new();
        let mut effects: Vec<Effect> = Vec::new();
        let mut notices: Vec<ExpiryNotice> = Vec::new();
        self.dirty = false;
        let ghost start = self@;
        let mut i: usize = 0;
        while i < events.len()
            invariant
                0 <= i <= events.len(),
                start.accepts(events@),
                self@ == start.after_events(events@.take(i as int)).state,
                ui_events@ == start.after_events(events@.take(i as int)).ui_events,
                effects@ == start.after_events(events@.take(i as int)).effects,
                notices@ == start.after_events(events@.take(i as int)).notices,
            decreases events.len() - i,
        {
            proof {
                assert(events@.take(i + 1).drop_last() =~= events@.take(i as int));
                lemma_accepts_prefix(start, events@, i + 1);
            }
            let (ui_event, effect, notice) = self.handle_event(&events[i], i);
            match ui_event {
                Some(ui_event) => {
                    ui_events.push(ui_event);
                },
                None => {},
            }
            match effect {
                Some(effect) => {
                    effects.push(effect);
                },
                None => {},
            }
            match notice {
                Some(notice) => {
                    notices.push(notice);
                },
                None => {},
            }
            i += 1;
        }
        assert(events@.take(i as int) =~= events@);
        Dispatch { ui_events, effects, notices }
    }
}

/// A batch that can be taken in can be taken in up to any of its events.
pub proof fn lemma_accepts_prefix(state: DemoAppView, events: Seq<Event>, n: int)
    requires
        state.accepts(events),
        0 <= n <= events.len(),
    ensures
        state.accepts(events.take(n)),
    decreases events.len() - n,
{
    if n == events.len() {
        assert(events.take(n) =~= events);
    } else {
        lemma_accepts_prefix(state, events, n + 1);
        assert(events.take(n + 1).drop_last() =~= events.take(n));
    }
}

/// Whether two states agree in all that belongs to the frame under way:
/// events of the window touch none of it.
pub open spec fn same_frame(before: DemoAppView, after: DemoAppView) -> bool {
    &&& after.stage == before.stage
    &&& after.render_transform == before.render_transform
    &&& after.current_frame == before.current_frame
    &&& after.gathered_ui_events == before.gathered_ui_events
    &&& after.scene_framebuffer == before.scene_framebuffer
    &&& after.build_time == before.build_time
    &&& after.frame_counter == before.frame_counter
    &&& after.pending_screenshot_path == before.pending_screenshot_path
    &&& after.mouselook_enabled == before.mouselook_enabled
    &&& after.expire_message_event_id == before.expire_message_event_id
    &&& after.ui.settings() == before.ui.settings()
    &&& before.camera.wf() ==> after.camera.wf()
}

/// One event leaves the frame under way alone.
pub proof fn lemma_event_leaves_frame_alone(state: DemoAppView, event: Event, index: int)
    ensures
        same_frame(state, state.after_event(event, index).state),
{
}

/// A batch of events leaves the frame under way alone.
pub proof fn lemma_events_leave_frame_alone(state: DemoAppView, events: Seq<Event>)
    ensures
        same_frame(state, state.after_events(events).state),
    decreases events.len(),
{
    if events.len() > 0 {
        lemma_events_leave_frame_alone(state, events.drop_last());
        lemma_event_leaves_frame_alone(
            state.after_events(events.drop_last()).state,
            events.last(),
            events.len() - 1,
        );
    }
}

/// How one event changes what a batch is checked by: a position that the
/// viewer follows becomes the last one seen, and a notice that is posted
/// raises the number of the latest notice by one.
pub proof fn lemma_followed_after_event(state: DemoAppView, event: Event, index: int)
    ensures
        ({
            let next = state.after_event(event, index).state;
            &&& next.mouselook_enabled == state.mouselook_enabled
            &&& next.last_mouse_position == match state.tracked_position(event) {
                Some(position) => position,
                None => state.last_mouse_position,
            }
            &&& state.tracked_position(event) is Some ==> message_of(event) is None
            &&& next.message_epoch == if posts_notice(event) {
                (state.message_epoch + 1) as u32
            } else {
                state.message_epoch
            }
            &&& state.accepts_event(event) <==> {
                &&& state.tracked_position(event) matches Some(position)
                    ==> position.can_subtract(state.last_mouse_position)
                &&& posts_notice(event) ==> state.message_epoch < u32::MAX
            }
        }),
{
}

/// A key that moves the camera in space sets it going when it is pressed,
/// and its release brings the camera to rest along the key's axis.
pub proof fn lemma_release_stops_camera(state: DemoAppView, key: u8)
    requires
        state.camera.in_space(),
        key_motion(key) is Some,
    ensures
        ({
            let (axis, sign) = key_motion(key).unwrap();
            let pressed = seq![Event::KeyDown(Keycode::Alphanumeric(key))];
            let released = pressed.push(Event::KeyUp(Keycode::Alphanumeric(key)));
            &&& state.after_events(pressed).state.camera.velocity_of().along(axis) == sign
            &&& sign != Sign::Zero
            &&& state.after_events(released).state.camera.velocity_of().along(axis) == Sign::Zero
            &&& state.after_events(released).state.dirty
        }),
{
    let pressed = seq![Event::KeyDown(Keycode::Alphanumeric(key))];
    let released = pressed.push(Event::KeyUp(Keycode::Alphanumeric(key)));
    assert(pressed.drop_last() =~= Seq::<Event>::empty());
    assert(released.drop_last() =~= pressed);
    assert(state.after_events(pressed.drop_last()).state == state);
}

/// Of two keys that are held on one axis, the one that was pressed last
/// says where the camera goes. Keys are not counted: when either of the two
/// is released, the camera rests along that axis though the other key is still
/// held.
pub proof fn lemma_last_key_wins(state: DemoAppView, first: u8, second: u8, released: u8)
    requires
        state.camera.in_space(),
        key_motion(first) is Some,
        key_motion(second) is Some,
        key_motion(first).unwrap().0 == key_motion(second).unwrap().0,
        released == first || released == second,
    ensures
        ({
            let (axis, sign) = key_motion(second).unwrap();
            let both = seq![
                Event::KeyDown(Keycode::Alphanumeric(first)),
                Event::KeyDown(Keycode::Alphanumeric(second)),
            ];
            let one = both.push(Event::KeyUp(Keycode::Alphanumeric(released)));
            &&& state.after_events(both).state.camera.velocity_of().along(axis) == sign
            &&& state.after_events(one).state.camera.velocity_of().along(axis) == Sign::Zero
        }),
{
    let only = seq![Event::KeyDown(Keycode::Alphanumeric(first))];
    let both = seq![
        Event::KeyDown(Keycode::Alphanumeric(first)),
        Event::KeyDown(Keycode::Alphanumeric(second)),
    ];
    let one = both.push(Event::KeyUp(Keycode::Alphanumeric(released)));
    assert(only.drop_last() =~= Seq::<Event>::empty());
    assert(both.drop_last() =~= only);
    assert(one.drop_last() =~= both);
    assert(state.after_events(only.drop_last()).state == state);
    assert(state.after_events(only).state.camera.in_space());
    assert(state.after_events(both).state.camera.in_space());
}

/// The timer of an earlier notice, when its event comes in after a later
/// notice was posted, changes nothing at all: the later notice stays, and
/// nothing counts as new. The timer of the later notice removes it.
pub proof fn lemma_stale_timer_event_is_dropped(
    state: DemoAppView,
    first: Seq<char>,
    second: Seq<char>,
    index: int,
)
    requires
        first.len() > 0,
        second.len() > 0,
        state.board().can_post(first),
        state.board().posted(first).can_post(second),
    ensures
        ({
            let id = state.expire_message_event_id;
            let early = state.board().notice_for(id, first).unwrap();
            let once = state.with_board(state.board().posted(first));
            let late = once.board().notice_for(id, second).unwrap();
            let twice = once.with_board(once.board().posted(second));
            let early_event = Event::User {
                message_type: early.event_id,
                message_data: early.epoch,
            };
            let late_event = Event::User { message_type: late.event_id, message_data: late.epoch };
            &&& twice.ui.message == second
            &&& twice.after_event(early_event, index).state == twice
            &&& twice.after_event(late_event, index).state.ui.message.len() == 0
            &&& twice.after_event(late_event, index).state.dirty
        }),
{
}

/// No event lowers the number of the latest notice: an event that posts a
/// notice raises it by one, and every other event leaves it as it is.
pub proof fn lemma_event_keeps_epoch(state: DemoAppView, event: Event, index: int)
    requires
        state.accepts_event(event),
    ensures
        state.after_event(event, index).state.message_epoch >= state.message_epoch,
        posts_notice(event) <==> state.after_event(event, index).state.message_epoch
            == state.message_epoch + 1,
        !posts_notice(event) <==> state.after_event(event, index).state.message_epoch
            == state.message_epoch,
        posts_notice(event) <==> state.after_event(event, index).notice is Some,
{
}

/// No batch of events lowers the number of the latest notice.
pub proof fn lemma_events_keep_epoch(state: DemoAppView, events: Seq<Event>)
    requires
        state.accepts(events),
    ensures
        state.after_events(events).state.message_epoch >= state.message_epoch,
        state.after_events(events).state.message_epoch == state.message_epoch
            + state.after_events(events).notices.len(),
    decreases events.len(),
{
    if events.len() > 0 {
        lemma_events_keep_epoch(state, events.drop_last());
        lemma_event_keeps_epoch(
            state.after_events(events.drop_last()).state,
            events.last(),
            events.len() - 1,
        );
    }
}

/// A warning about a scene that was opened later outlives the timers of all
/// notices from before: when the event of such a timer comes in, the warning
/// stays on display, and only its own timer removes it.
pub proof fn lemma_opened_scene_outlives_old_timers(
    state: DemoAppView,
    scene: SceneSummary,
    old_epoch: u32,
    index: int,
)
    requires
        !all_supported(scene.result_flags),
        state.message_epoch < u32::MAX,
        old_epoch <= state.message_epoch,
    ensures
        ({
            let opened = state.after_event(Event::OpenSVG(SceneLoad::Loaded(scene)), index);
            let id = state.expire_message_event_id;
            let early = Event::User { message_type: id, message_data: old_epoch };
            &&& opened.state.ui.message == building_message(scene.result_flags)
            &&& opened.state.message_epoch == state.message_epoch + 1
            &&& opened.notice == Some(
                ExpiryNotice {
                    event_id: id,
                    epoch: (state.message_epoch + 1) as u32,
                    delay_secs: crate::message::MESSAGE_TIMEOUT_SECS,
                },
            )
            &&& opened.state.after_event(early, index + 1).state == opened.state
            &&& opened.state.after_event(
                Event::User { message_type: id, message_data: opened.notice.unwrap().epoch },
                index + 1,
            ).state.ui.message.len() == 0
        }),
{
    lemma_warning_is_not_empty(scene.result_flags);
}

} // verus!
