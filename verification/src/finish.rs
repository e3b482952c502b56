//! The close of a frame.
//!
//! A frame is closed in two steps, because the controls run in between.
//! The first step settles what the frame cost, hands out a screenshot that
//! is due and the events that the controls are to see. The host then updates
//! the controls. The second step takes what the controls answered, follows a
//! change of mode, and lets the events that the controls left over act on the
//! camera.

use crate::camera::{Camera, Mode};
use crate::demo::{DemoApp, DemoAppView, Stage};
use crate::dispatch::{lemma_events_keep_epoch, lemma_events_leave_frame_alone};
use crate::effect::Effect;
use crate::frame::{
    aggregate_stats, aggregate_times, total_stats, total_time, RenderCommand, RenderStats,
    TimeSpan,
};
use crate::geometry::Point2DI;
use crate::message::{emit_message, ExpiryNotice};
use crate::options::{OptionsView, UIVisibility};
use crate::window::{Event, SceneSummary, WindowSize};
use crate::ui::{DemoUIView, UIAction, UIEvent, UISettings};
use vstd::prelude::*;

verus! {

/// A picture of the framebuffer that the host is to save.
#[derive(Debug)]
pub struct Screenshot {
    pub path: String,
    /// The size of the framebuffer in pixels.
    pub size: Point2DI,
}

/// A `Screenshot` with its path as a sequence of characters.
pub struct ScreenshotView {
    pub path: Seq<char>,
    pub size: Point2DI,
}

impl View for Screenshot {
    type V = ScreenshotView;

    open spec fn view(&self) -> ScreenshotView {
        ScreenshotView { path: self.path@, size: self.size }
    }
}

/// What a frame cost, for the display of statistics.
#[derive(Clone, Copy, Debug, PartialEq, Eq, Structural)]
pub struct Sample {
    /// What the renderer counted over all scenes of the frame.
    pub stats: RenderStats,
    /// How long the latest build of the scene took.
    pub build_time: TimeSpan,
    /// How long the device took for all scenes of the frame, where it said
    /// so for any.
    pub rendering_time: Option<TimeSpan>,
}

/// What the host has to do once a frame is closed, in this order.
#[derive(Debug)]
pub struct FinishPlan {
    /// The picture to save, if one is due.
    pub screenshot: Option<Screenshot>,
    /// What to add to the statistics, if the frame cost anything.
    pub sample: Option<Sample>,
    /// Whether the statistics are drawn.
    pub draw_debug_ui: bool,
    /// The events to queue for the controls.
    pub ui_events: Vec<UIEvent>,
    /// Where the pointer was last seen, for the controls to go by.
    pub mouse_position: Point2DI,
    /// Whether the controls are updated and drawn.
    pub update_ui: bool,
}

/// A `FinishPlan` as values.
pub struct FinishPlanView {
    pub screenshot: Option<ScreenshotView>,
    pub sample: Option<Sample>,
    pub draw_debug_ui: bool,
    pub ui_events: Seq<UIEvent>,
    pub mouse_position: Point2DI,
    pub update_ui: bool,
}

/// The picture that is due, where there is one.
pub open spec fn screenshot_view(screenshot: Option<Screenshot>) -> Option<ScreenshotView> {
    match screenshot {
        Some(screenshot) => Some(screenshot@),
        None => None,
    }
}

impl View for FinishPlan {
    type V = FinishPlanView;

    open spec fn view(&self) -> FinishPlanView {
        FinishPlanView {
            screenshot: screenshot_view(self.screenshot),
            sample: self.sample,
            draw_debug_ui: self.draw_debug_ui,
            ui_events: self.ui_events@,
            mouse_position: self.mouse_position,
            update_ui: self.update_ui,
        }
    }
}

impl DemoAppView {
    /// The times that the device took for the scenes of the frame under way,
    /// with the one that it reported last.
    pub open spec fn closing_times(self, rendering_time: Option<TimeSpan>) -> Seq<TimeSpan>
        recommends
            self.current_frame is Some,
    {
        let times = self.current_frame.unwrap().scene_rendering_times;
        match rendering_time {
            Some(time) => times.push(time),
            None => times,
        }
    }

    /// Whether the costs of the frame under way can be added up.
    pub open spec fn can_finish(self, rendering_time: Option<TimeSpan>) -> bool
        recommends
            self.current_frame is Some,
    {
        &&& total_stats(self.current_frame.unwrap().scene_stats).fits()
        &&& total_time(self.closing_times(rendering_time)) <= u128::MAX
    }

    /// What the frame under way cost. There is nothing to say of a frame
    /// for which neither the renderer nor the device reported anything.
    pub open spec fn sample(self, rendering_time: Option<TimeSpan>) -> Option<Sample>
        recommends
            self.current_frame is Some,
            self.build_time is Some,
            self.can_finish(rendering_time),
    {
        let stats = self.current_frame.unwrap().scene_stats;
        let times = self.closing_times(rendering_time);
        let total = total_stats(stats);
        if stats.len() == 0 && times.len() == 0 {
            None
        } else {
            Some(
                Sample {
                    stats: RenderStats {
                        path_count: total.path_count as usize,
                        fill_count: total.fill_count as usize,
                        alpha_tile_count: total.alpha_tile_count as usize,
                        solid_tile_count: total.solid_tile_count as usize,
                    },
                    build_time: self.build_time.unwrap(),
                    rendering_time: if times.len() == 0 {
                        None
                    } else {
                        Some(TimeSpan { nanos: total_time(times) as u128 })
                    },
                },
            )
        }
    }

    /// The picture that is due, if the user asked for one.
    pub open spec fn due_screenshot(self) -> Option<ScreenshotView> {
        match self.pending_screenshot_path {
            Some(path) => Some(ScreenshotView { path, size: self.window_size.device_size }),
            None => None,
        }
    }

    /// What the host has to do once the frame under way is closed.
    pub open spec fn finish_plan(self, rendering_time: Option<TimeSpan>) -> FinishPlanView
        recommends
            self.current_frame is Some,
            self.build_time is Some,
            self.can_finish(rendering_time),
    {
        FinishPlanView {
            screenshot: self.due_screenshot(),
            sample: self.sample(rendering_time),
            draw_debug_ui: self.options.ui != UIVisibility::Hidden,
            ui_events: self.current_frame.unwrap().ui_events,
            mouse_position: self.last_mouse_position,
            update_ui: self.options.ui == UIVisibility::All,
        }
    }

    /// The viewer after the frame under way was closed: its record and its
    /// transform are gone, no picture is due any more, and events for the
    /// controls count as something new to show.
    pub open spec fn finished(self) -> DemoAppView
        recommends
            self.current_frame is Some,
    {
        DemoAppView {
            pending_screenshot_path: None,
            dirty: self.dirty || self.current_frame.unwrap().ui_events.len() > 0,
            ui: DemoUIView {
                show_text_effects: self.scene_metadata.monochrome_color is Some,
                ..self.ui
            },
            current_frame: None,
            render_transform: None,
            stage: Stage::Finished,
            ..self
        }
    }
}

impl DemoApp {
    /// Whether there is a frame under way whose costs can be added up when
    /// it is closed with `rendering_time`.
    pub fn can_finish_drawing_frame(&self, rendering_time: Option<TimeSpan>) -> (ok: bool)
        ensures
            ok == (self@.current_frame is Some && self@.can_finish(rendering_time)),
    {
        match &self.current_frame {
            Some(frame) => {
                if aggregate_stats(&frame.scene_stats).is_none() {
                    return false;
                }
                proof {
                    if let Some(time) = rendering_time {
                        lemma_total_time_push(frame.scene_rendering_times@, time);
                    }
                }
                match aggregate_times(&frame.scene_rendering_times) {
                    Some(total) => match rendering_time {
                        Some(time) => total.nanos.checked_add(time.nanos).is_some(),
                        None => true,
                    },
                    None => false,
                }
            },
            None => false,
        }
    }

    /// Hands out the picture that is due.
    pub fn take_screenshot(&mut self) -> (screenshot: Option<Screenshot>)
        ensures
            screenshot_view(screenshot) == old(self)@.due_screenshot(),
            final(self)@ == (DemoAppView { pending_screenshot_path: None, ..old(self)@ }),
    {
        match self.pending_screenshot_path.take() {
            Some(path) => Some(Screenshot { path, size: self.window_size.device_size }),
            None => None,
        }
    }

    /// Closes the frame. `rendering_time` is the time that the device
    /// reported since the last frame was closed, if it reported any.
    pub fn finish_drawing_frame(&mut self, rendering_time: Option<TimeSpan>) -> (plan: FinishPlan)
        requires
            old(self)@.wf(),
            old(self)@.stage.is_drawn(),
            old(self)@.build_time is Some,
            old(self)@.can_finish(rendering_time),
        ensures
            final(self)@ == old(self)@.finished(),
            final(self)@.wf(),
            plan@ == old(self)@.finish_plan(rendering_time),
    {
        let mut frame = self.current_frame.take().unwrap();
        match rendering_time {
            Some(time) => {
                frame.scene_rendering_times.push(time);
            },
            None => {},
        }
        let build_time = self.build_time.unwrap();
        let screenshot = self.take_screenshot();
        let sample = if !frame.scene_stats.is_empty() || !frame.scene_rendering_times.is_empty() {
            let stats = aggregate_stats(&frame.scene_stats).unwrap();
            let rendering_time = if frame.scene_rendering_times.is_empty() {
                None
            } else {
                aggregate_times(&frame.scene_rendering_times)
            };
            Some(Sample { stats, build_time, rendering_time })
        } else {
            None
        };
        if frame.ui_events.len() > 0 {
            self.dirty = true;
        }
        self.ui.show_text_effects = self.scene_metadata.monochrome_color.is_some();
        self.render_transform = None;
        self.stage = Stage::Finished;
        FinishPlan {
            screenshot,
            sample,
            draw_debug_ui: !matches!(self.options.ui, UIVisibility::Hidden),
            ui_events: frame.ui_events,
            mouse_position: self.last_mouse_position,
            update_ui: matches!(self.options.ui, UIVisibility::All),
        }
    }
}

/// One more time at the end of a list adds just that time to the sum.
proof fn lemma_total_time_push(times: Seq<TimeSpan>, last: TimeSpan)
    ensures
        total_time(times.push(last)) == total_time(times) + last.nanos,
{
    assert(times.push(last).drop_last() =~= times);
}

/// What an answer of the controls, or an event that they left over, leads
/// to.
pub struct Followup {
    pub state: DemoAppView,
    pub effects: Seq<Effect>,
}

/// The effects up to now with one more, where there is one.
pub open spec fn with_effect(effects: Seq<Effect>, effect: Option<Effect>) -> Seq<Effect> {
    match effect {
        Some(effect) => effects.push(effect),
        None => effects,
    }
}

impl DemoAppView {
    /// The viewer after the controls asked for `action`. A request to zoom
    /// changes what a flat page shows; one to turn it does not by itself ask
    /// for a new frame.
    pub open spec fn after_action(self, action: UIAction) -> DemoAppView {
        match action {
            UIAction::Nothing => self,
            UIAction::ModelChanged => self.touched(),
            UIAction::TakeScreenshot(path) => DemoAppView {
                pending_screenshot_path: Some(path@),
                dirty: true,
                ..self
            },
            UIAction::ZoomIn | UIAction::ZoomOut => if self.camera.in_space() {
                self
            } else {
                self.touched()
            },
            UIAction::Rotate => self,
        }
    }

    /// What the host has to do when the controls asked for `action`. Only a
    /// flat page is zoomed or turned.
    pub open spec fn action_effect(self, action: UIAction) -> Option<Effect> {
        if self.camera.in_space() {
            None
        } else {
            match action {
                UIAction::ZoomIn => Some(Effect::ZoomButton { zoom_in: true }),
                UIAction::ZoomOut => Some(Effect::ZoomButton { zoom_in: false }),
                UIAction::Rotate => Some(Effect::RotateTo),
                _ => None,
            }
        }
    }

    /// Whether the camera is not the one for the mode that the controls
    /// show.
    pub open spec fn mode_changed(self) -> bool {
        self.camera.current_mode() != self.ui.mode
    }

    /// The viewer after it followed the mode that the controls show: where
    /// the mode changed, the camera is made anew, and nothing of the one
    /// before is kept.
    pub open spec fn switched(self) -> DemoAppView {
        if self.mode_changed() {
            DemoAppView { camera: Camera::fresh(self.ui.mode), ..self }
        } else {
            self
        }
    }

    /// What the host has to do to follow the mode that the controls show.
    pub open spec fn switch_effect(self) -> Option<Effect> {
        if self.mode_changed() {
            Some(Effect::RebuildCamera { mode: self.ui.mode })
        } else {
            None
        }
    }

    /// The viewer after an event that the controls left over: a press on a
    /// scene in space switches on or off whether the pointer turns the
    /// camera.
    pub open spec fn after_ui_event(self, event: UIEvent) -> DemoAppView {
        match event {
            UIEvent::MouseDown(_) => if self.camera.in_space() {
                DemoAppView { mouselook_enabled: !self.mouselook_enabled, ..self }
            } else {
                self
            },
            UIEvent::MouseDragged(_) => self,
        }
    }

    /// What the host has to do for an event that the controls left over: a
    /// drag moves a flat page along.
    pub open spec fn ui_event_effect(self, event: UIEvent) -> Option<Effect> {
        match event {
            UIEvent::MouseDragged(position) => if self.camera.in_space() {
                None
            } else {
                Some(Effect::Translate { offset: position.relative })
            },
            UIEvent::MouseDown(_) => None,
        }
    }

    /// What the events that the controls left over lead to, taken in their
    /// order.
    pub open spec fn after_ui_events(self, events: Seq<UIEvent>) -> Followup
        decreases events.len(),
    {
        if events.len() == 0 {
            Followup { state: self, effects: Seq::empty() }
        } else {
            let before = self.after_ui_events(events.drop_last());
            Followup {
                state: before.state.after_ui_event(events.last()),
                effects: with_effect(before.effects, before.state.ui_event_effect(events.last())),
            }
        }
    }

    /// The viewer with one more frame shown. The count starts again from
    /// zero after the largest number.
    pub open spec fn counted(self) -> DemoAppView {
        DemoAppView {
            frame_counter: if self.frame_counter == u32::MAX {
                0
            } else {
                (self.frame_counter + 1) as u32
            },
            stage: Stage::Idle,
            ..self
        }
    }

    /// The mode that the viewer takes over when the controls ask for
    /// `requested`: stereo only where it can be had, and else the mode that
    /// the camera is in.
    pub open spec fn granted_mode(self, requested: Mode, stereo_available: bool) -> Mode {
        if requested == Mode::VR && !stereo_available {
            self.camera.current_mode()
        } else {
            requested
        }
    }

    /// The viewer with the controls as the user left them, but for a mode
    /// that cannot be had: the controls then go back to the mode of the
    /// camera.
    pub open spec fn set_to(self, settings: UISettings, stereo_available: bool) -> DemoAppView {
        DemoAppView {
            ui: self.ui.with_settings(
                UISettings {
                    mode: self.granted_mode(settings.mode, stereo_available),
                    ..settings
                },
            ),
            ..self
        }
    }

    /// What the answer of the controls leads to: the controls stand as the
    /// user left them, their request is followed, and then a change of mode;
    /// the effects come in that order.
    pub open spec fn answered(
        self,
        settings: UISettings,
        stereo_available: bool,
        action: UIAction,
    ) -> Followup {
        let set = self.set_to(settings, stereo_available);
        let asked = set.after_action(action);
        Followup {
            state: asked.switched(),
            effects: with_effect(
                with_effect(Seq::empty(), set.action_effect(action)),
                asked.switch_effect(),
            ),
        }
    }

    /// What the answer of the controls leads to, up to the frame being
    /// shown: the answer is followed as `answered` says, then the events
    /// that the controls left over act on the camera, and the frame is
    /// counted.
    pub open spec fn presented(
        self,
        settings: UISettings,
        stereo_available: bool,
        action: UIAction,
        unhandled: Seq<UIEvent>,
    ) -> Followup {
        let answered = self.answered(settings, stereo_available, action);
        let rest = answered.state.after_ui_events(unhandled);
        Followup { state: rest.state.counted(), effects: answered.effects + rest.effects }
    }
}

impl DemoApp {
    /// Follows a request of the controls, and says what the host has to do
    /// for it.
    pub fn handle_ui_action(&mut self, ui_action: &UIAction) -> (effect: Option<Effect>)
        ensures
            final(self)@ == old(self)@.after_action(*ui_action),
            effect == old(self)@.action_effect(*ui_action),
    {
        let flat = !self.camera.is_3d();
        match ui_action {
            UIAction::Nothing => None,
            UIAction::ModelChanged => {
                self.dirty = true;
                None
            },
            UIAction::TakeScreenshot(path) => {
                self.pending_screenshot_path = Some(path.clone());
                self.dirty = true;
                None
            },
            UIAction::ZoomIn => {
                if flat {
                    self.dirty = true;
                    Some(Effect::ZoomButton { zoom_in: true })
                } else {
                    None
                }
            },
            UIAction::ZoomOut => {
                if flat {
                    self.dirty = true;
                    Some(Effect::ZoomButton { zoom_in: false })
                } else {
                    None
                }
            },
            UIAction::Rotate => {
                if flat {
                    Some(Effect::RotateTo)
                } else {
                    None
                }
            },
        }
    }

    /// Follows the mode that the controls show.
    fn switch_mode(&mut self) -> (effect: Option<Effect>)
        ensures
            final(self)@ == old(self)@.switched(),
            effect == old(self)@.switch_effect(),
    {
        let mode = self.ui.mode;
        if self.camera.mode() != mode {
            self.camera = Camera::new(mode);
            Some(Effect::RebuildCamera { mode })
        } else {
            None
        }
    }

    /// Lets an event that the controls left over act on the camera.
    fn handle_ui_event(&mut self, event: &UIEvent) -> (effect: Option<Effect>)
        ensures
            final(self)@ == old(self)@.after_ui_event(*event),
            effect == old(self)@.ui_event_effect(*event),
    {
        match event {
            UIEvent::MouseDown(_) => {
                if self.camera.is_3d() {
                    self.mouselook_enabled = !self.mouselook_enabled;
                }
                None
            },
            UIEvent::MouseDragged(position) => {
                if self.camera.is_3d() {
                    None
                } else {
                    Some(Effect::Translate { offset: position.relative })
                }
            },
        }
    }

    /// Follows the answer of the controls: their settings, their request,
    /// and a change of mode.
    fn follow_answer(
        &mut self,
        settings: UISettings,
        stereo_available: bool,
        ui_action: &UIAction,
    ) -> (effects: Vec<Effect>)
        ensures
            final(self)@ == old(self)@.answered(settings, stereo_available, *ui_action).state,
            effects@ == old(self)@.answered(settings, stereo_available, *ui_action).effects,
    {
        let mut effects: Vec<Effect> = Vec::new();
        let mode = if matches!(settings.mode, Mode::VR) && !stereo_available {
            self.camera.mode()
        } else {
            settings.mode
        };
        self.ui.apply_settings(
            UISettings {
                mode,
                background_color: settings.background_color,
                gamma_correction_effect_enabled: settings.gamma_correction_effect_enabled,
                stem_darkening_effect_enabled: settings.stem_darkening_effect_enabled,
                subpixel_aa_effect_enabled: settings.subpixel_aa_effect_enabled,
            },
        );
        assert(self@ == old(self)@.set_to(settings, stereo_available));
        match self.handle_ui_action(ui_action) {
            Some(effect) => {
                effects.push(effect);
            },
            None => {},
        }
        match self.switch_mode() {
            Some(effect) => {
                effects.push(effect);
            },
            None => {},
        }
        effects
    }

    /// Lets the events that the controls left over act on the camera, in
    /// their order.
    fn handle_ui_events(&mut self, unhandled: &Vec<UIEvent>) -> (effects: Vec<Effect>)
        ensures
            final(self)@ == old(self)@.after_ui_events(unhandled@).state,
            effects@ == old(self)@.after_ui_events(unhandled@).effects,
    {
        let mut effects: Vec<Effect> = Vec::new();
        let mut i: usize = 0;
        while i < unhandled.len()
            invariant
                0 <= i <= unhandled.len(),
                self@ == old(self)@.after_ui_events(unhandled@.take(i as int)).state,
                effects@ == old(self)@.after_ui_events(unhandled@.take(i as int)).effects,
            decreases unhandled.len() - i,
        {
            assert(unhandled@.take(i + 1).drop_last() =~= unhandled@.take(i as int));
            match self.handle_ui_event(&unhandled[i]) {
                Some(effect) => {
                    effects.push(effect);
                },
                None => {},
            }
            i += 1;
        }
        assert(unhandled@.take(i as int) =~= unhandled@);
        effects
    }

    /// Counts the frame that is shown.
    fn count_frame(&mut self)
        ensures
            final(self)@ == old(self)@.counted(),
    {
        self.frame_counter = if self.frame_counter == u32::MAX {
            0
        } else {
            self.frame_counter + 1
        };
        self.stage = Stage::Idle;
    }

    /// Ends the frame after the controls were updated. `settings` is how the
    /// user left the controls, `stereo_available` whether the host has what
    /// it takes to show the scene to two eyes, `ui_action` what the controls
    /// asked for, and `unhandled` the events that they did not take for
    /// themselves. Where the controls were not updated, the settings are the
    /// ones from before, nothing is asked for, and all events are left over.
    ///
    /// A change to stereo that cannot be had is turned down: the camera
    /// stays, and the controls go back to the mode of the camera.
    pub fn present_frame(
        &mut self,
        settings: UISettings,
        stereo_available: bool,
        ui_action: &UIAction,
        unhandled: &Vec<UIEvent>,
    ) -> (effects: Vec<Effect>)
        requires
            old(self)@.wf(),
            old(self)@.stage == Stage::Finished,
        ensures
            final(self)@ == old(self)@.presented(
                settings,
                stereo_available,
                *ui_action,
                unhandled@,
            ).state,
            final(self)@.wf(),
            effects@ == old(self)@.presented(
                settings,
                stereo_available,
                *ui_action,
                unhandled@,
            ).effects,
    {
        let mut effects = self.follow_answer(settings, stereo_available, ui_action);
        let mut rest = self.handle_ui_events(unhandled);
        effects.append(&mut rest);
        self.count_frame();
        proof {
            lemma_presented_is_sound(
                old(self)@,
                settings,
                stereo_available,
                *ui_action,
                unhandled@,
            );
        }
        effects
    }

    /// Tells the user that a picture could not be saved: the reason goes on
    /// display as a notice. Says what the host has to schedule so that the
    /// notice goes away again.
    pub fn screenshot_failed(&mut self, reason: String) -> (notice: Option<ExpiryNotice>)
        requires
            old(self)@.board().can_post(reason@),
        ensures
            final(self)@ == old(self)@.with_board(old(self)@.board().posted(reason@)),
            notice == old(self)@.board().notice_for(old(self)@.expire_message_event_id, reason@),
            old(self)@.wf() ==> final(self)@.wf(),
    {
        emit_message(&mut self.ui, &mut self.message_epoch, self.expire_message_event_id, reason)
    }
}

/// The events that the controls left over change nothing but whether the
/// pointer turns the camera.
pub proof fn lemma_ui_events_leave_frame_alone(state: DemoAppView, events: Seq<UIEvent>)
    ensures
        state.after_ui_events(events).state == (DemoAppView {
            mouselook_enabled: state.after_ui_events(events).state.mouselook_enabled,
            ..state
        }),
    decreases events.len(),
{
    if events.len() > 0 {
        lemma_ui_events_leave_frame_alone(state, events.drop_last());
    }
}

/// A frame that was closed is sound again once it is shown, whatever the
/// controls answered, and the camera is then in the mode that the controls
/// show.
pub proof fn lemma_presented_is_sound(
    state: DemoAppView,
    settings: UISettings,
    stereo_available: bool,
    action: UIAction,
    unhandled: Seq<UIEvent>,
)
    requires
        state.wf(),
        state.stage == Stage::Finished,
    ensures
        ({
            let shown = state.presented(settings, stereo_available, action, unhandled).state;
            &&& shown.wf()
            &&& shown.stage == Stage::Idle
            &&& shown.ui.mode == state.granted_mode(settings.mode, stereo_available)
            &&& shown.camera.current_mode() == shown.ui.mode
        }),
{
    let answered = state.answered(settings, stereo_available, action).state;
    lemma_ui_events_leave_frame_alone(answered, unhandled);
}

/// A change to stereo that cannot be had is turned down: the camera stays as
/// it is, the controls go back to the mode of the camera, the host is not
/// asked for a new camera, and the frame is shown all the same.
pub proof fn lemma_stereo_falls_back(
    state: DemoAppView,
    settings: UISettings,
    action: UIAction,
    unhandled: Seq<UIEvent>,
)
    requires
        state.wf(),
        state.stage == Stage::Finished,
        settings.mode == Mode::VR,
    ensures
        ({
            let shown = state.presented(settings, false, action, unhandled);
            &&& shown.state.camera == state.camera
            &&& shown.state.camera.wf()
            &&& shown.state.ui.mode == state.camera.current_mode()
            &&& forall|mode: Mode| !shown.effects.contains(Effect::RebuildCamera { mode })
            &&& shown.state.stage == Stage::Idle
            &&& shown.state.wf()
        }),
{
    let shown = state.presented(settings, false, action, unhandled);
    lemma_presented_is_sound(state, settings, false, action, unhandled);
    lemma_switch_rebuilds_camera(state, settings, false, action, unhandled);
    assert forall|mode: Mode| !shown.effects.contains(Effect::RebuildCamera { mode }) by {
        if mode != state.granted_mode(settings.mode, false) {
            lemma_rebuilds_only_for_granted_mode(state, settings, false, action, unhandled, mode);
        }
    }
}

/// When the mode that the viewer takes over is another than the camera is
/// in, the camera is made anew for that mode and the host is told to make its
/// transforms anew; otherwise the camera stays and the host is told nothing
/// of the kind.
pub proof fn lemma_switch_rebuilds_camera(
    state: DemoAppView,
    settings: UISettings,
    stereo_available: bool,
    action: UIAction,
    unhandled: Seq<UIEvent>,
)
    ensures
        ({
            let shown = state.presented(settings, stereo_available, action, unhandled);
            let mode = state.granted_mode(settings.mode, stereo_available);
            let rebuild = Effect::RebuildCamera { mode };
            if state.camera.current_mode() != mode {
                shown.state.camera == Camera::fresh(mode) && shown.effects.contains(rebuild)
            } else {
                shown.state.camera == state.camera && !shown.effects.contains(rebuild)
            }
        }),
{
    let answered = state.answered(settings, stereo_available, action);
    let rest = answered.state.after_ui_events(unhandled);
    let shown = state.presented(settings, stereo_available, action, unhandled);
    let mode = state.granted_mode(settings.mode, stereo_available);
    let rebuild = Effect::RebuildCamera { mode };
    lemma_ui_events_leave_frame_alone(answered.state, unhandled);
    lemma_ui_events_rebuild_nothing(answered.state, unhandled, mode);
    if state.camera.current_mode() != mode {
        let at = answered.effects.len() - 1;
        assert(answered.effects[at] == rebuild);
        assert(shown.effects[at] == rebuild);
    } else {
        assert forall|i: int| 0 <= i < shown.effects.len() implies shown.effects[i] != rebuild by {
            if i >= answered.effects.len() {
                assert(shown.effects[i] == rest.effects[i - answered.effects.len()]);
            }
        }
    }
}

/// The host is never asked for a camera of another mode than the one that
/// the viewer takes over.
proof fn lemma_rebuilds_only_for_granted_mode(
    state: DemoAppView,
    settings: UISettings,
    stereo_available: bool,
    action: UIAction,
    unhandled: Seq<UIEvent>,
    mode: Mode,
)
    requires
        mode != state.granted_mode(settings.mode, stereo_available),
    ensures
        !state.presented(settings, stereo_available, action, unhandled).effects.contains(
            Effect::RebuildCamera { mode },
        ),
{
    let answered = state.answered(settings, stereo_available, action);
    let rest = answered.state.after_ui_events(unhandled);
    let shown = state.presented(settings, stereo_available, action, unhandled);
    let rebuild = Effect::RebuildCamera { mode };
    lemma_ui_events_rebuild_nothing(answered.state, unhandled, mode);
    assert forall|i: int| 0 <= i < shown.effects.len() implies shown.effects[i] != rebuild by {
        if i >= answered.effects.len() {
            assert(shown.effects[i] == rest.effects[i - answered.effects.len()]);
        }
    }
}

/// The events that the controls left over never ask for a new camera.
proof fn lemma_ui_events_rebuild_nothing(state: DemoAppView, events: Seq<UIEvent>, mode: Mode)
    ensures
        !state.after_ui_events(events).effects.contains(Effect::RebuildCamera { mode }),
    decreases events.len(),
{
    if events.len() > 0 {
        lemma_ui_events_rebuild_nothing(state, events.drop_last(), mode);
    }
}

/// A viewer that leaves the flat page for another mode and comes back has
/// the camera of a viewer that was started on the flat page: nothing of the
/// time in space is left, whatever the camera did there, whatever the
/// controls asked for, and whatever events they left over. The host is told
/// to make the transforms anew, once for each change.
pub proof fn lemma_mode_round_trip(
    state: DemoAppView,
    away: UISettings,
    stereo_available: bool,
    later: DemoAppView,
    back: UISettings,
    action: UIAction,
    unhandled: Seq<UIEvent>,
    window_size: WindowSize,
    options: OptionsView,
    expire_message_event_id: u32,
    scene: SceneSummary,
)
    requires
        state.camera.current_mode() == Mode::TwoD,
        away.mode == Mode::ThreeD || (away.mode == Mode::VR && stereo_available),
        later.camera.in_space(),
        back.mode == Mode::TwoD,
        options.mode == Mode::TwoD,
    ensures
        ({
            let there = state.finished().presented(away, stereo_available, action, unhandled);
            let here = later.finished().presented(back, stereo_available, action, unhandled);
            let fresh = DemoAppView::initial(window_size, options, expire_message_event_id, scene);
            &&& there.state.camera == Camera::fresh(away.mode)
            &&& there.state.camera.in_space()
            &&& there.effects.contains(Effect::RebuildCamera { mode: away.mode })
            &&& here.state.camera == fresh.camera
            &&& here.state.camera == Camera::TwoD
            &&& here.effects.contains(Effect::RebuildCamera { mode: Mode::TwoD })
        }),
{
    lemma_switch_rebuilds_camera(state.finished(), away, stereo_available, action, unhandled);
    lemma_switch_rebuilds_camera(later.finished(), back, stereo_available, action, unhandled);
}

/// No step of a frame lowers the number of the latest notice: it goes up by
/// one with each notice that is posted, by an event or for a picture that
/// could not be saved, and at no other time.
pub proof fn lemma_steps_keep_epoch(
    state: DemoAppView,
    events: Seq<Event>,
    eye_viewport_size: Point2DI,
    commands: Seq<RenderCommand>,
    stats: RenderStats,
    settings: UISettings,
    stereo_available: bool,
    action: UIAction,
    unhandled: Seq<UIEvent>,
    message: Seq<char>,
)
    requires
        state.can_dispatch(events),
        state.board().can_post(message),
    ensures
        state.prepared(events, eye_viewport_size).message_epoch >= state.message_epoch,
        state.prepared(events, eye_viewport_size).message_epoch == state.message_epoch
            + state.dispatched(events).notices.len(),
        state.built().message_epoch == state.message_epoch,
        state.drawn().message_epoch == state.message_epoch,
        state.rendered(commands, stats).message_epoch == state.message_epoch,
        state.composited().message_epoch == state.message_epoch,
        state.finished().message_epoch == state.message_epoch,
        state.presented(settings, stereo_available, action, unhandled).state.message_epoch
            == state.message_epoch,
        state.with_board(state.board().posted(message)).message_epoch >= state.message_epoch,
{
    lemma_events_keep_epoch(state.cleared(), events);
    lemma_ui_events_leave_frame_alone(
        state.answered(settings, stereo_available, action).state,
        unhandled,
    );
}

/// A frame that goes through all its steps leaves the viewer sound and idle
/// again, with one more frame counted and without a transform or a record
/// of the frame. On the way the transform is there from the build to the close
/// of the frame and at no other time.
pub proof fn lemma_frame_returns_to_idle(
    state: DemoAppView,
    events: Seq<Event>,
    eye_viewport_size: Point2DI,
    commands: Seq<RenderCommand>,
    stats: RenderStats,
    settings: UISettings,
    stereo_available: bool,
    action: UIAction,
    unhandled: Seq<UIEvent>,
)
    requires
        state.wf(),
        state.stage == Stage::Idle,
    ensures
        ({
            let prepared = state.prepared(events, eye_viewport_size);
            let built = prepared.built();
            let drawn = built.drawn().rendered(commands, stats);
            let finished = drawn.finished();
            let shown = finished.presented(
                settings,
                stereo_available,
                action,
                unhandled,
            ).state;
            &&& prepared.wf() && prepared.render_transform is None
            &&& built.wf() && built.render_transform is Some
            &&& drawn.wf() && drawn.render_transform == built.render_transform
            &&& finished.wf() && finished.render_transform is None
            &&& shown.wf() && shown.stage == Stage::Idle
            &&& shown.render_transform is None && shown.current_frame is None
            &&& shown.frame_counter != state.frame_counter
            &&& state.frame_counter < u32::MAX ==> shown.frame_counter == state.frame_counter + 1
        }),
{
    lemma_events_leave_frame_alone(state.cleared(), events);
    let prepared = state.prepared(events, eye_viewport_size);
    let finished = prepared.built().drawn().rendered(commands, stats).finished();
    lemma_presented_is_sound(finished, settings, stereo_available, action, unhandled);
    lemma_ui_events_leave_frame_alone(
        finished.answered(settings, stereo_available, action).state,
        unhandled,
    );
}

/// A frame that starts without events has nothing new to show unless the
/// camera is on the move.
pub proof fn lemma_quiet_frame_is_clean(state: DemoAppView, eye_viewport_size: Point2DI)
    ensures
        !state.prepared(Seq::empty(), eye_viewport_size).dirty,
        state.prepared(Seq::empty(), eye_viewport_size).built().dirty
            == !state.camera.velocity_of().is_zero(),
{
}

} // verus!
