use pathfinder_demo::camera::{Camera, Mode, Sign, Velocity, View};
use pathfinder_demo::color::{BackgroundColor, ColorU, GRIDLINE_COUNT};
use pathfinder_demo::demo::{DemoApp, SceneMetadata, Stage};
use pathfinder_demo::effect::Effect;
use pathfinder_demo::finish::{Sample, Screenshot};
use pathfinder_demo::frame::{RenderCommand, RenderStats, RenderTransform, TimeSpan};
use pathfinder_demo::geometry::Point2DI;
use pathfinder_demo::message::ExpiryNotice;
use pathfinder_demo::options::{Options, UIVisibility};
use pathfinder_demo::pipeline::{
    BuildPlan, CompositePlan, DrawPlan, Environment, Framebuffer, RenderMode,
};
use pathfinder_demo::ui::{MousePosition, UIAction, UIEvent, UISettings};
use pathfinder_demo::window::{Event, Keycode, SceneLoad, SceneSummary, WindowSize};

fn point(x: i32, y: i32) -> Point2DI {
    Point2DI { x, y }
}

fn window() -> WindowSize {
    WindowSize { logical_size: point(800, 600), device_size: point(1600, 1200) }
}

fn viewer(mode: Mode) -> DemoApp {
    let mut options = Options::default();
    options.mode = mode;
    let scene = SceneSummary { result_flags: 0, monochrome_color: None };
    DemoApp::new(window(), options, 1, &scene).0
}

fn ground() -> Environment {
    Environment {
        ground_color: ColorU { r: 80, g: 80, b: 80, a: 255 },
        gridline_color: ColorU { r: 127, g: 127, b: 127, a: 255 },
        gridline_count: 10,
    }
}

fn stats(n: usize) -> RenderStats {
    RenderStats { path_count: n, fill_count: 2 * n, alpha_tile_count: 3 * n, solid_tile_count: 4 * n }
}

fn nanos(nanos: u128) -> TimeSpan {
    TimeSpan { nanos }
}

fn drawn(mode: Mode) -> DemoApp {
    let mut app = viewer(mode);
    app.prepare_frame(&vec![], point(640, 480));
    app.build_scene();
    app.draw_scene();
    app.render_vector_scene(&vec![RenderCommand::Finish { build_time: nanos(9) }], stats(1));
    app
}

fn finished(mode: Mode) -> DemoApp {
    let mut app = drawn(mode);
    app.finish_drawing_frame(None);
    app
}

#[test]
fn ground_has_ten_grid_lines() {
    assert_eq!(GRIDLINE_COUNT, 10);
}

#[test]
fn flat_frame_is_one_scene_on_the_window() {
    let mut app = viewer(Mode::TwoD);
    let plan = app.prepare_frame(&vec![], point(640, 480));
    assert_eq!(plan.scene_count, 1);
    assert_eq!(plan.view, View::Mono);
    assert_eq!(plan.target, Framebuffer::Window { view: View::Mono });
    assert_eq!(plan.clear_color, ColorU { r: 248, g: 248, b: 248, a: 255 });
    assert!(plan.effects.is_empty());
    assert_eq!(app.stage(), Stage::Prepared);
    assert!(!app.dirty);
    assert!(app.scene_framebuffer.is_none());
    assert!(app.render_transform.is_none());
}

#[test]
fn frame_in_space_is_cleared_to_the_backdrop() {
    let mut app = viewer(Mode::ThreeD);
    app.ui.background_color = BackgroundColor::Dark;
    let plan = app.prepare_frame(&vec![], point(640, 480));
    assert_eq!(plan.scene_count, 1);
    assert_eq!(plan.target, Framebuffer::Window { view: View::Mono });
    assert_eq!(plan.clear_color, ColorU { r: 32, g: 32, b: 32, a: 255 });
}

#[test]
fn stereo_frame_is_two_scenes_from_a_texture() {
    let mut app = viewer(Mode::VR);
    let plan = app.prepare_frame(&vec![], point(640, 480));
    assert_eq!(plan.scene_count, 2);
    assert_eq!(plan.view, View::Stereo(0));
    assert_eq!(plan.target, Framebuffer::SceneTexture { size: point(640, 480), allocate: true });
    assert_eq!(plan.clear_color, ColorU { r: 0, g: 0, b: 0, a: 0 });
    assert_eq!(app.scene_framebuffer, Some(point(640, 480)));
}

#[test]
fn stereo_texture_is_kept_while_the_viewport_keeps_its_size() {
    let mut app = finished(Mode::VR);
    let settings = app.ui.settings();
    app.present_frame(settings, true, &UIAction::Nothing, &vec![]);
    let plan = app.prepare_frame(&vec![], point(640, 480));
    assert_eq!(plan.target, Framebuffer::SceneTexture { size: point(640, 480), allocate: false });
    app.build_scene();
    app.draw_scene();
    app.render_vector_scene(&vec![], stats(0));
    app.finish_drawing_frame(None);
    app.present_frame(settings, true, &UIAction::Nothing, &vec![]);
    let plan = app.prepare_frame(&vec![], point(640, 481));
    assert_eq!(plan.target, Framebuffer::SceneTexture { size: point(640, 481), allocate: true });
    assert_eq!(app.scene_framebuffer, Some(point(640, 481)));
}

#[test]
fn prepare_takes_the_events_in_first() {
    let mut app = viewer(Mode::ThreeD);
    let events = vec![
        Event::SetEyeTransforms(2),
        Event::MouseDown(point(20, 20)),
        Event::KeyDown(Keycode::Alphanumeric(b'd')),
    ];
    let plan = app.prepare_frame(&events, point(320, 240));
    assert_eq!(plan.scene_count, 2);
    assert_eq!(plan.view, View::Mono);
    assert_eq!(plan.target, Framebuffer::SceneTexture { size: point(320, 240), allocate: true });
    assert_eq!(plan.effects, vec![Effect::SetEyeTransforms { event: 0 }]);
    let position = MousePosition { absolute: point(20, 20), relative: point(20, 20) };
    assert_eq!(app.gathered_ui_events, vec![UIEvent::MouseDown(position)]);
    assert!(app.dirty);
    assert_eq!(app.camera.velocity(), Velocity { x: Sign::Positive, z: Sign::Zero });
}

#[test]
fn build_opens_the_frame_with_the_gathered_events() {
    let mut app = viewer(Mode::TwoD);
    app.ui.stem_darkening_effect_enabled = true;
    app.prepare_frame(&vec![Event::MouseDown(point(2, 4))], point(0, 0));
    let plan = app.build_scene();
    assert_eq!(
        plan,
        BuildPlan {
            transform: RenderTransform::Transform2D,
            velocity: Velocity { x: Sign::Zero, z: Sign::Zero },
            stem_darkening: true,
            subpixel_aa: false,
        }
    );
    assert_eq!(app.stage(), Stage::Built);
    assert_eq!(app.render_transform, Some(RenderTransform::Transform2D));
    assert!(app.gathered_ui_events.is_empty());
    let frame = app.current_frame.as_ref().unwrap();
    assert_eq!(frame.transform, RenderTransform::Transform2D);
    let position = MousePosition { absolute: point(2, 4), relative: point(2, 4) };
    assert_eq!(frame.ui_events, vec![UIEvent::MouseDown(position)]);
    assert!(frame.scene_stats.is_empty());
    assert!(frame.scene_rendering_times.is_empty());
    assert!(!app.dirty);
}

#[test]
fn build_of_a_moving_camera_marks_dirty() {
    let mut app = viewer(Mode::ThreeD);
    app.ui.subpixel_aa_effect_enabled = true;
    app.prepare_frame(&vec![Event::KeyDown(Keycode::Alphanumeric(b'w'))], point(0, 0));
    app.dirty = false;
    let plan = app.build_scene();
    assert_eq!(
        plan,
        BuildPlan {
            transform: RenderTransform::Perspective,
            velocity: Velocity { x: Sign::Zero, z: Sign::Negative },
            stem_darkening: false,
            subpixel_aa: true,
        }
    );
    assert!(app.dirty);
    assert_eq!(app.render_transform, Some(RenderTransform::Perspective));
}

#[test]
fn build_of_a_camera_at_rest_leaves_dirty_alone() {
    let mut app = viewer(Mode::ThreeD);
    app.prepare_frame(&vec![], point(0, 0));
    app.build_scene();
    assert!(!app.dirty);
}

#[test]
fn flat_page_is_drawn_without_ground_and_depth() {
    let mut app = viewer(Mode::TwoD);
    app.prepare_frame(&vec![], point(0, 0));
    app.build_scene();
    let plan = app.draw_scene();
    assert_eq!(
        plan,
        DrawPlan {
            view: View::Mono,
            environment: None,
            render_mode: RenderMode::Multicolor,
            depth: false,
            reattach_window_framebuffer: false,
        }
    );
    assert_eq!(app.stage(), Stage::Drawn);
}

#[test]
fn scene_in_space_is_drawn_on_the_ground_with_depth() {
    let mut app = viewer(Mode::ThreeD);
    app.prepare_frame(&vec![], point(0, 0));
    app.build_scene();
    assert_eq!(app.draw_environment(), Some(ground()));
    let plan = app.draw_scene();
    assert_eq!(
        plan,
        DrawPlan {
            view: View::Mono,
            environment: Some(ground()),
            render_mode: RenderMode::Multicolor,
            depth: true,
            reattach_window_framebuffer: false,
        }
    );
}

#[test]
fn transparent_backdrop_has_no_ground() {
    let mut app = viewer(Mode::ThreeD);
    app.ui.background_color = BackgroundColor::Transparent;
    app.prepare_frame(&vec![], point(0, 0));
    app.build_scene();
    assert_eq!(app.draw_environment(), None);
    assert_eq!(app.draw_scene().environment, None);
}

#[test]
fn stereo_scene_is_drawn_without_ground_and_hands_the_window_back() {
    let mut app = viewer(Mode::VR);
    app.prepare_frame(&vec![], point(640, 480));
    app.build_scene();
    let plan = app.draw_scene();
    assert_eq!(
        plan,
        DrawPlan {
            view: View::Stereo(0),
            environment: None,
            render_mode: RenderMode::Multicolor,
            depth: true,
            reattach_window_framebuffer: true,
        }
    );
}

#[test]
fn scene_of_one_colour_is_drawn_in_that_colour() {
    let mut app = viewer(Mode::TwoD);
    app.scene_metadata = SceneMetadata { monochrome_color: Some(ColorU { r: 1, g: 2, b: 3, a: 4 }) };
    app.ui.background_color = BackgroundColor::Dark;
    app.ui.gamma_correction_effect_enabled = true;
    assert_eq!(
        app.render_mode(),
        RenderMode::Monochrome {
            fg_color: ColorU { r: 1, g: 2, b: 3, a: 4 },
            bg_color: ColorU { r: 32, g: 32, b: 32, a: 255 },
            gamma_correction: true,
            defringing: false,
        }
    );
    app.ui.gamma_correction_effect_enabled = false;
    app.ui.subpixel_aa_effect_enabled = true;
    assert_eq!(
        app.render_mode(),
        RenderMode::Monochrome {
            fg_color: ColorU { r: 1, g: 2, b: 3, a: 4 },
            bg_color: ColorU { r: 32, g: 32, b: 32, a: 255 },
            gamma_correction: false,
            defringing: true,
        }
    );
}

#[test]
fn renderer_report_goes_into_the_frame() {
    let mut app = viewer(Mode::TwoD);
    app.prepare_frame(&vec![], point(0, 0));
    app.build_scene();
    app.draw_scene();
    let commands = vec![
        RenderCommand::Draw,
        RenderCommand::Finish { build_time: nanos(1_000) },
    ];
    app.render_vector_scene(&commands, stats(3));
    assert_eq!(app.build_time, Some(nanos(1_000)));
    assert_eq!(app.current_frame.as_ref().unwrap().scene_stats, vec![stats(3)]);
    app.render_vector_scene(&vec![RenderCommand::Draw], stats(4));
    assert_eq!(app.build_time, Some(nanos(1_000)));
    assert_eq!(app.current_frame.as_ref().unwrap().scene_stats, vec![stats(3), stats(4)]);
    assert_eq!(app.stage(), Stage::Drawn);
}

#[test]
fn composite_does_nothing_for_one_eye() {
    for mode in [Mode::TwoD, Mode::ThreeD] {
        let mut app = drawn(mode);
        assert_eq!(app.composite_scene(0), None);
        assert_eq!(app.composite_scene(1), None);
        assert_eq!(app.stage(), Stage::Drawn);
    }
}

#[test]
fn composite_shows_the_scene_to_each_eye() {
    let mut app = drawn(Mode::VR);
    for eye in [0, 1] {
        assert_eq!(
            app.composite_scene(eye),
            Some(CompositePlan {
                view: View::Stereo(eye),
                clear_color: ColorU { r: 248, g: 248, b: 248, a: 255 },
                environment: Some(ground()),
                eye,
            })
        );
        assert_eq!(app.stage(), Stage::Composited);
    }
}

#[test]
fn composite_on_a_transparent_backdrop_has_no_ground() {
    let mut app = drawn(Mode::VR);
    app.ui.background_color = BackgroundColor::Transparent;
    assert_eq!(
        app.composite_scene(1),
        Some(CompositePlan {
            view: View::Stereo(1),
            clear_color: ColorU { r: 0, g: 0, b: 0, a: 0 },
            environment: None,
            eye: 1,
        })
    );
}

#[test]
fn finish_reports_what_the_frame_cost() {
    let mut app = viewer(Mode::TwoD);
    app.prepare_frame(&vec![], point(0, 0));
    app.build_scene();
    app.draw_scene();
    app.render_vector_scene(&vec![RenderCommand::Finish { build_time: nanos(50) }], stats(1));
    app.render_vector_scene(&vec![], stats(10));
    assert!(app.can_finish_drawing_frame(Some(nanos(700))));
    let plan = app.finish_drawing_frame(Some(nanos(700)));
    assert_eq!(
        plan.sample,
        Some(Sample {
            stats: RenderStats {
                path_count: 11,
                fill_count: 22,
                alpha_tile_count: 33,
                solid_tile_count: 44,
            },
            build_time: nanos(50),
            rendering_time: Some(nanos(700)),
        })
    );
    assert!(plan.screenshot.is_none());
    assert!(plan.draw_debug_ui);
    assert!(plan.update_ui);
    assert!(plan.ui_events.is_empty());
    assert_eq!(app.stage(), Stage::Finished);
    assert!(app.current_frame.is_none());
    assert!(app.render_transform.is_none());
    assert!(!app.dirty);
}

#[test]
fn finish_without_a_time_of_the_device_reports_none() {
    let mut app = drawn(Mode::TwoD);
    let plan = app.finish_drawing_frame(None);
    assert_eq!(
        plan.sample,
        Some(Sample { stats: stats(1), build_time: nanos(9), rendering_time: None })
    );
}

#[test]
fn finish_adds_up_the_times_of_the_device() {
    let mut app = drawn(Mode::TwoD);
    app.current_frame.as_mut().unwrap().scene_rendering_times = vec![nanos(3), nanos(4)];
    let plan = app.finish_drawing_frame(Some(nanos(5)));
    assert_eq!(plan.sample.unwrap().rendering_time, Some(nanos(12)));
}

#[test]
fn finish_of_a_frame_that_cost_nothing_reports_nothing() {
    let mut app = viewer(Mode::TwoD);
    app.prepare_frame(&vec![], point(0, 0));
    app.build_scene();
    app.draw_scene();
    app.build_time = Some(nanos(1));
    let plan = app.finish_drawing_frame(None);
    assert_eq!(plan.sample, None);
}

#[test]
fn finish_with_only_a_time_of_the_device_reports_it() {
    let mut app = viewer(Mode::TwoD);
    app.prepare_frame(&vec![], point(0, 0));
    app.build_scene();
    app.draw_scene();
    app.build_time = Some(nanos(1));
    let plan = app.finish_drawing_frame(Some(nanos(8)));
    assert_eq!(
        plan.sample,
        Some(Sample { stats: stats(0), build_time: nanos(1), rendering_time: Some(nanos(8)) })
    );
}

#[test]
fn costs_that_cannot_be_added_up_are_told_apart() {
    let mut app = drawn(Mode::TwoD);
    assert!(app.can_finish_drawing_frame(Some(nanos(u128::MAX))));
    app.current_frame.as_mut().unwrap().scene_rendering_times = vec![nanos(1)];
    assert!(!app.can_finish_drawing_frame(Some(nanos(u128::MAX))));
    assert!(app.can_finish_drawing_frame(Some(nanos(u128::MAX - 1))));
    assert!(app.can_finish_drawing_frame(None));
    app.current_frame.as_mut().unwrap().scene_stats.push(stats(usize::MAX));
    assert!(!app.can_finish_drawing_frame(None));
}

#[test]
fn finish_hands_the_events_to_the_controls_and_marks_dirty() {
    let mut app = viewer(Mode::TwoD);
    app.prepare_frame(&vec![Event::MouseDown(point(10, 12))], point(0, 0));
    app.build_scene();
    app.draw_scene();
    app.render_vector_scene(&vec![RenderCommand::Finish { build_time: nanos(1) }], stats(0));
    assert!(!app.dirty);
    let plan = app.finish_drawing_frame(None);
    let position = MousePosition { absolute: point(10, 12), relative: point(10, 12) };
    assert_eq!(plan.ui_events, vec![UIEvent::MouseDown(position)]);
    assert_eq!(plan.mouse_position, point(10, 12));
    assert!(app.dirty);
}

#[test]
fn finish_follows_the_visibility() {
    for (visibility, draw_debug_ui, update_ui) in [
        (UIVisibility::Hidden, false, false),
        (UIVisibility::Stats, true, false),
        (UIVisibility::All, true, true),
    ] {
        let mut app = drawn(Mode::TwoD);
        app.options.ui = visibility;
        let plan = app.finish_drawing_frame(None);
        assert_eq!(plan.draw_debug_ui, draw_debug_ui);
        assert_eq!(plan.update_ui, update_ui);
    }
}

#[test]
fn finish_offers_text_effects_for_a_scene_of_one_colour() {
    let mut app = drawn(Mode::TwoD);
    app.finish_drawing_frame(None);
    assert!(!app.ui.show_text_effects);
    let mut app = drawn(Mode::TwoD);
    app.ui.show_text_effects = false;
    app.scene_metadata = SceneMetadata { monochrome_color: Some(ColorU { r: 0, g: 0, b: 0, a: 255 }) };
    app.finish_drawing_frame(None);
    assert!(app.ui.show_text_effects);
}

#[test]
fn screenshot_is_taken_in_the_frame_after_the_request() {
    let mut app = finished(Mode::TwoD);
    let settings = app.ui.settings();
    app.dirty = false;
    let effects =
        app.present_frame(settings, true, &UIAction::TakeScreenshot("shot.png".to_string()), &vec![]);
    assert!(effects.is_empty());
    assert_eq!(app.pending_screenshot_path.as_deref(), Some("shot.png"));
    assert!(app.dirty);
    app.prepare_frame(&vec![], point(0, 0));
    app.build_scene();
    app.draw_scene();
    let plan = app.finish_drawing_frame(None);
    let Screenshot { path, size } = plan.screenshot.unwrap();
    assert_eq!(path, "shot.png");
    assert_eq!(size, point(1600, 1200));
    assert!(app.pending_screenshot_path.is_none());
}

#[test]
fn take_screenshot_hands_the_path_out_once() {
    let mut app = viewer(Mode::TwoD);
    assert!(app.take_screenshot().is_none());
    app.pending_screenshot_path = Some("a.png".to_string());
    let screenshot = app.take_screenshot().unwrap();
    assert_eq!(screenshot.path, "a.png");
    assert_eq!(screenshot.size, point(1600, 1200));
    assert!(app.take_screenshot().is_none());
}

#[test]
fn failed_screenshot_becomes_a_notice() {
    let mut app = viewer(Mode::TwoD);
    let notice = app.screenshot_failed("cannot write shot.png".to_string());
    assert_eq!(notice, Some(ExpiryNotice { event_id: 1, epoch: 1, delay_secs: 5 }));
    assert_eq!(app.ui.message, "cannot write shot.png");
    assert_eq!(app.message_epoch, 1);
    assert_eq!(app.screenshot_failed(String::new()), None);
    assert_eq!(app.ui.message, "cannot write shot.png");
    assert_eq!(app.message_epoch, 1);
}

#[test]
fn present_counts_the_frame_and_goes_idle() {
    let mut app = finished(Mode::TwoD);
    let settings = app.ui.settings();
    let effects = app.present_frame(settings, true, &UIAction::Nothing, &vec![]);
    assert!(effects.is_empty());
    assert_eq!(app.frame_counter, 1);
    assert_eq!(app.stage(), Stage::Idle);
}

#[test]
fn frame_count_starts_again_after_the_largest_number() {
    let mut app = finished(Mode::TwoD);
    app.frame_counter = u32::MAX;
    let settings = app.ui.settings();
    app.present_frame(settings, true, &UIAction::Nothing, &vec![]);
    assert_eq!(app.frame_counter, 0);
}

#[test]
fn zoom_buttons_scale_a_flat_page() {
    for (action, zoom_in) in [(UIAction::ZoomIn, true), (UIAction::ZoomOut, false)] {
        let mut app = viewer(Mode::TwoD);
        app.dirty = false;
        assert_eq!(app.handle_ui_action(&action), Some(Effect::ZoomButton { zoom_in }));
        assert!(app.dirty);
        let mut space = viewer(Mode::ThreeD);
        space.dirty = false;
        assert_eq!(space.handle_ui_action(&action), None);
        assert!(!space.dirty);
    }
}

#[test]
fn rotate_turns_a_flat_page_without_marking_dirty() {
    let mut app = viewer(Mode::TwoD);
    app.dirty = false;
    assert_eq!(app.handle_ui_action(&UIAction::Rotate), Some(Effect::RotateTo));
    assert!(!app.dirty);
    let mut space = viewer(Mode::VR);
    assert_eq!(space.handle_ui_action(&UIAction::Rotate), None);
}

#[test]
fn model_change_only_marks_dirty() {
    let mut app = viewer(Mode::ThreeD);
    app.dirty = false;
    let camera = app.camera;
    assert_eq!(app.handle_ui_action(&UIAction::ModelChanged), None);
    assert!(app.dirty);
    assert_eq!(app.camera, camera);
    app.dirty = false;
    assert_eq!(app.handle_ui_action(&UIAction::Nothing), None);
    assert!(!app.dirty);
}

#[test]
fn present_takes_over_the_settings() {
    let mut app = finished(Mode::TwoD);
    let settings = UISettings {
        mode: Mode::TwoD,
        background_color: BackgroundColor::Dark,
        gamma_correction_effect_enabled: true,
        stem_darkening_effect_enabled: true,
        subpixel_aa_effect_enabled: true,
    };
    app.ui.message = "kept".to_string();
    app.present_frame(settings, true, &UIAction::Nothing, &vec![]);
    assert_eq!(app.ui.settings(), settings);
    assert_eq!(app.ui.message, "kept");
    assert_eq!(app.background_color(), ColorU { r: 32, g: 32, b: 32, a: 255 });
}

#[test]
fn change_of_mode_makes_the_camera_anew() {
    let mut app = finished(Mode::TwoD);
    let mut settings = app.ui.settings();
    settings.mode = Mode::VR;
    let effects = app.present_frame(settings, true, &UIAction::ZoomIn, &vec![]);
    assert_eq!(
        effects,
        vec![Effect::ZoomButton { zoom_in: true }, Effect::RebuildCamera { mode: Mode::VR }]
    );
    assert_eq!(app.camera, Camera::new(Mode::VR));
    assert_eq!(app.ui.mode, Mode::VR);
}

#[test]
fn mode_that_stays_keeps_the_camera() {
    let mut app = viewer(Mode::ThreeD);
    app.prepare_frame(&vec![Event::KeyDown(Keycode::Alphanumeric(b's'))], point(0, 0));
    app.build_scene();
    app.draw_scene();
    app.build_time = Some(nanos(1));
    app.finish_drawing_frame(None);
    let settings = app.ui.settings();
    let effects = app.present_frame(settings, true, &UIAction::Nothing, &vec![]);
    assert!(effects.is_empty());
    assert_eq!(app.camera.velocity(), Velocity { x: Sign::Zero, z: Sign::Positive });
}

#[test]
fn leaving_the_flat_page_and_coming_back_gives_a_fresh_camera() {
    let fresh = viewer(Mode::TwoD).camera;
    let mut app = finished(Mode::TwoD);
    let mut settings = app.ui.settings();
    settings.mode = Mode::ThreeD;
    let effects = app.present_frame(settings, true, &UIAction::Nothing, &vec![]);
    assert_eq!(effects, vec![Effect::RebuildCamera { mode: Mode::ThreeD }]);
    let events = vec![
        Event::KeyDown(Keycode::Alphanumeric(b'w')),
        Event::SetEyeTransforms(1),
        Event::Look,
    ];
    app.prepare_frame(&events, point(0, 0));
    app.build_scene();
    app.draw_scene();
    app.finish_drawing_frame(None);
    assert_ne!(app.camera, Camera::new(Mode::ThreeD));
    settings.mode = Mode::TwoD;
    let effects = app.present_frame(settings, true, &UIAction::Nothing, &vec![]);
    assert_eq!(effects, vec![Effect::RebuildCamera { mode: Mode::TwoD }]);
    assert_eq!(app.camera, fresh);
    assert_eq!(app.camera, Camera::new(Mode::TwoD));
}

#[test]
fn camera_that_lost_an_eye_is_made_anew_for_stereo() {
    let mut app = viewer(Mode::VR);
    app.prepare_frame(&vec![Event::SetEyeTransforms(1)], point(640, 480));
    assert_eq!(app.camera.mode(), Mode::ThreeD);
    app.build_scene();
    app.draw_scene();
    assert_eq!(app.composite_scene(1), None);
    app.build_time = Some(nanos(1));
    app.finish_drawing_frame(None);
    let settings = app.ui.settings();
    let effects = app.present_frame(settings, true, &UIAction::Nothing, &vec![]);
    assert_eq!(effects, vec![Effect::RebuildCamera { mode: Mode::VR }]);
    assert_eq!(app.camera, Camera::new(Mode::VR));
}

#[test]
fn press_left_over_by_the_controls_toggles_mouselook_in_space() {
    let position = MousePosition { absolute: point(1, 1), relative: point(1, 1) };
    let mut app = finished(Mode::ThreeD);
    let settings = app.ui.settings();
    app.present_frame(settings, true, &UIAction::Nothing, &vec![UIEvent::MouseDown(position)]);
    assert!(app.mouselook_enabled);
    let mut app = finished(Mode::ThreeD);
    let twice = vec![UIEvent::MouseDown(position), UIEvent::MouseDown(position)];
    app.present_frame(settings, true, &UIAction::Nothing, &twice);
    assert!(!app.mouselook_enabled);
    let mut flat = finished(Mode::TwoD);
    let settings = flat.ui.settings();
    flat.present_frame(settings, true, &UIAction::Nothing, &vec![UIEvent::MouseDown(position)]);
    assert!(!flat.mouselook_enabled);
}

#[test]
fn drag_left_over_by_the_controls_moves_a_flat_page() {
    let first = MousePosition { absolute: point(9, 9), relative: point(3, -4) };
    let second = MousePosition { absolute: point(10, 9), relative: point(1, 0) };
    let down = MousePosition { absolute: point(10, 9), relative: point(0, 0) };
    let events =
        vec![UIEvent::MouseDragged(first), UIEvent::MouseDown(down), UIEvent::MouseDragged(second)];
    let mut app = finished(Mode::TwoD);
    let settings = app.ui.settings();
    let effects = app.present_frame(settings, true, &UIAction::Rotate, &events);
    assert_eq!(
        effects,
        vec![
            Effect::RotateTo,
            Effect::Translate { offset: point(3, -4) },
            Effect::Translate { offset: point(1, 0) },
        ]
    );
    let mut space = finished(Mode::ThreeD);
    let settings = space.ui.settings();
    let effects = space.present_frame(settings, true, &UIAction::Nothing, &events);
    assert!(effects.is_empty());
    assert!(space.mouselook_enabled);
}

#[test]
fn events_left_over_act_on_the_camera_of_the_new_mode() {
    let down = MousePosition { absolute: point(1, 1), relative: point(1, 1) };
    let drag = MousePosition { absolute: point(2, 2), relative: point(1, 1) };
    let events = vec![UIEvent::MouseDown(down), UIEvent::MouseDragged(drag)];
    let mut app = finished(Mode::TwoD);
    let mut settings = app.ui.settings();
    settings.mode = Mode::ThreeD;
    let effects = app.present_frame(settings, true, &UIAction::Nothing, &events);
    assert_eq!(effects, vec![Effect::RebuildCamera { mode: Mode::ThreeD }]);
    assert!(app.mouselook_enabled);
}

#[test]
fn transform_is_there_from_build_to_finish_only() {
    let mut app = viewer(Mode::ThreeD);
    assert!(app.render_transform.is_none());
    app.prepare_frame(&vec![], point(0, 0));
    assert!(app.render_transform.is_none());
    app.build_scene();
    assert_eq!(app.render_transform, Some(RenderTransform::Perspective));
    app.draw_scene();
    assert_eq!(app.render_transform, Some(RenderTransform::Perspective));
    app.render_vector_scene(&vec![RenderCommand::Finish { build_time: nanos(2) }], stats(1));
    assert_eq!(app.composite_scene(0), None);
    assert_eq!(app.render_transform, Some(RenderTransform::Perspective));
    app.finish_drawing_frame(None);
    assert!(app.render_transform.is_none());
    let settings = app.ui.settings();
    app.present_frame(settings, true, &UIAction::Nothing, &vec![]);
    assert!(app.render_transform.is_none());
    assert_eq!(app.build_time, Some(nanos(2)));
}

#[test]
fn no_frame_under_way_has_no_costs_to_add_up() {
    let app = viewer(Mode::TwoD);
    assert!(!app.can_finish_drawing_frame(None));
    let app = finished(Mode::TwoD);
    assert!(!app.can_finish_drawing_frame(None));
}

#[test]
fn prepare_hands_on_the_timers_of_the_notices_of_the_batch() {
    let mut app = viewer(Mode::TwoD);
    let scene = SceneSummary { result_flags: 0x0200, monochrome_color: None };
    let events = vec![
        Event::OpenSVG(SceneLoad::Failed("cannot read a.svg".to_string())),
        Event::KeyDown(Keycode::Tab),
        Event::OpenSVG(SceneLoad::Loaded(scene)),
    ];
    assert!(app.can_handle_events(&events));
    let plan = app.prepare_frame(&events, point(0, 0));
    assert_eq!(
        plan.notices,
        vec![
            ExpiryNotice { event_id: 1, epoch: 1, delay_secs: 5 },
            ExpiryNotice { event_id: 1, epoch: 2, delay_secs: 5 },
        ]
    );
    assert_eq!(plan.effects, vec![Effect::ReplaceScene { event: 2, mode: Mode::TwoD }]);
    assert_eq!(app.message_epoch, 2);
    assert_eq!(app.ui.message, "Warning: These features in the SVG are unsupported: <text>.");
    assert!(app.dirty);
}

#[test]
fn frame_without_notices_hands_on_no_timer() {
    let mut app = viewer(Mode::TwoD);
    let plan = app.prepare_frame(&vec![Event::Quit], point(0, 0));
    assert!(plan.notices.is_empty());
    assert_eq!(app.message_epoch, 0);
}

#[test]
fn stereo_that_cannot_be_had_falls_back_to_the_mode_before() {
    for before in [Mode::TwoD, Mode::ThreeD] {
        let mut app = finished(before);
        let camera = app.camera;
        let mut settings = app.ui.settings();
        settings.mode = Mode::VR;
        settings.background_color = BackgroundColor::Dark;
        let effects = app.present_frame(settings, false, &UIAction::Nothing, &vec![]);
        assert!(effects.is_empty());
        assert_eq!(app.camera, camera);
        assert_eq!(app.camera.mode(), before);
        assert_eq!(app.ui.mode, before);
        assert_eq!(app.ui.background_color, BackgroundColor::Dark);
        assert_eq!(app.stage(), Stage::Idle);
        assert_eq!(app.frame_counter, 1);
    }
}

#[test]
fn stereo_that_can_be_had_is_taken_over() {
    let mut app = finished(Mode::ThreeD);
    let mut settings = app.ui.settings();
    settings.mode = Mode::VR;
    let effects = app.present_frame(settings, true, &UIAction::Nothing, &vec![]);
    assert_eq!(effects, vec![Effect::RebuildCamera { mode: Mode::VR }]);
    assert_eq!(app.camera, Camera::new(Mode::VR));
    assert_eq!(app.ui.mode, Mode::VR);
}

#[test]
fn other_modes_do_not_ask_whether_stereo_can_be_had() {
    let mut app = finished(Mode::TwoD);
    let mut settings = app.ui.settings();
    settings.mode = Mode::ThreeD;
    let effects = app.present_frame(settings, false, &UIAction::Nothing, &vec![]);
    assert_eq!(effects, vec![Effect::RebuildCamera { mode: Mode::ThreeD }]);
    assert_eq!(app.ui.mode, Mode::ThreeD);
    let mut stereo = finished(Mode::VR);
    let settings = stereo.ui.settings();
    let effects = stereo.present_frame(settings, false, &UIAction::Nothing, &vec![]);
    assert!(effects.is_empty());
    assert_eq!(stereo.camera.mode(), Mode::VR);
    assert_eq!(stereo.ui.mode, Mode::VR);
}

#[test]
fn camera_that_lost_an_eye_stays_as_it_is_when_stereo_cannot_be_had() {
    let mut app = viewer(Mode::VR);
    app.prepare_frame(&vec![Event::SetEyeTransforms(1)], point(640, 480));
    app.build_scene();
    app.draw_scene();
    app.build_time = Some(nanos(1));
    app.finish_drawing_frame(None);
    let camera = app.camera;
    let settings = app.ui.settings();
    let effects = app.present_frame(settings, false, &UIAction::Nothing, &vec![]);
    assert!(effects.is_empty());
    assert_eq!(app.camera, camera);
    assert_eq!(app.ui.mode, Mode::ThreeD);
}
