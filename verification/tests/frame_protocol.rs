use d3_core::app::{
    Action, App, AppLoadState, CursorMode, Directive, RenderStatus, Rotation, WindowEvent,
};
use d3_core::camera::{AspectRatio, Camera};
use d3_core::input::Key;
use d3_core::renderer::{FrameDirective, Renderer, SurfaceError};
use d3_core::scalar::{Scalar, Vec3};
use d3_core::surface::{choose_format, PresentMode, SurfaceConfig, SurfaceSize, DESIRED_FRAME_LATENCY};

fn word(v: f32) -> Scalar {
    Scalar { bits: v.to_bits() }
}

fn point(x: f32, y: f32, z: f32) -> Vec3 {
    Vec3 { x: word(x), y: word(y), z: word(z) }
}

fn seed_camera() -> Camera {
    Camera::new(
        point(0.0, 0.0, 3.0),
        word(-std::f32::consts::FRAC_PI_2),
        word(0.0),
        SurfaceSize { width: 1920, height: 1080 },
    )
}

fn seed_app() -> App {
    let camera = seed_camera();
    let config = SurfaceConfig::new(0, SurfaceSize { width: 1920, height: 1080 });
    let renderer = Renderer::new(&camera, config);
    App::new(camera, renderer)
}

#[test]
fn camera_keeps_what_it_was_given() {
    let camera = seed_camera();
    assert_eq!(camera.eye, point(0.0, 0.0, 3.0));
    assert_eq!(camera.yaw, word(-std::f32::consts::FRAC_PI_2));
    assert_eq!(camera.pitch, word(0.0));
    assert_eq!(camera.aspect_ratio, AspectRatio { width: 1920, height: 1080 });
}

#[test]
fn resize_sets_the_exact_aspect_pair() {
    let mut camera = seed_camera();
    camera.resize(SurfaceSize { width: 1279, height: 721 });
    assert_eq!(camera.aspect_ratio, AspectRatio { width: 1279, height: 721 });
    // independent of the previous ratio
    camera.resize(SurfaceSize { width: 640, height: 480 });
    assert_eq!(camera.aspect_ratio, AspectRatio { width: 640, height: 480 });
    // position and orientation untouched
    assert_eq!(camera.eye, point(0.0, 0.0, 3.0));
    assert_eq!(camera.yaw, word(-std::f32::consts::FRAC_PI_2));
    assert_eq!(camera.pitch, word(0.0));
}

#[test]
fn surface_config_defaults() {
    let c = SurfaceConfig::new(3, SurfaceSize { width: 800, height: 600 });
    assert_eq!(c.format, 3);
    assert_eq!(c.width, 800);
    assert_eq!(c.height, 600);
    assert_eq!(c.present_mode, PresentMode::AutoNoVsync);
    assert_eq!(c.frame_latency, DESIRED_FRAME_LATENCY);
    assert_eq!(c.frame_latency, 2);
}

#[test]
fn surface_resize_touches_dimensions_only() {
    let mut c = SurfaceConfig::new(5, SurfaceSize { width: 800, height: 600 });
    c.resize(SurfaceSize { width: 1024, height: 768 });
    assert_eq!(c.width, 1024);
    assert_eq!(c.height, 768);
    assert_eq!(c.format, 5);
    assert_eq!(c.present_mode, PresentMode::AutoNoVsync);
    assert_eq!(c.frame_latency, 2);
}

#[test]
fn first_srgb_format_wins() {
    assert_eq!(choose_format(&vec![false, true, true, false]), 1);
    assert_eq!(choose_format(&vec![true, false]), 0);
}

#[test]
fn without_srgb_the_first_format_is_kept() {
    assert_eq!(choose_format(&vec![false, false, false]), 0);
    assert_eq!(choose_format(&vec![false]), 0);
}

#[test]
fn surface_errors_follow_the_frame_policy() {
    let mut app = seed_app();
    let before_eye = app.camera.eye;
    let d = app.run_frame(RenderStatus::Failed(SurfaceError::Timeout), point(9.0, 9.0, 9.0));
    assert_eq!(d, FrameDirective::Continue);
    let d = app.run_frame(RenderStatus::Failed(SurfaceError::Outdated), point(9.0, 9.0, 9.0));
    assert_eq!(d, FrameDirective::Reconfigure);
    let d = app.run_frame(RenderStatus::Failed(SurfaceError::Lost), point(9.0, 9.0, 9.0));
    assert_eq!(d, FrameDirective::Reconfigure);
    let d = app.run_frame(RenderStatus::Failed(SurfaceError::OutOfMemory), point(9.0, 9.0, 9.0));
    assert_eq!(d, FrameDirective::Abort);
    // a failed frame never moves the camera or the upload
    assert_eq!(app.camera.eye, before_eye);
    assert_eq!(app.renderer.uploaded, app.camera);
}

#[test]
fn pressing_w_moves_to_the_displaced_eye() {
    let mut app = seed_app();
    app.handle_window_event(&WindowEvent::MouseInput { pressed: true });
    app.handle_window_event(&WindowEvent::KeyboardInput { key: Key::KeyW, pressed: true });
    // with the seed orientation, one second at speed five lands at (0,0,-2);
    // the shell would compute this displaced eye from forward * 5.0 * dt
    let moved = point(0.0, 0.0, -2.0);
    let d = app.run_frame(RenderStatus::Completed, moved);
    assert_eq!(d, FrameDirective::Continue);
    assert_eq!(app.camera.eye, moved);
    assert_eq!(app.renderer.uploaded, app.camera);
}

#[test]
fn opposed_keys_leave_the_eye_unchanged() {
    let mut app = seed_app();
    app.handle_window_event(&WindowEvent::MouseInput { pressed: true });
    app.handle_window_event(&WindowEvent::KeyboardInput { key: Key::KeyW, pressed: true });
    app.handle_window_event(&WindowEvent::KeyboardInput { key: Key::KeyS, pressed: true });
    let d = app.run_frame(RenderStatus::Completed, point(7.0, 7.0, 7.0));
    assert_eq!(d, FrameDirective::Continue);
    assert_eq!(app.camera.eye, point(0.0, 0.0, 3.0));
}

#[test]
fn no_keys_leave_the_eye_unchanged() {
    let mut app = seed_app();
    app.handle_window_event(&WindowEvent::MouseInput { pressed: true });
    app.run_frame(RenderStatus::Completed, point(7.0, 7.0, 7.0));
    assert_eq!(app.camera.eye, point(0.0, 0.0, 3.0));
}

#[test]
fn without_capture_keys_do_not_move_the_eye() {
    let mut app = seed_app();
    app.handle_window_event(&WindowEvent::KeyboardInput { key: Key::KeyW, pressed: true });
    app.run_frame(RenderStatus::Completed, point(7.0, 7.0, 7.0));
    assert_eq!(app.camera.eye, point(0.0, 0.0, 3.0));
}

#[test]
fn the_upload_lags_one_frame_behind_events() {
    let mut app = seed_app();
    app.handle_window_event(&WindowEvent::MouseInput { pressed: true });
    app.handle_window_event(&WindowEvent::KeyboardInput { key: Key::KeyW, pressed: true });
    let moved = point(0.0, 0.0, -2.0);
    app.run_frame(RenderStatus::Completed, moved);
    let frame_n_camera = app.camera;

    // events between the frames mutate the camera but never the upload
    app.handle_window_event(&WindowEvent::Resized { width: 640, height: 480 });
    app.handle_pointer_motion(Rotation { yaw: word(0.5), pitch: word(0.25) });
    assert_ne!(app.camera, frame_n_camera);
    assert_eq!(app.renderer.uploaded, frame_n_camera);

    // the next completed frame uploads the state its own update produced
    app.run_frame(RenderStatus::Completed, moved);
    assert_eq!(app.renderer.uploaded, app.camera);
}

#[test]
fn escape_releases_capture_and_is_never_held() {
    let mut app = seed_app();
    app.handle_window_event(&WindowEvent::MouseInput { pressed: true });
    assert!(app.has_focus);
    assert_eq!(app.cursor_mode(), CursorMode::Locked);
    let act = app.handle_window_event(&WindowEvent::KeyboardInput {
        key: Key::Escape,
        pressed: true,
    });
    assert_eq!(act, Some(Action::SetCursor(CursorMode::Free)));
    assert!(!app.has_focus);
    assert_eq!(app.cursor_mode(), CursorMode::Free);
    assert!(!app.keys_down.contains(Key::Escape));
}

#[test]
fn unidentified_keys_are_reported_and_ignored() {
    let mut app = seed_app();
    let act = app.handle_window_event(&WindowEvent::UnidentifiedKey);
    assert_eq!(act, Some(Action::WarnUnknownKey));
    assert!(!app.has_focus);
    assert_eq!(app.keys_down.held.len(), 0);
}

#[test]
fn resize_reaches_renderer_and_camera() {
    let mut app = seed_app();
    let act = app.handle_window_event(&WindowEvent::Resized { width: 1024, height: 768 });
    assert_eq!(act, Some(Action::ApplySurfaceConfig));
    assert_eq!(app.renderer.surface_config.width, 1024);
    assert_eq!(app.renderer.surface_config.height, 768);
    assert_eq!(app.camera.aspect_ratio, AspectRatio { width: 1024, height: 768 });
}

#[test]
fn pointer_motion_requires_capture() {
    let mut app = seed_app();
    let yaw0 = app.camera.yaw;
    app.handle_pointer_motion(Rotation { yaw: word(1.0), pitch: word(1.0) });
    assert_eq!(app.camera.yaw, yaw0);
    app.handle_window_event(&WindowEvent::MouseInput { pressed: true });
    app.handle_pointer_motion(Rotation { yaw: word(1.0), pitch: word(1.0) });
    assert_eq!(app.camera.yaw, word(1.0));
    assert_eq!(app.camera.pitch, word(1.0));
    assert_eq!(app.camera.eye, point(0.0, 0.0, 3.0));
}

#[test]
fn lifecycle_ignores_events_before_the_window_exists() {
    let mut state = AppLoadState::Unloaded;
    assert_eq!(state.window_event(&WindowEvent::CloseRequested), Directive::Ignore);
    assert_eq!(state.window_event(&WindowEvent::RedrawRequested), Directive::Ignore);
    state.device_event(Rotation { yaw: word(1.0), pitch: word(1.0) });
    assert!(matches!(state, AppLoadState::Unloaded));
}

#[test]
fn lifecycle_dispatches_once_loaded() {
    let mut state = AppLoadState::Unloaded;
    state.resumed(seed_app());
    assert_eq!(state.window_event(&WindowEvent::RedrawRequested), Directive::RunFrame);
    assert_eq!(
        state.window_event(&WindowEvent::MouseInput { pressed: true }),
        Directive::Perform(Action::SetCursor(CursorMode::Locked))
    );
    assert_eq!(
        state.window_event(&WindowEvent::KeyboardInput { key: Key::KeyW, pressed: true }),
        Directive::Ignore
    );
    assert_eq!(
        state.window_event(&WindowEvent::Resized { width: 2, height: 2 }),
        Directive::Perform(Action::ApplySurfaceConfig)
    );
    assert_eq!(state.window_event(&WindowEvent::CloseRequested), Directive::Exit);
    match &state {
        AppLoadState::Loaded { app } => {
            assert!(app.has_focus);
            assert!(app.keys_down.contains(Key::KeyW));
            assert_eq!(app.camera.aspect_ratio, AspectRatio { width: 2, height: 2 });
        }
        AppLoadState::Unloaded => panic!("lifecycle went back to unloaded"),
    }
}

#[test]
fn mouse_release_changes_nothing() {
    let mut app = seed_app();
    let act = app.handle_window_event(&WindowEvent::MouseInput { pressed: false });
    assert_eq!(act, None);
    assert!(!app.has_focus);
}
