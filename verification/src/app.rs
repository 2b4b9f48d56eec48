//! The application: input tracking, event dispatch, and the frame protocol.
//!
//! The host event loop delivers window and device events to the unverified
//! shell, which translates them into the plain event types below and routes
//! every state change through the verified methods here. Each method's
//! contract is a transition function over [`AppView`], the mathematical view
//! of the application state, so the whole event-to-state machine is pinned
//! down: what each event may touch, when the cursor is captured, and how the
//! per-frame render-then-update protocol advances the camera and the
//! uploaded matrix.

use crate::camera::{aspect_of, Camera};
use crate::input::{intent_is_zero, move_intent, Key, KeysDown};
use crate::renderer::{
    classify_surface_error, surface_error_policy, FrameDirective, Renderer, SurfaceError,
};
use crate::scalar::{Scalar, Vec3};
use crate::surface::{SurfaceConfig, SurfaceSize};
use vstd::prelude::*;

verus! {

/// Whether the cursor is captured for camera look: locked to the window and
/// hidden, or free and visible.
#[derive(Clone, Copy, Debug, PartialEq, Eq, Structural)]
pub enum CursorMode {
    /// Cursor locked to the window and hidden.
    Locked,
    /// Cursor free and visible.
    Free,
}

/// A side effect the shell must perform after dispatching an event. The
/// library decides; the shell touches the window and the GPU.
#[derive(Clone, Copy, Debug, PartialEq, Eq, Structural)]
pub enum Action {
    /// Re-apply the (just resized) surface configuration to the live
    /// surface.
    ApplySurfaceConfig,
    /// Set the window's cursor grab and visibility.
    SetCursor(CursorMode),
    /// Log the unrecognized key code; the event itself is dropped.
    WarnUnknownKey,
}

/// A window event, reduced to the plain values the application reads.
#[derive(Clone, Copy, Debug, PartialEq, Eq, Structural)]
pub enum WindowEvent {
    /// The user asked to close the window.
    CloseRequested,
    /// The host asks for a frame.
    RedrawRequested,
    /// The surface changed size.
    Resized { width: u32, height: u32 },
    /// A recognized key went down or up.
    KeyboardInput { key: Key, pressed: bool },
    /// A key the host could not name; it is logged and otherwise ignored.
    UnidentifiedKey,
    /// A mouse button went down or up.
    MouseInput { pressed: bool },
    /// Any other window event; ignored.
    Other,
}

/// What the host event loop should do with an event, as decided by the
/// lifecycle dispatcher.
#[derive(Clone, Copy, Debug, PartialEq, Eq, Structural)]
pub enum Directive {
    /// Nothing to do.
    Ignore,
    /// Terminate the event loop.
    Exit,
    /// Run one pass of the frame protocol, then request the next redraw.
    RunFrame,
    /// Perform the given side effect.
    Perform(Action),
}

/// The outcome of the frame's render pass, as reported by the shell.
#[derive(Clone, Copy, Debug, PartialEq, Eq, Structural)]
pub enum RenderStatus {
    /// The pass was recorded, submitted and presented.
    Completed,
    /// Acquiring the surface texture failed; nothing was drawn.
    Failed(SurfaceError),
}

/// An orientation integrated by the numeric shell from a raw pointer delta
/// and the last frame time.
#[derive(Clone, Copy, Debug, PartialEq, Eq, Structural)]
pub struct Rotation {
    pub yaw: Scalar,
    pub pitch: Scalar,
}

/// The application state: the renderer model, the camera, and the input
/// state driving them.
#[derive(Debug)]
pub struct App {
    /// Model of the renderer's mutable GPU-side state.
    pub renderer: Renderer,
    /// The first-person camera.
    pub camera: Camera,
    /// Whether the pointer is captured for camera look.
    pub has_focus: bool,
    /// The keys currently held down.
    pub keys_down: KeysDown,
}

/// The mathematical view of [`App`]: the same state with the held keys as a
/// set.
#[verifier::ext_equal]
pub struct AppView {
    pub renderer: Renderer,
    pub camera: Camera,
    pub has_focus: bool,
    pub keys: Set<Key>,
}

impl View for App {
    type V = AppView;

    open spec fn view(&self) -> AppView {
        AppView {
            renderer: self.renderer,
            camera: self.camera,
            has_focus: self.has_focus,
            keys: self.keys_down@,
        }
    }
}

/// The state a window event leads to, and the side effect it asks of the
/// shell. Close and redraw requests are decided by the lifecycle dispatcher
/// and change nothing here.
pub open spec fn on_window_event(s: AppView, e: WindowEvent) -> (AppView, Option<Action>) {
    match e {
        WindowEvent::Resized { width, height } => {
            let size = SurfaceSize { width, height };
            let st = AppView {
                renderer: Renderer {
                    surface_config: SurfaceConfig {
                        format: s.renderer.surface_config.format,
                        width: size.width,
                        height: size.height,
                        present_mode: s.renderer.surface_config.present_mode,
                        frame_latency: s.renderer.surface_config.frame_latency,
                    },
                    uploaded: s.renderer.uploaded,
                },
                camera: Camera {
                    eye: s.camera.eye,
                    yaw: s.camera.yaw,
                    pitch: s.camera.pitch,
                    aspect_ratio: aspect_of(size),
                },
                has_focus: s.has_focus,
                keys: s.keys,
            };
            (st, Some(Action::ApplySurfaceConfig))
        },
        WindowEvent::KeyboardInput { key, pressed } => {
            if key is Escape {
                (
                    AppView { has_focus: false, ..s },
                    Some(Action::SetCursor(CursorMode::Free)),
                )
            } else if pressed {
                (AppView { keys: s.keys.insert(key), ..s }, None)
            } else {
                (AppView { keys: s.keys.remove(key), ..s }, None)
            }
        },
        WindowEvent::UnidentifiedKey => (s, Some(Action::WarnUnknownKey)),
        WindowEvent::MouseInput { pressed } => {
            if pressed {
                (
                    AppView { has_focus: true, ..s },
                    Some(Action::SetCursor(CursorMode::Locked)),
                )
            } else {
                (s, None)
            }
        },
        _ => (s, None),
    }
}

/// The state one per-frame update leads to: while the pointer is captured
/// and the held keys ask for movement, the eye becomes the displaced eye the
/// shell computed; otherwise the camera is untouched. Either way a fresh
/// matrix computed from the camera exactly as it now stands is uploaded.
pub open spec fn update_transition(s: AppView, moved_eye: Vec3) -> AppView {
    let camera = if s.has_focus && !intent_is_zero(s.keys) {
        Camera {
            eye: moved_eye,
            yaw: s.camera.yaw,
            pitch: s.camera.pitch,
            aspect_ratio: s.camera.aspect_ratio,
        }
    } else {
        s.camera
    };
    AppView {
        renderer: Renderer { surface_config: s.renderer.surface_config, uploaded: camera },
        camera,
        has_focus: s.has_focus,
        keys: s.keys,
    }
}

/// The state raw pointer motion leads to: while the pointer is captured the
/// camera takes the integrated angles; without capture the motion is
/// discarded.
pub open spec fn pointer_transition(s: AppView, rotated: Rotation) -> AppView {
    if s.has_focus {
        AppView {
            camera: Camera {
                eye: s.camera.eye,
                yaw: rotated.yaw,
                pitch: rotated.pitch,
                aspect_ratio: s.camera.aspect_ratio,
            },
            ..s
        }
    } else {
        s
    }
}

/// One pass of the frame protocol: the render pass has already run against
/// the previously uploaded matrix; on success the update advances the state,
/// on failure the frame is skipped and the state — including the uploaded
/// matrix — is untouched.
pub open spec fn frame_transition(s: AppView, status: RenderStatus, moved_eye: Vec3) -> (
    AppView,
    FrameDirective,
) {
    match status {
        RenderStatus::Completed => (update_transition(s, moved_eye), FrameDirective::Continue),
        RenderStatus::Failed(e) => (s, surface_error_policy(e)),
    }
}

impl App {
    /// The held-key set is well formed.
    pub open spec fn wf(self) -> bool {
        self.keys_down.wf()
    }

    /// A fresh application around an already-built camera and renderer: no
    /// key held, pointer not captured.
    pub fn new(camera: Camera, renderer: Renderer) -> (a: App)
        ensures
            a.wf(),
            a@ == (AppView { renderer, camera, has_focus: false, keys: Set::<Key>::empty() }),
    {
        let a = App { renderer, camera, has_focus: false, keys_down: KeysDown::new() };
        proof {
            assert(a@ =~= (AppView {
                renderer,
                camera,
                has_focus: false,
                keys: Set::<Key>::empty(),
            }));
        }
        a
    }

    /// Dispatches a window event: a resize reaches the renderer first and
    /// the camera second, `Escape` releases pointer capture (on press or
    /// release, and never enters the held-key set), other recognized keys
    /// mutate the held-key set, a mouse press captures the pointer, and an
    /// unrecognized key changes nothing and is only reported.
    pub fn handle_window_event(&mut self, event: &WindowEvent) -> (act: Option<Action>)
        requires
            old(self).wf(),
            *event matches WindowEvent::Resized { width, height } ==> width > 0 && height > 0,
        ensures
            final(self).wf(),
            final(self)@ == on_window_event(old(self)@, *event).0,
            act == on_window_event(old(self)@, *event).1,
    {
        match event {
            WindowEvent::Resized { width, height } => {
                let size = SurfaceSize { width: *width, height: *height };
                self.renderer.resize(size);
                self.camera.resize(size);
                proof {
                    assert(self@ =~= on_window_event(old(self)@, *event).0);
                }
                Some(Action::ApplySurfaceConfig)
            },
            WindowEvent::KeyboardInput { key, pressed } => {
                match key {
                    Key::Escape => {
                        self.has_focus = false;
                        proof {
                            assert(self@ =~= on_window_event(old(self)@, *event).0);
                        }
                        Some(Action::SetCursor(CursorMode::Free))
                    },
                    _ => {
                        if *pressed {
                            self.keys_down.insert(*key);
                        } else {
                            self.keys_down.remove(*key);
                        }
                        proof {
                            assert(self@ =~= on_window_event(old(self)@, *event).0);
                        }
                        None
                    },
                }
            },
            WindowEvent::UnidentifiedKey => Some(Action::WarnUnknownKey),
            WindowEvent::MouseInput { pressed } => {
                if *pressed {
                    self.has_focus = true;
                    proof {
                        assert(self@ =~= on_window_event(old(self)@, *event).0);
                    }
                    Some(Action::SetCursor(CursorMode::Locked))
                } else {
                    None
                }
            },
            _ => None,
        }
    }

    /// Applies raw pointer motion: the shell integrates the delta into new
    /// angles, and they take effect only while the pointer is captured.
    pub fn handle_pointer_motion(&mut self, rotated: Rotation)
        requires
            old(self).wf(),
        ensures
            final(self).wf(),
            final(self)@ == pointer_transition(old(self)@, rotated),
    {
        if self.has_focus {
            self.camera.update_rotation_angles(rotated.yaw, rotated.pitch);
        }
        proof {
            assert(self@ =~= pointer_transition(old(self)@, rotated));
        }
    }

    /// Runs the per-frame update: move the camera (only while the pointer is
    /// captured, and only if the held keys ask for movement), then queue a
    /// fresh view-projection matrix computed from the camera exactly as it
    /// now stands. Deliberately called after the frame's render pass, which
    /// therefore drew with the previous update's camera state.
    pub fn update(&mut self, moved_eye: Vec3)
        requires
            old(self).wf(),
        ensures
            final(self).wf(),
            final(self)@ == update_transition(old(self)@, moved_eye),
    {
        if self.has_focus {
            let intent = move_intent(&self.keys_down);
            self.camera.update_position(&intent, moved_eye);
        }
        self.renderer.update_camera_buffer(&self.camera);
        proof {
            assert(self@ =~= update_transition(old(self)@, moved_eye));
        }
    }

    /// Finishes one pass of the frame protocol, right after the render pass:
    /// on success the update runs and the next frame is requested; on a
    /// transient failure the frame is skipped — the state, including the
    /// uploaded matrix, is untouched — and the directive says whether the
    /// surface must be reconfigured first or the application must stop.
    pub fn run_frame(&mut self, status: RenderStatus, moved_eye: Vec3) -> (d: FrameDirective)
        requires
            old(self).wf(),
        ensures
            final(self).wf(),
            final(self)@ == frame_transition(old(self)@, status, moved_eye).0,
            d == frame_transition(old(self)@, status, moved_eye).1,
    {
        match status {
            RenderStatus::Completed => {
                self.update(moved_eye);
                FrameDirective::Continue
            },
            RenderStatus::Failed(e) => classify_surface_error(&e),
        }
    }

    /// The cursor state the window must be put in: locked and hidden while
    /// the pointer is captured, free and visible otherwise.
    pub fn cursor_mode(&self) -> (m: CursorMode)
        ensures
            m == (if self.has_focus {
                CursorMode::Locked
            } else {
                CursorMode::Free
            }),
    {
        if self.has_focus {
            CursorMode::Locked
        } else {
            CursorMode::Free
        }
    }
}

/// Whether an event is handled by the lifecycle dispatcher itself rather
/// than the application.
pub open spec fn is_frame_control(e: WindowEvent) -> bool {
    e is CloseRequested || e is RedrawRequested
}

/// Wraps an optional side effect into a dispatcher directive.
pub open spec fn perform_of(act: Option<Action>) -> Directive {
    match act {
        Option::None => Directive::Ignore,
        Option::Some(a) => Directive::Perform(a),
    }
}

/// The load state of the application: the window either does not exist yet,
/// or the window and the application are ready. The transition is one-way
/// for the life of the process.
#[derive(Debug)]
pub enum AppLoadState {
    /// The window has not been created yet.
    Unloaded,
    /// Window and application are ready for events.
    Loaded { app: App },
}

impl AppLoadState {
    /// A loaded application is well formed.
    pub open spec fn wf(self) -> bool {
        self matches AppLoadState::Loaded { app } ==> app.wf()
    }

    /// The host delivered its "resumed" signal: the shell has created the
    /// window and built the application around it, and the lifecycle becomes
    /// loaded.
    pub fn resumed(&mut self, app: App)
        requires
            app.wf(),
        ensures
            final(self).wf(),
            *final(self) == (AppLoadState::Loaded { app }),
    {
        *self = AppLoadState::Loaded { app };
    }

    /// Dispatches a window event: nothing happens before the window exists;
    /// a close request terminates the loop; a redraw request runs one pass
    /// of the frame protocol; everything else is handed to the application.
    pub fn window_event(&mut self, event: &WindowEvent) -> (d: Directive)
        requires
            old(self).wf(),
            *event matches WindowEvent::Resized { width, height } ==> width > 0 && height > 0,
        ensures
            final(self).wf(),
            *old(self) is Unloaded ==> *final(self) == *old(self) && d == Directive::Ignore,
            *old(self) is Loaded && *event is CloseRequested ==> *final(self) == *old(self)
                && d == Directive::Exit,
            *old(self) is Loaded && *event is RedrawRequested ==> *final(self) == *old(self)
                && d == Directive::RunFrame,
            *old(self) is Loaded && !is_frame_control(*event) ==> *final(self) is Loaded && (
            *final(self))->Loaded_app@ == on_window_event((*old(self))->Loaded_app@, *event).0 && d
                == perform_of(on_window_event((*old(self))->Loaded_app@, *event).1),
    {
        match self {
            AppLoadState::Unloaded => Directive::Ignore,
            AppLoadState::Loaded { app } => {
                match event {
                    WindowEvent::CloseRequested => Directive::Exit,
                    WindowEvent::RedrawRequested => Directive::RunFrame,
                    _ => {
                        let act = app.handle_window_event(event);
                        match act {
                            Option::None => Directive::Ignore,
                            Option::Some(a) => Directive::Perform(a),
                        }
                    },
                }
            },
        }
    }

    /// Dispatches raw pointer motion: ignored before the window exists,
    /// handed to the application afterwards.
    pub fn device_event(&mut self, rotated: Rotation)
        requires
            old(self).wf(),
        ensures
            final(self).wf(),
            *old(self) is Unloaded ==> *final(self) == *old(self),
            *old(self) is Loaded ==> *final(self) is Loaded && (*final(self))->Loaded_app@
                == pointer_transition((*old(self))->Loaded_app@, rotated),
    {
        match self {
            AppLoadState::Unloaded => {},
            AppLoadState::Loaded { app } => {
                app.handle_pointer_motion(rotated);
            },
        }
    }
}

/// The camera state a render pass draws with: the one the uniform buffer's
/// matrix was computed from.
pub open spec fn drawn_state(s: AppView) -> Camera {
    s.renderer.uploaded
}

/// Folds a run of window events over the application state.
pub open spec fn apply_window_events(s: AppView, es: Seq<WindowEvent>) -> AppView
    decreases es.len(),
{
    if es.len() == 0 {
        s
    } else {
        apply_window_events(on_window_event(s, es[0]).0, es.skip(1))
    }
}

/// No window event touches the uploaded matrix: only a frame's update does.
pub proof fn lemma_window_event_preserves_upload(s: AppView, e: WindowEvent)
    ensures
        on_window_event(s, e).0.renderer.uploaded == s.renderer.uploaded,
{
}

/// Pointer look between frames never touches the uploaded matrix either.
pub proof fn lemma_pointer_motion_preserves_upload(s: AppView, rotated: Rotation)
    ensures
        pointer_transition(s, rotated).renderer.uploaded == s.renderer.uploaded,
{
}

/// A whole run of window events leaves the uploaded matrix as it was.
pub proof fn lemma_events_preserve_upload(s: AppView, es: Seq<WindowEvent>)
    ensures
        apply_window_events(s, es).renderer.uploaded == s.renderer.uploaded,
    decreases es.len(),
{
    if es.len() > 0 {
        lemma_window_event_preserves_upload(s, es[0]);
        lemma_events_preserve_upload(on_window_event(s, es[0]).0, es.skip(1));
    }
}

/// One-frame latency: a frame's update uploads exactly the camera state it
/// produced, and no run of window events handled before the next frame's
/// render pass changes the upload — so that pass draws the camera as of the
/// end of the previous update, never its own frame's.
pub proof fn lemma_frame_latency(s: AppView, moved_eye: Vec3, es: Seq<WindowEvent>)
    ensures
        drawn_state(apply_window_events(update_transition(s, moved_eye), es))
            == update_transition(s, moved_eye).camera,
{
    lemma_events_preserve_upload(update_transition(s, moved_eye), es);
}

/// When the held keys ask for no movement — or the pointer is not captured —
/// a frame's update leaves the eye exactly where it was.
pub proof fn lemma_no_intent_no_motion(s: AppView, moved_eye: Vec3)
    requires
        intent_is_zero(s.keys) || !s.has_focus,
    ensures
        update_transition(s, moved_eye).camera.eye == s.camera.eye,
{
}

/// Opposed movement keys cancel over a whole frame: holding each movement
/// key together with its opposite (for example `W` and `S` at once) leaves
/// the eye exactly where it was.
pub proof fn lemma_opposed_keys_no_motion(s: AppView, moved_eye: Vec3)
    requires
        s.keys.contains(Key::KeyW) == s.keys.contains(Key::KeyS),
        s.keys.contains(Key::KeyD) == s.keys.contains(Key::KeyA),
        s.keys.contains(Key::Space) == s.keys.contains(Key::ShiftLeft),
    ensures
        update_transition(s, moved_eye).camera.eye == s.camera.eye,
{
    crate::input::lemma_opposed_keys_cancel(s.keys);
}

/// With no key held at all, a frame's update leaves the eye exactly where it
/// was.
pub proof fn lemma_idle_keys_no_motion(s: AppView, moved_eye: Vec3)
    requires
        s.keys == Set::<Key>::empty(),
    ensures
        update_transition(s, moved_eye).camera.eye == s.camera.eye,
{
    crate::input::lemma_no_keys_no_intent(s.keys);
}

} // verus!
