use vstd::prelude::*;

use crate::input::{held_direction, key_direction, step_of, without, InputController, Key, PressedKeys};
use crate::model::{model_commands, Model, RenderPassPlan};
use crate::Direction;

verus! {

/// The size of the render target, in pixels.
#[derive(Clone, Copy, Debug, PartialEq, Eq, Structural)]
pub struct Viewport {
    pub width: u32,
    pub height: u32,
}

impl Viewport {
    /// A target with room for at least one pixel.
    pub open spec fn is_visible(self) -> bool {
        self.width > 0 && self.height > 0
    }
}

/// Why a frame could not be acquired or presented.
#[derive(Clone, Copy, Debug, PartialEq, Eq, Structural)]
pub enum SurfaceError {
    Timeout,
    Outdated,
    Lost,
    OutOfMemory,
}

/// What happens to the window while it is open, as far as the scene cares.
#[derive(Clone, Copy, Debug, PartialEq, Eq, Structural)]
pub enum WindowEvent {
    CloseRequested,
    Resized(Viewport),
    Keyboard { key: Key, pressed: bool },
    Other,
}

/// What the event loop is to do next.
#[derive(Clone, Copy, Debug, PartialEq, Eq, Structural)]
pub enum Action {
    /// Carry on.
    Continue,
    /// Configure the surface again at this size, then carry on.
    Reconfigure(Viewport),
    /// Drop this frame and try again on the next one.
    Skip,
    /// Leave the loop.
    Exit,
}

/// A buffer write to queue before a frame's draws.
#[derive(Clone, Copy, Debug, PartialEq, Eq, Structural)]
pub enum Upload {
    /// Rebuild the camera uniform for this viewport and write it.
    Camera(Viewport),
    /// Write the instance's current transform.
    Instance,
}

/// What one frame does: the writes to queue first, then the pass to record.
pub struct FramePlan {
    pub uploads: Vec<Upload>,
    pub pass: RenderPassPlan,
}

/// The decisions of the update and render cycle, as plain values.
pub struct SceneView {
    pub size: Viewport,
    pub keys: Seq<Key>,
    pub direction: Option<Direction>,
    pub camera_stale: bool,
    pub instance_stale: bool,
}

impl SceneView {
    /// A positive size, and a key set that holds each steering key once.
    pub open spec fn wf(self) -> bool {
        &&& self.size.is_visible()
        &&& self.keys.no_duplicates()
        &&& forall|i: int| 0 <= i < self.keys.len() ==> key_direction(#[trigger] self.keys[i]) is Some
    }

    /// The scene after the window reported `v` as its new size: a size with
    /// no pixels is ignored; another becomes the size, and the camera must
    /// be rebuilt for it before the next frame.
    pub open spec fn resized(self, v: Viewport) -> SceneView {
        if v.is_visible() {
            SceneView { size: v, camera_stale: true, ..self }
        } else {
            self
        }
    }

    /// The scene after a key went down or up.
    pub open spec fn keyed(self, key: Key, pressed: bool) -> SceneView {
        if pressed {
            if key_direction(key) is None || self.keys.contains(key) {
                self
            } else {
                SceneView { keys: self.keys.push(key), ..self }
            }
        } else {
            SceneView { keys: without(self.keys, key), ..self }
        }
    }

    /// The scene after `event` went through the input handler.
    pub open spec fn after_input(self, event: WindowEvent) -> SceneView {
        match event {
            WindowEvent::Keyboard { key, pressed } => self.keyed(key, pressed),
            _ => self,
        }
    }

    /// The scene and the loop's next action after `event`.
    pub open spec fn after_event(self, event: WindowEvent) -> (SceneView, Action) {
        let s = self.after_input(event);
        match event {
            WindowEvent::CloseRequested => (s, Action::Exit),
            WindowEvent::Keyboard { key: Key::Escape, pressed: true } => (s, Action::Exit),
            WindowEvent::Resized(v) => if v.is_visible() {
                (s.resized(v), Action::Reconfigure(v))
            } else {
                (s, Action::Continue)
            },
            _ => (s, Action::Continue),
        }
    }

    /// The scene after a tick: the held keys choose the direction, and the
    /// instance, which the caller moves, must be written again.
    pub open spec fn updated(self) -> SceneView {
        SceneView { direction: held_direction(self.keys), instance_stale: true, ..self }
    }

    /// The writes that must reach the GPU before the next frame draws: the
    /// camera first, for the current size, then the instance.
    pub open spec fn pending_uploads(self) -> Seq<Upload> {
        (if self.camera_stale {
            seq![Upload::Camera(self.size)]
        } else {
            seq![]
        }) + (if self.instance_stale {
            seq![Upload::Instance]
        } else {
            seq![]
        })
    }

    /// The scene once a frame has taken its pending writes.
    pub open spec fn planned(self) -> SceneView {
        SceneView { camera_stale: false, instance_stale: false, ..self }
    }

    /// The scene and the loop's next action after a frame ended with
    /// `result`. A lost surface is configured again at the current size, as
    /// a resize to that size; running out of memory ends the loop; a timeout
    /// or an outdated surface drops the frame.
    pub open spec fn after_render(self, result: Result<(), SurfaceError>) -> (SceneView, Action) {
        match result {
            Ok(()) => (self, Action::Continue),
            Err(SurfaceError::Lost) => (self.resized(self.size), Action::Reconfigure(self.size)),
            Err(SurfaceError::OutOfMemory) => (self, Action::Exit),
            Err(_) => (self, Action::Skip),
        }
    }
}

/// With no key held a tick chooses no direction, so the instance does not
/// move whatever time passed; with only keys that steer right held, a tick
/// moves it one unit, times speed and time, along the axis of Right.
pub proof fn lemma_idle_and_right(s: SceneView)
    ensures
        s.keys.len() == 0 ==> s.updated().direction is None && step_of(s.updated().direction) == (
        0int, 0int),
        (s.keys.len() > 0 && forall|i: int|
            0 <= i < s.keys.len() ==> key_direction(#[trigger] s.keys[i]) == Some(Direction::Right))
            ==> step_of(s.updated().direction) == Direction::Right.unit(),
{
    if s.keys.len() > 0 && forall|i: int|
        0 <= i < s.keys.len() ==> key_direction(#[trigger] s.keys[i]) == Some(Direction::Right) {
        assert(key_direction(s.keys[s.keys.len() - 1]) == Some(Direction::Right));
    }
}

/// A resize to a size with pixels becomes the viewport, and the next frame
/// writes the camera for it before anything else, also when ticks or key
/// events come between the resize and that frame.
pub proof fn lemma_resize_refreshes_camera(s: SceneView, v: Viewport, key: Key, pressed: bool)
    requires
        v.is_visible(),
    ensures
        s.resized(v).size == v,
        s.resized(v).pending_uploads()[0] == Upload::Camera(v),
        s.resized(v).updated().pending_uploads()[0] == Upload::Camera(v),
        s.resized(v).keyed(key, pressed).pending_uploads()[0] == Upload::Camera(v),
{
}

/// A lost surface does not end the loop: it is configured again at the size
/// it had, the scene stays well formed, and the next frame writes the camera
/// for that size before it draws.
pub proof fn lemma_lost_surface_recovers(s: SceneView)
    requires
        s.wf(),
    ensures
        s.after_render(Err(SurfaceError::Lost)) == (s.resized(s.size), Action::Reconfigure(s.size)),
        s.after_render(Err(SurfaceError::Lost)).0.wf(),
        s.after_render(Err(SurfaceError::Lost)).0.size == s.size,
        s.after_render(Err(SurfaceError::Lost)).0.pending_uploads()[0] == Upload::Camera(s.size),
{
}

/// A frame takes every pending write: a second frame with nothing in
/// between writes nothing, and planning leaves the size and keys alone.
pub proof fn lemma_frame_takes_pending_writes(s: SceneView)
    ensures
        s.planned().pending_uploads().len() == 0,
        s.planned().planned() == s.planned(),
        s.planned().size == s.size,
        s.planned().keys == s.keys,
{
    assert(s.planned().pending_uploads() =~= Seq::<Upload>::empty());
}

/// The part of the scene that decides: the viewport, the held keys, the
/// direction of travel, and which GPU buffers are out of date.
pub struct SceneState {
    size: Viewport,
    keys: PressedKeys,
    controller: InputController,
    camera_stale: bool,
    instance_stale: bool,
}

impl View for SceneState {
    type V = SceneView;

    closed spec fn view(&self) -> SceneView {
        SceneView {
            size: self.size,
            keys: self.keys@,
            direction: self.controller.direction,
            camera_stale: self.camera_stale,
            instance_stale: self.instance_stale,
        }
    }
}

impl SceneState {
    /// The scene is well formed when its view is.
    pub open spec fn wf(&self) -> bool {
        self@.wf()
    }

    /// A scene of the given size with no key held, not moving, and its
    /// buffers written with their first contents.
    pub fn new(size: Viewport) -> (r: SceneState)
        requires
            size.is_visible(),
        ensures
            r.wf(),
            r@ == (SceneView {
                size,
                keys: Seq::empty(),
                direction: None,
                camera_stale: false,
                instance_stale: false,
            }),
    {
        SceneState {
            size,
            keys: PressedKeys::new(),
            controller: InputController::new(),
            camera_stale: false,
            instance_stale: false,
        }
    }

    /// The current viewport.
    pub fn size(&self) -> (r: Viewport)
        ensures
            r == self@.size,
    {
        self.size
    }

    /// The unit step the last tick chose: zero when no key steers.
    pub fn step(&self) -> (r: (i32, i32))
        ensures
            (r.0 as int, r.1 as int) == step_of(self@.direction),
    {
        self.controller.step()
    }

    /// Feeds a window event to the input handler: a key going down or up
    /// changes the held keys. No event is consumed, so the result is false.
    pub fn input(&mut self, event: &WindowEvent) -> (r: bool)
        requires
            old(self).wf(),
        ensures
            final(self).wf(),
            final(self)@ == old(self)@.after_input(*event),
            !r,
    {
        match event {
            WindowEvent::Keyboard { key, pressed } => {
                if *pressed {
                    self.keys.press(*key);
                } else {
                    self.keys.release(*key);
                }
            },
            _ => {},
        }
        false
    }

    /// Takes a new window size. Returns whether the surface must be
    /// configured for it; if so the camera is rebuilt before the next frame.
    pub fn resize(&mut self, new_size: Viewport) -> (r: bool)
        requires
            old(self).wf(),
        ensures
            final(self).wf(),
            final(self)@ == old(self)@.resized(new_size),
            r == new_size.is_visible(),
    {
        if new_size.width > 0 && new_size.height > 0 {
            self.size = new_size;
            self.camera_stale = true;
            true
        } else {
            false
        }
    }

    /// Handles one window event and says what the loop does next: close
    /// requests and Escape end it, a resize reconfigures the surface.
    pub fn handle_event(&mut self, event: WindowEvent) -> (r: Action)
        requires
            old(self).wf(),
        ensures
            final(self).wf(),
            (final(self)@, r) == old(self)@.after_event(event),
    {
        let consumed = self.input(&event);
        if consumed {
            return Action::Continue;
        }
        match event {
            WindowEvent::CloseRequested => Action::Exit,
            WindowEvent::Keyboard { key: Key::Escape, pressed: true } => Action::Exit,
            WindowEvent::Resized(v) => {
                if self.resize(v) {
                    Action::Reconfigure(v)
                } else {
                    Action::Continue
                }
            },
            _ => Action::Continue,
        }
    }

    /// One tick: the held keys choose the direction, and the instance must
    /// be written again. Returns the unit step to move the instance by, to
    /// be scaled by speed and elapsed time.
    pub fn update(&mut self) -> (r: (i32, i32))
        requires
            old(self).wf(),
        ensures
            final(self).wf(),
            final(self)@ == old(self)@.updated(),
            (r.0 as int, r.1 as int) == step_of(final(self)@.direction),
    {
        self.controller.set_direction(&self.keys);
        self.instance_stale = true;
        self.controller.step()
    }

    /// Plans one frame of `model`: the pending writes, then a pass that
    /// draws every mesh for the single instance.
    pub fn plan_frame<B>(&mut self, model: &Model<B>) -> (r: FramePlan)
        requires
            old(self).wf(),
        ensures
            final(self).wf(),
            final(self)@ == old(self)@.planned(),
            r.uploads@ == old(self)@.pending_uploads(),
            r.pass@ == model_commands(model.meshes@, 0, 1),
    {
        let mut uploads: Vec<Upload> = Vec::new();
        if self.camera_stale {
            uploads.push(Upload::Camera(self.size));
        }
        if self.instance_stale {
            uploads.push(Upload::Instance);
        }
        assert(uploads@ =~= old(self)@.pending_uploads());
        self.camera_stale = false;
        self.instance_stale = false;
        let mut pass = RenderPassPlan::new();
        pass.draw_model(model);
        assert(pass@ =~= model_commands(model.meshes@, 0, 1));
        FramePlan { uploads, pass }
    }

    /// Takes the outcome of rendering a frame and says what the loop does
    /// next.
    pub fn on_render_result(&mut self, result: Result<(), SurfaceError>) -> (r: Action)
        requires
            old(self).wf(),
        ensures
            final(self).wf(),
            (final(self)@, r) == old(self)@.after_render(result),
    {
        match result {
            Ok(()) => Action::Continue,
            Err(SurfaceError::Lost) => {
                let size = self.size;
                self.resize(size);
                Action::Reconfigure(size)
            },
            Err(SurfaceError::OutOfMemory) => Action::Exit,
            Err(_) => Action::Skip,
        }
    }
}

} // verus!
