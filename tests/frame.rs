use plat4rs::frame::{Action, SceneState, SurfaceError, Upload, Viewport, WindowEvent};
use plat4rs::input::Key;
use plat4rs::model::{Mesh, Model, PassCommand};

fn size(width: u32, height: u32) -> Viewport {
    Viewport { width, height }
}

fn key(key: Key, pressed: bool) -> WindowEvent {
    WindowEvent::Keyboard { key, pressed }
}

fn quad() -> Model<()> {
    Model { meshes: vec![Mesh::new("quad".to_string(), (), (), &vec![0, 1, 2, 2, 3, 0])] }
}

#[test]
fn new_scene_has_nothing_pending() {
    let mut scene = SceneState::new(size(800, 600));
    assert_eq!(scene.size(), size(800, 600));
    assert_eq!(scene.step(), (0, 0));
    let plan = scene.plan_frame(&quad());
    assert!(plan.uploads.is_empty());
    assert_eq!(plan.pass.commands().len(), 4);
}

#[test]
fn input_never_consumes_events() {
    let mut scene = SceneState::new(size(800, 600));
    assert!(!scene.input(&key(Key::D, true)));
    assert!(!scene.input(&WindowEvent::CloseRequested));
    assert!(!scene.input(&key(Key::D, false)));
}

#[test]
fn close_and_escape_exit() {
    let mut scene = SceneState::new(size(800, 600));
    assert_eq!(scene.handle_event(WindowEvent::CloseRequested), Action::Exit);
    assert_eq!(scene.handle_event(key(Key::Escape, true)), Action::Exit);
    assert_eq!(scene.handle_event(key(Key::Escape, false)), Action::Continue);
    assert_eq!(scene.handle_event(WindowEvent::Other), Action::Continue);
}

#[test]
fn tick_without_keys_does_not_move() {
    let mut scene = SceneState::new(size(800, 600));
    assert_eq!(scene.update(), (0, 0));
    let plan = scene.plan_frame(&quad());
    assert_eq!(plan.uploads, vec![Upload::Instance]);
}

#[test]
fn tick_with_right_held_moves_along_right_axis() {
    let mut scene = SceneState::new(size(800, 600));
    assert_eq!(scene.handle_event(key(Key::Right, true)), Action::Continue);
    assert_eq!(scene.update(), (-1, 0));
    assert_eq!(scene.step(), (-1, 0));
    scene.handle_event(key(Key::Right, false));
    assert_eq!(scene.update(), (0, 0));
}

#[test]
fn resize_refreshes_camera_before_next_frame() {
    let mut scene = SceneState::new(size(800, 600));
    assert_eq!(
        scene.handle_event(WindowEvent::Resized(size(400, 300))),
        Action::Reconfigure(size(400, 300))
    );
    assert_eq!(scene.size(), size(400, 300));
    scene.update();
    let plan = scene.plan_frame(&quad());
    assert_eq!(plan.uploads, vec![Upload::Camera(size(400, 300)), Upload::Instance]);
    let again = scene.plan_frame(&quad());
    assert!(again.uploads.is_empty());
}

#[test]
fn empty_resize_is_ignored() {
    let mut scene = SceneState::new(size(800, 600));
    assert!(!scene.resize(size(0, 300)));
    assert!(!scene.resize(size(400, 0)));
    assert_eq!(scene.handle_event(WindowEvent::Resized(size(0, 0))), Action::Continue);
    assert_eq!(scene.size(), size(800, 600));
    assert!(scene.plan_frame(&quad()).uploads.is_empty());
    assert!(scene.resize(size(1, 1)));
    assert_eq!(scene.plan_frame(&quad()).uploads, vec![Upload::Camera(size(1, 1))]);
}

#[test]
fn lost_surface_is_reconfigured_at_same_size() {
    let mut scene = SceneState::new(size(800, 600));
    scene.plan_frame(&quad());
    assert_eq!(
        scene.on_render_result(Err(SurfaceError::Lost)),
        Action::Reconfigure(size(800, 600))
    );
    assert_eq!(scene.size(), size(800, 600));
    let plan = scene.plan_frame(&quad());
    assert_eq!(plan.uploads, vec![Upload::Camera(size(800, 600))]);
    assert_eq!(scene.on_render_result(Ok(())), Action::Continue);
}

#[test]
fn other_surface_errors_skip_or_exit() {
    let mut scene = SceneState::new(size(800, 600));
    assert_eq!(scene.on_render_result(Err(SurfaceError::Timeout)), Action::Skip);
    assert_eq!(scene.on_render_result(Err(SurfaceError::Outdated)), Action::Skip);
    assert_eq!(scene.on_render_result(Err(SurfaceError::OutOfMemory)), Action::Exit);
    assert!(scene.plan_frame(&quad()).uploads.is_empty());
}

#[test]
fn frame_draws_the_model_for_one_instance() {
    let mut scene = SceneState::new(size(800, 600));
    let plan = scene.plan_frame(&quad());
    assert_eq!(
        plan.pass.commands()[3],
        PassCommand::DrawIndexed {
            index_start: 0,
            index_end: 6,
            base_vertex: 0,
            instance_start: 0,
            instance_end: 1,
        }
    );
}
