use plat4rs::input::{InputController, Key, PressedKeys};
use plat4rs::Direction;

#[test]
fn keys_map_to_directions() {
    assert_eq!(Direction::from_virtual_keycode(&Key::W), Some(Direction::Up));
    assert_eq!(Direction::from_virtual_keycode(&Key::Up), Some(Direction::Up));
    assert_eq!(Direction::from_virtual_keycode(&Key::S), Some(Direction::Down));
    assert_eq!(Direction::from_virtual_keycode(&Key::Down), Some(Direction::Down));
    assert_eq!(Direction::from_virtual_keycode(&Key::A), Some(Direction::Left));
    assert_eq!(Direction::from_virtual_keycode(&Key::Left), Some(Direction::Left));
    assert_eq!(Direction::from_virtual_keycode(&Key::D), Some(Direction::Right));
    assert_eq!(Direction::from_virtual_keycode(&Key::Right), Some(Direction::Right));
    assert_eq!(Direction::from_virtual_keycode(&Key::Escape), None);
    assert_eq!(Direction::from_virtual_keycode(&Key::Other), None);
}

#[test]
fn directions_give_unit_steps() {
    assert_eq!(Direction::Up.to_vec2(), (0, 1));
    assert_eq!(Direction::Down.to_vec2(), (0, -1));
    assert_eq!(Direction::Left.to_vec2(), (1, 0));
    assert_eq!(Direction::Right.to_vec2(), (-1, 0));
}

#[test]
fn pressed_keys_hold_each_steering_key_once() {
    let mut keys = PressedKeys::new();
    assert!(!keys.contains(Key::W));
    keys.press(Key::W);
    keys.press(Key::W);
    keys.press(Key::Escape);
    keys.press(Key::Other);
    assert!(keys.contains(Key::W));
    assert!(!keys.contains(Key::Escape));
    assert!(!keys.contains(Key::Other));
    keys.release(Key::W);
    assert!(!keys.contains(Key::W));
    keys.release(Key::A);
    assert!(!keys.contains(Key::A));
}

#[test]
fn no_key_held_means_no_step() {
    let keys = PressedKeys::new();
    let mut controller = InputController::new();
    controller.set_direction(&keys);
    assert_eq!(controller.direction, None);
    assert_eq!(controller.step(), (0, 0));
}

#[test]
fn only_right_held_steps_along_right_axis() {
    let mut keys = PressedKeys::new();
    keys.press(Key::D);
    let mut controller = InputController::new();
    controller.set_direction(&keys);
    assert_eq!(controller.direction, Some(Direction::Right));
    assert_eq!(controller.step(), (-1, 0));
    keys.press(Key::Right);
    controller.set_direction(&keys);
    assert_eq!(controller.step(), (-1, 0));
}

#[test]
fn last_pressed_direction_wins() {
    let mut keys = PressedKeys::new();
    keys.press(Key::D);
    keys.press(Key::A);
    let mut controller = InputController::new();
    controller.set_direction(&keys);
    assert_eq!(controller.direction, Some(Direction::Left));
    keys.press(Key::Escape);
    controller.set_direction(&keys);
    assert_eq!(controller.direction, Some(Direction::Left));
    keys.release(Key::A);
    controller.set_direction(&keys);
    assert_eq!(controller.direction, Some(Direction::Right));
    keys.press(Key::A);
    keys.press(Key::W);
    controller.set_direction(&keys);
    assert_eq!(controller.direction, Some(Direction::Up));
    assert_eq!(controller.step(), (0, 1));
    keys.release(Key::W);
    keys.release(Key::A);
    keys.release(Key::D);
    controller.set_direction(&keys);
    assert_eq!(controller.direction, None);
}
