use dungeon_interaction::gamepad::{gamepad_detection, GamepadConnection, MyGamepad};
use dungeon_interaction::world::{Frame, InteractInput, World};

fn empty_frame() -> Frame {
    Frame {
        proximity: Vec::new(),
        connections: Vec::new(),
        input: InteractInput { keyboard_just_pressed: false, gamepad_buttons_just_pressed: Vec::new() },
    }
}

fn connect_test_gamepad(world: &mut World) {
    let mut frame = empty_frame();
    frame.connections.push(GamepadConnection::Connected(1));
    world.step(&frame);
}

#[test]
fn gamepad_primary_game_pad_is_assigned_on_connect() {
    let mut world = World::new();
    connect_test_gamepad(&mut world);
    assert_eq!(world.active_gamepad(), Some(1));
}

#[test]
fn gamepad_primary_game_pad_is_unassigned_on_disconnect() {
    let mut world = World::new();
    connect_test_gamepad(&mut world);
    let mut frame = empty_frame();
    frame.connections.push(GamepadConnection::Disconnected(1));
    world.step(&frame);
    assert!(world.active_gamepad().is_none());
}

#[test]
fn input_primary_game_pad_is_assigned_on_connect() {
    let mut binding: Option<MyGamepad> = None;
    gamepad_detection(&mut binding, &vec![GamepadConnection::Connected(1)]);
    assert_eq!(binding.unwrap().0, 1);
}

#[test]
fn input_primary_game_pad_is_unassigned_on_disconnect() {
    let mut binding: Option<MyGamepad> = None;
    gamepad_detection(&mut binding, &vec![GamepadConnection::Connected(1)]);
    gamepad_detection(&mut binding, &vec![GamepadConnection::Disconnected(1)]);
    assert!(binding.is_none());
}

#[test]
fn second_gamepad_does_not_steal_the_binding() {
    let mut binding: Option<MyGamepad> = None;
    gamepad_detection(
        &mut binding,
        &vec![GamepadConnection::Connected(1), GamepadConnection::Connected(2)],
    );
    assert_eq!(binding.unwrap().0, 1);
}

#[test]
fn other_gamepad_disconnect_keeps_the_binding() {
    let mut binding: Option<MyGamepad> = None;
    gamepad_detection(
        &mut binding,
        &vec![GamepadConnection::Connected(1), GamepadConnection::Disconnected(2)],
    );
    assert_eq!(binding.unwrap().0, 1);
}

#[test]
fn next_gamepad_can_bind_after_disconnect() {
    let mut binding: Option<MyGamepad> = None;
    gamepad_detection(
        &mut binding,
        &vec![
            GamepadConnection::Connected(1),
            GamepadConnection::Disconnected(1),
            GamepadConnection::Connected(2),
        ],
    );
    assert_eq!(binding.unwrap().0, 2);
}
