use dungeon_interaction::interaction::ProximityEvent;
use dungeon_interaction::level::{FieldValue, LevelField};
use dungeon_interaction::world::{Frame, InteractInput, World};

const PLAYER: u64 = 1;
const OBJECT: u64 = 2;

fn empty_frame() -> Frame {
    Frame {
        proximity: Vec::new(),
        connections: Vec::new(),
        input: InteractInput { keyboard_just_pressed: false, gamepad_buttons_just_pressed: Vec::new() },
    }
}

/// A world with the player's probe and one plain sensor object.
fn setup() -> World {
    let mut world = World::new();
    world.add_interactor(PLAYER);
    world.spawn_object(OBJECT);
    world.step(&empty_frame());
    world
}

fn begin_overlap(world: &mut World, a: u64, b: u64) {
    let mut frame = empty_frame();
    frame.proximity.push(ProximityEvent::Begin { a, b, sensor: true });
    world.step(&frame);
}

fn end_overlap(world: &mut World, a: u64, b: u64) {
    let mut frame = empty_frame();
    frame.proximity.push(ProximityEvent::End { a, b, sensor: true });
    world.step(&frame);
}

#[test]
fn it_adds_interactive_to_object_when_near_interactor() {
    let mut world = setup();
    begin_overlap(&mut world, PLAYER, OBJECT);
    assert!(world.is_interactive(OBJECT));
}

#[test]
fn it_removes_interactive_from_door_when_player_moves_away() {
    let mut world = setup();
    begin_overlap(&mut world, PLAYER, OBJECT);
    end_overlap(&mut world, PLAYER, OBJECT);
    assert!(!world.is_interactive(OBJECT));
}

#[test]
fn it_removes_interactive_text_when_player_moves_away_from_door() {
    let mut world = setup();
    end_overlap(&mut world, PLAYER, OBJECT);
    assert_eq!(world.prompt_text(), "");
}

#[test]
fn interactor_is_never_marked_interactive() {
    let mut world = setup();
    begin_overlap(&mut world, PLAYER, OBJECT);
    assert!(!world.is_interactive(PLAYER));
}

#[test]
fn repeated_overlap_begin_is_idempotent() {
    let mut world = setup();
    begin_overlap(&mut world, PLAYER, OBJECT);
    begin_overlap(&mut world, PLAYER, OBJECT);
    assert!(world.is_interactive(OBJECT));
    end_overlap(&mut world, PLAYER, OBJECT);
    assert!(!world.is_interactive(OBJECT));
}

#[test]
fn end_event_without_overlap_is_tolerated() {
    let mut world = setup();
    end_overlap(&mut world, PLAYER, OBJECT);
    assert!(!world.is_interactive(OBJECT));
}

#[test]
fn marker_follows_latest_event_in_one_step() {
    let mut world = setup();
    let mut frame = empty_frame();
    frame.proximity.push(ProximityEvent::Begin { a: PLAYER, b: OBJECT, sensor: true });
    frame.proximity.push(ProximityEvent::End { a: PLAYER, b: OBJECT, sensor: true });
    frame.proximity.push(ProximityEvent::Begin { a: PLAYER, b: OBJECT, sensor: true });
    world.step(&frame);
    assert!(world.is_interactive(OBJECT));
}

#[test]
fn ending_any_overlap_clears_the_prompt() {
    let door: u64 = 3;
    let mut world = setup();
    let fields =
        vec![LevelField { identifier: "is_open".to_string(), value: FieldValue::Bool(true) }];
    world.spawn_door(door, &fields);
    world.step(&empty_frame());
    begin_overlap(&mut world, PLAYER, door);
    assert_eq!(world.prompt_text(), "[E] Close");
    // the overlap with the unrelated object ends, and the prompt is cleared
    // even though the door is still in range
    end_overlap(&mut world, PLAYER, OBJECT);
    assert_eq!(world.prompt_text(), "");
    assert!(world.is_interactive(door));
}

#[test]
fn ended_overlap_keeps_door_state() {
    let door: u64 = 3;
    let mut world = setup();
    let fields =
        vec![LevelField { identifier: "is_open".to_string(), value: FieldValue::Bool(true) }];
    world.spawn_door(door, &fields);
    world.step(&empty_frame());
    begin_overlap(&mut world, PLAYER, door);
    end_overlap(&mut world, PLAYER, door);
    assert!(!world.is_interactive(door));
    assert_eq!(world.prompt_text(), "");
    assert!(world.door_is_open(door).unwrap());
}

#[test]
fn interact_edge_without_interactable_changes_nothing() {
    let door: u64 = 3;
    let mut world = setup();
    let fields =
        vec![LevelField { identifier: "is_open".to_string(), value: FieldValue::Bool(true) }];
    world.spawn_door(door, &fields);
    world.step(&empty_frame());
    let mut frame = empty_frame();
    frame.input.keyboard_just_pressed = true;
    world.step(&frame);
    assert!(world.door_is_open(door).unwrap());
}
