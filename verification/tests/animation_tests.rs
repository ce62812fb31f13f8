use dungeon_interaction::animation::{
    update_animation_state, update_sprite_sheet, AnimationState, CharacterAnimation,
};

/// The player's animation as its level entity sets it up, with a one-second
/// repeating frame timer driven by the caller.
fn player_animation() -> CharacterAnimation {
    CharacterAnimation { state: AnimationState::Idle, first: 0, last: 7 }
}

#[test]
fn it_has_idle_animation_by_default() {
    let animation = CharacterAnimation::default();
    assert_eq!(animation.state, AnimationState::Idle);
}

#[test]
fn it_changes_to_moving_animation_when_moving() {
    let mut animation = player_animation();
    update_animation_state(&mut animation, true);
    assert_eq!(animation.state, AnimationState::Moving);
}

#[test]
fn updates_sprite_by_frame() {
    let animation = player_animation();
    let frame: usize = 0;
    assert_eq!(frame, 0);

    // it doesnt update the sprite if the velocity is 0
    let frame = update_sprite_sheet(&animation, frame, false, true);
    assert_eq!(frame, 0);

    let frame = update_sprite_sheet(&animation, frame, true, true);
    assert_eq!(frame, 1);
}

#[test]
fn sprite_frame_wraps_to_first_after_last() {
    let animation = player_animation();
    let frame = update_sprite_sheet(&animation, 7, true, true);
    assert_eq!(frame, 0);
}

#[test]
fn sprite_frame_waits_for_the_timer() {
    let animation = player_animation();
    let frame = update_sprite_sheet(&animation, 3, true, false);
    assert_eq!(frame, 3);
}

#[test]
fn player_entity_gets_the_walking_cycle() {
    let animation = CharacterAnimation::from_identifier("Player");
    assert_eq!(animation.state, AnimationState::Moving);
    assert_eq!(animation.first, 0);
    assert_eq!(animation.last, 7);
}

#[test]
fn other_entities_get_the_default_animation() {
    let animation = CharacterAnimation::from_identifier("Door");
    assert_eq!(animation.state, AnimationState::Idle);
    assert_eq!(animation.last, 0);
}
