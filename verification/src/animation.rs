//! Character animation: idle/moving state and sprite-sheet frame stepping.

use vstd::prelude::*;

verus! {

/// Whether a character is standing still or walking.
#[derive(Clone, Copy, Debug, PartialEq, Eq, Structural)]
pub enum AnimationState {
    Idle,
    Moving,
}

/// A character's animation: its current state and the frame range of its
/// walking cycle in the sprite sheet.
#[derive(Clone, Copy)]
pub struct CharacterAnimation {
    pub state: AnimationState,
    pub first: usize,
    pub last: usize,
}

impl CharacterAnimation {
    /// The animation a level entity spawns with: the player gets the walking
    /// cycle; anything else a single idle frame.
    pub fn from_identifier(identifier: &str) -> (animation: CharacterAnimation)
        ensures
            animation == spec_animation_for(identifier@),
    {
        if identifier.to_owned() == String::from_str("Player") {
            CharacterAnimation { state: AnimationState::Moving, first: 0, last: 7 }
        } else {
            CharacterAnimation { state: AnimationState::Idle, first: 0, last: 0 }
        }
    }

    /// Well-formed: the walking cycle's frame range is ordered.
    pub open spec fn wf(&self) -> bool {
        self.first <= self.last
    }
}

impl Default for CharacterAnimation {
    /// A character is idle on a single frame until told otherwise.
    fn default() -> (animation: CharacterAnimation)
        ensures
            animation.state == AnimationState::Idle,
            animation.first == 0,
            animation.last == 0,
    {
        CharacterAnimation { state: AnimationState::Idle, first: 0, last: 0 }
    }
}

/// The animation a level entity spawns with, by its identifier.
pub open spec fn spec_animation_for(identifier: Seq<char>) -> CharacterAnimation {
    if identifier == "Player"@ {
        CharacterAnimation { state: AnimationState::Moving, first: 0, last: 7 }
    } else {
        CharacterAnimation { state: AnimationState::Idle, first: 0, last: 0 }
    }
}

/// The next frame of the walking cycle: one step forward, wrapping from the
/// last frame back to the first.
pub open spec fn spec_next_frame(animation: CharacterAnimation, frame: usize) -> usize {
    if frame == animation.last {
        animation.first
    } else {
        (frame + 1) as usize
    }
}

/// A character is moving exactly when its velocity is non-zero.
pub fn update_animation_state(animation: &mut CharacterAnimation, moving: bool)
    ensures
        final(animation).state == if moving {
            AnimationState::Moving
        } else {
            AnimationState::Idle
        },
        final(animation).first == old(animation).first,
        final(animation).last == old(animation).last,
{
    if moving {
        animation.state = AnimationState::Moving;
    } else {
        animation.state = AnimationState::Idle;
    }
}

/// The sprite frame after one step: the walking cycle advances only when the
/// character is moving and its frame timer has just finished; otherwise the
/// frame stays put.
pub fn update_sprite_sheet(
    animation: &CharacterAnimation,
    frame: usize,
    moving: bool,
    timer_just_finished: bool,
) -> (next: usize)
    requires
        animation.wf(),
        animation.first <= frame <= animation.last,
    ensures
        next == if moving && timer_just_finished {
            spec_next_frame(*animation, frame)
        } else {
            frame
        },
        animation.first <= next <= animation.last,
{
    if !moving || !timer_just_finished {
        return frame;
    }
    if frame == animation.last {
        animation.first
    } else {
        frame + 1
    }
}

} // verus!
