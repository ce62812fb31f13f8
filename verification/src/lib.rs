//! Proximity-gated interaction for a top-down dungeon game.
//!
//! The library models the game's interaction mechanism as a step-based state
//! machine over plain values: a physics engine reports sensor overlaps as
//! begin/end events, an input layer reports "just pressed" edges, and the
//! step function decides which entities are marked interactable, when a door
//! toggles between open and closed, and how its sprite frame, blocking
//! collider and the on-screen prompt must follow.  The surrounding engine
//! (rendering, physics simulation, input polling) runs the loop and feeds
//! each frame's events in; everything it hands over is decided here, with
//! contracts proved by Verus.

pub mod animation;
pub mod door;
pub mod game_logs;
pub mod gamepad;
pub mod interaction;
pub mod level;
pub mod world;
