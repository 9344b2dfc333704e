//! Gameplay rules of a first-person shooter starter kit: the sound pool, the
//! player's control state, hit resolution and the health read-out.
//!
//! The rules are plain state machines over integers, booleans and strings.
//! The scene tree, physics and rendering belong to the game engine; an
//! embedding hands the library what the engine reports and carries out the
//! actions that the library returns.

pub mod audio;
pub mod hud;
pub mod player;
pub mod raycast;
pub mod sound_path;
