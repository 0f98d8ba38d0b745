//! Gameplay rules of the "Dodge the Creeps" game: what the heads-up display,
//! the game controller, the player and the mobs decide when the engine reports
//! an event. Each decision is a verified function that returns the list of
//! engine actions to perform; the engine glue performs them.
pub mod animations;
pub mod text;
pub mod hud;
pub mod main_scene;
pub mod mob;
pub mod player;
