//! Gameplay core of an arcade asteroids game.
//!
//! The library holds the rules of the game and the entities they act on. The
//! program around it reads the keys, runs the physics step and draws; each
//! tick it hands the library the time that passed, the keys held and the
//! contacts that began, and takes back what to create, remove and show.
//!
//! Everything is integer arithmetic: time is counted in nanoseconds, lengths
//! in thousandths of a map unit, speeds in thousandths of a map unit per
//! second and turn rates in milliradians per second.

pub mod arena;
pub mod asteroid;
pub mod body;
pub mod contact;
pub mod explosion;
pub mod flow;
pub mod game;
pub mod hud;
pub mod laser;
pub mod menu;
pub mod player_ship;
mod random;
pub mod state;
pub mod timer;
pub mod world;
