//! Verified core of a speedrun analysis tool for Resident Evil 2: the game's RNG and the
//! outcome of each kind of roll, bus-room RNG simulation, fixed-point math, weapon and AI
//! range tables, world objects, and the flight recorder's frame record format.

pub mod text;
pub mod rng;
pub mod roll_type;
pub mod sim;
pub mod math;
pub mod game;
pub mod hit;
pub mod ai;
pub mod world;
pub mod room;
pub mod record;
pub mod tracker;
pub mod codec;
pub mod analysis;
pub mod tas;
pub mod version;
pub mod animation;
pub mod playback;
pub mod compare;
pub mod collision;
pub mod aot;
pub mod explore;
pub mod rdt;
pub mod character;
pub mod state;
