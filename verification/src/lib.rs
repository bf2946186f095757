//! Simulation core of a paddle-and-ball arcade game in fixed-point arithmetic.
//!
//! The core owns the entities of the game ([`store`], [`model`]), moves the
//! player paddle ([`paddle`]) and the ball ([`ball`]), resolves collisions
//! ([`collision`]) and steps through the modes of the game ([`mode`],
//! [`machine`]). It draws nothing, plays nothing and loads nothing: it is
//! handed events, frame times and axis readings, and answers with the state
//! of its store and with requests to its collaborators ([`effects`]).

pub mod assets;
pub mod audio;
pub mod ball;
pub mod collision;
pub mod effects;
pub mod frame;
pub mod machine;
pub mod mode;
pub mod model;
pub mod paddle;
pub mod registry;
pub mod spawn;
pub mod store;
pub mod units;
