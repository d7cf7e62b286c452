//! Simulation core of a snake-style arcade game on a toroidal grid.
//!
//! The playing field is a fixed square. A player-controlled actor (a head
//! plus an ordered tail of square segments) moves continuously, wraps at
//! the edges, grows by one segment for each food item it overlaps, and
//! dies when its head overlaps a tail segment past a fixed skip threshold.
//!
//! All coordinates are held in milli-pixels (thousandths of a pixel) and
//! all times in milliseconds, so every quantity the rules speak of is an
//! exact integer: a speed in pixels per second multiplied by an elapsed
//! time in milliseconds is precisely a displacement in milli-pixels.
//! The presentation layer converts to and from these units at the edge.

pub mod common;
pub mod food;
pub mod session;
pub mod snake;
