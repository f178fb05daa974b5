//! A stigmergic agent simulation in the style of Physarum: agents sense a
//! trail field, steer toward stronger trail, move, and deposit; the field
//! diffuses and evaporates once per tick.
//!
//! All quantities are fixed-point integers so that every step is verified:
//! positions are in thousandths of a cell, headings in tenths of a degree,
//! time in milliseconds.

mod arith;
mod random;

pub mod agent;
pub mod compass;
pub mod config;
pub mod engine;
pub mod sensor;
pub mod simulation;
pub mod species;
pub mod trail;
pub mod units;
pub mod vec2;
