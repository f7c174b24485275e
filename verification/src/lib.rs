//! Application core of a GPS speed-and-navigation display.
//!
//! The crate aggregates decoded GPS messages into a navigation snapshot
//! (speeds smoothed over two windows, running maxima, position, time),
//! tracks per-cell and per-scanline dirty state for a bandwidth-constrained
//! display, and plans the bus transactions that ship only changed regions.
//!
//! Readings are held in the wire protocol's fixed-point units throughout:
//! speeds in milli-knots, positions in 1e-7 degree steps, courses in 1e-5
//! degree steps, distances in meters.

pub mod debouncer;
pub mod gps;
pub mod handshake;
pub mod layout;
pub mod memory_display;
pub mod samples;
pub mod screens;
pub mod u8writer;
