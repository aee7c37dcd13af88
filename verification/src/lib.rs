//! Playback-control engine: a single-owner state machine that selects songs
//! from a playlist-override stack, a base song list and a traversal mode,
//! keeps a bounded play history, and decides how to react to the commands of
//! a line-oriented control protocol.

pub mod model;
pub mod admission;
pub mod laws;
pub mod parse;
pub mod tags;
pub mod player;
