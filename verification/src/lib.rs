//! A verified core for a timeline-driven media playback engine.
//!
//! The library models a multi-track edit description (clips placed on
//! tracks with source trim windows), detects and classifies overlaps
//! between clip placements, compiles a timeline snapshot into a
//! composition graph description, and drives the playback state machine
//! (load / play / pause / stop / seek / dispose) that an embedding
//! application executes against its media backend.

pub mod clip;
pub mod clock;
pub mod controller;
pub mod error;
pub mod frame_handler;
pub mod frames;
pub mod graph;
pub mod overlap;
pub mod pool;
pub mod registry;
pub mod textures;
pub mod timeline;
