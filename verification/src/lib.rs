//! Display-server adapter layer of a tiling window manager.
//!
//! The crate establishes ground truth about a running graphical session:
//! which screens exist and where they lie, which windows exist and which of
//! them the manager should track. It turns that into an ordered stream of
//! event items. It holds no policy about where a window goes.
//!
//! Nothing here talks to a display. The caller queries the display server
//! and hands the answers over as plain values; every decision taken on them
//! is made, and proved, in this crate.

pub mod config;
pub mod display_server;
pub mod event;
pub mod geometry;
pub mod resolver;
pub mod screen;
pub mod topology;
pub mod window;
