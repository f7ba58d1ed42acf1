//! Decision core of a pane picker for a terminal multiplexer.
//!
//! The user marks panes one by one ("pick") and then gathers them with one
//! command: into the focused tab ("place"), into a new tab ("chuck"), onto the
//! floating layer ("toss") or onto the tiled layer ("spike").  The host drives
//! the picker through callbacks; every callback here is a step of a state
//! machine that returns the list of host calls to perform.
pub mod command;
pub mod laws;
pub mod machine;
pub mod model;
pub mod plugin;
