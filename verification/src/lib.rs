//! The stateful heart of a tiling window manager: the workspace and window
//! registry, the geometry partitioner, the keybind table, and the transitions
//! that turn display-server notifications into state changes and outgoing
//! requests. The library performs no I/O: every operation returns the effects
//! that the surrounding program has to carry out, in order.

pub mod action;
pub mod config;
pub mod dispatch;
pub mod error;
pub mod geometry;
pub mod keybind;
pub mod layout;
pub mod protocol;
pub mod request;
pub mod state;
pub mod util;
pub mod workspace;
