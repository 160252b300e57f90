//! Snare: access to captured HTTP flows, for agents over the Model Context Protocol and for
//! people in the terminal.

pub mod cycle;
pub mod json;
pub mod laws;
pub mod model;
pub mod rpc;
pub mod screen;
pub mod store;
pub mod text;
pub mod tools;
pub mod tui;
