//! Glimpse: the bridge between a preview pane and an external editor, and the
//! pipeline that turns math markup into a vector image.
//!
//! Every function here works on plain values. Sockets, files, child processes
//! and the event bus belong to the host program, which performs what these
//! functions decide and reports back what happened.

pub mod commands;
pub mod constants;
pub mod latex;
pub mod models;
pub mod render;
pub mod server;
pub mod text;
