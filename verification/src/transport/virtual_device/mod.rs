//! A virtual MTP device backed by a local directory: its configuration, and
//! how changes made to the directory outside MTP become objects and events.

pub mod config;
pub mod watcher;
