//! The records the media server lists: servers with their addresses,
//! libraries and albums.

pub mod connections;
pub mod library;
