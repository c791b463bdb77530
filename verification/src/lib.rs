//! Session and playback core of an audiobook player that talks to a personal
//! media server: the pairing sign-in, the server, library and album cascade
//! with its caches, and the reading and download state of each book.

pub mod cache;
pub mod error;
pub mod text;
pub mod plex;
pub mod state;
pub mod handlers;
