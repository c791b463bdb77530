//! The media server session: what the service is asked, what it answered, and
//! the selections and caches that follow from it.

pub mod client;
pub mod headers;
pub mod ident;
pub mod payload;
pub mod pin;
pub mod plex;
pub mod resources;
