//! The state of the running application: the session with the media server,
//! the books, the book that is current, and the pairing code under way.

pub mod books;
pub mod settings;
pub mod app;
