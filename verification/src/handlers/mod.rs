//! The commands of the application: each works on the state, and says what
//! is to be kept, whom to tell, and what to show.

pub mod commands;
pub mod effects;
