//! What a command asks of the world around it once it is done.

use vstd::prelude::*;
use crate::error::Error;

verus! {

/// What a command came to: a change with what to show of it, nothing worth
/// keeping or showing, or a failure.
#[derive(Debug)]
pub enum Change<T> {
    Changed(T),
    Unchanged,
    Failed(Error),
}

/// A notification for whoever shows the state.
#[derive(Debug, Clone, Copy, PartialEq, Eq, Structural)]
pub enum Event {
    UpdateSettings,
    UpdatePlayer,
    TogglePlaying,
    UpdateDownloaded,
}

impl Event {
    pub open spec fn name_text(self) -> Seq<char> {
        match self {
            Event::UpdateSettings => "update-settings"@,
            Event::UpdatePlayer => "update-player"@,
            Event::TogglePlaying => "toggle-playing"@,
            Event::UpdateDownloaded => "update-downloaded"@,
        }
    }

    /// The name under which the notification is sent.
    pub fn name(self) -> (name: &'static str)
        ensures
            name@ == self.name_text(),
    {
        match self {
            Event::UpdateSettings => "update-settings",
            Event::UpdatePlayer => "update-player",
            Event::TogglePlaying => "toggle-playing",
            Event::UpdateDownloaded => "update-downloaded",
        }
    }
}

/// A part of the state to write to the store.
#[derive(Debug, Clone, Copy, PartialEq, Eq, Structural)]
pub enum Save {
    /// The settings, under the settings entry.
    Settings,
    /// Every book under its own entry, and the list of their keys.
    Books,
    /// The book that the command was about, under its own entry.
    Book,
    /// The key of the current book.
    CurrentBook,
}

/// What to write to the store and whom to tell, each in order.
#[derive(Debug)]
pub struct Effects {
    pub saves: Vec<Save>,
    pub events: Vec<Event>,
}

impl Effects {
    /// Nothing to keep, nobody to tell.
    pub fn none() -> (effects: Self)
        ensures
            effects.saves@ == Seq::<Save>::empty(),
            effects.events@ == Seq::<Event>::empty(),
    {
        Effects { saves: Vec::new(), events: Vec::new() }
    }

    /// One part to keep and one notification.
    pub fn of(save: Save, event: Event) -> (effects: Self)
        ensures
            effects.saves@ == seq![save],
            effects.events@ == seq![event],
    {
        let mut saves = Vec::new();
        saves.push(save);
        let mut events = Vec::new();
        events.push(event);
        Effects { saves, events }
    }
}

/// A command's result together with what it asks for.
#[derive(Debug)]
pub struct Outcome<T> {
    pub change: Change<T>,
    pub effects: Effects,
}

} // verus!
