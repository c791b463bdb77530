//! The pairing code of the sign-in.

use vstd::prelude::*;
use crate::text::{clone_opt, opt_text};

verus! {

/// A pairing code as a value.
pub struct PinView {
    pub id: u64,
    pub code: Seq<char>,
    pub auth_token: Option<Seq<char>>,
}

/// A pairing code: shown to the user, approved elsewhere, and polled for
/// the token that the approval brings.
#[derive(Debug)]
pub struct PlexPin {
    pub id: u64,
    pub code: String,
    pub auth_token: Option<String>,
}

impl View for PlexPin {
    type V = PinView;

    open spec fn view(&self) -> PinView {
        PinView { id: self.id, code: self.code@, auth_token: opt_text(self.auth_token) }
    }
}

impl Clone for PlexPin {
    fn clone(&self) -> (copy: Self)
        ensures
            copy == *self,
    {
        PlexPin { id: self.id, code: self.code.clone(), auth_token: clone_opt(&self.auth_token) }
    }
}

impl Default for PlexPin {
    fn default() -> (pin: Self)
        ensures
            pin@ == (PinView { id: 0, code: Seq::empty(), auth_token: None }),
    {
        PlexPin { id: 0, code: String::new(), auth_token: None }
    }
}

impl PlexPin {
    pub fn new(id: u64, code: String, auth_token: Option<String>) -> (pin: Self)
        ensures
            pin.id == id,
            pin.code == code,
            pin.auth_token == auth_token,
    {
        PlexPin { id, code, auth_token }
    }

    /// A pin that has been approved already, with the token `1234`.
    pub fn authed_pin() -> (pin: Self)
        ensures
            pin@ == (PinView { id: 0, code: Seq::empty(), auth_token: Some("1234"@) }),
    {
        PlexPin { id: 0, code: String::new(), auth_token: Some("1234".to_owned()) }
    }

    /// The code to show to the user.
    pub fn pin_ref(&self) -> (code: &str)
        ensures
            code@ == self@.code,
    {
        self.code.as_str()
    }

    /// The code to show to the user.
    pub fn get_pin(&self) -> (code: &str)
        ensures
            code@ == self@.code,
    {
        self.code.as_str()
    }
}

} // verus!
