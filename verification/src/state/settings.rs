use vstd::prelude::*;
use crate::plex::client::PlexClient;
use crate::plex::headers::Product;
use crate::plex::ident::is_uuid_text;
use crate::plex::plex::{Plex, PlexData, PlexView};

verus! {

/// The key of the store entry that holds the settings.
pub const SETTINGS_STORE: &'static str = "settings";

/// What the user has set up: so far, the session with the media server.
pub struct AppSettings {
    pub plex: Plex,
}

impl AppSettings {
    pub fn new(plex: Plex) -> (settings: Self)
        ensures
            settings.plex == plex,
    {
        AppSettings { plex }
    }

    /// The settings at the start of a run, from what was read of the
    /// store: the stored session where there was one, else that of a new
    /// installation, which is then to be stored at once, as `fresh` says.
    /// Where a user is signed in the caches are loaded.
    pub fn from_store<C: PlexClient>(stored: Option<PlexData>, product: Product, client: &C) -> (made:
        (Self, bool))
        requires
            stored is Some ==> stored->Some_0.wf(),
        ensures
            made.0.plex.wf(),
            made.1 == stored is None,
            stored is None ==> is_uuid_text(made.0.plex@.data.client_ident) && is_uuid_text(
                made.0.plex@.data.session_token,
            ) && made.0.plex@ == PlexView::fresh(
                made.0.plex@.data.signed_out(made.0.plex@.data.session_token),
                product@,
            ),
            stored is Some && stored->Some_0@.user_token is None ==> made.0.plex@
                == PlexView::fresh(stored->Some_0@, product@),
            stored is Some && stored->Some_0@.user_token is Some ==> PlexView::fresh(
                stored->Some_0@,
                product@,
            ).reloads(client, made.0.plex@),
    {
        match stored {
            Some(data) => (AppSettings { plex: Plex::from(data, product, client) }, false),
            None => (AppSettings { plex: Plex::new(PlexData::default(), product) }, true),
        }
    }
}

} // verus!
