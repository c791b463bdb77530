//! The commands. None of them shows, stores or sends anything itself: each
//! hands back what to show and what to ask of the store and of the
//! notifier.

use vstd::prelude::*;
use crate::cache::{has_key, index_of, keys_of, lookup};
use crate::error::Error;
use crate::handlers::effects::{Change, Effects, Event, Outcome, Save};
use crate::plex::client::PlexClient;
use crate::plex::plex::{texts, PlexView};
use crate::plex::resources::library::{Album, AlbumView};
use crate::state::app::{AppStateView, InnerAppState, Playback, Polled};
use crate::state::books::BookView;
use crate::text::{clone_opt, opt_text};

verus! {

/// What the player shows of the current book.
pub struct PlayerView {
    pub thumb: Seq<char>,
    pub title: Seq<char>,
}

/// What the player shows of the current book.
#[derive(Debug)]
pub struct Player {
    pub thumb: String,
    pub title: String,
}

impl View for Player {
    type V = PlayerView;

    open spec fn view(&self) -> PlayerView {
        PlayerView { thumb: self.thumb@, title: self.title@ }
    }
}

/// What the player shows for the album `key`: its cover and title, or
/// nothing of either where the album has left the cache.
pub open spec fn player_of(albums: Seq<(Seq<char>, AlbumView)>, key: Seq<char>) -> PlayerView {
    if has_key(albums, key) {
        PlayerView {
            thumb: albums[index_of(albums, key)].1.thumb(),
            title: albums[index_of(albums, key)].1.data.title,
        }
    } else {
        PlayerView { thumb: Seq::empty(), title: Seq::empty() }
    }
}

/// What is shown of one album in the library.
pub struct BookCardView {
    pub author: Seq<char>,
    pub thumb: Seq<char>,
    pub title: Seq<char>,
    pub key: Seq<char>,
    pub summary: Seq<char>,
    pub downloaded: bool,
}

/// What is shown of one album in the library.
#[derive(Debug)]
pub struct BookCard {
    pub author: String,
    pub thumb: String,
    pub title: String,
    pub key: String,
    pub summary: String,
    pub downloaded: bool,
}

impl View for BookCard {
    type V = BookCardView;

    open spec fn view(&self) -> BookCardView {
        BookCardView {
            author: self.author@,
            thumb: self.thumb@,
            title: self.title@,
            key: self.key@,
            summary: self.summary@,
            downloaded: self.downloaded,
        }
    }
}

/// Whether the album `key` has a book with a download.
pub open spec fn is_downloaded(books: Seq<(Seq<char>, BookView)>, key: Seq<char>) -> bool {
    has_key(books, key) && books[index_of(books, key)].1.downloaded is Some
}

/// The card of an album.
pub open spec fn card_of(album: AlbumView, books: Seq<(Seq<char>, BookView)>) -> BookCardView {
    BookCardView {
        author: album.parent(),
        thumb: album.thumb(),
        title: album.data.title,
        key: album.data.rating_key,
        summary: album.data.summary,
        downloaded: is_downloaded(books, album.data.rating_key),
    }
}

/// The number of albums on a page of the library.
pub const PAGE_SIZE: usize = 12;

/// Where the page that starts at `current` ends, among `count` albums.
pub open spec fn page_end(count: int, current: int) -> int {
    if current >= count {
        current
    } else if current + PAGE_SIZE <= count {
        current + PAGE_SIZE
    } else {
        count
    }
}

/// Where the page after the one that starts at `current` starts: right
/// behind it where it is full, and 0, which stands for no further page,
/// where it is not.
pub open spec fn next_page(count: int, current: int) -> int {
    if current + PAGE_SIZE <= count {
        current + PAGE_SIZE
    } else {
        0
    }
}

/// A page of the library.
#[derive(Debug)]
pub struct Page {
    pub books: Vec<BookCard>,
    pub next: usize,
}

/// Which panel the sign-in shows.
#[derive(Debug)]
pub enum PlexPanel {
    SignedIn,
    /// The pairing code to show.
    Pin(String),
    SignedOut,
}

/// Which panel the sign-in shows, as a value.
pub enum PlexPanelView {
    SignedIn,
    Pin(Seq<char>),
    SignedOut,
}

impl View for PlexPanel {
    type V = PlexPanelView;

    open spec fn view(&self) -> PlexPanelView {
        match self {
            PlexPanel::SignedIn => PlexPanelView::SignedIn,
            PlexPanel::Pin(code) => PlexPanelView::Pin(code@),
            PlexPanel::SignedOut => PlexPanelView::SignedOut,
        }
    }
}

/// The panel for a state: signed in where there is a user, else the pairing
/// code under way, else signed out.
pub open spec fn panel_of(state: AppStateView) -> PlexPanelView {
    if state.plex.has_user() {
        PlexPanelView::SignedIn
    } else if state.plex_pin is Some {
        PlexPanelView::Pin(state.plex_pin->Some_0.code)
    } else {
        PlexPanelView::SignedOut
    }
}

/// The names to choose from and the one that is chosen.
#[derive(Debug)]
pub struct Choice {
    pub options: Vec<String>,
    pub selected: Option<String>,
}

fn card(album: &Album, state: &InnerAppState) -> (card: BookCard)
    requires
        state.wf(),
    ensures
        card@ == card_of(album@, state@.books),
{
    let downloaded = match state.books().get(album.key_ref()) {
        Some(book) => book.downloaded().is_some(),
        None => false,
    };
    BookCard {
        author: album.parent_ref().to_owned(),
        thumb: album.thumb(),
        title: album.title_ref().to_owned(),
        key: album.key_clone(),
        summary: album.summary_ref().to_owned(),
        downloaded,
    }
}

/// The card of the album `key`. Fails with `NoAlbumsFound` where no album
/// is cached, with `NoAlbumFound` where this one is not.
pub fn book(state: &InnerAppState, key: &str) -> (shown: Result<BookCard, Error>)
    requires
        state.wf(),
    ensures
        state@.plex.albums.len() == 0 ==> shown is Err && shown->Err_0 == Error::NoAlbumsFound,
        state@.plex.albums.len() > 0 && !has_key(state@.plex.albums, key@) ==> shown is Err
            && shown->Err_0 == Error::NoAlbumFound,
        has_key(state@.plex.albums, key@) ==> shown is Ok && shown->Ok_0@ == card_of(
            state@.plex.albums[index_of(state@.plex.albums, key@)].1,
            state@.books,
        ),
{
    let album = state.plex().get_album(key)?;
    Ok(card(album, state))
}

/// The page of the library that starts at the album at place `current`:
/// up to twelve albums, and where the next page starts. Fails with
/// `NoAlbumsFound` where no album is cached. A page that starts behind the
/// last album is empty.
pub fn library_pagination(state: &InnerAppState, current: usize) -> (page: Result<Page, Error>)
    requires
        state.wf(),
    ensures
        state@.plex.albums.len() == 0 ==> page is Err && page->Err_0 == Error::NoAlbumsFound,
        state@.plex.albums.len() > 0 ==> page is Ok && page->Ok_0.next == next_page(
            state@.plex.albums.len() as int,
            current as int,
        ) && page->Ok_0.books@.len() == page_end(state@.plex.albums.len() as int, current as int)
            - current && forall|i: int|
            0 <= i < page->Ok_0.books@.len() ==> (#[trigger] page->Ok_0.books@[i])@ == card_of(
                state@.plex.albums[current + i].1,
                state@.books,
            ),
{
    let count = state.plex().album_count();
    if count == 0 {
        return Err(Error::NoAlbumsFound);
    }
    let end = if current >= count {
        current
    } else if count - current >= PAGE_SIZE {
        current + PAGE_SIZE
    } else {
        count
    };
    let mut books: Vec<BookCard> = Vec::new();
    let mut at = current;
    while at < end
        invariant
            state.wf(),
            current <= at <= end,
            end <= count || end == current,
            count == state@.plex.albums.len(),
            books@.len() == at - current,
            forall|i: int|
                0 <= i < books@.len() ==> (#[trigger] books@[i])@ == card_of(
                    state@.plex.albums[current + i].1,
                    state@.books,
                ),
        decreases end - at,
    {
        books.push(card(state.plex().album_at(at), state));
        at += 1;
    }
    let next = if end - current == PAGE_SIZE {
        end
    } else {
        0
    };
    Ok(Page { books, next })
}

/// The panel of the sign-in.
pub fn plex(state: &InnerAppState) -> (panel: PlexPanel)
    ensures
        panel@ == panel_of(state@),
{
    if state.plex().has_user() {
        PlexPanel::SignedIn
    } else {
        match state.plex_pin() {
            Some(pin) => PlexPanel::Pin(pin.pin_ref().to_owned()),
            None => PlexPanel::SignedOut,
        }
    }
}

/// The servers to choose from, and the one in use.
pub fn plex_server(state: &InnerAppState) -> (choice: Choice)
    ensures
        texts(choice.options@) == keys_of(state@.plex.resources),
        opt_text(choice.selected) == match state@.plex.data.selected_connection {
            Some(connection) => Some(connection.name),
            None => None,
        },
{
    let options = match state.plex().get_servers() {
        Ok(names) => names,
        Err(_) => Vec::new(),
    };
    assert(texts(options@) =~= keys_of(state@.plex.resources));
    let selected = match state.plex().get_selected_server() {
        Some(name) => Some(name.to_owned()),
        None => None,
    };
    Choice { options, selected }
}

/// The libraries to choose from, and the one in use.
pub fn plex_library(state: &InnerAppState) -> (choice: Choice)
    ensures
        texts(choice.options@) == keys_of(state@.plex.libraries),
        opt_text(choice.selected) == match state@.plex.data.selected_library {
            Some(library) => Some(library.title),
            None => None,
        },
{
    let options = match state.plex().get_libraries() {
        Ok(titles) => titles,
        Err(_) => Vec::new(),
    };
    assert(texts(options@) =~= keys_of(state@.plex.libraries));
    let selected = match state.plex().get_selected_library() {
        Some(title) => Some(title.to_owned()),
        None => None,
    };
    Choice { options, selected }
}

/// What a request to play asks of the store: nothing where the current
/// book was only toggled; else the current book, and all books where a
/// book was made.
pub open spec fn playback_saves(playback: Playback) -> Seq<Save> {
    match playback {
        Playback::Toggled(_) => Seq::empty(),
        Playback::Started { new_book, switched } => if new_book {
            seq![Save::CurrentBook, Save::Books]
        } else {
            seq![Save::CurrentBook]
        },
    }
}

/// Whom a request to play tells: that playing was toggled, or, where
/// another book was current, that the player changes.
pub open spec fn playback_events(playback: Playback) -> Seq<Event> {
    match playback {
        Playback::Toggled(_) => seq![Event::TogglePlaying],
        Playback::Started { new_book, switched } => if switched {
            seq![Event::UpdatePlayer]
        } else {
            Seq::empty()
        },
    }
}

/// Plays the album `key`, or toggles it where it is the current book.
///
/// A toggle is reported as `Unchanged`: nothing is to be stored and
/// nothing to be shown anew. A start is reported with what the player
/// shows. A refusal changes nothing and asks for nothing.
pub fn start_playing(state: &mut InnerAppState, key: &str) -> (outcome: Outcome<Player>)
    requires
        old(state).wf(),
    ensures
        final(state).wf(),
        final(state)@ == old(state)@.start_playing(key@),
        old(state)@.playback(key@) is Err ==> outcome.change == Change::<Player>::Failed(
            old(state)@.playback(key@)->Err_0,
        ) && outcome.effects.saves@.len() == 0 && outcome.effects.events@.len() == 0,
        old(state)@.playback(key@) is Ok ==> outcome.effects.saves@ == playback_saves(
            old(state)@.playback(key@)->Ok_0,
        ) && outcome.effects.events@ == playback_events(old(state)@.playback(key@)->Ok_0),
        old(state)@.playback(key@) matches Ok(Playback::Toggled(_)) ==> outcome.change
            is Unchanged,
        old(state)@.playback(key@) matches Ok(Playback::Started { .. }) ==> outcome.change
            is Changed && outcome.change->Changed_0@ == player_of(final(state)@.plex.albums, key@),
{
    match state.start_playing(key) {
        Err(error) => Outcome { change: Change::Failed(error), effects: Effects::none() },
        Ok(Playback::Toggled(_)) => {
            let mut effects = Effects::none();
            effects.events.push(Event::TogglePlaying);
            Outcome { change: Change::Unchanged, effects }
        },
        Ok(Playback::Started { new_book, switched }) => {
            let mut effects = Effects::none();
            effects.saves.push(Save::CurrentBook);
            if new_book {
                effects.saves.push(Save::Books);
            }
            if switched {
                effects.events.push(Event::UpdatePlayer);
            }
            let player = match state.plex().get_album(key) {
                Ok(album) => Player { thumb: album.thumb(), title: album.title_ref().to_owned() },
                Err(_) => Player { thumb: String::new(), title: String::new() },
            };
            Outcome { change: Change::Changed(player), effects }
        },
    }
}

/// Downloads the book of the album `key`. Asks to store all books where
/// the book was made for this, else this book, and tells that the
/// downloads changed.
pub fn plex_download_book(state: &mut InnerAppState, key: &str) -> (outcome: Outcome<()>)
    requires
        old(state).wf(),
    ensures
        final(state).wf(),
        old(state)@.start_refused(key@) is Some ==> final(state)@ == old(state)@ && outcome.change
            == Change::<()>::Failed(old(state)@.start_refused(key@)->Some_0)
            && outcome.effects.saves@.len() == 0 && outcome.effects.events@.len() == 0,
        old(state)@.start_refused(key@) is None ==> final(state)@ == old(state)@.downloaded(key@)
            && outcome.change is Changed && outcome.effects.events@ == seq![
            Event::UpdateDownloaded,
        ] && outcome.effects.saves@ == if has_key(old(state)@.books, key@) {
            seq![Save::Book]
        } else {
            seq![Save::Books]
        },
{
    match state.download_book(key) {
        Err(error) => Outcome { change: Change::Failed(error), effects: Effects::none() },
        Ok(new_book) => {
            let save = if new_book {
                Save::Books
            } else {
                Save::Book
            };
            Outcome { change: Change::Changed(()), effects: Effects::of(save, Event::UpdateDownloaded) }
        },
    }
}

/// Forgets the download of the book of the album `key`. Asks to store the
/// book and tells that the downloads changed.
pub fn plex_delete_book(state: &mut InnerAppState, key: &str) -> (outcome: Outcome<()>)
    requires
        old(state).wf(),
    ensures
        final(state).wf(),
        old(state)@.removal_refused(key@) is Some ==> final(state)@ == old(state)@
            && outcome.change == Change::<()>::Failed(old(state)@.removal_refused(key@)->Some_0)
            && outcome.effects.saves@.len() == 0 && outcome.effects.events@.len() == 0,
        old(state)@.removal_refused(key@) is None ==> final(state)@ == old(state)@.download_removed(key@) && outcome.change is Changed && outcome.effects.saves@ == seq![
            Save::Book,
        ] && outcome.effects.events@ == seq![Event::UpdateDownloaded],
{
    match state.remove_download(key) {
        Err(error) => Outcome { change: Change::Failed(error), effects: Effects::none() },
        Ok(()) => Outcome {
            change: Change::Changed(()),
            effects: Effects::of(Save::Book, Event::UpdateDownloaded),
        },
    }
}

/// Starts the sign-in: asks for a pairing code and shows it.
pub fn plex_signin<C: PlexClient>(state: &mut InnerAppState, client: &C) -> (panel: Result<
    PlexPanel,
    Error,
>)
    requires
        old(state).wf(),
    ensures
        final(state).wf(),
        old(state)@.creates_pin(client, final(state)@, crate::plex::plex::outcome(panel)),
        panel is Ok ==> final(state)@.plex_pin is Some && panel->Ok_0@ == PlexPanelView::Pin(
            final(state)@.plex_pin->Some_0.code,
        ),
{
    match state.create_login_pin(client) {
        Ok(()) => match state.plex_pin() {
            Some(pin) => Ok(PlexPanel::Pin(pin.pin_ref().to_owned())),
            None => Ok(PlexPanel::SignedOut),
        },
        Err(error) => Err(error),
    }
}

/// The panel that a poll leads to: signed in once the code is approved,
/// the code while it is not, signed out where no code is under way or the
/// poll failed.
pub open spec fn panel_after(polled: Polled, state: AppStateView) -> PlexPanelView {
    match polled {
        Polled::Authenticated => PlexPanelView::SignedIn,
        Polled::Waiting => PlexPanelView::Pin(state.plex_pin->Some_0.code),
        Polled::NoPin => PlexPanelView::SignedOut,
        Polled::Failed(_) => PlexPanelView::SignedOut,
    }
}

/// Polls the pairing code under way and shows where the sign-in stands.
/// Once the user is signed in it asks to store the settings and tells that
/// they changed; waiting is no failure and asks for nothing.
pub fn plex_check<C: PlexClient>(state: &mut InnerAppState, client: &C) -> (outcome: Outcome<
    PlexPanel,
>)
    requires
        old(state).wf(),
    ensures
        final(state).wf(),
        exists|polled: Polled| #[trigger]
            old(state)@.polls(client, final(state)@, polled) && outcome.change is Changed
                && outcome.change->Changed_0@ == panel_after(polled, old(state)@)
                && if polled == Polled::Authenticated {
                outcome.effects.saves@ == seq![Save::Settings] && outcome.effects.events@ == seq![
                    Event::UpdateSettings,
                ]
            } else {
                outcome.effects.saves@.len() == 0 && outcome.effects.events@.len() == 0
            },
{
    let ghost before = state@;
    let waiting = match state.plex_pin() {
        Some(pin) => Some(pin.pin_ref().to_owned()),
        None => None,
    };
    let polled = state.poll(client);
    assert(before.polls(client, state@, polled));
    match polled {
        Polled::Authenticated => Outcome {
            change: Change::Changed(PlexPanel::SignedIn),
            effects: Effects::of(Save::Settings, Event::UpdateSettings),
        },
        Polled::Waiting => {
            let panel = match waiting {
                Some(code) => PlexPanel::Pin(code),
                None => PlexPanel::SignedOut,
            };
            Outcome { change: Change::Changed(panel), effects: Effects::none() }
        },
        _ => Outcome { change: Change::Changed(PlexPanel::SignedOut), effects: Effects::none() },
    }
}

/// Signs the user out. Asks to store the settings and tells that they
/// changed.
pub fn plex_signout(state: &mut InnerAppState) -> (outcome: Outcome<PlexPanel>)
    requires
        old(state).wf(),
    ensures
        final(state).wf(),
        final(state)@ == (AppStateView {
            plex: old(state)@.plex.signed_out(final(state)@.plex.data.session_token),
            ..old(state)@
        }),
        outcome.change is Changed && outcome.change->Changed_0@ == PlexPanelView::SignedOut,
        outcome.effects.saves@ == seq![Save::Settings],
        outcome.effects.events@ == seq![Event::UpdateSettings],
{
    state.signout();
    Outcome {
        change: Change::Changed(PlexPanel::SignedOut),
        effects: Effects::of(Save::Settings, Event::UpdateSettings),
    }
}

/// Puts a server in use, or lets go of the one in use. Where that is done
/// it asks to store the settings and tells that they changed; a refusal
/// changes nothing and asks for nothing.
pub fn plex_update_server<C: PlexClient>(
    state: &mut InnerAppState,
    client: &C,
    server: Option<&str>,
) -> (outcome: Outcome<()>)
    requires
        old(state).wf(),
    ensures
        final(state).wf(),
        final(state)@ == (AppStateView { plex: final(state)@.plex, ..old(state)@ }),
        outcome.change is Failed ==> final(state)@ == old(state)@ && outcome.effects.saves@.len()
            == 0 && outcome.effects.events@.len() == 0,
        outcome.change !is Failed ==> outcome.change is Changed && outcome.effects.saves@ == seq![
            Save::Settings,
        ] && outcome.effects.events@ == seq![Event::UpdateSettings],
        server is Some ==> old(state)@.plex.selects_server(
            client,
            server->Some_0@,
            final(state)@.plex,
            change_result(outcome.change),
        ),
        server is None ==> outcome.change is Changed && final(state)@.plex == old(state)@.plex.without_server(),
{
    match state.select_server(client, server) {
        Ok(()) => Outcome {
            change: Change::Changed(()),
            effects: Effects::of(Save::Settings, Event::UpdateSettings),
        },
        Err(error) => Outcome { change: Change::Failed(error), effects: Effects::none() },
    }
}

/// Puts a library in use, or lets go of the one in use. Where that is done
/// it asks to store the settings and tells that they changed; a refusal
/// changes nothing and asks for nothing.
pub fn plex_update_library<C: PlexClient>(
    state: &mut InnerAppState,
    client: &C,
    library: Option<&str>,
) -> (outcome: Outcome<()>)
    requires
        old(state).wf(),
    ensures
        final(state).wf(),
        final(state)@ == (AppStateView { plex: final(state)@.plex, ..old(state)@ }),
        outcome.change is Failed ==> final(state)@ == old(state)@ && outcome.effects.saves@.len()
            == 0 && outcome.effects.events@.len() == 0,
        outcome.change !is Failed ==> outcome.change is Changed && outcome.effects.saves@ == seq![
            Save::Settings,
        ] && outcome.effects.events@ == seq![Event::UpdateSettings],
        library is Some ==> old(state)@.plex.selects_library(
            client,
            library->Some_0@,
            final(state)@.plex,
            change_result(outcome.change),
        ),
        library is None ==> outcome.change is Changed && final(state)@.plex == old(state)@.plex.without_library(),
{
    match state.select_library(client, library) {
        Ok(()) => Outcome {
            change: Change::Changed(()),
            effects: Effects::of(Save::Settings, Event::UpdateSettings),
        },
        Err(error) => Outcome { change: Change::Failed(error), effects: Effects::none() },
    }
}

/// What a change without anything to show means as a result.
pub open spec fn change_result(change: Change<()>) -> Result<(), Error> {
    match change {
        Change::Failed(error) => Err(error),
        _ => Ok(()),
    }
}

} // verus!
