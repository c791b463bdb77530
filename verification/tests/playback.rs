use std::cell::RefCell;
use std::collections::VecDeque;

use project_book::error::Error;
use project_book::handlers::commands::{
    book, library_pagination, plex, plex_check, plex_delete_book, plex_download_book, plex_library,
    plex_server, plex_signin, plex_signout, plex_update_library, plex_update_server,
    start_playing, PlexPanel, PAGE_SIZE,
};
use project_book::handlers::effects::{Change, Effects, Event, Save};
use project_book::plex::client::PlexClient;
use project_book::plex::headers::Product;
use project_book::plex::pin::PlexPin;
use project_book::plex::plex::{Plex, PlexData};
use project_book::plex::resources::connections::{PlexConnections, PlexResource};
use project_book::plex::resources::library::{AlbumData, Library};
use project_book::state::app::{InnerAppState, Playback, Polled};
use project_book::state::books::{Book, Books, ReadingState};
use project_book::state::settings::AppSettings;
use reqwest::header::{HeaderMap, HeaderValue};

/// A media server with one server, one library and a number of albums,
/// whose polls answer from a script.
struct Shelf {
    albums: usize,
    polls: RefCell<VecDeque<Result<PlexPin, Error>>>,
    asked: RefCell<Vec<String>>,
}

impl Shelf {
    fn of(albums: usize) -> Self {
        Shelf { albums, polls: RefCell::new(VecDeque::new()), asked: RefCell::new(Vec::new()) }
    }

    fn asked(&self) -> Vec<String> {
        self.asked.borrow().clone()
    }
}

fn key_of(i: usize) -> String {
    if i == 0 {
        "abc".to_string()
    } else {
        format!("k{}", i)
    }
}

impl PlexClient for Shelf {
    fn generate_pin(&self, _headers: &HeaderMap<HeaderValue>) -> Result<PlexPin, Error> {
        self.asked.borrow_mut().push("pin".to_string());
        Ok(PlexPin::new(1, "ABCD".to_string(), None))
    }

    fn check_pin(&self, _headers: &HeaderMap<HeaderValue>, id: u64) -> Result<PlexPin, Error> {
        self.asked.borrow_mut().push(format!("poll {}", id));
        self.polls.borrow_mut().pop_front().unwrap_or(Err(Error::NetworkError))
    }

    fn resources(&self, _headers: &HeaderMap<HeaderValue>) -> Result<Vec<PlexResource>, Error> {
        self.asked.borrow_mut().push("resources".to_string());
        Ok(vec![PlexResource::new(
            "Home".to_string(),
            vec![PlexConnections::new("https://home.example".to_string())],
        )])
    }

    fn libraries(&self, _headers: &HeaderMap<HeaderValue>, _uri: &str) -> Result<Vec<Library>, Error> {
        self.asked.borrow_mut().push("libraries".to_string());
        Ok(vec![Library::new("Audiobooks".to_string(), "3".to_string(), "artist".to_string())])
    }

    fn albums(
        &self,
        _headers: &HeaderMap<HeaderValue>,
        _uri: &str,
        _key: &str,
    ) -> Result<Vec<AlbumData>, Error> {
        self.asked.borrow_mut().push("albums".to_string());
        Ok((0..self.albums)
            .map(|i| AlbumData {
                title: format!("Title {}", i),
                rating_key: key_of(i),
                summary: format!("Summary {}", i),
                studio: None,
                thumb: Some(format!("/thumb/{}", i)),
                parent_title: Some(format!("Author {}", i)),
                parent_rating_key: None,
                year: None,
                index: i as u64,
            })
            .collect())
    }

    fn find_working_connection(
        &self,
        _headers: &HeaderMap<HeaderValue>,
        _resource: &PlexResource,
    ) -> Option<usize> {
        self.asked.borrow_mut().push("probe".to_string());
        Some(0)
    }
}

fn product() -> Product {
    Product::new(
        "project-book".to_string(),
        "0.1.0".to_string(),
        "linux".to_string(),
        "x86_64".to_string(),
    )
}

fn empty_state() -> InnerAppState {
    InnerAppState::new(AppSettings::new(Plex::new(PlexData::default(), product())), Books::new())
}

/// A state whose album cache holds `albums` albums: `abc`, `k1`, `k2`, ...
fn state_with(albums: usize) -> InnerAppState {
    let shelf = Shelf::of(albums);
    let mut plex = Plex::new(PlexData::default(), product());
    plex.sign_in(&shelf, "T1".to_string());
    assert_eq!(plex.select_server(&shelf, "Home"), Ok(()));
    assert_eq!(plex.select_library(&shelf, "Audiobooks"), Ok(()));
    assert_eq!(plex.album_count(), albums);
    InnerAppState::new(AppSettings::new(plex), Books::new())
}

fn reading(state: &InnerAppState, key: &str) -> ReadingState {
    state.books().get(key).unwrap().state()
}

fn playing(state: &InnerAppState) -> Vec<String> {
    let books = state.books();
    (0..books.len())
        .filter(|i| books.book_at(*i).state() == ReadingState::Playing)
        .map(|i| books.book_at(i).album_key().to_string())
        .collect()
}

fn saves(effects: &Effects) -> Vec<Save> {
    effects.saves.clone()
}

fn events(effects: &Effects) -> Vec<Event> {
    effects.events.clone()
}

#[test]
fn the_first_request_starts_the_book() {
    let mut state = state_with(3);
    assert_eq!(state.current_book(), None);
    assert_eq!(
        state.start_playing("abc"),
        Ok(Playback::Started { new_book: true, switched: false })
    );
    assert_eq!(state.current_book(), Some("abc"));
    assert_eq!(state.books().len(), 1);
    assert_eq!(reading(&state, "abc"), ReadingState::Playing);
    assert_eq!(state.books().get("abc").unwrap().progress(), 0);
    assert_eq!(state.books().get("abc").unwrap().downloaded(), None);
}

#[test]
fn a_second_request_pauses_without_a_second_book() {
    let mut state = state_with(3);
    assert!(state.start_playing("abc").is_ok());
    assert_eq!(state.start_playing("abc"), Ok(Playback::Toggled(ReadingState::Paused)));
    assert_eq!(reading(&state, "abc"), ReadingState::Paused);
    assert_eq!(state.books().len(), 1);
    assert_eq!(state.books().keys(), vec!["abc".to_string()]);
    assert_eq!(state.current_book(), Some("abc"));
}

#[test]
fn toggling_twice_is_back_where_it_was() {
    let mut state = state_with(3);
    assert!(state.start_playing("abc").is_ok());
    assert_eq!(reading(&state, "abc"), ReadingState::Playing);
    assert_eq!(state.start_playing("abc"), Ok(Playback::Toggled(ReadingState::Paused)));
    assert_eq!(state.start_playing("abc"), Ok(Playback::Toggled(ReadingState::Playing)));
    assert_eq!(reading(&state, "abc"), ReadingState::Playing);
    assert_eq!(state.current_book(), Some("abc"));
    assert_eq!(state.books().len(), 1);

    assert_eq!(state.start_playing("abc"), Ok(Playback::Toggled(ReadingState::Paused)));
    assert_eq!(state.start_playing("abc"), Ok(Playback::Toggled(ReadingState::Playing)));
    assert_eq!(state.start_playing("abc"), Ok(Playback::Toggled(ReadingState::Paused)));
    assert_eq!(reading(&state, "abc"), ReadingState::Paused);
    assert_eq!(state.current_book(), Some("abc"));
}

#[test]
fn starting_another_book_pauses_the_one_that_played() {
    let mut state = state_with(3);
    assert!(state.start_playing("abc").is_ok());
    assert_eq!(
        state.start_playing("k1"),
        Ok(Playback::Started { new_book: true, switched: true })
    );
    assert_eq!(reading(&state, "abc"), ReadingState::Paused);
    assert_eq!(reading(&state, "k1"), ReadingState::Playing);
    assert_eq!(playing(&state), vec!["k1".to_string()]);
    assert_eq!(state.current_book(), Some("k1"));
    assert_eq!(state.books().keys(), vec!["abc".to_string(), "k1".to_string()]);

    assert_eq!(
        state.start_playing("abc"),
        Ok(Playback::Started { new_book: false, switched: true })
    );
    assert_eq!(playing(&state), vec!["abc".to_string()]);
    assert_eq!(reading(&state, "k1"), ReadingState::Paused);
    assert_eq!(state.books().len(), 2);
}

#[test]
fn switching_from_a_paused_book_plays_only_the_new_one() {
    let mut state = state_with(3);
    assert!(state.start_playing("abc").is_ok());
    assert!(state.start_playing("abc").is_ok());
    assert_eq!(playing(&state), Vec::<String>::new());
    assert!(state.start_playing("k2").is_ok());
    assert_eq!(playing(&state), vec!["k2".to_string()]);
}

#[test]
fn a_book_is_made_only_for_a_cached_album() {
    let mut state = empty_state();
    assert_eq!(state.start_playing("abc"), Err(Error::NoAlbumsFound));
    assert_eq!(state.current_book(), None);
    assert_eq!(state.books().len(), 0);

    let mut state = state_with(2);
    assert!(state.start_playing("abc").is_ok());
    assert_eq!(state.start_playing("zzz"), Err(Error::NoAlbumFound));
    assert_eq!(state.current_book(), Some("abc"));
    assert_eq!(reading(&state, "abc"), ReadingState::Playing);
    assert_eq!(state.books().len(), 1);
}

#[test]
fn a_book_outlives_its_album() {
    let shelf = Shelf::of(2);
    let mut state = state_with(2);
    assert!(state.start_playing("abc").is_ok());
    assert!(state.start_playing("k1").is_ok());
    assert_eq!(state.select_server(&shelf, None), Ok(()));
    assert_eq!(state.plex().album_count(), 0);
    assert_eq!(
        state.start_playing("abc"),
        Ok(Playback::Started { new_book: false, switched: true })
    );
    assert_eq!(playing(&state), vec!["abc".to_string()]);
    assert_eq!(state.download_book("k1"), Ok(false));
    assert_eq!(state.download_book("k7"), Err(Error::NoAlbumsFound));
}

#[test]
fn kept_books_start_out_paused() {
    let mut books = Books::new();
    books.restore(Book::restore("abc".to_string(), ReadingState::Playing, 0, None));
    books.restore(Book::restore(
        "k1".to_string(),
        ReadingState::Playing,
        0x3FE0_0000_0000_0000,
        Some("k1".to_string()),
    ));
    books.restore(Book::restore("abc".to_string(), ReadingState::Paused, 7, None));
    assert_eq!(books.len(), 2);
    assert_eq!(books.get("abc").unwrap().progress(), 7);
    let mut state =
        InnerAppState::new(AppSettings::new(Plex::new(PlexData::default(), product())), books);
    assert_eq!(state.current_book(), None);
    assert_eq!(playing(&state), Vec::<String>::new());
    assert_eq!(state.books().get("k1").unwrap().progress(), 0x3FE0_0000_0000_0000);
    assert_eq!(state.books().get("k1").unwrap().downloaded(), Some("k1"));
    assert_eq!(
        state.start_playing("k1"),
        Ok(Playback::Started { new_book: false, switched: false })
    );
    assert_eq!(playing(&state), vec!["k1".to_string()]);
}

#[test]
fn progress_is_a_fraction() {
    let whole = Book::restore("a".to_string(), ReadingState::Paused, 0x3FF0_0000_0000_0000, None);
    assert_eq!(whole.progress(), 0x3FF0_0000_0000_0000);
    assert_eq!(f64::from_bits(whole.progress()), 1.0);
    let half = Book::restore("a".to_string(), ReadingState::Paused, 0.5f64.to_bits(), None);
    assert_eq!(f64::from_bits(half.progress()), 0.5);
    let more = Book::restore("a".to_string(), ReadingState::Paused, 1.5f64.to_bits(), None);
    assert_eq!(more.progress(), 0);
    let less = Book::restore("a".to_string(), ReadingState::Paused, (-0.5f64).to_bits(), None);
    assert_eq!(less.progress(), 0);
    let none = Book::restore("a".to_string(), ReadingState::Paused, f64::NAN.to_bits(), None);
    assert_eq!(none.progress(), 0);
    assert_eq!(Book::new("a".to_string()).progress(), 0.0f64.to_bits());
}

#[test]
fn downloading_twice_keeps_one_location() {
    let mut book = Book::new("abc".to_string());
    assert_eq!(book.downloaded(), None);
    assert_eq!(book.download(), Ok(()));
    assert_eq!(book.downloaded(), Some("abc"));
    assert_eq!(book.download(), Ok(()));
    assert_eq!(book.downloaded(), Some("abc"));
    assert_eq!(book.state(), ReadingState::Paused);
    assert_eq!(book.album_key(), "abc");

    let mut kept =
        Book::restore("abc".to_string(), ReadingState::Paused, 0, Some("elsewhere".to_string()));
    assert_eq!(kept.download(), Ok(()));
    assert_eq!(kept.downloaded(), Some("elsewhere"));
}

#[test]
fn a_book_that_was_never_downloaded_has_nothing_to_remove() {
    let mut book = Book::new("abc".to_string());
    book.set_state(ReadingState::Playing);
    assert_eq!(book.remove_download(), Err(Error::BookNotDownloaded));
    assert_eq!(book.downloaded(), None);
    assert_eq!(book.state(), ReadingState::Playing);
    assert_eq!(book.album_key(), "abc");
    assert_eq!(book.progress(), 0);

    assert_eq!(book.download(), Ok(()));
    assert_eq!(book.remove_download(), Ok(()));
    assert_eq!(book.downloaded(), None);
    assert_eq!(book.remove_download(), Err(Error::BookNotDownloaded));
    assert_eq!(book.state(), ReadingState::Playing);
}

#[test]
fn books_are_downloaded_by_key() {
    let mut books = Books::new();
    assert_eq!(books.download_book("abc".to_string()), Ok(true));
    assert_eq!(books.download_book("abc".to_string()), Ok(false));
    assert_eq!(books.len(), 1);
    assert_eq!(books.get("abc").unwrap().downloaded(), Some("abc"));
    assert!(books.get_book_or_insert("k1".to_string()));
    assert!(!books.get_book_or_insert("k1".to_string()));
    assert!(!books.get_book_or_insert("abc".to_string()));
    assert_eq!(books.keys(), vec!["abc".to_string(), "k1".to_string()]);
    assert_eq!(books.position("k1"), Some(1));
    assert_eq!(books.position("k2"), None);
    assert!(books.contains("abc"));
    assert!(!books.contains("k2"));

    assert_eq!(books.remove_download("k2"), Err(Error::NoBookFound));
    assert_eq!(books.remove_download("k1"), Err(Error::BookNotDownloaded));
    assert_eq!(books.remove_download("abc"), Ok(()));
    assert_eq!(books.get("abc").unwrap().downloaded(), None);
    assert_eq!(books.len(), 2);

    assert!(books.set_state("k1", ReadingState::Playing));
    assert!(!books.set_state("k2", ReadingState::Playing));
    assert_eq!(books.get("k1").unwrap().state(), ReadingState::Playing);
    assert_eq!(books.get("abc").unwrap().state(), ReadingState::Paused);
    books.pause_all();
    assert_eq!(books.get("k1").unwrap().state(), ReadingState::Paused);
}

#[test]
fn downloads_do_not_touch_what_is_playing() {
    let mut state = state_with(3);
    assert!(state.start_playing("abc").is_ok());
    assert_eq!(state.download_book("k1"), Ok(true));
    assert_eq!(state.download_book("k1"), Ok(false));
    assert_eq!(state.download_book("abc"), Ok(false));
    assert_eq!(state.download_book("zzz"), Err(Error::NoAlbumFound));
    assert_eq!(state.books().len(), 2);
    assert_eq!(state.current_book(), Some("abc"));
    assert_eq!(playing(&state), vec!["abc".to_string()]);
    assert_eq!(state.books().get("k1").unwrap().downloaded(), Some("k1"));
    assert_eq!(state.remove_download("k1"), Ok(()));
    assert_eq!(state.remove_download("k1"), Err(Error::BookNotDownloaded));
    assert_eq!(state.remove_download("k2"), Err(Error::NoBookFound));
    assert_eq!(state.books().get("k1").unwrap().downloaded(), None);
    assert_eq!(playing(&state), vec!["abc".to_string()]);
}

#[test]
fn the_pairing_goes_from_code_to_user() {
    let shelf = Shelf::of(1);
    let mut state = empty_state();
    assert_eq!(state.poll(&shelf), Polled::NoPin);
    assert!(shelf.asked().is_empty());

    assert_eq!(state.create_login_pin(&shelf), Ok(()));
    let pin = state.plex_pin().unwrap();
    assert_eq!((pin.id, pin.pin_ref(), pin.auth_token.clone()), (1, "ABCD", None));

    shelf.polls.borrow_mut().push_back(Ok(PlexPin::new(1, "ABCD".to_string(), None)));
    assert_eq!(state.poll(&shelf), Polled::Waiting);
    assert!(!state.plex().has_user());
    assert_eq!(state.plex().data().user_token(), None);
    assert_eq!(state.plex_pin().unwrap().pin_ref(), "ABCD");

    shelf
        .polls
        .borrow_mut()
        .push_back(Ok(PlexPin::new(1, "ABCD".to_string(), Some("T1".to_string()))));
    assert_eq!(state.poll(&shelf), Polled::Authenticated);
    assert!(state.plex().has_user());
    assert_eq!(state.plex().get_servers(), Ok(vec!["Home".to_string()]));
    assert_eq!(
        shelf.asked(),
        vec!["pin".to_string(), "poll 1".to_string(), "poll 1".to_string(), "resources".to_string()]
    );
}

#[test]
fn a_failed_poll_gives_the_code_up() {
    let shelf = Shelf::of(1);
    let mut state = empty_state();
    assert_eq!(state.create_login_pin(&shelf), Ok(()));
    shelf.polls.borrow_mut().push_back(Err(Error::MalformedResponse));
    assert_eq!(state.poll(&shelf), Polled::Failed(Error::MalformedResponse));
    assert!(state.plex_pin().is_none());
    assert!(!state.plex().has_user());
    assert_eq!(state.poll(&shelf), Polled::NoPin);
}

#[test]
fn selecting_through_the_state_is_all_or_nothing() {
    let shelf = Shelf::of(2);
    let mut state = empty_state();
    assert_eq!(state.select_server(&shelf, Some("Home")), Err(Error::NoResourcesFound));
    assert_eq!(state.current_book(), None);
    assert_eq!(state.books().len(), 0);
    assert!(state.plex_pin().is_none());
    assert_eq!(state.plex().get_selected_server(), None);
    assert!(!state.plex().has_user());
    assert!(shelf.asked().is_empty());

    let mut state = state_with(2);
    assert!(state.start_playing("abc").is_ok());
    assert_eq!(state.select_server(&shelf, Some("Attic")), Err(Error::InvalidServerName));
    assert_eq!(state.select_library(&shelf, Some("Films")), Err(Error::InvalidLibraryName));
    assert_eq!(state.plex().get_selected_server(), Some("Home"));
    assert_eq!(state.plex().get_selected_library(), Some("Audiobooks"));
    assert_eq!(state.plex().album_count(), 2);
    assert_eq!(state.current_book(), Some("abc"));

    assert_eq!(state.select_library(&shelf, None), Ok(()));
    assert_eq!(state.plex().get_selected_library(), None);
    assert_eq!(state.plex().album_count(), 0);
    assert_eq!(state.select_library(&shelf, Some("Audiobooks")), Ok(()));
    assert_eq!(state.plex().album_count(), 2);
    assert_eq!(state.select_server(&shelf, None), Ok(()));
    assert_eq!(state.plex().get_selected_server(), None);
    assert_eq!(state.plex().get_libraries(), Err(Error::NoLibrariesFound));
    assert_eq!(state.current_book(), Some("abc"));
    assert_eq!(reading(&state, "abc"), ReadingState::Playing);
}

#[test]
fn signing_out_keeps_the_books() {
    let mut state = state_with(2);
    assert!(state.start_playing("abc").is_ok());
    state.signout();
    assert!(!state.plex().has_user());
    assert_eq!(state.plex().album_count(), 0);
    assert_eq!(state.current_book(), Some("abc"));
    assert_eq!(state.books().len(), 1);
}

#[test]
fn playing_asks_for_what_changed() {
    let mut state = state_with(3);
    let outcome = start_playing(&mut state, "abc");
    match outcome.change {
        Change::Changed(player) => {
            assert_eq!(player.title, "Title 0");
            assert_eq!(player.thumb, "https://home.example/thumb/0?X-Plex-Token=T1");
        },
        other => panic!("{:?}", other),
    }
    assert_eq!(saves(&outcome.effects), vec![Save::CurrentBook, Save::Books]);
    assert_eq!(events(&outcome.effects), Vec::<Event>::new());

    let outcome = start_playing(&mut state, "abc");
    assert!(matches!(outcome.change, Change::Unchanged));
    assert_eq!(saves(&outcome.effects), Vec::<Save>::new());
    assert_eq!(events(&outcome.effects), vec![Event::TogglePlaying]);
    assert_eq!(reading(&state, "abc"), ReadingState::Paused);

    let outcome = start_playing(&mut state, "k1");
    assert!(matches!(outcome.change, Change::Changed(_)));
    assert_eq!(saves(&outcome.effects), vec![Save::CurrentBook, Save::Books]);
    assert_eq!(events(&outcome.effects), vec![Event::UpdatePlayer]);

    let outcome = start_playing(&mut state, "abc");
    assert_eq!(saves(&outcome.effects), vec![Save::CurrentBook]);
    assert_eq!(events(&outcome.effects), vec![Event::UpdatePlayer]);

    let outcome = start_playing(&mut state, "zzz");
    assert!(matches!(outcome.change, Change::Failed(Error::NoAlbumFound)));
    assert!(outcome.effects.saves.is_empty());
    assert!(outcome.effects.events.is_empty());
    assert_eq!(state.current_book(), Some("abc"));
}

#[test]
fn the_player_of_an_album_that_left_the_cache_is_blank() {
    let shelf = Shelf::of(2);
    let mut state = state_with(2);
    assert!(state.start_playing("abc").is_ok());
    assert!(state.start_playing("k1").is_ok());
    assert_eq!(state.select_library(&shelf, None), Ok(()));
    let outcome = start_playing(&mut state, "abc");
    match outcome.change {
        Change::Changed(player) => {
            assert_eq!(player.title, "");
            assert_eq!(player.thumb, "");
        },
        other => panic!("{:?}", other),
    }
    assert_eq!(saves(&outcome.effects), vec![Save::CurrentBook]);
}

#[test]
fn downloads_ask_for_the_book_to_be_kept() {
    let mut state = state_with(2);
    let outcome = plex_download_book(&mut state, "abc");
    assert!(matches!(outcome.change, Change::Changed(())));
    assert_eq!(saves(&outcome.effects), vec![Save::Books]);
    assert_eq!(events(&outcome.effects), vec![Event::UpdateDownloaded]);
    let outcome = plex_download_book(&mut state, "abc");
    assert!(matches!(outcome.change, Change::Changed(())));
    assert_eq!(saves(&outcome.effects), vec![Save::Book]);
    assert_eq!(state.books().get("abc").unwrap().downloaded(), Some("abc"));
    let outcome = plex_download_book(&mut state, "zzz");
    assert!(matches!(outcome.change, Change::Failed(Error::NoAlbumFound)));
    assert!(outcome.effects.saves.is_empty() && outcome.effects.events.is_empty());

    let outcome = plex_delete_book(&mut state, "abc");
    assert!(matches!(outcome.change, Change::Changed(())));
    assert_eq!(saves(&outcome.effects), vec![Save::Book]);
    assert_eq!(events(&outcome.effects), vec![Event::UpdateDownloaded]);
    let outcome = plex_delete_book(&mut state, "abc");
    assert!(matches!(outcome.change, Change::Failed(Error::BookNotDownloaded)));
    assert!(outcome.effects.saves.is_empty() && outcome.effects.events.is_empty());
    let outcome = plex_delete_book(&mut state, "k1");
    assert!(matches!(outcome.change, Change::Failed(Error::NoBookFound)));
}

#[test]
fn the_sign_in_panel_follows_the_pairing() {
    let shelf = Shelf::of(1);
    let mut state = empty_state();
    assert!(matches!(plex(&state), PlexPanel::SignedOut));
    let outcome = plex_check(&mut state, &shelf);
    assert!(matches!(outcome.change, Change::Changed(PlexPanel::SignedOut)));
    assert!(outcome.effects.saves.is_empty() && outcome.effects.events.is_empty());

    match plex_signin(&mut state, &shelf) {
        Ok(PlexPanel::Pin(code)) => assert_eq!(code, "ABCD"),
        other => panic!("{:?}", other),
    }
    assert!(matches!(plex(&state), PlexPanel::Pin(code) if code == "ABCD"));

    shelf.polls.borrow_mut().push_back(Ok(PlexPin::new(1, "ABCD".to_string(), None)));
    let outcome = plex_check(&mut state, &shelf);
    assert!(matches!(outcome.change, Change::Changed(PlexPanel::Pin(code)) if code == "ABCD"));
    assert!(outcome.effects.saves.is_empty() && outcome.effects.events.is_empty());
    assert!(!state.plex().has_user());

    shelf
        .polls
        .borrow_mut()
        .push_back(Ok(PlexPin::new(1, "ABCD".to_string(), Some("T1".to_string()))));
    let outcome = plex_check(&mut state, &shelf);
    assert!(matches!(outcome.change, Change::Changed(PlexPanel::SignedIn)));
    assert_eq!(saves(&outcome.effects), vec![Save::Settings]);
    assert_eq!(events(&outcome.effects), vec![Event::UpdateSettings]);
    assert!(matches!(plex(&state), PlexPanel::SignedIn));

    let outcome = plex_signout(&mut state);
    assert!(matches!(outcome.change, Change::Changed(PlexPanel::SignedOut)));
    assert_eq!(saves(&outcome.effects), vec![Save::Settings]);
    assert_eq!(events(&outcome.effects), vec![Event::UpdateSettings]);
    assert!(!state.plex().has_user());

    let outcome = plex_check(&mut state, &shelf);
    assert!(matches!(outcome.change, Change::Changed(PlexPanel::SignedOut)));
    assert!(state.plex_pin().is_none());
}

#[test]
fn choosing_a_server_and_a_library() {
    let shelf = Shelf::of(2);
    let mut state = empty_state();
    let choice = plex_server(&state);
    assert!(choice.options.is_empty());
    assert_eq!(choice.selected, None);
    let outcome = plex_update_server(&mut state, &shelf, Some("Home"));
    assert!(matches!(outcome.change, Change::Failed(Error::NoResourcesFound)));
    assert!(outcome.effects.saves.is_empty() && outcome.effects.events.is_empty());

    let mut state = state_with(2);
    let choice = plex_server(&state);
    assert_eq!(choice.options, vec!["Home".to_string()]);
    assert_eq!(choice.selected, Some("Home".to_string()));
    let choice = plex_library(&state);
    assert_eq!(choice.options, vec!["Audiobooks".to_string()]);
    assert_eq!(choice.selected, Some("Audiobooks".to_string()));

    let outcome = plex_update_library(&mut state, &shelf, Some("Films"));
    assert!(matches!(outcome.change, Change::Failed(Error::InvalidLibraryName)));
    assert!(outcome.effects.saves.is_empty() && outcome.effects.events.is_empty());
    let outcome = plex_update_library(&mut state, &shelf, None);
    assert!(matches!(outcome.change, Change::Changed(())));
    assert_eq!(saves(&outcome.effects), vec![Save::Settings]);
    assert_eq!(events(&outcome.effects), vec![Event::UpdateSettings]);
    assert_eq!(plex_library(&state).selected, None);
    let outcome = plex_update_library(&mut state, &shelf, Some("Audiobooks"));
    assert!(matches!(outcome.change, Change::Changed(())));

    let outcome = plex_update_server(&mut state, &shelf, Some("Attic"));
    assert!(matches!(outcome.change, Change::Failed(Error::InvalidServerName)));
    assert_eq!(plex_server(&state).selected, Some("Home".to_string()));
    let outcome = plex_update_server(&mut state, &shelf, None);
    assert!(matches!(outcome.change, Change::Changed(())));
    assert_eq!(saves(&outcome.effects), vec![Save::Settings]);
    assert_eq!(plex_server(&state).selected, None);
    assert!(plex_library(&state).options.is_empty());
    let outcome = plex_update_server(&mut state, &shelf, Some("Home"));
    assert!(matches!(outcome.change, Change::Changed(())));
    assert_eq!(plex_library(&state).options, vec!["Audiobooks".to_string()]);
}

#[test]
fn the_card_of_an_album() {
    let mut state = state_with(2);
    let card = book(&state, "k1").unwrap();
    assert_eq!(card.author, "Author 1");
    assert_eq!(card.title, "Title 1");
    assert_eq!(card.summary, "Summary 1");
    assert_eq!(card.key, "k1");
    assert_eq!(card.thumb, "https://home.example/thumb/1?X-Plex-Token=T1");
    assert!(!card.downloaded);
    assert_eq!(state.download_book("k1"), Ok(true));
    assert!(book(&state, "k1").unwrap().downloaded);
    assert!(!book(&state, "abc").unwrap().downloaded);
    assert_eq!(book(&state, "zzz").err(), Some(Error::NoAlbumFound));
    assert_eq!(book(&empty_state(), "abc").err(), Some(Error::NoAlbumsFound));
}

#[test]
fn the_library_comes_in_pages_of_twelve() {
    assert_eq!(PAGE_SIZE, 12);
    let state = state_with(30);
    let page = library_pagination(&state, 0).unwrap();
    assert_eq!(page.books.len(), 12);
    assert_eq!(page.next, 12);
    assert_eq!(page.books[0].key, "abc");
    assert_eq!(page.books[11].key, "k11");
    let page = library_pagination(&state, 12).unwrap();
    assert_eq!(page.books.len(), 12);
    assert_eq!(page.next, 24);
    assert_eq!(page.books[0].key, "k12");
    let page = library_pagination(&state, 24).unwrap();
    assert_eq!(page.books.len(), 6);
    assert_eq!(page.next, 0);
    assert_eq!(page.books[5].key, "k29");
    let page = library_pagination(&state, 18).unwrap();
    assert_eq!(page.books.len(), 12);
    assert_eq!(page.next, 30);
    let page = library_pagination(&state, 30).unwrap();
    assert_eq!(page.books.len(), 0);
    assert_eq!(page.next, 0);
    let page = library_pagination(&state, usize::MAX).unwrap();
    assert_eq!(page.books.len(), 0);
    assert_eq!(page.next, 0);

    let exact = state_with(12);
    let page = library_pagination(&exact, 0).unwrap();
    assert_eq!(page.books.len(), 12);
    assert_eq!(page.next, 12);
    let page = library_pagination(&exact, 12).unwrap();
    assert_eq!(page.books.len(), 0);
    assert_eq!(page.next, 0);
    assert_eq!(library_pagination(&empty_state(), 0).err(), Some(Error::NoAlbumsFound));
}

#[test]
fn books_that_could_not_be_read_are_gone() {
    let kept = |key: &str, state: ReadingState, location: Option<&str>| {
        Some(Book::restore(key.to_string(), state, 0, location.map(|l| l.to_string())))
    };
    let books = Book::get_all_books(vec![
        kept("abc", ReadingState::Playing, None),
        None,
        kept("k1", ReadingState::Paused, Some("k1")),
        kept("abc", ReadingState::Paused, Some("abc")),
        None,
    ]);
    assert_eq!(books.keys(), vec!["abc".to_string(), "k1".to_string()]);
    assert_eq!(books.get("abc").unwrap().downloaded(), Some("abc"));
    assert_eq!(books.get("abc").unwrap().state(), ReadingState::Paused);
    assert_eq!(books.get("k1").unwrap().downloaded(), Some("k1"));
    assert_eq!(Book::get_all_books(vec![None, None]).len(), 0);
    assert_eq!(Book::get_all_books(Vec::new()).len(), 0);
}

#[test]
fn settings_are_taken_from_the_store_or_made_anew() {
    let shelf = Shelf::of(2);
    let (settings, fresh) = AppSettings::from_store(None, product(), &shelf);
    assert!(fresh);
    assert!(!settings.plex.has_user());
    assert_eq!(settings.plex.data().client_ident().len(), 36);
    assert_eq!(settings.plex.get_servers(), Err(Error::NoResourcesFound));
    assert!(shelf.asked().is_empty());

    let stored = PlexData::new("installation".to_string(), None, None, None);
    let (settings, fresh) = AppSettings::from_store(Some(stored), product(), &shelf);
    assert!(!fresh);
    assert_eq!(settings.plex.data().client_ident(), "installation");
    assert!(shelf.asked().is_empty());

    let stored = PlexData::new("installation".to_string(), Some("T1".to_string()), None, None);
    let (settings, fresh) = AppSettings::from_store(Some(stored), product(), &shelf);
    assert!(!fresh);
    assert!(settings.plex.has_user());
    assert_eq!(settings.plex.get_servers(), Ok(vec!["Home".to_string()]));
    assert_eq!(shelf.asked(), vec!["resources".to_string()]);
}
