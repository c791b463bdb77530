//! The one state that every operation of the application works on. Whoever
//! holds it holds it alone, from the start of an operation to its end.

use vstd::prelude::*;
use crate::cache::{distinct_keys, has_key, index_of, lemma_index_unique, lemma_same_keys};
use crate::error::Error;
use crate::plex::client::PlexClient;
use crate::plex::ident::is_uuid_text;
use crate::plex::pin::{PinView, PlexPin};
use crate::plex::plex::{Plex, PlexView};
use crate::state::books::{
    all_paused, books_by_key, lemma_none_playing, lemma_one_playing, playing_count, with_book,
    with_changed, with_state, BookView, Books, ReadingState,
};
use crate::state::settings::AppSettings;
use crate::text::{clone_opt, opt_text, same_text};

verus! {

/// The pin of an optional pending request, as a value.
pub open spec fn opt_pin(pin: Option<PlexPin>) -> Option<PinView> {
    match pin {
        Some(pin) => Some(pin@),
        None => None,
    }
}

/// What a request to play came to.
#[derive(Debug, Clone, Copy, PartialEq, Eq, Structural)]
pub enum Playback {
    /// The album became the current book and is being played. `new_book`
    /// says whether its book was made for this; `switched` whether another
    /// book was current before.
    Started { new_book: bool, switched: bool },
    /// The album was the current book already; it is now in the given
    /// state. Nothing else changed.
    Toggled(ReadingState),
}

/// The state of the application as a value.
pub struct AppStateView {
    pub plex: PlexView,
    pub current_book: Option<Seq<char>>,
    pub books: Seq<(Seq<char>, BookView)>,
    pub plex_pin: Option<PinView>,
}

impl AppStateView {
    /// The session is valid, no album has two books, a book that is being
    /// played is the current one, and the current book exists.
    pub open spec fn valid(self) -> bool {
        &&& self.plex.valid()
        &&& distinct_keys(self.books)
        &&& books_by_key(self.books)
        &&& forall|i: int|
            0 <= i < self.books.len() && (#[trigger] self.books[i]).1.state == ReadingState::Playing
                ==> self.current_book == Some(self.books[i].0)
        &&& self.current_book is Some ==> has_key(self.books, self.current_book->Some_0)
    }

    /// Why a book for the album `key` cannot be started, if it cannot: the
    /// album has no book yet and is not among the cached albums.
    pub open spec fn start_refused(self, key: Seq<char>) -> Option<Error> {
        if has_key(self.books, key) {
            None
        } else if self.plex.albums.len() == 0 {
            Some(Error::NoAlbumsFound)
        } else if !has_key(self.plex.albums, key) {
            Some(Error::NoAlbumFound)
        } else {
            None
        }
    }

    /// The state after the current book was toggled between playing and
    /// paused.
    pub open spec fn toggled(self) -> AppStateView {
        let key = self.current_book->Some_0;
        AppStateView {
            books: with_changed(
                self.books,
                key,
                |book: BookView| book.with_state(book.state.toggled()),
            ),
            ..self
        }
    }

    /// The state after the album `key` became the current book: the book
    /// that was current is paused, the album has a book, and that book is
    /// being played.
    pub open spec fn started(self, key: Seq<char>) -> AppStateView {
        let paused = match self.current_book {
            Some(current) => with_state(self.books, current, ReadingState::Paused),
            None => self.books,
        };
        AppStateView {
            books: with_state(with_book(paused, key), key, ReadingState::Playing),
            current_book: Some(key),
            ..self
        }
    }

    /// The state after a request to play the album `key`.
    pub open spec fn start_playing(self, key: Seq<char>) -> AppStateView {
        if self.current_book == Some(key) {
            self.toggled()
        } else if self.start_refused(key) is Some {
            self
        } else {
            self.started(key)
        }
    }

    /// What a request to play the album `key` comes to.
    pub open spec fn playback(self, key: Seq<char>) -> Result<Playback, Error> {
        if self.current_book == Some(key) {
            Ok(Playback::Toggled(self.books[index_of(self.books, key)].1.state.toggled()))
        } else if self.start_refused(key) is Some {
            Err(self.start_refused(key)->Some_0)
        } else {
            Ok(
                Playback::Started {
                    new_book: !has_key(self.books, key),
                    switched: self.current_book is Some,
                },
            )
        }
    }

    /// The reading state of the book of the album `key`.
    pub open spec fn reading_state(self, key: Seq<char>) -> ReadingState {
        self.books[index_of(self.books, key)].1.state
    }
}

/// The state of the application.
pub struct InnerAppState {
    settings: AppSettings,
    current_book: Option<String>,
    plex_pin: Option<PlexPin>,
    books: Books,
}

impl View for InnerAppState {
    type V = AppStateView;

    closed spec fn view(&self) -> AppStateView {
        AppStateView {
            plex: self.settings.plex@,
            current_book: opt_text(self.current_book),
            books: self.books@,
            plex_pin: opt_pin(self.plex_pin),
        }
    }
}

impl InnerAppState {
    pub closed spec fn wf(&self) -> bool {
        &&& self.settings.plex.wf()
        &&& self.books.wf()
        &&& self@.valid()
    }

    pub proof fn lemma_wf(&self)
        requires
            self.wf(),
        ensures
            self@.valid(),
    {
    }

    /// The state at the start of a run: the settings and books as they were
    /// kept, no book current, no pairing code under way. Nothing is being
    /// played at the start, so every book is paused.
    pub fn new(settings: AppSettings, books: Books) -> (state: Self)
        requires
            settings.plex.wf(),
            books.wf(),
        ensures
            state.wf(),
            state@ == (AppStateView {
                plex: settings.plex@,
                current_book: None,
                books: all_paused(books@),
                plex_pin: None,
            }),
    {
        let mut books = books;
        proof {
            books.lemma_wf();
        }
        books.pause_all();
        proof {
            settings.plex.lemma_wf();
            books.lemma_wf();
        }
        InnerAppState { settings, current_book: None, plex_pin: None, books }
    }

    /// The session with the media server.
    pub fn plex(&self) -> (plex: &Plex)
        ensures
            plex@ == self@.plex,
            self.wf() ==> plex.wf(),
    {
        &self.settings.plex
    }

    /// The rating key of the album whose book is current.
    pub fn current_book(&self) -> (key: Option<&str>)
        ensures
            key is Some == self@.current_book is Some,
            key is Some ==> self@.current_book == Some(key->Some_0@),
    {
        match &self.current_book {
            Some(key) => Some(key.as_str()),
            None => None,
        }
    }

    /// The books.
    pub fn books(&self) -> (books: &Books)
        ensures
            books@ == self@.books,
            self.wf() ==> books.wf(),
    {
        &self.books
    }

    /// The pairing code under way.
    pub fn plex_pin(&self) -> (pin: Option<&PlexPin>)
        ensures
            pin is Some == self@.plex_pin is Some,
            pin is Some ==> self@.plex_pin == Some(pin->Some_0@),
    {
        self.plex_pin.as_ref()
    }

    /// Takes a request to play the album `key`.
    ///
    /// Where the album is the current book, its book changes between
    /// playing and paused and nothing else changes. Else the album becomes
    /// the current book: the book that was current is paused, and the
    /// album's book, made now where there was none, is being played. A
    /// book can be made only for an album that is among the cached ones:
    /// failing that the request is refused with `NoAlbumsFound` or
    /// `NoAlbumFound`, and nothing changes.
    pub fn start_playing(&mut self, key: &str) -> (done: Result<Playback, Error>)
        requires
            old(self).wf(),
        ensures
            final(self).wf(),
            final(self)@ == old(self)@.start_playing(key@),
            done == old(self)@.playback(key@),
    {
        proof {
            self.books.lemma_wf();
            self.settings.plex.lemma_wf();
        }
        let ghost before = self@;
        let current = clone_opt(&self.current_book);
        match &current {
            Some(now) => {
                if same_text(now.as_str(), key) {
                    let ghost place = index_of(before.books, key@);
                    let state = match self.books.get(key) {
                        Some(book) => book.state().toggle(),
                        None => ReadingState::Paused,
                    };
                    self.books.set_state(key, state);
                    proof {
                        let changed = with_changed(
                            before.books,
                            key@,
                            |book: BookView| book.with_state(book.state.toggled()),
                        );
                        assert(self@.books =~= changed);
                        self.books.lemma_wf();
                        assert forall|i: int|
                            0 <= i < self@.books.len() && (#[trigger] self@.books[i]).1.state
                                == ReadingState::Playing implies self@.current_book == Some(
                            self@.books[i].0,
                        ) by {
                            if i != place {
                                assert(self@.books[i] == before.books[i]);
                            }
                        }
                        lemma_index_unique(self@.books, place);
                    }
                    return Ok(Playback::Toggled(state));
                }
            },
            None => {},
        }
        if !self.books.contains(key) {
            match self.settings.plex.get_album(key) {
                Ok(_) => {},
                Err(error) => {
                    return Err(error);
                },
            }
        }
        let switched = match &current {
            Some(now) => {
                self.books.set_state(now.as_str(), ReadingState::Paused);
                true
            },
            None => false,
        };
        let ghost paused = self@.books;
        proof {
            lemma_same_keys(before.books, paused, key@);
        }
        let new_book = self.books.get_book_or_insert(key.to_owned());
        self.books.set_state(key, ReadingState::Playing);
        self.current_book = Some(key.to_owned());
        proof {
            self.books.lemma_wf();
            let at = index_of(with_book(paused, key@), key@);
            assert(has_key(with_book(paused, key@), key@));
            assert forall|i: int|
                0 <= i < self@.books.len() && (#[trigger] self@.books[i]).1.state
                    == ReadingState::Playing implies self@.current_book == Some(
                self@.books[i].0,
            ) by {
                if i != at {
                    assert(self@.books[i] == with_book(paused, key@)[i]);
                    if i < paused.len() {
                        assert(with_book(paused, key@)[i] == paused[i]);
                        if before.current_book is Some {
                            let was = index_of(before.books, before.current_book->Some_0);
                            if i != was {
                                assert(paused[i] == before.books[i]);
                            }
                        } else {
                            assert(paused[i] == before.books[i]);
                        }
                    }
                }
            }
            lemma_index_unique(self@.books, at);
        }
        Ok(Playback::Started { new_book, switched })
    }
}

/// What a poll of the pairing code under way came to.
#[derive(Debug, Clone, Copy, PartialEq, Eq, Structural)]
pub enum Polled {
    /// No pairing code is under way.
    NoPin,
    /// The code was approved: the user is signed in.
    Authenticated,
    /// The code is not approved yet. Polling again is in order.
    Waiting,
    /// The poll failed. The pairing code is given up.
    Failed(Error),
}

impl AppStateView {
    /// The state after the book of the album `key` was marked as
    /// downloaded, the book being made where there was none.
    pub open spec fn downloaded(self, key: Seq<char>) -> AppStateView {
        AppStateView {
            books: with_changed(with_book(self.books, key), key, |book: BookView| book.download()),
            ..self
        }
    }

    /// The state after the download of the book of the album `key` was
    /// forgotten.
    pub open spec fn download_removed(self, key: Seq<char>) -> AppStateView {
        AppStateView {
            books: with_changed(self.books, key, |book: BookView| book.remove_download()),
            ..self
        }
    }

    /// Why the download of the book of the album `key` cannot be forgotten,
    /// if it cannot.
    pub open spec fn removal_refused(self, key: Seq<char>) -> Option<Error> {
        if !has_key(self.books, key) {
            Some(Error::NoBookFound)
        } else if self.books[index_of(self.books, key)].1.downloaded is None {
            Some(Error::BookNotDownloaded)
        } else {
            None
        }
    }

    /// What asking for a pairing code can come to: `InvalidHeader` where
    /// the request cannot be built; else the client's answer either is the
    /// code now under way, or its error is handed on.
    pub open spec fn creates_pin<C: PlexClient>(
        self,
        client: &C,
        after: AppStateView,
        done: Result<(), Error>,
    ) -> bool {
        if !self.plex.sendable() {
            after == self && done == Err::<(), Error>(Error::InvalidHeader)
        } else {
            exists|answer: Result<PlexPin, Error>| #[trigger]
                client.may_issue_pin(self.plex.headers(), answer) && if answer is Ok {
                    after == (AppStateView { plex_pin: Some(answer->Ok_0@), ..self }) && done
                        == Ok::<(), Error>(())
                } else {
                    after == self && done == Err::<(), Error>(answer->Err_0)
                }
        }
    }

    /// What a poll can come to. Without a code under way: `NoPin`. Else the
    /// session polls the code: where that succeeds the user is signed in;
    /// where it is still waiting nothing changes; where it fails the code
    /// is given up.
    pub open spec fn polls<C: PlexClient>(self, client: &C, after: AppStateView, polled: Polled) -> bool {
        if self.plex_pin is None {
            after == self && polled == Polled::NoPin
        } else {
            exists|plex: PlexView, done: Result<(), Error>| #[trigger]
                self.plex.checks_pin(client, self.plex_pin->Some_0.id, plex, done) && if done is Ok {
                    after == (AppStateView { plex, ..self }) && polled == Polled::Authenticated
                } else if done->Err_0 == Error::WaitingOnPin {
                    after == self && polled == Polled::Waiting
                } else {
                    after == (AppStateView { plex_pin: None, ..self }) && polled == Polled::Failed(
                        done->Err_0,
                    )
                }
        }
    }
}

impl InnerAppState {
    /// Marks the book of the album `key` as downloaded and says whether the
    /// book is new. A book can be made only for an album that is among
    /// the cached ones: failing that the request is refused with
    /// `NoAlbumsFound` or `NoAlbumFound`, and nothing changes.
    pub fn download_book(&mut self, key: &str) -> (new_book: Result<bool, Error>)
        requires
            old(self).wf(),
        ensures
            final(self).wf(),
            old(self)@.start_refused(key@) is Some ==> new_book == Err::<bool, Error>(
                old(self)@.start_refused(key@)->Some_0,
            ) && final(self)@ == old(self)@,
            old(self)@.start_refused(key@) is None ==> new_book == Ok::<bool, Error>(
                !has_key(old(self)@.books, key@),
            ) && final(self)@ == old(self)@.downloaded(key@),
    {
        proof {
            self.books.lemma_wf();
            self.settings.plex.lemma_wf();
        }
        let ghost before = self@;
        if !self.books.contains(key) {
            match self.settings.plex.get_album(key) {
                Ok(_) => {},
                Err(error) => {
                    return Err(error);
                },
            }
        }
        let new_book = self.books.download_book(key.to_owned());
        proof {
            self.books.lemma_wf();
            let made = with_book(before.books, key@);
            assert(has_key(made, key@)) by {
                if !has_key(before.books, key@) {
                    assert(made[made.len() - 1].0 == key@);
                }
            }
            let at = index_of(made, key@);
            assert forall|i: int|
                0 <= i < self@.books.len() && (#[trigger] self@.books[i]).1.state
                    == ReadingState::Playing implies self@.current_book == Some(
                self@.books[i].0,
            ) by {
                if i < before.books.len() {
                    assert(made[i] == before.books[i]);
                }
            }
            if before.current_book is Some {
                lemma_same_keys(made, self@.books, before.current_book->Some_0);
                let was = index_of(before.books, before.current_book->Some_0);
                assert(made[was].0 == before.current_book->Some_0);
            }
        }
        new_book
    }

    /// Forgets the download of the book of the album `key`. Fails with
    /// `NoBookFound` where the album has no book, with `BookNotDownloaded`
    /// where the book has no download, and changes nothing then.
    pub fn remove_download(&mut self, key: &str) -> (done: Result<(), Error>)
        requires
            old(self).wf(),
        ensures
            final(self).wf(),
            old(self)@.removal_refused(key@) is Some ==> done == Err::<(), Error>(
                old(self)@.removal_refused(key@)->Some_0,
            ) && final(self)@ == old(self)@,
            old(self)@.removal_refused(key@) is None ==> done == Ok::<(), Error>(()) && final(self)@ == old(self)@.download_removed(key@),
    {
        proof {
            self.books.lemma_wf();
        }
        let ghost before = self@;
        let done = self.books.remove_download(key);
        proof {
            self.books.lemma_wf();
            if done is Ok {
                assert forall|i: int|
                    0 <= i < self@.books.len() && (#[trigger] self@.books[i]).1.state
                        == ReadingState::Playing implies self@.current_book == Some(
                    self@.books[i].0,
                ) by {
                    assert(self@.books[i].1.state == before.books[i].1.state);
                }
                if before.current_book is Some {
                    lemma_same_keys(before.books, self@.books, before.current_book->Some_0);
                }
            }
        }
        done
    }

    /// Asks for a pairing code and keeps it as the code under way.
    pub fn create_login_pin<C: PlexClient>(&mut self, client: &C) -> (done: Result<(), Error>)
        requires
            old(self).wf(),
        ensures
            final(self).wf(),
            old(self)@.creates_pin(client, final(self)@, done),
    {
        let answer = self.settings.plex.create_login_pin(client);
        let ghost issued = answer;
        match answer {
            Ok(pin) => {
                self.plex_pin = Some(pin);
                assert(client.may_issue_pin(old(self)@.plex.headers(), issued));
                Ok(())
            },
            Err(error) => {
                assert(old(self)@.plex.sendable() ==> client.may_issue_pin(
                    old(self)@.plex.headers(),
                    issued,
                ));
                Err(error)
            },
        }
    }

    /// Polls the pairing code under way.
    pub fn poll<C: PlexClient>(&mut self, client: &C) -> (polled: Polled)
        requires
            old(self).wf(),
        ensures
            final(self).wf(),
            old(self)@.polls(client, final(self)@, polled),
    {
        proof {
            self.settings.plex.lemma_wf();
        }
        let pin = match &self.plex_pin {
            Some(pin) => pin.clone(),
            None => {
                return Polled::NoPin;
            },
        };
        assert(old(self)@.plex_pin->Some_0 == pin@);
        let done = self.settings.plex.check_pin(client, &pin);
        proof {
            self.settings.plex.lemma_wf();
        }
        let ghost plex = self@.plex;
        let polled = match done {
            Ok(()) => Polled::Authenticated,
            Err(error) => {
                if error.is_waiting() {
                    Polled::Waiting
                } else {
                    self.plex_pin = None;
                    Polled::Failed(error)
                }
            },
        };
        assert(old(self)@.plex.checks_pin(client, old(self)@.plex_pin->Some_0.id, plex, done));
        polled
    }

    /// Signs the user out: the session forgets the user, the selections
    /// and everything cached, and starts anew under another identifier.
    /// The books stay.
    pub fn signout(&mut self)
        requires
            old(self).wf(),
        ensures
            final(self).wf(),
            is_uuid_text(final(self)@.plex.data.session_token),
            final(self)@ == (AppStateView {
                plex: old(self)@.plex.signed_out(final(self)@.plex.data.session_token),
                ..old(self)@
            }),
    {
        self.settings.plex.signout();
        proof {
            self.settings.plex.lemma_wf();
        }
    }

    /// Puts the server `server` in use, or lets go of the one in use where
    /// none is given.
    pub fn select_server<C: PlexClient>(&mut self, client: &C, server: Option<&str>) -> (done:
        Result<(), Error>)
        requires
            old(self).wf(),
        ensures
            final(self).wf(),
            final(self)@ == (AppStateView { plex: final(self)@.plex, ..old(self)@ }),
            done is Err ==> final(self)@ == old(self)@,
            server is Some ==> old(self)@.plex.selects_server(
                client,
                server->Some_0@,
                final(self)@.plex,
                done,
            ),
            server is None ==> done is Ok && final(self)@.plex == old(self)@.plex.without_server(),
    {
        let done = match server {
            Some(name) => self.settings.plex.select_server(client, name),
            None => {
                self.settings.plex.reset_server_selection();
                Ok(())
            },
        };
        proof {
            self.settings.plex.lemma_wf();
        }
        done
    }

    /// Puts the library `library` in use, or lets go of the one in use
    /// where none is given.
    pub fn select_library<C: PlexClient>(&mut self, client: &C, library: Option<&str>) -> (done:
        Result<(), Error>)
        requires
            old(self).wf(),
        ensures
            final(self).wf(),
            final(self)@ == (AppStateView { plex: final(self)@.plex, ..old(self)@ }),
            done is Err ==> final(self)@ == old(self)@,
            library is Some ==> old(self)@.plex.selects_library(
                client,
                library->Some_0@,
                final(self)@.plex,
                done,
            ),
            library is None ==> done is Ok && final(self)@.plex == old(self)@.plex.without_library(),
    {
        let done = match library {
            Some(title) => self.settings.plex.select_library(client, title),
            None => {
                self.settings.plex.reset_library_selection();
                Ok(())
            },
        };
        proof {
            self.settings.plex.lemma_wf();
        }
        done
    }
}

/// In a valid state at most one book is being played.
pub proof fn lemma_at_most_one_playing(state: AppStateView)
    requires
        state.valid(),
    ensures
        playing_count(state.books) <= 1,
        playing_count(state.books) == 1 ==> state.current_book is Some && state.reading_state(
            state.current_book->Some_0,
        ) == ReadingState::Playing,
{
    if state.current_book is Some {
        let key = state.current_book->Some_0;
        let at = index_of(state.books, key);
        assert(0 <= at < state.books.len() && state.books[at].0 == key);
        assert forall|i: int|
            0 <= i < state.books.len() && (#[trigger] state.books[i]).1.state
                == ReadingState::Playing implies i == at by {
            if i < at {
                assert(state.books[i].0 != state.books[at].0);
            } else if at < i {
                assert(state.books[at].0 != state.books[i].0);
            }
        }
        if state.books[at].1.state == ReadingState::Playing {
            lemma_one_playing(state.books, at);
        } else {
            lemma_none_playing(state.books);
        }
    } else {
        lemma_none_playing(state.books);
    }
}

/// Asking twice to play the current book leaves the state as it was: the
/// book is back in the reading state it had, and the same book is current.
pub proof fn lemma_toggle_twice(state: AppStateView, key: Seq<char>)
    requires
        state.valid(),
        state.current_book == Some(key),
    ensures
        state.start_playing(key).current_book == Some(key),
        state.start_playing(key).reading_state(key) == state.reading_state(key).toggled(),
        state.start_playing(key).start_playing(key) == state,
{
    let once = state.start_playing(key);
    let at = index_of(state.books, key);
    assert(0 <= at < state.books.len() && state.books[at].0 == key);
    lemma_same_keys(state.books, once.books, key);
    let twice = once.start_playing(key);
    assert(twice.books =~= state.books);
}

/// Asking to play the album `next` while the book of another album is
/// being played pauses that book and plays the book of `next`: exactly one
/// book is being played afterwards, and it is the current one.
pub proof fn lemma_switch_playing(state: AppStateView, playing: Seq<char>, next: Seq<char>)
    requires
        state.valid(),
        state.current_book == Some(playing),
        state.reading_state(playing) == ReadingState::Playing,
        next != playing,
        state.start_refused(next) is None,
    ensures
        state.start_playing(next).valid(),
        state.start_playing(next).current_book == Some(next),
        state.start_playing(next).reading_state(playing) == ReadingState::Paused,
        state.start_playing(next).reading_state(next) == ReadingState::Playing,
        playing_count(state.start_playing(next).books) == 1,
{
    let after = state.start_playing(next);
    let was = index_of(state.books, playing);
    assert(0 <= was < state.books.len() && state.books[was].0 == playing);
    let paused = with_state(state.books, playing, ReadingState::Paused);
    lemma_same_keys(state.books, paused, next);
    lemma_same_keys(state.books, paused, playing);
    let made = with_book(paused, next);
    assert(has_key(made, next)) by {
        if !has_key(paused, next) {
            assert(made[made.len() - 1].0 == next);
        }
    }
    let at = index_of(made, next);
    assert(0 <= at < made.len() && made[at].0 == next);
    assert(distinct_keys(made)) by {
        assert forall|i: int, j: int| 0 <= i < j < made.len() implies (#[trigger] made[i]).0 != (
        #[trigger] made[j]).0 by {
            if j < paused.len() {
                assert(paused[i].0 != paused[j].0);
            } else {
                assert(paused[i].0 == made[i].0);
            }
        }
    }
    lemma_same_keys(made, after.books, next);
    lemma_same_keys(made, after.books, playing);
    assert(made[was] == paused[was]);
    lemma_index_unique(made, was);
    assert(books_by_key(after.books)) by {
        assert forall|i: int| 0 <= i < after.books.len() implies (#[trigger] after.books[i]).0
            == after.books[i].1.album_key by {
            if i < state.books.len() {
                assert(state.books[i].0 == state.books[i].1.album_key);
            }
        }
    }
    assert forall|i: int|
        0 <= i < after.books.len() implies ((#[trigger] after.books[i]).1.state
        == ReadingState::Playing <==> i == at) by {
        if i != at && i < state.books.len() && i != was {
            assert(after.books[i] == state.books[i]);
            if state.books[i].1.state == ReadingState::Playing {
                assert(state.books[i].0 == playing);
                assert(state.books[i].0 != state.books[was].0);
            }
        }
    }
    lemma_one_playing(after.books, at);
}

/// Marking a book as downloaded a second time changes nothing.
pub proof fn lemma_download_twice(state: AppStateView, key: Seq<char>)
    requires
        state.valid(),
    ensures
        state.downloaded(key).downloaded(key) == state.downloaded(key),
{
    let made = with_book(state.books, key);
    assert(has_key(made, key)) by {
        if !has_key(state.books, key) {
            assert(made[made.len() - 1].0 == key);
        }
    }
    assert(distinct_keys(made)) by {
        assert forall|i: int, j: int| 0 <= i < j < made.len() implies (#[trigger] made[i]).0 != (
        #[trigger] made[j]).0 by {
            if j < state.books.len() {
                assert(state.books[i].0 != state.books[j].0);
            } else {
                assert(state.books[i].0 == made[i].0);
            }
        }
    }
    let once = state.downloaded(key);
    lemma_same_keys(made, once.books, key);
    assert(with_book(once.books, key) == once.books);
    assert(once.downloaded(key).books =~= once.books);
}

} // verus!
