//! Books: what the user has started to listen to or has downloaded.

use vstd::prelude::*;
use crate::cache::{distinct_keys, has_key, index_of, lemma_index_unique, lemma_upsert, upsert, Cache};
use crate::error::Error;
use crate::text::{clone_opt, join2, opt_text};

verus! {

/// Whether a book is the one being played.
#[derive(Debug, Clone, Copy, PartialEq, Eq, Structural)]
pub enum ReadingState {
    Playing,
    Paused,
}

impl ReadingState {
    /// The other state.
    pub open spec fn toggled(self) -> ReadingState {
        match self {
            ReadingState::Playing => ReadingState::Paused,
            ReadingState::Paused => ReadingState::Playing,
        }
    }

    /// The other state.
    pub fn toggle(self) -> (other: ReadingState)
        ensures
            other == self.toggled(),
    {
        match self {
            ReadingState::Playing => ReadingState::Paused,
            ReadingState::Paused => ReadingState::Playing,
        }
    }
}

/// The bit pattern of the fraction 1.0 as a 64-bit IEEE-754 number.
pub const WHOLE: u64 = 0x3FF0_0000_0000_0000;

/// Whether a bit pattern, read as a 64-bit IEEE-754 number, is a fraction
/// between 0 and 1: up to 1.0 the patterns of the numbers from 0 on are in
/// the order of the numbers.
pub open spec fn is_fraction(bits: u64) -> bool {
    bits <= WHOLE
}

/// A book as a value.
pub struct BookView {
    pub album_key: Seq<char>,
    pub state: ReadingState,
    pub progress: u64,
    pub downloaded: Option<Seq<char>>,
}

/// Where the download of an album is kept: under the album's key.
pub open spec fn download_location(album_key: Seq<char>) -> Seq<char> {
    album_key
}

impl BookView {
    /// A book that nobody has opened yet.
    pub open spec fn fresh(album_key: Seq<char>) -> BookView {
        BookView { album_key, state: ReadingState::Paused, progress: 0, downloaded: None }
    }

    /// The book once it is downloaded: as it is where it was already.
    pub open spec fn download(self) -> BookView {
        if self.downloaded is Some {
            self
        } else {
            BookView { downloaded: Some(download_location(self.album_key)), ..self }
        }
    }

    /// The book without its download.
    pub open spec fn remove_download(self) -> BookView {
        BookView { downloaded: None, ..self }
    }

    /// The book in another reading state.
    pub open spec fn with_state(self, state: ReadingState) -> BookView {
        BookView { state, ..self }
    }
}

/// The reading and download state of one album. It names its album by the
/// rating key and does not own it: the album may since have left the cache.
#[derive(Debug)]
pub struct Book {
    album_key: String,
    state: ReadingState,
    progress: u64,
    downloaded: Option<String>,
}

impl View for Book {
    type V = BookView;

    closed spec fn view(&self) -> BookView {
        BookView {
            album_key: self.album_key@,
            state: self.state,
            progress: self.progress,
            downloaded: opt_text(self.downloaded),
        }
    }
}

impl Clone for Book {
    fn clone(&self) -> (copy: Self)
        ensures
            copy@ == self@,
    {
        Book {
            album_key: self.album_key.clone(),
            state: self.state,
            progress: self.progress,
            downloaded: clone_opt(&self.downloaded),
        }
    }
}

/// The key of the store entry that names the current book.
pub const CURRENT_BOOK_STORE: &'static str = "current-book";

/// The key of the store entry that lists the keys of all books.
pub const ALL_BOOKS_STORE: &'static str = "all-books";

impl Book {
    /// A book for an album that is opened for the first time: paused, at
    /// the start, not downloaded.
    pub fn new(album_key: String) -> (book: Self)
        ensures
            book@ == BookView::fresh(album_key@),
    {
        Book { album_key, state: ReadingState::Paused, progress: 0, downloaded: None }
    }

    /// The books among what was read of the store, one entry for each key
    /// of the stored list. A key whose book could not be read is taken to
    /// be gone.
    pub fn get_all_books(read: Vec<Option<Book>>) -> (books: Books)
        ensures
            books.wf(),
            books@ == kept_books(read@),
    {
        let ghost all = read@;
        let mut books = Books::new();
        assert(books@ =~= kept_books(all.take(0)));
        for entry in it: read.into_iter()
            invariant
                it.seq() == all,
                books.wf(),
                books@ == kept_books(all.take(it.index() as int)),
        {
            let ghost done = it.index() as int;
            assert(entry == all[done]);
            assert(all.take(done + 1).drop_last() =~= all.take(done));
            assert(all.take(done + 1).last() == entry);
            match entry {
                Some(book) => {
                    books.restore(book);
                },
                None => {},
            }
        }
        assert(all.take(all.len() as int) =~= all);
        books
    }

    /// A book as it was kept. `progress` is the bit pattern of the fraction
    /// listened to; one that is no fraction between 0 and 1 counts as 0.
    pub fn restore(
        album_key: String,
        state: ReadingState,
        progress: u64,
        downloaded: Option<String>,
    ) -> (book: Self)
        ensures
            book@ == (BookView {
                album_key: album_key@,
                state,
                progress: if is_fraction(progress) {
                    progress
                } else {
                    0
                },
                downloaded: opt_text(downloaded),
            }),
            is_fraction(book@.progress),
    {
        let progress = if progress <= WHOLE {
            progress
        } else {
            0
        };
        Book { album_key, state, progress, downloaded }
    }

    pub fn album_key(&self) -> (key: &str)
        ensures
            key@ == self@.album_key,
    {
        self.album_key.as_str()
    }

    pub fn state(&self) -> (state: ReadingState)
        ensures
            state == self@.state,
    {
        self.state
    }

    /// The bit pattern of the fraction listened to.
    pub fn progress(&self) -> (bits: u64)
        ensures
            bits == self@.progress,
    {
        self.progress
    }

    /// Where the download is kept, if there is one.
    pub fn downloaded(&self) -> (location: Option<&str>)
        ensures
            location is Some == self@.downloaded is Some,
            location is Some ==> self@.downloaded == Some(location->Some_0@),
    {
        match &self.downloaded {
            Some(location) => Some(location.as_str()),
            None => None,
        }
    }

    /// Puts the book in the given reading state.
    pub fn set_state(&mut self, state: ReadingState)
        ensures
            final(self)@ == old(self)@.with_state(state),
    {
        self.state = state;
    }

    /// The key of the store entry of the book for the album `key`.
    pub fn store_key(key: &str) -> (entry: String)
        ensures
            entry@ == "book:"@ + key@,
    {
        join2("book:", key)
    }

    /// Marks the book as downloaded, at the location that belongs to its
    /// album. A book that is downloaded already stays as it is.
    pub fn download(&mut self) -> (done: Result<(), Error>)
        ensures
            done == Ok::<(), Error>(()),
            final(self)@ == old(self)@.download(),
    {
        if self.downloaded.is_none() {
            self.downloaded = Some(self.album_key.clone());
        }
        Ok(())
    }

    /// Forgets the download. Fails with `BookNotDownloaded`, and changes
    /// nothing, where there is none.
    pub fn remove_download(&mut self) -> (done: Result<(), Error>)
        ensures
            old(self)@.downloaded is None ==> done == Err::<(), Error>(Error::BookNotDownloaded)
                && final(self)@ == old(self)@,
            old(self)@.downloaded is Some ==> done == Ok::<(), Error>(()) && final(self)@ == old(self)@.remove_download(),
    {
        if self.downloaded.is_none() {
            return Err(Error::BookNotDownloaded);
        }
        self.downloaded = None;
        Ok(())
    }
}

/// Downloading a book a second time changes nothing.
pub proof fn lemma_download_idempotent(book: BookView)
    ensures
        book.download().download() == book.download(),
        book.download().downloaded is Some,
        book.downloaded is Some ==> book.download() == book,
{
}

/// Every book stands under the key of its album.
pub open spec fn books_by_key(books: Seq<(Seq<char>, BookView)>) -> bool {
    forall|i: int| 0 <= i < books.len() ==> (#[trigger] books[i]).0 == books[i].1.album_key
}

/// The books with one for the album `key`: a fresh one at the end where
/// there was none.
pub open spec fn with_book(books: Seq<(Seq<char>, BookView)>, key: Seq<char>) -> Seq<
    (Seq<char>, BookView),
> {
    if has_key(books, key) {
        books
    } else {
        books.push((key, BookView::fresh(key)))
    }
}

/// The books with the book of the album `key`, if there is one, replaced
/// by `change` of it.
pub open spec fn with_changed(
    books: Seq<(Seq<char>, BookView)>,
    key: Seq<char>,
    change: spec_fn(BookView) -> BookView,
) -> Seq<(Seq<char>, BookView)> {
    if has_key(books, key) {
        books.update(index_of(books, key), (key, change(books[index_of(books, key)].1)))
    } else {
        books
    }
}

/// The books with the book of the album `key`, if there is one, in the
/// reading state `state`.
pub open spec fn with_state(
    books: Seq<(Seq<char>, BookView)>,
    key: Seq<char>,
    state: ReadingState,
) -> Seq<(Seq<char>, BookView)> {
    with_changed(books, key, |book: BookView| book.with_state(state))
}

/// The books with every one of them paused.
pub open spec fn all_paused(books: Seq<(Seq<char>, BookView)>) -> Seq<(Seq<char>, BookView)> {
    Seq::new(books.len(), |i: int| (books[i].0, books[i].1.with_state(ReadingState::Paused)))
}

/// The number of books that are being played.
pub open spec fn playing_count(books: Seq<(Seq<char>, BookView)>) -> nat
    decreases books.len(),
{
    if books.len() == 0 {
        0
    } else {
        playing_count(books.drop_last()) + if books.last().1.state == ReadingState::Playing {
            1nat
        } else {
            0nat
        }
    }
}

/// Where no book is being played, the count is 0.
pub proof fn lemma_none_playing(books: Seq<(Seq<char>, BookView)>)
    requires
        forall|i: int| 0 <= i < books.len() ==> (#[trigger] books[i]).1.state == ReadingState::Paused,
    ensures
        playing_count(books) == 0,
    decreases books.len(),
{
    if books.len() > 0 {
        assert(books.last() == books[books.len() - 1]);
        assert forall|i: int| 0 <= i < books.drop_last().len() implies (
        #[trigger] books.drop_last()[i]).1.state == ReadingState::Paused by {
            assert(books.drop_last()[i] == books[i]);
        }
        lemma_none_playing(books.drop_last());
    }
}

/// Where the book at place `at` is being played and no other, the count is
/// 1.
pub proof fn lemma_one_playing(books: Seq<(Seq<char>, BookView)>, at: int)
    requires
        0 <= at < books.len(),
        forall|i: int|
            0 <= i < books.len() ==> ((#[trigger] books[i]).1.state == ReadingState::Playing <==> i
                == at),
    ensures
        playing_count(books) == 1,
    decreases books.len(),
{
    let front = books.drop_last();
    assert(books.last() == books[books.len() - 1]);
    if at == books.len() - 1 {
        assert forall|i: int| 0 <= i < front.len() implies (#[trigger] front[i]).1.state
            == ReadingState::Paused by {
            assert(front[i] == books[i]);
        }
        lemma_none_playing(front);
    } else {
        assert forall|i: int| 0 <= i < front.len() implies ((#[trigger] front[i]).1.state
            == ReadingState::Playing <==> i == at) by {
            assert(front[i] == books[i]);
        }
        lemma_one_playing(front, at);
    }
}

/// The books among what was read of the store, each under the key of its
/// album: an entry that could not be read is left out, and of two books of
/// one album the later one stays.
pub open spec fn kept_books(read: Seq<Option<Book>>) -> Seq<(Seq<char>, BookView)>
    decreases read.len(),
{
    if read.len() == 0 {
        Seq::empty()
    } else {
        match read.last() {
            Some(book) => upsert(kept_books(read.drop_last()), book@.album_key, book@),
            None => kept_books(read.drop_last()),
        }
    }
}

/// The books of the user, each under the rating key of its album, in the
/// order in which they were opened.
pub struct Books {
    entries: Cache<Book>,
}

impl View for Books {
    type V = Seq<(Seq<char>, BookView)>;

    closed spec fn view(&self) -> Seq<(Seq<char>, BookView)> {
        self.entries@
    }
}

impl Books {
    /// No album has two books, and each book stands under the key of its
    /// album.
    pub closed spec fn wf(&self) -> bool {
        self.entries.wf() && books_by_key(self@)
    }

    pub proof fn lemma_wf(&self)
        requires
            self.wf(),
        ensures
            distinct_keys(self@),
            books_by_key(self@),
    {
        self.entries.lemma_wf();
    }

    /// No books.
    pub fn new() -> (books: Self)
        ensures
            books.wf(),
            books@.len() == 0,
    {
        Books { entries: Cache::new() }
    }

    pub fn len(&self) -> (count: usize)
        ensures
            count == self@.len(),
    {
        self.entries.len()
    }

    /// The book at place `i`.
    pub fn book_at(&self, i: usize) -> (book: &Book)
        requires
            i < self@.len(),
        ensures
            book@ == self@[i as int].1,
    {
        self.entries.value_at(i)
    }

    /// The place of the book of the album `key`.
    pub fn position(&self, key: &str) -> (found: Option<usize>)
        requires
            self.wf(),
        ensures
            found is Some == has_key(self@, key@),
            found is Some ==> found->Some_0 == index_of(self@, key@) && found->Some_0 < self@.len(),
    {
        self.entries.position(key)
    }

    /// Whether the album `key` has a book.
    pub fn contains(&self, key: &str) -> (known: bool)
        requires
            self.wf(),
        ensures
            known == has_key(self@, key@),
    {
        self.entries.contains_key(key)
    }

    /// The book of the album `key`.
    pub fn get(&self, key: &str) -> (book: Option<&Book>)
        requires
            self.wf(),
        ensures
            book is Some == has_key(self@, key@),
            book is Some ==> book->Some_0@ == self@[index_of(self@, key@)].1,
    {
        match self.entries.position(key) {
            Some(place) => Some(self.entries.value_at(place)),
            None => None,
        }
    }

    /// The keys of the albums that have a book, in order.
    pub fn keys(&self) -> (keys: Vec<String>)
        ensures
            keys@.len() == self@.len(),
            forall|i: int| 0 <= i < keys@.len() ==> (#[trigger] keys@[i])@ == self@[i].0,
    {
        self.entries.keys()
    }

    /// Takes up a book as it was kept, in the place of the one that stood
    /// under the same album, if any.
    pub fn restore(&mut self, book: Book)
        requires
            old(self).wf(),
        ensures
            final(self).wf(),
            final(self)@ == upsert(old(self)@, book@.album_key, book@),
    {
        proof {
            self.entries.lemma_wf();
            lemma_upsert(self@, book@.album_key, book@);
        }
        let key = book.album_key.clone();
        self.entries.insert(key, book);
    }

    /// Makes sure that the album `album_key` has a book, a fresh one where
    /// it had none, and says whether the book is new.
    pub fn get_book_or_insert(&mut self, album_key: String) -> (new_key: bool)
        requires
            old(self).wf(),
        ensures
            final(self).wf(),
            new_key == !has_key(old(self)@, album_key@),
            final(self)@ == with_book(old(self)@, album_key@),
            has_key(final(self)@, album_key@),
    {
        proof {
            self.entries.lemma_wf();
        }
        if self.entries.contains_key(album_key.as_str()) {
            false
        } else {
            let book = Book::new(album_key.clone());
            proof {
                lemma_upsert(self@, album_key@, book@);
            }
            self.entries.insert(album_key, book);
            proof {
                self.entries.lemma_wf();
                let last = self@.len() - 1;
                assert(self@[last].0 == album_key@);
            }
            true
        }
    }

    /// Puts the book of the album `key` in the reading state `state`, and
    /// says whether there is such a book.
    pub fn set_state(&mut self, key: &str, state: ReadingState) -> (found: bool)
        requires
            old(self).wf(),
        ensures
            final(self).wf(),
            found == has_key(old(self)@, key@),
            final(self)@ == with_state(old(self)@, key@, state),
    {
        match self.entries.position(key) {
            Some(place) => {
                let mut book = self.entries.value_at(place).clone();
                book.set_state(state);
                self.entries.replace_at(place, book);
                true
            },
            None => false,
        }
    }

    /// Pauses every book.
    pub fn pause_all(&mut self)
        requires
            old(self).wf(),
        ensures
            final(self).wf(),
            final(self)@ == all_paused(old(self)@),
    {
        let mut i: usize = 0;
        while i < self.entries.len()
            invariant
                self.wf(),
                i <= self@.len(),
                self@.len() == old(self)@.len(),
                forall|j: int|
                    0 <= j < i ==> (#[trigger] self@[j]) == (
                        old(self)@[j].0,
                        old(self)@[j].1.with_state(ReadingState::Paused),
                    ),
                forall|j: int| i <= j < self@.len() ==> (#[trigger] self@[j]) == old(self)@[j],
            decreases self@.len() - i,
        {
            let mut book = self.entries.value_at(i).clone();
            book.set_state(ReadingState::Paused);
            self.entries.replace_at(i, book);
            i += 1;
        }
        assert(self@ =~= all_paused(old(self)@));
    }

    /// Marks the book of the album `album_key` as downloaded, making the
    /// book where there was none, and says whether the book is new.
    pub fn download_book(&mut self, album_key: String) -> (new_key: Result<bool, Error>)
        requires
            old(self).wf(),
        ensures
            final(self).wf(),
            new_key == Ok::<bool, Error>(!has_key(old(self)@, album_key@)),
            final(self)@ == with_changed(
                with_book(old(self)@, album_key@),
                album_key@,
                |book: BookView| book.download(),
            ),
    {
        let ghost key = album_key@;
        let found = self.entries.position(album_key.as_str());
        let new_key = self.get_book_or_insert(album_key);
        let place = match found {
            Some(place) => place,
            None => self.entries.len() - 1,
        };
        proof {
            self.entries.lemma_wf();
            lemma_index_unique(self@, place as int);
        }
        let mut book = self.entries.value_at(place).clone();
        let _ = book.download();
        self.entries.replace_at(place, book);
        Ok(new_key)
    }

    /// Forgets the download of the book of the album `key`. Fails with
    /// `NoBookFound` where the album has no book, with `BookNotDownloaded`
    /// where the book has no download, and changes nothing then.
    pub fn remove_download(&mut self, key: &str) -> (done: Result<(), Error>)
        requires
            old(self).wf(),
        ensures
            final(self).wf(),
            !has_key(old(self)@, key@) ==> done == Err::<(), Error>(Error::NoBookFound) && final(self)@ == old(self)@,
            has_key(old(self)@, key@) && old(self)@[index_of(old(self)@, key@)].1.downloaded is None
                ==> done == Err::<(), Error>(Error::BookNotDownloaded) && final(self)@ == old(self)@,
            has_key(old(self)@, key@) && old(self)@[index_of(old(self)@, key@)].1.downloaded is Some
                ==> done == Ok::<(), Error>(()) && final(self)@ == with_changed(
                old(self)@,
                key@,
                |book: BookView| book.remove_download(),
            ),
    {
        let place = match self.entries.position(key) {
            Some(place) => place,
            None => {
                return Err(Error::NoBookFound);
            },
        };
        let mut book = self.entries.value_at(place).clone();
        match book.remove_download() {
            Ok(()) => {
                self.entries.replace_at(place, book);
                Ok(())
            },
            Err(error) => Err(error),
        }
    }
}

} // verus!
