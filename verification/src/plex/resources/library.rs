use vstd::prelude::*;
use crate::text::{clone_opt, join2, join3, opt_text};

verus! {

/// A library as a value: title, section key and media type.
pub struct LibraryView {
    pub title: Seq<char>,
    pub key: Seq<char>,
    pub media_type: Seq<char>,
}

/// One library of a server. The title is unique on its server; the key
/// names the library in requests.
#[derive(Debug)]
pub struct Library {
    pub title: String,
    pub key: String,
    pub media_type: String,
}

impl View for Library {
    type V = LibraryView;

    open spec fn view(&self) -> LibraryView {
        LibraryView { title: self.title@, key: self.key@, media_type: self.media_type@ }
    }
}

impl Clone for Library {
    fn clone(&self) -> (copy: Self)
        ensures
            copy == *self,
    {
        Library {
            title: self.title.clone(),
            key: self.key.clone(),
            media_type: self.media_type.clone(),
        }
    }
}

impl Library {
    pub fn new(title: String, key: String, media_type: String) -> (library: Self)
        ensures
            library.title == title,
            library.key == key,
            library.media_type == media_type,
    {
        Library { title, key, media_type }
    }

    pub fn key_ref(&self) -> (key: &str)
        ensures
            key@ == self@.key,
    {
        self.key.as_str()
    }

    /// The library under the key by which it is cached: its title.
    pub fn into_key_val(self) -> (pair: (String, Self))
        ensures
            pair.0@ == self@.title,
            pair.1 == self,
    {
        (self.title.clone(), self)
    }

    pub fn title_ref(&self) -> (title: &str)
        ensures
            title@ == self@.title,
    {
        self.title.as_str()
    }

    pub fn media_type_ref(&self) -> (media_type: &str)
        ensures
            media_type@ == self@.media_type,
    {
        self.media_type.as_str()
    }
}

/// An album record as a value.
pub struct AlbumDataView {
    pub title: Seq<char>,
    pub rating_key: Seq<char>,
    pub summary: Seq<char>,
    pub studio: Option<Seq<char>>,
    pub thumb: Option<Seq<char>>,
    pub parent_title: Option<Seq<char>>,
    pub parent_rating_key: Option<Seq<char>>,
    pub year: Option<u64>,
    pub index: u64,
}

/// An album as the server lists it. The rating key identifies it; the rest
/// describes it and may change from one listing to the next.
#[derive(Debug)]
pub struct AlbumData {
    pub title: String,
    pub rating_key: String,
    pub summary: String,
    pub studio: Option<String>,
    pub thumb: Option<String>,
    pub parent_title: Option<String>,
    pub parent_rating_key: Option<String>,
    pub year: Option<u64>,
    pub index: u64,
}

impl View for AlbumData {
    type V = AlbumDataView;

    open spec fn view(&self) -> AlbumDataView {
        AlbumDataView {
            title: self.title@,
            rating_key: self.rating_key@,
            summary: self.summary@,
            studio: opt_text(self.studio),
            thumb: opt_text(self.thumb),
            parent_title: opt_text(self.parent_title),
            parent_rating_key: opt_text(self.parent_rating_key),
            year: self.year,
            index: self.index,
        }
    }
}

impl Clone for AlbumData {
    fn clone(&self) -> (copy: Self)
        ensures
            copy == *self,
    {
        AlbumData {
            title: self.title.clone(),
            rating_key: self.rating_key.clone(),
            summary: self.summary.clone(),
            studio: clone_opt(&self.studio),
            thumb: clone_opt(&self.thumb),
            parent_title: clone_opt(&self.parent_title),
            parent_rating_key: clone_opt(&self.parent_rating_key),
            year: self.year,
            index: self.index,
        }
    }
}

impl AlbumData {
    /// The record under the key by which it is cached: its rating key.
    pub fn into_key_val(self) -> (pair: (String, Self))
        ensures
            pair.0@ == self@.rating_key,
            pair.1 == self,
    {
        (self.rating_key.clone(), self)
    }
}

/// An album together with what it takes to fetch its cover.
pub struct AlbumView {
    pub data: AlbumDataView,
    pub uri: Seq<char>,
    pub token: Seq<char>,
}

/// The query that carries the user token behind a cover's address.
pub open spec fn token_query(token: Seq<char>) -> Seq<char> {
    "?X-Plex-Token="@ + token
}

/// The address of a cover: the server's base address, the cover's path on
/// it, and the token as a query.
pub open spec fn thumb_url(uri: Seq<char>, thumb: Seq<char>, token: Seq<char>) -> Seq<char> {
    uri + thumb + token_query(token)
}

impl AlbumView {
    /// The address of the album's cover, empty where it has none.
    pub open spec fn thumb(self) -> Seq<char> {
        match self.data.thumb {
            Some(path) => thumb_url(self.uri, path, self.token),
            None => Seq::empty(),
        }
    }

    /// The author, empty where none is recorded.
    pub open spec fn parent(self) -> Seq<char> {
        match self.data.parent_title {
            Some(author) => author,
            None => Seq::empty(),
        }
    }
}

/// An album of the selected library, with the address of the server it came
/// from and the token that opens it.
#[derive(Debug)]
pub struct Album {
    pub data: AlbumData,
    pub uri: String,
    pub token: String,
}

impl View for Album {
    type V = AlbumView;

    open spec fn view(&self) -> AlbumView {
        AlbumView { data: self.data@, uri: self.uri@, token: self.token@ }
    }
}

impl Clone for Album {
    fn clone(&self) -> (copy: Self)
        ensures
            copy == *self,
    {
        Album { data: self.data.clone(), uri: self.uri.clone(), token: self.token.clone() }
    }
}

impl Album {
    pub fn new(data: AlbumData, uri: String, token: String) -> (album: Self)
        ensures
            album.data == data,
            album.uri == uri,
            album.token == token,
    {
        Album { data, uri, token }
    }

    pub fn key_ref(&self) -> (key: &str)
        ensures
            key@ == self@.data.rating_key,
    {
        self.data.rating_key.as_str()
    }

    /// The author, or the empty string where none is recorded.
    pub fn parent_ref(&self) -> (author: &str)
        ensures
            author@ == self@.parent(),
    {
        match &self.data.parent_title {
            Some(author) => author.as_str(),
            None => {
                proof {
                    reveal_strlit("");
                }
                assert(""@ =~= Seq::<char>::empty());
                ""
            },
        }
    }

    pub fn summary_ref(&self) -> (summary: &str)
        ensures
            summary@ == self@.data.summary,
    {
        self.data.summary.as_str()
    }

    pub fn title_ref(&self) -> (title: &str)
        ensures
            title@ == self@.data.title,
    {
        self.data.title.as_str()
    }

    /// The raw path of the cover on its server, if the album has one.
    pub fn thumb_ref(&self) -> (path: Option<&str>)
        ensures
            path is Some == self@.data.thumb is Some,
            path matches Some(text) ==> self@.data.thumb == Some(text@),
    {
        match &self.data.thumb {
            Some(path) => Some(path.as_str()),
            None => None,
        }
    }

    /// The address of the cover with the token attached, or the empty string
    /// where the album has no cover.
    pub fn thumb(&self) -> (address: String)
        ensures
            address@ == self@.thumb(),
    {
        match &self.data.thumb {
            Some(path) => {
                let query = join2("?X-Plex-Token=", self.token.as_str());
                let address = join3(self.uri.as_str(), path.as_str(), query.as_str());
                address
            },
            None => String::new(),
        }
    }

    pub fn key_clone(&self) -> (key: String)
        ensures
            key@ == self@.data.rating_key,
    {
        self.data.rating_key.clone()
    }
}

} // verus!
