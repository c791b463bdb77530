//! The session with the media server: who is signed in, which server and
//! library are selected, and what was last listed of each level.

use vstd::prelude::*;
use reqwest::header::{HeaderMap, HeaderValue};
use crate::cache::{
    distinct_keys, has_key, index_of, keyed, keys_of, lemma_keyed_all, lemma_keyed_distinct, lookup,
    Cache,
};
use crate::plex::client::PlexClient;
use crate::error::Error;
use crate::plex::headers::{
    header_entries, identification_headers, identity_sendable, request_headers, sendable, Product,
    ProductView,
};
use crate::plex::ident::{default_session, is_uuid_text, lemma_uuid_sendable};
use crate::plex::pin::PlexPin;
use crate::plex::resources::connections::{PlexConnections, PlexResource, ResourceView};
use crate::plex::resources::library::{
    thumb_url, Album, AlbumData, AlbumView, Library, LibraryView,
};
use crate::text::{clone_opt, join2, join3, opt_text};

verus! {

/// The server in use and the address at which it answered.
pub struct ConnectionView {
    pub name: Seq<char>,
    pub uri: Seq<char>,
}

/// The server in use and the address at which it answered.
#[derive(Debug)]
pub struct SelectedConnection {
    pub name: String,
    pub uri: String,
}

impl View for SelectedConnection {
    type V = ConnectionView;

    open spec fn view(&self) -> ConnectionView {
        ConnectionView { name: self.name@, uri: self.uri@ }
    }
}

impl Clone for SelectedConnection {
    fn clone(&self) -> (copy: Self)
        ensures
            copy == *self,
    {
        SelectedConnection { name: self.name.clone(), uri: self.uri.clone() }
    }
}

impl SelectedConnection {
    pub fn new(name: String, uri: String) -> (connection: Self)
        ensures
            connection.name == name,
            connection.uri == uri,
    {
        SelectedConnection { name, uri }
    }
}

/// The connection of an optional selection, as a value.
pub open spec fn opt_connection(selected: Option<SelectedConnection>) -> Option<ConnectionView> {
    match selected {
        Some(connection) => Some(connection@),
        None => None,
    }
}

/// The library of an optional selection, as a value.
pub open spec fn opt_library(selected: Option<Library>) -> Option<LibraryView> {
    match selected {
        Some(library) => Some(library@),
        None => None,
    }
}

/// The part of a session that is kept between runs, as a value.
pub struct PlexDataView {
    pub client_ident: Seq<char>,
    pub user_token: Option<Seq<char>>,
    pub selected_connection: Option<ConnectionView>,
    pub selected_library: Option<LibraryView>,
    pub session_token: Seq<char>,
}

impl PlexDataView {
    /// The selections hang on each other: a library only under a server, a
    /// server only under a signed-in user.
    pub open spec fn valid(self) -> bool {
        &&& self.selected_library is Some ==> self.selected_connection is Some
        &&& self.selected_connection is Some ==> self.user_token is Some
    }

    /// Nobody signed in and nothing selected, under the session `session`.
    pub open spec fn signed_out(self, session: Seq<char>) -> PlexDataView {
        PlexDataView {
            client_ident: self.client_ident,
            user_token: None,
            selected_connection: None,
            selected_library: None,
            session_token: session,
        }
    }

}

/// The part of a session that is kept between runs: the identifier of this
/// installation, the user's token, and the selected server and library. The
/// session identifier is made anew for every run.
pub struct PlexData {
    client_ident: String,
    user_token: Option<String>,
    selected_connection: Option<SelectedConnection>,
    selected_library: Option<Library>,
    session_token: String,
}

impl View for PlexData {
    type V = PlexDataView;

    closed spec fn view(&self) -> PlexDataView {
        PlexDataView {
            client_ident: self.client_ident@,
            user_token: opt_text(self.user_token),
            selected_connection: opt_connection(self.selected_connection),
            selected_library: opt_library(self.selected_library),
            session_token: self.session_token@,
        }
    }
}

impl Default for PlexData {
    /// A new installation: fresh identifiers, nobody signed in.
    fn default() -> (data: Self)
        ensures
            data.wf(),
            is_uuid_text(data@.client_ident),
            is_uuid_text(data@.session_token),
            data@ == data@.signed_out(data@.session_token),
    {
        PlexData {
            client_ident: default_session(),
            user_token: None,
            selected_connection: None,
            selected_library: None,
            session_token: default_session(),
        }
    }
}

impl PlexData {
    pub closed spec fn wf(&self) -> bool {
        self@.valid()
    }

    pub proof fn lemma_wf(&self)
        requires
            self.wf(),
        ensures
            self@.valid(),
    {
    }

    /// Takes up what was kept of an earlier run, under a fresh session
    /// identifier. A selection that hangs in the air is dropped: a server
    /// without a token, a library without a server.
    pub fn new(
        client_ident: String,
        user_token: Option<String>,
        selected_connection: Option<SelectedConnection>,
        selected_library: Option<Library>,
    ) -> (data: Self)
        ensures
            data.wf(),
            is_uuid_text(data@.session_token),
            data@.client_ident == client_ident@,
            data@.user_token == opt_text(user_token),
            data@.selected_connection == if user_token is Some {
                opt_connection(selected_connection)
            } else {
                None
            },
            data@.selected_library == if user_token is Some && selected_connection is Some {
                opt_library(selected_library)
            } else {
                None
            },
    {
        let signed_in = user_token.is_some();
        let selected_connection = if signed_in {
            selected_connection
        } else {
            None
        };
        let selected_library = if selected_connection.is_some() {
            selected_library
        } else {
            None
        };
        PlexData {
            client_ident,
            user_token,
            selected_connection,
            selected_library,
            session_token: default_session(),
        }
    }

    pub fn client_ident(&self) -> (ident: &str)
        ensures
            ident@ == self@.client_ident,
    {
        self.client_ident.as_str()
    }

    pub fn session_token(&self) -> (session: &str)
        ensures
            session@ == self@.session_token,
    {
        self.session_token.as_str()
    }

    pub fn user_token(&self) -> (token: Option<&str>)
        ensures
            token is Some == self@.user_token is Some,
            token matches Some(text) ==> self@.user_token == Some(text@),
    {
        match &self.user_token {
            Some(token) => Some(token.as_str()),
            None => None,
        }
    }

    pub fn selected_connection(&self) -> (selected: Option<&SelectedConnection>)
        ensures
            selected is Some == self@.selected_connection is Some,
            selected matches Some(connection) ==> self@.selected_connection == Some(connection@),
    {
        self.selected_connection.as_ref()
    }

    pub fn selected_library(&self) -> (selected: Option<&Library>)
        ensures
            selected is Some == self@.selected_library is Some,
            selected matches Some(library) ==> self@.selected_library == Some(library@),
    {
        self.selected_library.as_ref()
    }

    /// The headers with which a client for this session is made: they go
    /// with every request. Fails with `InvalidHeader`, and only then, when
    /// an identifier, the token or a product string cannot be sent as a
    /// header value.
    pub fn create_client(&self, product: &Product) -> (headers: Result<
        HeaderMap<HeaderValue>,
        Error,
    >)
        ensures
            headers is Ok == self@.sendable(product@),
            headers matches Ok(map) ==> header_entries(map) == self@.headers(product@),
            headers matches Err(error) ==> error == Error::InvalidHeader,
    {
        identification_headers(
            self.client_ident.as_str(),
            self.session_token.as_str(),
            self.user_token(),
            product,
        )
    }

    /// Forgets the user and every selection, and starts a new session.
    pub fn signout(&mut self)
        ensures
            final(self).wf(),
            is_uuid_text(final(self)@.session_token),
            final(self)@ == old(self)@.signed_out(final(self)@.session_token),
    {
        self.user_token = None;
        self.selected_connection = None;
        self.selected_library = None;
        self.session_token = default_session();
    }
}

impl PlexDataView {
    /// Whether the headers of this session can be built.
    pub open spec fn sendable(self, product: ProductView) -> bool {
        identity_sendable(self.client_ident, self.session_token, self.user_token, product)
    }

    /// The headers that go with every request of this session.
    pub open spec fn headers(self, product: ProductView) -> Map<Seq<char>, Seq<u8>> {
        request_headers(self.client_ident, self.session_token, self.user_token, product)
    }
}

/// Every server stands under its own name.
pub open spec fn resources_by_name(cache: Seq<(Seq<char>, ResourceView)>) -> bool {
    forall|i: int| 0 <= i < cache.len() ==> (#[trigger] cache[i]).0 == cache[i].1.name
}

/// Every library stands under its own title.
pub open spec fn libraries_by_title(cache: Seq<(Seq<char>, LibraryView)>) -> bool {
    forall|i: int| 0 <= i < cache.len() ==> (#[trigger] cache[i]).0 == cache[i].1.title
}

/// Every album stands under its own rating key.
pub open spec fn albums_by_key(cache: Seq<(Seq<char>, AlbumView)>) -> bool {
    forall|i: int| 0 <= i < cache.len() ==> (#[trigger] cache[i]).0 == cache[i].1.data.rating_key
}

/// A session as a value: what is kept between runs, the product it speaks
/// for, and the three caches, each in the order of its listing.
pub struct PlexView {
    pub data: PlexDataView,
    pub product: ProductView,
    pub resources: Seq<(Seq<char>, ResourceView)>,
    pub libraries: Seq<(Seq<char>, LibraryView)>,
    pub albums: Seq<(Seq<char>, AlbumView)>,
}

impl PlexView {
    /// The caches are keyed as they should be, and each level is empty
    /// unless the level above it is selected.
    pub open spec fn valid(self) -> bool {
        &&& self.data.valid()
        &&& distinct_keys(self.resources)
        &&& distinct_keys(self.libraries)
        &&& distinct_keys(self.albums)
        &&& resources_by_name(self.resources)
        &&& libraries_by_title(self.libraries)
        &&& albums_by_key(self.albums)
        &&& self.libraries.len() > 0 ==> self.data.selected_connection is Some
        &&& self.albums.len() > 0 ==> self.data.selected_library is Some
    }

    pub open spec fn has_user(self) -> bool {
        self.data.user_token is Some
    }

    /// A session with nothing cached.
    pub open spec fn fresh(data: PlexDataView, product: ProductView) -> PlexView {
        PlexView {
            data,
            product,
            resources: Seq::empty(),
            libraries: Seq::empty(),
            albums: Seq::empty(),
        }
    }

    /// The session after signing out, under the session identifier
    /// `session`: nobody signed in, nothing selected, nothing cached.
    pub open spec fn signed_out(self, session: Seq<char>) -> PlexView {
        PlexView {
            data: self.data.signed_out(session),
            product: self.product,
            resources: Seq::empty(),
            libraries: Seq::empty(),
            albums: Seq::empty(),
        }
    }

    /// The session without a selected server, and so without a selected
    /// library and without cached libraries and albums.
    pub open spec fn without_server(self) -> PlexView {
        PlexView {
            data: PlexDataView {
                selected_connection: None,
                selected_library: None,
                ..self.data
            },
            libraries: Seq::empty(),
            albums: Seq::empty(),
            ..self
        }
    }

    /// The session without a selected library, and so without cached
    /// albums.
    pub open spec fn without_library(self) -> PlexView {
        PlexView {
            data: PlexDataView { selected_library: None, ..self.data },
            albums: Seq::empty(),
            ..self
        }
    }

    /// The address of a cover for this session, or why there is none.
    pub open spec fn authenticated_thumb(self, thumb: Seq<char>) -> Result<Seq<char>, Error> {
        match self.data.selected_connection {
            None => Err(Error::NoServerSelected),
            Some(connection) => match self.data.user_token {
                None => Err(Error::NotAuthenticated),
                Some(token) => Ok(thumb_url(connection.uri, thumb, token)),
            },
        }
    }
}

/// The characters of each string of a list.
pub open spec fn texts(names: Seq<String>) -> Seq<Seq<char>> {
    Seq::new(names.len(), |i: int| names[i]@)
}

/// The session with the media server.
pub struct Plex {
    data: PlexData,
    product: Product,
    resources: Cache<PlexResource>,
    libraries: Cache<Library>,
    albums: Cache<Album>,
}

impl View for Plex {
    type V = PlexView;

    closed spec fn view(&self) -> PlexView {
        PlexView {
            data: self.data@,
            product: self.product@,
            resources: self.resources@,
            libraries: self.libraries@,
            albums: self.albums@,
        }
    }
}

impl Plex {
    pub closed spec fn wf(&self) -> bool {
        &&& self.data.wf()
        &&& self.resources.wf()
        &&& self.libraries.wf()
        &&& self.albums.wf()
        &&& self@.valid()
    }

    pub proof fn lemma_wf(&self)
        requires
            self.wf(),
        ensures
            self@.valid(),
    {
    }

    /// A session on what was kept of an earlier run, with nothing cached
    /// yet.
    pub fn new(data: PlexData, product: Product) -> (plex: Self)
        requires
            data.wf(),
        ensures
            plex.wf(),
            plex@ == PlexView::fresh(data@, product@),
    {
        Plex {
            data,
            product,
            resources: Cache::new(),
            libraries: Cache::new(),
            albums: Cache::new(),
        }
    }

    /// What is kept of the session between runs.
    pub fn data(&self) -> (data: &PlexData)
        ensures
            data@ == self@.data,
            self.wf() ==> data.wf(),
    {
        &self.data
    }

    pub fn has_user(&self) -> (signed_in: bool)
        ensures
            signed_in == self@.has_user(),
    {
        self.data.user_token.is_some()
    }

    /// Forgets the user, the selections and everything cached, and starts a
    /// new session.
    pub fn signout(&mut self)
        ensures
            final(self).wf(),
            is_uuid_text(final(self)@.data.session_token),
            final(self)@ == old(self)@.signed_out(final(self)@.data.session_token),
    {
        self.data.signout();
        self.resources.clear();
        self.libraries.clear();
        self.albums.clear();
    }

    /// The names of the servers that were listed last.
    pub fn get_servers(&self) -> (names: Result<Vec<String>, Error>)
        ensures
            self@.resources.len() == 0 ==> names == Err::<Vec<String>, Error>(
                Error::NoResourcesFound,
            ),
            self@.resources.len() > 0 ==> names is Ok && texts(names->Ok_0@) == keys_of(
                self@.resources,
            ),
    {
        if self.resources.is_empty() {
            return Err(Error::NoResourcesFound);
        }
        let names = self.resources.keys();
        assert(texts(names@) =~= keys_of(self@.resources));
        Ok(names)
    }

    /// The name of the server in use.
    pub fn get_selected_server(&self) -> (name: Option<&str>)
        ensures
            name is Some == self@.data.selected_connection is Some,
            name matches Some(text) ==> text@ == self@.data.selected_connection->Some_0.name,
    {
        match &self.data.selected_connection {
            Some(connection) => Some(connection.name.as_str()),
            None => None,
        }
    }

    /// Lets go of the server in use, and with it of the selected library
    /// and of the cached libraries and albums.
    pub fn reset_server_selection(&mut self)
        requires
            old(self).wf(),
        ensures
            final(self).wf(),
            final(self)@ == old(self)@.without_server(),
            final(self)@.data.selected_connection is None,
            final(self)@.data.selected_library is None,
            final(self)@.libraries.len() == 0,
            final(self)@.albums.len() == 0,
    {
        self.albums.clear();
        self.libraries.clear();
        self.data.selected_library = None;
        self.data.selected_connection = None;
    }

    /// The titles of the libraries that were listed last.
    pub fn get_libraries(&self) -> (titles: Result<Vec<String>, Error>)
        ensures
            self@.libraries.len() == 0 ==> titles == Err::<Vec<String>, Error>(
                Error::NoLibrariesFound,
            ),
            self@.libraries.len() > 0 ==> titles is Ok && texts(titles->Ok_0@) == keys_of(
                self@.libraries,
            ),
    {
        if self.libraries.is_empty() {
            return Err(Error::NoLibrariesFound);
        }
        let titles = self.libraries.keys();
        assert(texts(titles@) =~= keys_of(self@.libraries));
        Ok(titles)
    }

    /// The title of the library in use.
    pub fn get_selected_library(&self) -> (title: Option<&str>)
        ensures
            title is Some == self@.data.selected_library is Some,
            title matches Some(text) ==> text@ == self@.data.selected_library->Some_0.title,
    {
        match &self.data.selected_library {
            Some(library) => Some(library.title_ref()),
            None => None,
        }
    }

    /// Lets go of the library in use, and with it of the cached albums.
    pub fn reset_library_selection(&mut self)
        requires
            old(self).wf(),
        ensures
            final(self).wf(),
            final(self)@ == old(self)@.without_library(),
            final(self)@.data.selected_library is None,
            final(self)@.albums.len() == 0,
    {
        self.albums.clear();
        self.data.selected_library = None;
    }

    /// The number of albums that were listed last.
    pub fn album_count(&self) -> (count: usize)
        ensures
            count == self@.albums.len(),
    {
        self.albums.len()
    }

    /// The album at place `i` of the last listing.
    pub fn album_at(&self, i: usize) -> (album: &Album)
        requires
            i < self@.albums.len(),
        ensures
            album@ == self@.albums[i as int].1,
    {
        self.albums.value_at(i)
    }

    /// The albums that were listed last, in the order of the listing.
    pub fn get_albums(&self) -> (albums: Result<Vec<&Album>, Error>)
        ensures
            self@.albums.len() == 0 ==> albums == Err::<Vec<&Album>, Error>(Error::NoAlbumsFound),
            self@.albums.len() > 0 ==> albums is Ok && albums->Ok_0@.len() == self@.albums.len()
                && forall|i: int|
                0 <= i < self@.albums.len() ==> (#[trigger] albums->Ok_0@[i])@
                    == self@.albums[i].1,
    {
        if self.albums.is_empty() {
            return Err(Error::NoAlbumsFound);
        }
        let mut albums: Vec<&Album> = Vec::new();
        let mut i: usize = 0;
        while i < self.albums.len()
            invariant
                i <= self@.albums.len(),
                albums@.len() == i,
                forall|j: int| 0 <= j < i ==> (#[trigger] albums@[j])@ == self@.albums[j].1,
            decreases self@.albums.len() - i,
        {
            albums.push(self.albums.value_at(i));
            i += 1;
        }
        Ok(albums)
    }

    /// The album with the rating key `key`.
    pub fn get_album(&self, key: &str) -> (album: Result<&Album, Error>)
        requires
            self.wf(),
        ensures
            self@.albums.len() == 0 ==> album == Err::<&Album, Error>(Error::NoAlbumsFound),
            self@.albums.len() > 0 && !has_key(self@.albums, key@) ==> album == Err::<
                &Album,
                Error,
            >(Error::NoAlbumFound),
            has_key(self@.albums, key@) ==> album is Ok && Some(album->Ok_0@) == lookup(
                self@.albums,
                key@,
            ) && album->Ok_0@.data.rating_key == key@,
    {
        if self.albums.is_empty() {
            assert(!has_key(self@.albums, key@));
            return Err(Error::NoAlbumsFound);
        }
        match self.albums.get(key) {
            Some(album) => Ok(album),
            None => Err(Error::NoAlbumFound),
        }
    }

    /// The address of the cover at `thumb` on the server in use, with the
    /// user's token attached.
    pub fn authenticated_thumb(&self, thumb: &str) -> (address: Result<String, Error>)
        ensures
            address is Ok == self@.authenticated_thumb(thumb@) is Ok,
            address matches Ok(text) ==> self@.authenticated_thumb(thumb@) == Ok::<
                Seq<char>,
                Error,
            >(text@),
            address matches Err(error) ==> self@.authenticated_thumb(thumb@) == Err::<
                Seq<char>,
                Error,
            >(error),
    {
        match &self.data.selected_connection {
            None => Err(Error::NoServerSelected),
            Some(connection) => match &self.data.user_token {
                None => Err(Error::NotAuthenticated),
                Some(token) => {
                    let query = join2("?X-Plex-Token=", token.as_str());
                    Ok(join3(connection.uri.as_str(), thumb, query.as_str()))
                },
            },
        }
    }
}

/// What an answer means for the caller: done, or the error it carried.
pub open spec fn outcome<T>(answer: Result<T, Error>) -> Result<(), Error> {
    match answer {
        Ok(_) => Ok(()),
        Err(error) => Err(error),
    }
}

/// Each listed server under its name.
pub open spec fn resource_pairs(listing: Seq<PlexResource>) -> Seq<(Seq<char>, ResourceView)> {
    Seq::new(listing.len(), |i: int| (listing[i]@.name, listing[i]@))
}

/// Each listed library under its title.
pub open spec fn library_pairs(listing: Seq<Library>) -> Seq<(Seq<char>, LibraryView)> {
    Seq::new(listing.len(), |i: int| (listing[i]@.title, listing[i]@))
}

/// Each listed album under its rating key, with the address of its server
/// and the token that opens it.
pub open spec fn album_pairs(listing: Seq<AlbumData>, uri: Seq<char>, token: Seq<char>) -> Seq<
    (Seq<char>, AlbumView),
> {
    Seq::new(
        listing.len(),
        |i: int| (listing[i]@.rating_key, AlbumView { data: listing[i]@, uri, token }),
    )
}

/// The cache that a listing of servers fills: every server under its name,
/// a later one in the place of an earlier one of the same name.
pub open spec fn keyed_resources(answer: Result<Vec<PlexResource>, Error>) -> Result<
    Seq<(Seq<char>, ResourceView)>,
    Error,
> {
    match answer {
        Ok(listing) => Ok(keyed(resource_pairs(listing@))),
        Err(error) => Err(error),
    }
}

/// The cache that a listing of libraries fills, keyed by title.
pub open spec fn keyed_libraries(answer: Result<Vec<Library>, Error>) -> Result<
    Seq<(Seq<char>, LibraryView)>,
    Error,
> {
    match answer {
        Ok(listing) => Ok(keyed(library_pairs(listing@))),
        Err(error) => Err(error),
    }
}

/// The cache that a listing of albums fills, keyed by rating key.
pub open spec fn keyed_albums(
    answer: Result<Vec<AlbumData>, Error>,
    uri: Seq<char>,
    token: Seq<char>,
) -> Result<Seq<(Seq<char>, AlbumView)>, Error> {
    match answer {
        Ok(listing) => Ok(keyed(album_pairs(listing@, uri, token))),
        Err(error) => Err(error),
    }
}

/// What a cache holds, or the error in its place.
pub open spec fn cache_view<T: View>(got: Result<Cache<T>, Error>) -> Result<
    Seq<(Seq<char>, T::V)>,
    Error,
> {
    match got {
        Ok(cache) => Ok(cache@),
        Err(error) => Err(error),
    }
}

/// A cache, or an empty one where there is an error in its place.
pub open spec fn or_empty<V>(got: Result<Seq<(Seq<char>, V)>, Error>) -> Seq<(Seq<char>, V)> {
    match got {
        Ok(cache) => cache,
        Err(_) => Seq::empty(),
    }
}

/// The address at the place that a probe named, where the server has such
/// a place.
pub open spec fn connection_at(resource: ResourceView, found: Option<usize>) -> Option<Seq<char>> {
    match found {
        Some(place) => if place < resource.connections.len() {
            Some(resource.connections[place as int])
        } else {
            None
        },
        None => None,
    }
}

fn key_resources(listing: Vec<PlexResource>) -> (cache: Cache<PlexResource>)
    ensures
        cache.wf(),
        cache@ == keyed(resource_pairs(listing@)),
        resources_by_name(cache@),
{
    proof {
        lemma_keyed_all(resource_pairs(listing@), |pair: (Seq<char>, ResourceView)| pair.0 == pair.1.name);
    }
    let ghost all = listing@;
    let mut cache: Cache<PlexResource> = Cache::new();
    for item in it: listing.into_iter()
        invariant
            it.seq() == all,
            cache.wf(),
            cache@ == keyed(resource_pairs(all.take(it.index() as int))),
    {
        let ghost done = it.index() as int;
        assert(item == all[done]);
        let (key, value) = item.into_key_val();
        cache.insert(key, value);
        proof {
            let pairs = resource_pairs(all.take(done + 1));
            assert(pairs.drop_last() =~= resource_pairs(all.take(done)));
            assert(pairs.last() == (key@, value@));
        }
    }
    assert(all.take(all.len() as int) =~= all);
    cache
}

fn key_libraries(listing: Vec<Library>) -> (cache: Cache<Library>)
    ensures
        cache.wf(),
        cache@ == keyed(library_pairs(listing@)),
        libraries_by_title(cache@),
{
    proof {
        lemma_keyed_all(library_pairs(listing@), |pair: (Seq<char>, LibraryView)| pair.0 == pair.1.title);
    }
    let ghost all = listing@;
    let mut cache: Cache<Library> = Cache::new();
    for item in it: listing.into_iter()
        invariant
            it.seq() == all,
            cache.wf(),
            cache@ == keyed(library_pairs(all.take(it.index() as int))),
    {
        let ghost done = it.index() as int;
        assert(item == all[done]);
        let (key, value) = item.into_key_val();
        cache.insert(key, value);
        proof {
            let pairs = library_pairs(all.take(done + 1));
            assert(pairs.drop_last() =~= library_pairs(all.take(done)));
            assert(pairs.last() == (key@, value@));
        }
    }
    assert(all.take(all.len() as int) =~= all);
    cache
}

fn key_albums(listing: Vec<AlbumData>, uri: &str, token: &str) -> (cache: Cache<Album>)
    ensures
        cache.wf(),
        cache@ == keyed(album_pairs(listing@, uri@, token@)),
        albums_by_key(cache@),
{
    proof {
        lemma_keyed_all(
            album_pairs(listing@, uri@, token@),
            |pair: (Seq<char>, AlbumView)| pair.0 == pair.1.data.rating_key,
        );
    }
    let ghost all = listing@;
    let mut cache: Cache<Album> = Cache::new();
    for item in it: listing.into_iter()
        invariant
            it.seq() == all,
            cache.wf(),
            cache@ == keyed(album_pairs(all.take(it.index() as int), uri@, token@)),
    {
        let ghost done = it.index() as int;
        assert(item == all[done]);
        let (key, data) = item.into_key_val();
        let value = Album::new(data, uri.to_owned(), token.to_owned());
        cache.insert(key, value);
        proof {
            let pairs = album_pairs(all.take(done + 1), uri@, token@);
            assert(pairs.drop_last() =~= album_pairs(all.take(done), uri@, token@));
            assert(pairs.last() == (key@, value@));
        }
    }
    assert(all.take(all.len() as int) =~= all);
    cache
}

impl PlexDataView {
    /// What asking for the servers can come to: `InvalidHeader` where the
    /// request cannot be built, else the cache that the client's answer to
    /// this session's headers fills, or the error that it carried.
    pub open spec fn gets_resources<C: PlexClient>(
        self,
        client: &C,
        product: ProductView,
        got: Result<Seq<(Seq<char>, ResourceView)>, Error>,
    ) -> bool {
        if !self.sendable(product) {
            got == Err::<Seq<(Seq<char>, ResourceView)>, Error>(Error::InvalidHeader)
        } else {
            exists|answer: Result<Vec<PlexResource>, Error>| #[trigger]
                client.may_list_resources(self.headers(product), answer) && got == keyed_resources(
                    answer,
                )
        }
    }

    /// What asking for the libraries can come to: `NoServerSelected`,
    /// `InvalidHeader`, or what the client answered for the address of the
    /// server in use.
    pub open spec fn gets_libraries<C: PlexClient>(
        self,
        client: &C,
        product: ProductView,
        got: Result<Seq<(Seq<char>, LibraryView)>, Error>,
    ) -> bool {
        match self.selected_connection {
            None => got == Err::<Seq<(Seq<char>, LibraryView)>, Error>(Error::NoServerSelected),
            Some(server) => if !self.sendable(product) {
                got == Err::<Seq<(Seq<char>, LibraryView)>, Error>(Error::InvalidHeader)
            } else {
                exists|answer: Result<Vec<Library>, Error>| #[trigger]
                    client.may_list_libraries(self.headers(product), server.uri, answer) && got
                        == keyed_libraries(answer)
            },
        }
    }

    /// What asking for the albums can come to: `NoServerSelected`,
    /// `NoLibrarySelected`, `InvalidHeader`, or what the client answered for
    /// the address of the server and the key of the library in use.
    pub open spec fn gets_albums<C: PlexClient>(
        self,
        client: &C,
        product: ProductView,
        got: Result<Seq<(Seq<char>, AlbumView)>, Error>,
    ) -> bool {
        match self.selected_connection {
            None => got == Err::<Seq<(Seq<char>, AlbumView)>, Error>(Error::NoServerSelected),
            Some(server) => match self.selected_library {
                None => got == Err::<Seq<(Seq<char>, AlbumView)>, Error>(
                    Error::NoLibrarySelected,
                ),
                Some(library) => if !self.sendable(product) {
                    got == Err::<Seq<(Seq<char>, AlbumView)>, Error>(Error::InvalidHeader)
                } else {
                    exists|answer: Result<Vec<AlbumData>, Error>| #[trigger]
                        client.may_list_albums(
                            self.headers(product),
                            server.uri,
                            library.key,
                            answer,
                        ) && got == keyed_albums(
                            answer,
                            server.uri,
                            self.user_token->Some_0,
                        )
                },
            },
        }
    }
}

impl PlexData {
    /// Asks for the servers of the user and keys them by name.
    pub fn get_resources<C: PlexClient>(&self, client: &C, product: &Product) -> (got: Result<
        Cache<PlexResource>,
        Error,
    >)
        ensures
            got matches Ok(cache) ==> cache.wf() && resources_by_name(cache@),
            self@.gets_resources(client, product@, cache_view(got)),
    {
        let headers = self.create_client(product)?;
        let listing = client.resources(&headers)?;
        Ok(key_resources(listing))
    }

    /// Asks the server in use for its libraries and keys them by title.
    pub fn get_libraries<C: PlexClient>(&self, client: &C, product: &Product) -> (got: Result<
        Cache<Library>,
        Error,
    >)
        ensures
            got matches Ok(cache) ==> cache.wf() && libraries_by_title(cache@),
            self@.gets_libraries(client, product@, cache_view(got)),
    {
        let server = match &self.selected_connection {
            Some(server) => server,
            None => {
                return Err(Error::NoServerSelected);
            },
        };
        let headers = self.create_client(product)?;
        let answer = client.libraries(&headers, server.uri.as_str());
        let ghost asked = answer;
        let got = match answer {
            Ok(listing) => Ok(key_libraries(listing)),
            Err(error) => Err(error),
        };
        assert(self@.selected_connection->Some_0 == server@);
        assert(client.may_list_libraries(self@.headers(product@), server@.uri, asked) && cache_view(
            got,
        ) == keyed_libraries(asked));
        got
    }

    /// Asks the server in use for the albums of the library in use and keys
    /// them by rating key.
    pub fn get_albums<C: PlexClient>(&self, client: &C, product: &Product) -> (got: Result<
        Cache<Album>,
        Error,
    >)
        requires
            self.wf(),
        ensures
            got matches Ok(cache) ==> cache.wf() && albums_by_key(cache@),
            self@.gets_albums(client, product@, cache_view(got)),
    {
        let server = match &self.selected_connection {
            Some(server) => server,
            None => {
                return Err(Error::NoServerSelected);
            },
        };
        let library = match &self.selected_library {
            Some(library) => library,
            None => {
                return Err(Error::NoLibrarySelected);
            },
        };
        let token = match &self.user_token {
            Some(token) => token,
            None => {
                return Err(Error::NotAuthenticated);
            },
        };
        let headers = self.create_client(product)?;
        let answer = client.albums(&headers, server.uri.as_str(), library.key_ref());
        let ghost asked = answer;
        let got = match answer {
            Ok(listing) => Ok(key_albums(listing, server.uri.as_str(), token.as_str())),
            Err(error) => Err(error),
        };
        assert(self@.selected_connection->Some_0 == server@);
        assert(self@.selected_library->Some_0 == library@);
        assert(self@.user_token->Some_0 == token@);
        assert(client.may_list_albums(self@.headers(product@), server@.uri, library@.key, asked)
            && cache_view(got) == keyed_albums(asked, server@.uri, token@));
        got
    }
}

impl PlexView {
    /// Whether the headers of this session can be built.
    pub open spec fn sendable(self) -> bool {
        self.data.sendable(self.product)
    }

    /// The headers that go with every request of this session.
    pub open spec fn headers(self) -> Map<Seq<char>, Seq<u8>> {
        self.data.headers(self.product)
    }

    /// The session once `token` is the user's token.
    pub open spec fn signed_in(self, token: Seq<char>) -> PlexView {
        PlexView { data: PlexDataView { user_token: Some(token), ..self.data }, ..self }
    }

    /// The session once the server `name` is in use at `uri`: no library is
    /// selected any more, and no library and no album is cached.
    pub open spec fn server_selected(self, name: Seq<char>, uri: Seq<char>) -> PlexView {
        PlexView {
            data: PlexDataView {
                selected_connection: Some(ConnectionView { name, uri }),
                selected_library: None,
                ..self.data
            },
            libraries: Seq::empty(),
            albums: Seq::empty(),
            ..self
        }
    }

    /// The session once `library` is in use: no album is cached any more.
    pub open spec fn library_selected(self, library: LibraryView) -> PlexView {
        PlexView {
            data: PlexDataView { selected_library: Some(library), ..self.data },
            albums: Seq::empty(),
            ..self
        }
    }

    /// What refreshing the servers can come to: `NotAuthenticated` without
    /// a user; else the cache is replaced by what was listed, or stays and
    /// the error is handed on.
    pub open spec fn refreshes_resources<C: PlexClient>(
        self,
        client: &C,
        after: PlexView,
        done: Result<(), Error>,
    ) -> bool {
        if !self.has_user() {
            after == self && done == Err::<(), Error>(Error::NotAuthenticated)
        } else {
            exists|got: Result<Seq<(Seq<char>, ResourceView)>, Error>| #[trigger]
                self.data.gets_resources(client, self.product, got) && done == outcome(got)
                    && after == if got is Ok {
                    PlexView { resources: got->Ok_0, ..self }
                } else {
                    self
                }
        }
    }

    /// What refreshing the libraries can come to: the cache is replaced by
    /// what was listed, or stays and the error is handed on.
    pub open spec fn refreshes_libraries<C: PlexClient>(
        self,
        client: &C,
        after: PlexView,
        done: Result<(), Error>,
    ) -> bool {
        exists|got: Result<Seq<(Seq<char>, LibraryView)>, Error>| #[trigger]
            self.data.gets_libraries(client, self.product, got) && done == outcome(got) && after
                == if got is Ok {
                PlexView { libraries: got->Ok_0, ..self }
            } else {
                self
            }
    }

    /// What refreshing the albums can come to: the cache is replaced by
    /// what was listed, or stays and the error is handed on.
    pub open spec fn refreshes_albums<C: PlexClient>(
        self,
        client: &C,
        after: PlexView,
        done: Result<(), Error>,
    ) -> bool {
        exists|got: Result<Seq<(Seq<char>, AlbumView)>, Error>| #[trigger]
            self.data.gets_albums(client, self.product, got) && done == outcome(got) && after
                == if got is Ok {
                PlexView { albums: got->Ok_0, ..self }
            } else {
                self
            }
    }

    /// What refreshing everything can come to: servers, libraries and
    /// albums are refreshed in turn, each whether or not the one before it
    /// failed.
    pub open spec fn refreshes_all<C: PlexClient>(self, client: &C, after: PlexView) -> bool {
        exists|
            first: PlexView,
            second: PlexView,
            servers: Result<(), Error>,
            libraries: Result<(), Error>,
            albums: Result<(), Error>,
        |
            #[trigger] self.refreshes_resources(client, first, servers)
                && #[trigger] first.refreshes_libraries(client, second, libraries)
                && #[trigger] second.refreshes_albums(client, after, albums)
    }

    /// What loading every cache anew can come to: each holds what was
    /// listed for it, and nothing where the listing failed.
    pub open spec fn reloads<C: PlexClient>(self, client: &C, after: PlexView) -> bool {
        exists|
            servers: Result<Seq<(Seq<char>, ResourceView)>, Error>,
            libraries: Result<Seq<(Seq<char>, LibraryView)>, Error>,
            albums: Result<Seq<(Seq<char>, AlbumView)>, Error>,
        |
            #[trigger] self.data.gets_resources(client, self.product, servers)
                && #[trigger] self.data.gets_libraries(client, self.product, libraries)
                && #[trigger] self.data.gets_albums(client, self.product, albums) && after
                == (PlexView {
                resources: or_empty(servers),
                libraries: or_empty(libraries),
                albums: or_empty(albums),
                ..self
            })
    }

    /// What selecting the server `name` can come to. Without a user or
    /// without cached servers: `NoResourcesFound`. With a name that is not
    /// cached: `InvalidServerName`. Where the request cannot be built:
    /// `InvalidHeader`. Where the probe of the server's addresses names no
    /// place among them: `NoValidConnections`. In each of these nothing
    /// changes. Else the server is in use at the address that answered, and
    /// its libraries are what a refresh made of them.
    pub open spec fn selects_server<C: PlexClient>(
        self,
        client: &C,
        name: Seq<char>,
        after: PlexView,
        done: Result<(), Error>,
    ) -> bool {
        if !self.has_user() || self.resources.len() == 0 {
            after == self && done == Err::<(), Error>(Error::NoResourcesFound)
        } else if !has_key(self.resources, name) {
            after == self && done == Err::<(), Error>(Error::InvalidServerName)
        } else if !self.sendable() {
            after == self && done == Err::<(), Error>(Error::InvalidHeader)
        } else {
            let resource = self.resources[index_of(self.resources, name)].1;
            exists|found: Option<usize>| #[trigger]
                client.may_find_connection(self.headers(), resource, found) && if connection_at(
                    resource,
                    found,
                ) is None {
                    after == self && done == Err::<(), Error>(Error::NoValidConnections)
                } else {
                    done == Ok::<(), Error>(()) && exists|listed: Result<(), Error>| #[trigger]
                        self.server_selected(
                            name,
                            connection_at(resource, found)->Some_0,
                        ).refreshes_libraries(client, after, listed)
                }
        }
    }

    /// What selecting the library `title` can come to. With a title that is
    /// not cached: `InvalidLibraryName`, and nothing changes. Else the
    /// library is in use, and the albums are what a refresh made of them.
    pub open spec fn selects_library<C: PlexClient>(
        self,
        client: &C,
        title: Seq<char>,
        after: PlexView,
        done: Result<(), Error>,
    ) -> bool {
        if !has_key(self.libraries, title) {
            after == self && done == Err::<(), Error>(Error::InvalidLibraryName)
        } else {
            done == Ok::<(), Error>(()) && exists|listed: Result<(), Error>| #[trigger]
                self.library_selected(
                    self.libraries[index_of(self.libraries, title)].1,
                ).refreshes_albums(client, after, listed)
        }
    }

    /// What an answer to a poll means. An error is handed on. An answer
    /// without a token: `WaitingOnPin`. In both nothing changes. With a
    /// token the user is signed in, and every cache is loaded anew.
    pub open spec fn pin_checked<C: PlexClient>(
        self,
        client: &C,
        answer: Result<PlexPin, Error>,
        after: PlexView,
        done: Result<(), Error>,
    ) -> bool {
        if answer is Err {
            after == self && done == Err::<(), Error>(answer->Err_0)
        } else if answer->Ok_0@.auth_token is None {
            after == self && done == Err::<(), Error>(Error::WaitingOnPin)
        } else {
            done == Ok::<(), Error>(()) && self.signed_in(
                answer->Ok_0@.auth_token->Some_0,
            ).reloads(client, after)
        }
    }

    /// What polling the pairing code `id` can come to: `InvalidHeader`
    /// where the request cannot be built, else what the client's answer
    /// means.
    pub open spec fn checks_pin<C: PlexClient>(
        self,
        client: &C,
        id: u64,
        after: PlexView,
        done: Result<(), Error>,
    ) -> bool {
        if !self.sendable() {
            after == self && done == Err::<(), Error>(Error::InvalidHeader)
        } else {
            exists|answer: Result<PlexPin, Error>| #[trigger]
                client.may_report_pin(self.headers(), id, answer) && self.pin_checked(
                    client,
                    answer,
                    after,
                    done,
                )
        }
    }
}

impl PlexResource {
    /// The address that a probe of this server's addresses named:
    /// `NoValidConnections` where it named none, or no place among them.
    pub fn working_connection(&self, found: Option<usize>) -> (connection: Result<
        &PlexConnections,
        Error,
    >)
        ensures
            connection_at(self@, found) is None ==> connection == Err::<&PlexConnections, Error>(
                Error::NoValidConnections,
            ),
            connection_at(self@, found) is Some ==> connection is Ok && connection->Ok_0@
                == connection_at(self@, found)->Some_0,
    {
        match found {
            Some(place) => if place < self.connections.len() {
                Ok(&self.connections[place])
            } else {
                Err(Error::NoValidConnections)
            },
            None => Err(Error::NoValidConnections),
        }
    }

    /// Has the client try this server's addresses, and hands back one that
    /// answered.
    pub fn get_first_working_connection<C: PlexClient>(
        &self,
        client: &C,
        headers: &HeaderMap<HeaderValue>,
    ) -> (connection: Result<&PlexConnections, Error>)
        ensures
            exists|found: Option<usize>| #[trigger]
                client.may_find_connection(header_entries(*headers), self@, found) && (
                connection_at(self@, found) is None ==> connection == Err::<
                    &PlexConnections,
                    Error,
                >(Error::NoValidConnections)) && (connection_at(self@, found) is Some
                    ==> connection is Ok && connection->Ok_0@ == connection_at(
                    self@,
                    found,
                )->Some_0),
    {
        let found = client.find_working_connection(headers, self);
        self.working_connection(found)
    }
}

impl Plex {
    /// The headers with which a client for this session is made.
    pub fn refresh_client(&self) -> (headers: Result<HeaderMap<HeaderValue>, Error>)
        ensures
            headers is Ok == self@.sendable(),
            headers matches Ok(map) ==> header_entries(map) == self@.headers(),
            headers matches Err(error) ==> error == Error::InvalidHeader,
    {
        self.data.create_client(&self.product)
    }

    /// Asks for a new pairing code. Fails with `InvalidHeader` where the
    /// request cannot be built; else the client's answer is handed on.
    pub fn create_login_pin<C: PlexClient>(&self, client: &C) -> (pin: Result<PlexPin, Error>)
        ensures
            !self@.sendable() ==> pin is Err && pin->Err_0 == Error::InvalidHeader,
            self@.sendable() ==> client.may_issue_pin(self@.headers(), pin),
    {
        let headers = self.refresh_client()?;
        client.generate_pin(&headers)
    }

    /// Asks for the servers of the user and caches them by name.
    pub fn refresh_resources<C: PlexClient>(&mut self, client: &C) -> (done: Result<(), Error>)
        requires
            old(self).wf(),
        ensures
            final(self).wf(),
            old(self)@.refreshes_resources(client, final(self)@, done),
    {
        if self.data.user_token.is_none() {
            return Err(Error::NotAuthenticated);
        }
        let got = self.data.get_resources(client, &self.product);
        let ghost seen = cache_view(got);
        match got {
            Ok(cache) => {
                proof {
                    cache.lemma_wf();
                }
                self.resources = cache;
                assert(old(self)@.data.gets_resources(client, old(self)@.product, seen));
                Ok(())
            },
            Err(error) => {
                assert(old(self)@.data.gets_resources(client, old(self)@.product, seen));
                Err(error)
            },
        }
    }

    /// Asks the server in use for its libraries and caches them by title.
    pub fn refresh_libraries<C: PlexClient>(&mut self, client: &C) -> (done: Result<(), Error>)
        requires
            old(self).wf(),
        ensures
            final(self).wf(),
            old(self)@.refreshes_libraries(client, final(self)@, done),
    {
        let got = self.data.get_libraries(client, &self.product);
        let ghost seen = cache_view(got);
        match got {
            Ok(cache) => {
                proof {
                    cache.lemma_wf();
                }
                self.libraries = cache;
                assert(old(self)@.data.gets_libraries(client, old(self)@.product, seen));
                Ok(())
            },
            Err(error) => {
                assert(old(self)@.data.gets_libraries(client, old(self)@.product, seen));
                Err(error)
            },
        }
    }

    /// Asks the server in use for the albums of the library in use and
    /// caches them by rating key.
    pub fn refresh_albums<C: PlexClient>(&mut self, client: &C) -> (done: Result<(), Error>)
        requires
            old(self).wf(),
        ensures
            final(self).wf(),
            old(self)@.refreshes_albums(client, final(self)@, done),
    {
        let got = self.data.get_albums(client, &self.product);
        let ghost seen = cache_view(got);
        match got {
            Ok(cache) => {
                proof {
                    cache.lemma_wf();
                }
                self.albums = cache;
                assert(old(self)@.data.gets_albums(client, old(self)@.product, seen));
                Ok(())
            },
            Err(error) => {
                assert(old(self)@.data.gets_albums(client, old(self)@.product, seen));
                Err(error)
            },
        }
    }

    /// Refreshes servers, libraries and albums in turn. A refresh that
    /// fails leaves its cache as it was and does not keep the next from
    /// being tried.
    pub fn refresh_all_unchecked<C: PlexClient>(&mut self, client: &C)
        requires
            old(self).wf(),
        ensures
            final(self).wf(),
            old(self)@.refreshes_all(client, final(self)@),
    {
        let servers = self.refresh_resources(client);
        let ghost first = self@;
        let libraries = self.refresh_libraries(client);
        let ghost second = self@;
        let albums = self.refresh_albums(client);
        assert(old(self)@.refreshes_resources(client, first, servers) && first.refreshes_libraries(
            client,
            second,
            libraries,
        ) && second.refreshes_albums(client, self@, albums));
    }

    /// Loads every cache anew: each ends up with what was listed for it,
    /// and empty where the listing failed.
    pub fn refresh<C: PlexClient>(&mut self, client: &C)
        requires
            old(self).wf(),
        ensures
            final(self).wf(),
            old(self)@.reloads(client, final(self)@),
    {
        let servers = self.data.get_resources(client, &self.product);
        let libraries = self.data.get_libraries(client, &self.product);
        let albums = self.data.get_albums(client, &self.product);
        let ghost seen = (cache_view(servers), cache_view(libraries), cache_view(albums));
        let servers = match servers {
            Ok(cache) => cache,
            Err(_) => Cache::new(),
        };
        let libraries = match libraries {
            Ok(cache) => cache,
            Err(_) => Cache::new(),
        };
        let albums = match albums {
            Ok(cache) => cache,
            Err(_) => Cache::new(),
        };
        proof {
            servers.lemma_wf();
            libraries.lemma_wf();
            albums.lemma_wf();
        }
        self.resources = servers;
        self.libraries = libraries;
        self.albums = albums;
        assert(old(self)@.data.gets_resources(client, old(self)@.product, seen.0) && old(self)@.data.gets_libraries(client, old(self)@.product, seen.1) && old(self)@.data.gets_albums(
            client,
            old(self)@.product,
            seen.2,
        ));
    }

    /// A session on what was kept of an earlier run. Where a user is signed
    /// in every cache is loaded at once; else nothing is asked and nothing
    /// cached.
    pub fn from<C: PlexClient>(data: PlexData, product: Product, client: &C) -> (plex: Self)
        requires
            data.wf(),
        ensures
            plex.wf(),
            data@.user_token is None ==> plex@ == PlexView::fresh(data@, product@),
            data@.user_token is Some ==> PlexView::fresh(data@, product@).reloads(client, plex@),
    {
        let mut plex = Plex::new(data, product);
        if plex.has_user() {
            plex.refresh(client);
        }
        plex
    }

    /// Signs the user in with `token` and loads every cache anew.
    pub fn sign_in<C: PlexClient>(&mut self, client: &C, token: String)
        requires
            old(self).wf(),
        ensures
            final(self).wf(),
            old(self)@.signed_in(token@).reloads(client, final(self)@),
    {
        self.data.user_token = Some(token);
        self.refresh(client);
    }

    /// Takes the answer to a poll of a pairing code. An answer with a token
    /// signs the user in and loads every cache anew. An answer without one
    /// is `WaitingOnPin`: nothing changes, and polling again is in order.
    pub fn pin_checked<C: PlexClient>(&mut self, client: &C, answer: Result<PlexPin, Error>) -> (done:
        Result<(), Error>)
        requires
            old(self).wf(),
        ensures
            final(self).wf(),
            old(self)@.pin_checked(client, answer, final(self)@, done),
    {
        match answer {
            Err(error) => Err(error),
            Ok(checked) => match checked.auth_token {
                None => Err(Error::WaitingOnPin),
                Some(token) => {
                    self.sign_in(client, token);
                    Ok(())
                },
            },
        }
    }

    /// Polls the pairing code `pin`.
    pub fn check_pin<C: PlexClient>(&mut self, client: &C, pin: &PlexPin) -> (done: Result<
        (),
        Error,
    >)
        requires
            old(self).wf(),
        ensures
            final(self).wf(),
            old(self)@.checks_pin(client, pin.id, final(self)@, done),
            done is Err ==> final(self)@ == old(self)@,
    {
        let headers = self.refresh_client()?;
        let answer = client.check_pin(&headers, pin.id);
        let ghost polled = answer;
        let done = self.pin_checked(client, answer);
        assert(client.may_report_pin(old(self)@.headers(), pin.id, polled) && old(self)@.pin_checked(
            client,
            polled,
            self@,
            done,
        ));
        done
    }

    /// Puts the server `server` in use: tries its addresses, takes one that
    /// answered, lets go of the library in use and of the cached libraries
    /// and albums, and refreshes the libraries. A failure to refresh them
    /// leaves their cache empty and the selection in place.
    pub fn select_server<C: PlexClient>(&mut self, client: &C, server: &str) -> (done: Result<
        (),
        Error,
    >)
        requires
            old(self).wf(),
        ensures
            final(self).wf(),
            old(self)@.selects_server(client, server@, final(self)@, done),
            done is Err ==> final(self)@ == old(self)@,
            !has_key(old(self)@.resources, server@) ==> done is Err,
    {
        if self.data.user_token.is_none() || self.resources.is_empty() {
            return Err(Error::NoResourcesFound);
        }
        let place = match self.resources.position(server) {
            Some(place) => place,
            None => {
                return Err(Error::InvalidServerName);
            },
        };
        let headers = self.refresh_client()?;
        let resource = self.resources.value_at(place);
        let found = client.find_working_connection(&headers, resource);
        let uri = match resource.working_connection(found) {
            Ok(connection) => connection.clone_uri(),
            Err(error) => {
                assert(client.may_find_connection(old(self)@.headers(), resource@, found));
                return Err(error);
            },
        };
        let ghost answered = resource@;
        self.albums.clear();
        self.libraries.clear();
        self.data.selected_library = None;
        self.data.selected_connection = Some(SelectedConnection::new(server.to_owned(), uri));
        let ghost chosen = self@;
        assert(chosen == old(self)@.server_selected(
            server@,
            connection_at(answered, found)->Some_0,
        ));
        let listed = self.refresh_libraries(client);
        assert(client.may_find_connection(old(self)@.headers(), answered, found)
            && chosen.refreshes_libraries(client, self@, listed));
        Ok(())
    }

    /// Puts the library `title` in use, lets go of the cached albums, and
    /// refreshes them. A failure to refresh them leaves their cache empty
    /// and the selection in place.
    pub fn select_library<C: PlexClient>(&mut self, client: &C, title: &str) -> (done: Result<
        (),
        Error,
    >)
        requires
            old(self).wf(),
        ensures
            final(self).wf(),
            old(self)@.selects_library(client, title@, final(self)@, done),
            done is Err ==> final(self)@ == old(self)@,
            !has_key(old(self)@.libraries, title@) ==> done is Err,
    {
        let library = match self.libraries.get(title) {
            Some(library) => library.clone(),
            None => {
                return Err(Error::InvalidLibraryName);
            },
        };
        self.albums.clear();
        self.data.selected_library = Some(library);
        let ghost chosen = self@;
        assert(chosen == old(self)@.library_selected(
            old(self)@.libraries[index_of(old(self)@.libraries, title@)].1,
        ));
        let listed = self.refresh_albums(client);
        assert(chosen.refreshes_albums(client, self@, listed));
        Ok(())
    }
}

/// A session whose identifiers were made here and whose user is signed out
/// can always build its requests, given a product whose strings can be
/// sent: asking for a pairing code then fails only where the media server
/// does.
pub proof fn lemma_new_installation_sendable(data: PlexDataView, product: ProductView)
    requires
        is_uuid_text(data.client_ident),
        is_uuid_text(data.session_token),
        data.user_token is None,
        sendable(product.name),
        sendable(product.version),
        sendable(product.platform),
        sendable(product.platform_version),
    ensures
        data.sendable(product),
{
    lemma_uuid_sendable(data.client_ident);
    lemma_uuid_sendable(data.session_token);
}

/// Signing out twice is signing out once: whatever the session was, after
/// a second sign-out it is what the first one made of it, but for the
/// session identifier, which is made anew each time.
pub proof fn lemma_signout_idempotent(session: PlexView, first: Seq<char>, second: Seq<char>)
    ensures
        session.signed_out(first).signed_out(second) == session.signed_out(second),
        session.signed_out(first).valid(),
        !session.signed_out(first).has_user(),
{
}

/// Whatever the answers of the media server, selecting a server or a
/// library keeps the session valid, and where it fails the session is what
/// it was before.
pub proof fn lemma_selection_atomic<C: PlexClient>(
    session: PlexView,
    client: &C,
    name: Seq<char>,
    after: PlexView,
    done: Result<(), Error>,
)
    requires
        session.valid(),
        session.selects_server(client, name, after, done) || session.selects_library(
            client,
            name,
            after,
            done,
        ),
    ensures
        done is Err ==> after == session,
        session.selects_server(client, name, after, done) && !has_key(session.resources, name)
            ==> done is Err,
        session.selects_library(client, name, after, done) && !has_key(session.libraries, name)
            ==> done is Err,
{
}

} // verus!
