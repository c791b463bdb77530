//! What the media server is asked, and the interface through which the
//! answers come back.

use vstd::prelude::*;
use vstd::string::StringExecFns;
use reqwest::header::{HeaderMap, HeaderValue};
use crate::error::Error;
use crate::plex::headers::header_entries;
use crate::plex::pin::PlexPin;
use crate::plex::resources::connections::{PlexResource, ResourceView};
use crate::plex::resources::library::{AlbumData, Library};
use crate::text::{join2, join3};

verus! {

/// The media server as this crate sees it. Each method sends one request
/// with the given headers and hands back what was answered, or
/// `NetworkError` or `MalformedResponse`.
///
/// Nothing is taken for granted of an answer. Beside each method stands a
/// predicate that the implementor may define: it records which answers the
/// client can give to which request, so that a caller's contract can say
/// what was asked. Left as it is, it admits every answer.
pub trait PlexClient {
    open spec fn may_issue_pin(
        &self,
        headers: Map<Seq<char>, Seq<u8>>,
        answer: Result<PlexPin, Error>,
    ) -> bool {
        true
    }

    /// Asks for a new pairing code.
    fn generate_pin(&self, headers: &HeaderMap<HeaderValue>) -> (answer: Result<PlexPin, Error>)
        ensures
            self.may_issue_pin(header_entries(*headers), answer),
    ;

    open spec fn may_report_pin(
        &self,
        headers: Map<Seq<char>, Seq<u8>>,
        id: u64,
        answer: Result<PlexPin, Error>,
    ) -> bool {
        true
    }

    /// Asks how the pairing code `id` stands. The answer carries a token
    /// once the user has approved the code.
    fn check_pin(&self, headers: &HeaderMap<HeaderValue>, id: u64) -> (answer: Result<
        PlexPin,
        Error,
    >)
        ensures
            self.may_report_pin(header_entries(*headers), id, answer),
    ;

    open spec fn may_list_resources(
        &self,
        headers: Map<Seq<char>, Seq<u8>>,
        answer: Result<Vec<PlexResource>, Error>,
    ) -> bool {
        true
    }

    /// Asks for the servers of the signed-in user.
    fn resources(&self, headers: &HeaderMap<HeaderValue>) -> (answer: Result<
        Vec<PlexResource>,
        Error,
    >)
        ensures
            self.may_list_resources(header_entries(*headers), answer),
    ;

    open spec fn may_list_libraries(
        &self,
        headers: Map<Seq<char>, Seq<u8>>,
        uri: Seq<char>,
        answer: Result<Vec<Library>, Error>,
    ) -> bool {
        true
    }

    /// Asks the server at `uri` for its libraries.
    fn libraries(&self, headers: &HeaderMap<HeaderValue>, uri: &str) -> (answer: Result<
        Vec<Library>,
        Error,
    >)
        ensures
            self.may_list_libraries(header_entries(*headers), uri@, answer),
    ;

    open spec fn may_list_albums(
        &self,
        headers: Map<Seq<char>, Seq<u8>>,
        uri: Seq<char>,
        key: Seq<char>,
        answer: Result<Vec<AlbumData>, Error>,
    ) -> bool {
        true
    }

    /// Asks the server at `uri` for the albums of the library `key`.
    fn albums(&self, headers: &HeaderMap<HeaderValue>, uri: &str, key: &str) -> (answer: Result<
        Vec<AlbumData>,
        Error,
    >)
        ensures
            self.may_list_albums(header_entries(*headers), uri@, key@, answer),
    ;

    open spec fn may_find_connection(
        &self,
        headers: Map<Seq<char>, Seq<u8>>,
        resource: ResourceView,
        answer: Option<usize>,
    ) -> bool {
        true
    }

    /// Tries the addresses of `resource`, all at once, and hands back the
    /// place of one that answered: whichever answered first, not the first
    /// in the list. `None` where none answered.
    fn find_working_connection(
        &self,
        headers: &HeaderMap<HeaderValue>,
        resource: &PlexResource,
    ) -> (answer: Option<usize>)
        ensures
            self.may_find_connection(header_entries(*headers), resource@, answer),
    ;
}

/// A stand-in for the media server that approves every pairing code at
/// once and knows no server.
pub struct MockPlexClient;

impl PlexClient for MockPlexClient {
    open spec fn may_issue_pin(
        &self,
        headers: Map<Seq<char>, Seq<u8>>,
        answer: Result<PlexPin, Error>,
    ) -> bool {
        answer is Ok && answer->Ok_0@ == (crate::plex::pin::PinView {
            id: 0,
            code: Seq::empty(),
            auth_token: None,
        })
    }

    fn generate_pin(&self, headers: &HeaderMap<HeaderValue>) -> (answer: Result<PlexPin, Error>) {
        Ok(PlexPin::default())
    }

    open spec fn may_report_pin(
        &self,
        headers: Map<Seq<char>, Seq<u8>>,
        id: u64,
        answer: Result<PlexPin, Error>,
    ) -> bool {
        answer is Ok && answer->Ok_0@ == (crate::plex::pin::PinView {
            id: 0,
            code: Seq::empty(),
            auth_token: Some("1234"@),
        })
    }

    fn check_pin(&self, headers: &HeaderMap<HeaderValue>, id: u64) -> (answer: Result<
        PlexPin,
        Error,
    >) {
        Ok(PlexPin::authed_pin())
    }

    open spec fn may_list_resources(
        &self,
        headers: Map<Seq<char>, Seq<u8>>,
        answer: Result<Vec<PlexResource>, Error>,
    ) -> bool {
        answer is Ok && answer->Ok_0@.len() == 0
    }

    fn resources(&self, headers: &HeaderMap<HeaderValue>) -> (answer: Result<
        Vec<PlexResource>,
        Error,
    >) {
        Ok(Vec::new())
    }

    open spec fn may_list_libraries(
        &self,
        headers: Map<Seq<char>, Seq<u8>>,
        uri: Seq<char>,
        answer: Result<Vec<Library>, Error>,
    ) -> bool {
        answer is Ok && answer->Ok_0@.len() == 0
    }

    fn libraries(&self, headers: &HeaderMap<HeaderValue>, uri: &str) -> (answer: Result<
        Vec<Library>,
        Error,
    >) {
        Ok(Vec::new())
    }

    open spec fn may_list_albums(
        &self,
        headers: Map<Seq<char>, Seq<u8>>,
        uri: Seq<char>,
        key: Seq<char>,
        answer: Result<Vec<AlbumData>, Error>,
    ) -> bool {
        answer is Ok && answer->Ok_0@.len() == 0
    }

    fn albums(&self, headers: &HeaderMap<HeaderValue>, uri: &str, key: &str) -> (answer: Result<
        Vec<AlbumData>,
        Error,
    >) {
        Ok(Vec::new())
    }

    open spec fn may_find_connection(
        &self,
        headers: Map<Seq<char>, Seq<u8>>,
        resource: ResourceView,
        answer: Option<usize>,
    ) -> bool {
        answer is None
    }

    fn find_working_connection(
        &self,
        headers: &HeaderMap<HeaderValue>,
        resource: &PlexResource,
    ) -> (answer: Option<usize>) {
        None
    }
}

/// The decimal digit `d` as a character.
pub open spec fn digit_char(d: nat) -> char {
    if d == 0 {
        '0'
    } else if d == 1 {
        '1'
    } else if d == 2 {
        '2'
    } else if d == 3 {
        '3'
    } else if d == 4 {
        '4'
    } else if d == 5 {
        '5'
    } else if d == 6 {
        '6'
    } else if d == 7 {
        '7'
    } else if d == 8 {
        '8'
    } else {
        '9'
    }
}

/// A number in decimal, without leading zeros.
pub open spec fn decimal_text(n: nat) -> Seq<char>
    decreases n,
{
    if n < 10 {
        seq![digit_char(n)]
    } else {
        decimal_text(n / 10).push(digit_char(n % 10))
    }
}

fn digit_str(d: u64) -> (text: &'static str)
    requires
        d < 10,
    ensures
        text@ == seq![digit_char(d as nat)],
{
    proof {
        reveal_strlit("0");
        reveal_strlit("1");
        reveal_strlit("2");
        reveal_strlit("3");
        reveal_strlit("4");
        reveal_strlit("5");
        reveal_strlit("6");
        reveal_strlit("7");
        reveal_strlit("8");
        reveal_strlit("9");
    }
    let text = if d == 0 {
        "0"
    } else if d == 1 {
        "1"
    } else if d == 2 {
        "2"
    } else if d == 3 {
        "3"
    } else if d == 4 {
        "4"
    } else if d == 5 {
        "5"
    } else if d == 6 {
        "6"
    } else if d == 7 {
        "7"
    } else if d == 8 {
        "8"
    } else {
        "9"
    };
    assert(text@ =~= seq![digit_char(d as nat)]);
    text
}

/// Writes a number in decimal.
pub fn decimal(n: u64) -> (text: String)
    ensures
        text@ == decimal_text(n as nat),
    decreases n,
{
    if n < 10 {
        digit_str(n).to_owned()
    } else {
        let mut text = decimal(n / 10);
        let digit = digit_str(n % 10);
        text.append(digit);
        assert(text@ =~= decimal_text(n as nat));
        text
    }
}

/// Where pairing codes are made (`POST`) and, followed by an id, polled
/// (`GET`).
pub const PINS_URL: &'static str = "https://plex.tv/api/v2/pins";

/// Where the servers of a user are listed (`GET`).
pub const RESOURCES_URL: &'static str = "https://plex.tv/api/v2/resources";

/// The name of the query parameter that narrows a listing to one kind of
/// entry.
pub const KIND_PARAMETER: &'static str = "type";

/// The kind of an album.
pub const ALBUM_KIND: &'static str = "9";

/// Where the pairing code `id` is polled.
pub fn pin_url(id: u64) -> (url: String)
    ensures
        url@ == PINS_URL@ + "/"@ + decimal_text(id as nat),
{
    let number = decimal(id);
    join3(PINS_URL, "/", number.as_str())
}

/// Where the server at `uri` lists its libraries.
pub fn libraries_url(uri: &str) -> (url: String)
    ensures
        url@ == uri@ + "/library/sections/"@,
{
    join2(uri, "/library/sections/")
}

/// Where the server at `uri` lists what the library `key` holds; asked with
/// the kind parameter set to the kind of an album.
pub fn albums_url(uri: &str, key: &str) -> (url: String)
    ensures
        url@ == uri@ + "/library/sections/"@ + key@ + "/all"@,
{
    let mut url = join3(uri, "/library/sections/", key);
    url.append("/all");
    url
}

} // verus!
