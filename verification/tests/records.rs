use std::sync::PoisonError;

use project_book::cache::Cache;
use project_book::error::Error;
use project_book::handlers::effects::{Effects, Event, Save};
use project_book::plex::client::{
    albums_url, decimal, libraries_url, pin_url, MockPlexClient, PlexClient, ALBUM_KIND,
    KIND_PARAMETER, PINS_URL, RESOURCES_URL,
};
use project_book::plex::headers::{identification_headers, Product, REQUEST_TIMEOUT_SECS};
use project_book::plex::payload::{
    albums_section, libraries_section, media_section, member_or_malformed, DIRECTORY,
    MEDIA_CONTAINER, METADATA,
};
use project_book::plex::pin::PlexPin;
use project_book::plex::plex::{Plex, PlexData};
use project_book::plex::resources::connections::{PlexConnections, PlexResource};
use project_book::plex::resources::library::{Album, AlbumData, Library};
use project_book::state::books::{Book, ReadingState, ALL_BOOKS_STORE, CURRENT_BOOK_STORE, WHOLE};
use project_book::state::settings::SETTINGS_STORE;
use project_book::text::{clone_opt, join2, join3, same_text};
use serde_json::Value;

fn product() -> Product {
    Product::new(
        "project-book".to_string(),
        "0.1.0".to_string(),
        "linux".to_string(),
        "x86_64".to_string(),
    )
}

fn data(title: &str, key: &str, thumb: Option<&str>, author: Option<&str>) -> AlbumData {
    AlbumData {
        title: title.to_string(),
        rating_key: key.to_string(),
        summary: "A summary".to_string(),
        studio: Some("Studio".to_string()),
        thumb: thumb.map(|t| t.to_string()),
        parent_title: author.map(|a| a.to_string()),
        parent_rating_key: Some("77".to_string()),
        year: Some(2001),
        index: 4,
    }
}

#[test]
fn the_headers_of_a_request() {
    let headers = identification_headers("ident", "session", None, &product()).unwrap();
    let mut found: Vec<(String, String)> = headers
        .iter()
        .map(|(name, value)| (name.as_str().to_string(), value.to_str().unwrap().to_string()))
        .collect();
    found.sort();
    let expected: Vec<(String, String)> = [
        ("accept", "application/json"),
        ("x-plex-client-identifier", "ident"),
        ("x-plex-client-name", "project-book"),
        ("x-plex-platform", "linux"),
        ("x-plex-platform-version", "x86_64"),
        ("x-plex-product", "project-book"),
        ("x-plex-provides", "player"),
        ("x-plex-session-identifier", "session"),
        ("x-plex-version", "0.1.0"),
    ]
    .iter()
    .map(|(name, value)| (name.to_string(), value.to_string()))
    .collect();
    assert_eq!(found, expected);

    let headers = identification_headers("ident", "session", Some("T1"), &product()).unwrap();
    assert_eq!(headers.len(), 10);
    assert_eq!(headers.get("X-Plex-Token").unwrap(), "T1");
    assert_eq!(headers.get("x-plex-token").unwrap().as_bytes(), b"T1");
    assert_eq!(headers.get("Accept").unwrap(), "application/json");
    assert_eq!(REQUEST_TIMEOUT_SECS, 5);
}

#[test]
fn what_a_header_value_may_hold() {
    let ok = |ident: &str| identification_headers(ident, "s", None, &product()).is_ok();
    assert!(ok("plain"));
    assert!(ok(""));
    assert!(ok("with space and\ttab"));
    assert!(ok("caf\u{e9} \u{4e66}"));
    assert!(!ok("line\nbreak"));
    assert!(!ok("carriage\rreturn"));
    assert!(!ok("nul\0"));
    assert!(!ok("del\u{7f}"));
    assert!(!ok("escape\u{1b}"));
    let headers = identification_headers("caf\u{e9}", "s", None, &product()).unwrap();
    assert_eq!(
        headers.get("x-plex-client-identifier").unwrap().as_bytes(),
        "caf\u{e9}".as_bytes()
    );

    let bad = |token: Option<&str>, product: &Product, session: &str| {
        identification_headers("ident", session, token, product).err()
    };
    assert_eq!(bad(Some("a\nb"), &product(), "s"), Some(Error::InvalidHeader));
    assert_eq!(bad(None, &product(), "a\nb"), Some(Error::InvalidHeader));
    assert_eq!(bad(None, &product(), "s"), None);
    let odd = |name: &str, version: &str, platform: &str, arch: &str| {
        Product::new(name.to_string(), version.to_string(), platform.to_string(), arch.to_string())
    };
    assert_eq!(bad(None, &odd("a\nb", "1", "l", "x"), "s"), Some(Error::InvalidHeader));
    assert_eq!(bad(None, &odd("a", "1\n", "l", "x"), "s"), Some(Error::InvalidHeader));
    assert_eq!(bad(None, &odd("a", "1", "\nl", "x"), "s"), Some(Error::InvalidHeader));
    assert_eq!(bad(None, &odd("a", "1", "l", "x\n"), "s"), Some(Error::InvalidHeader));
}

#[test]
fn where_the_requests_go() {
    assert_eq!(PINS_URL, "https://plex.tv/api/v2/pins");
    assert_eq!(RESOURCES_URL, "https://plex.tv/api/v2/resources");
    assert_eq!(pin_url(1), "https://plex.tv/api/v2/pins/1");
    assert_eq!(pin_url(0), "https://plex.tv/api/v2/pins/0");
    assert_eq!(pin_url(1234567890), "https://plex.tv/api/v2/pins/1234567890");
    assert_eq!(
        pin_url(u64::MAX),
        "https://plex.tv/api/v2/pins/18446744073709551615"
    );
    assert_eq!(libraries_url("https://home.example:32400"), "https://home.example:32400/library/sections/");
    assert_eq!(
        albums_url("https://home.example:32400", "3"),
        "https://home.example:32400/library/sections/3/all"
    );
    assert_eq!(albums_url("", ""), "/library/sections//all");
    assert_eq!((KIND_PARAMETER, ALBUM_KIND), ("type", "9"));
}

#[test]
fn numbers_in_decimal() {
    assert_eq!(decimal(0), "0");
    assert_eq!(decimal(7), "7");
    assert_eq!(decimal(10), "10");
    assert_eq!(decimal(109), "109");
    assert_eq!(decimal(9_007_199_254_740_993), "9007199254740993");
    assert_eq!(decimal(u64::MAX), u64::MAX.to_string());
}

#[test]
fn texts_are_joined_and_compared() {
    assert_eq!(join2("ab", "cd"), "abcd");
    assert_eq!(join2("", ""), "");
    assert_eq!(join3("a", "", "c"), "ac");
    assert!(same_text("abc", "abc"));
    assert!(!same_text("abc", "abd"));
    assert!(!same_text("abc", "ab"));
    assert!(same_text("", ""));
    assert_eq!(clone_opt(&Some("x".to_string())), Some("x".to_string()));
    assert_eq!(clone_opt(&None), None);
}

#[test]
fn records_hand_out_their_fields() {
    let connection = PlexConnections::new("https://a.example".to_string());
    assert_eq!(connection.uri_ref(), "https://a.example");
    assert_eq!(connection.clone_uri(), "https://a.example");
    assert_eq!(connection.clone().uri, "https://a.example");

    let resource = PlexResource::new("Home".to_string(), vec![connection.clone(), connection]);
    assert_eq!(resource.name_ref(), "Home");
    assert_eq!(resource.connections_ref().len(), 2);
    let copy = resource.clone();
    assert_eq!(copy.name, "Home");
    assert_eq!(copy.connections.len(), 2);
    let (key, same) = resource.into_key_val();
    assert_eq!(key, "Home");
    assert_eq!(same.name, "Home");
    assert_eq!(same.connections[1].uri_ref(), "https://a.example");

    let library = Library::new("Audiobooks".to_string(), "3".to_string(), "artist".to_string());
    assert_eq!(library.title_ref(), "Audiobooks");
    assert_eq!(library.key_ref(), "3");
    assert_eq!(library.media_type_ref(), "artist");
    let (key, same) = library.clone().into_key_val();
    assert_eq!(key, "Audiobooks");
    assert_eq!(same.key, "3");

    let (key, same) = data("Dune", "101", None, None).into_key_val();
    assert_eq!(key, "101");
    assert_eq!(same.title, "Dune");
    assert_eq!(same.clone().year, Some(2001));
    assert_eq!(same.clone().studio, Some("Studio".to_string()));
}

#[test]
fn an_album_knows_the_address_of_its_cover() {
    let album = Album::new(
        data("Dune", "101", Some("/library/metadata/101/thumb/5"), Some("Frank Herbert")),
        "https://home.example:32400".to_string(),
        "T1".to_string(),
    );
    assert_eq!(
        album.thumb(),
        "https://home.example:32400/library/metadata/101/thumb/5?X-Plex-Token=T1"
    );
    assert_eq!(album.thumb_ref(), Some("/library/metadata/101/thumb/5"));
    assert_eq!(album.key_ref(), "101");
    assert_eq!(album.key_clone(), "101");
    assert_eq!(album.title_ref(), "Dune");
    assert_eq!(album.summary_ref(), "A summary");
    assert_eq!(album.parent_ref(), "Frank Herbert");
    assert_eq!(album.clone().token, "T1");

    let bare = Album::new(data("Emma", "102", None, None), "u".to_string(), "t".to_string());
    assert_eq!(bare.thumb(), "");
    assert_eq!(bare.thumb_ref(), None);
    assert_eq!(bare.parent_ref(), "");
    let empty = Album::new(data("Emma", "102", Some(""), Some("")), "u".to_string(), "t".to_string());
    assert_eq!(empty.thumb(), "u?X-Plex-Token=t");
}

#[test]
fn pins() {
    let pin = PlexPin::new(9, "WXYZ".to_string(), Some("T".to_string()));
    assert_eq!(pin.pin_ref(), "WXYZ");
    assert_eq!(pin.get_pin(), "WXYZ");
    let copy = pin.clone();
    assert_eq!((copy.id, copy.code, copy.auth_token), (9, "WXYZ".to_string(), Some("T".to_string())));
    let blank = PlexPin::default();
    assert_eq!((blank.id, blank.pin_ref(), blank.auth_token.clone()), (0, "", None));
    let authed = PlexPin::authed_pin();
    assert_eq!(
        (authed.id, authed.pin_ref(), authed.auth_token.clone()),
        (0, "", Some("1234".to_string()))
    );
}

#[test]
fn the_stand_in_server_approves_at_once() {
    let headers = PlexData::default().create_client(&product()).unwrap();
    let mock = MockPlexClient;
    let pin = mock.generate_pin(&headers).unwrap();
    assert_eq!((pin.id, pin.pin_ref(), pin.auth_token.clone()), (0, "", None));
    let checked = mock.check_pin(&headers, 5).unwrap();
    assert_eq!(checked.auth_token, Some("1234".to_string()));
    assert!(mock.resources(&headers).unwrap().is_empty());
    assert!(mock.libraries(&headers, "u").unwrap().is_empty());
    assert!(mock.albums(&headers, "u", "k").unwrap().is_empty());
    let home = PlexResource::new("Home".to_string(), vec![PlexConnections::new("u".to_string())]);
    assert_eq!(mock.find_working_connection(&headers, &home), None);

    let mut plex = Plex::new(PlexData::default(), product());
    assert_eq!(plex.check_pin(&mock, &pin), Ok(()));
    assert_eq!(plex.data().user_token(), Some("1234"));
    assert_eq!(plex.get_servers(), Err(Error::NoResourcesFound));
    assert_eq!(plex.select_server(&mock, "Home"), Err(Error::NoResourcesFound));
}

#[test]
fn the_cache_keeps_the_order_of_arrival() {
    let mut cache: Cache<Library> = Cache::new();
    assert!(cache.is_empty());
    let library = |title: &str, key: &str| {
        Library::new(title.to_string(), key.to_string(), "artist".to_string())
    };
    cache.insert("b".to_string(), library("B", "1"));
    cache.insert("a".to_string(), library("A", "2"));
    cache.insert("b".to_string(), library("B again", "3"));
    assert_eq!(cache.len(), 2);
    assert_eq!(cache.keys(), vec!["b".to_string(), "a".to_string()]);
    assert_eq!(cache.key_at(0), "b");
    assert_eq!(cache.value_at(0).title_ref(), "B again");
    assert_eq!(cache.get("a").unwrap().key_ref(), "2");
    assert!(cache.get("c").is_none());
    assert_eq!(cache.position("a"), Some(1));
    assert_eq!(cache.position("c"), None);
    assert!(cache.contains_key("b"));
    assert!(!cache.contains_key("B"));
    cache.replace_at(1, library("A anew", "4"));
    assert_eq!(cache.get("a").unwrap().title_ref(), "A anew");
    assert_eq!(cache.keys(), vec!["b".to_string(), "a".to_string()]);
    cache.clear();
    assert!(cache.is_empty());
    assert_eq!(cache.len(), 0);
}

#[test]
fn the_entries_of_the_store() {
    assert_eq!(Book::store_key("101"), "book:101");
    assert_eq!(Book::store_key(""), "book:");
    assert_eq!(CURRENT_BOOK_STORE, "current-book");
    assert_eq!(ALL_BOOKS_STORE, "all-books");
    assert_eq!(SETTINGS_STORE, "settings");
    assert_eq!(WHOLE, 1.0f64.to_bits());
    assert_eq!(ReadingState::Playing.toggle(), ReadingState::Paused);
    assert_eq!(ReadingState::Paused.toggle(), ReadingState::Playing);
}

#[test]
fn events_have_names() {
    assert_eq!(Event::UpdateSettings.name(), "update-settings");
    assert_eq!(Event::UpdatePlayer.name(), "update-player");
    assert_eq!(Event::TogglePlaying.name(), "toggle-playing");
    assert_eq!(Event::UpdateDownloaded.name(), "update-downloaded");
    let none = Effects::none();
    assert!(none.saves.is_empty() && none.events.is_empty());
    let one = Effects::of(Save::Book, Event::UpdateDownloaded);
    assert_eq!(one.saves, vec![Save::Book]);
    assert_eq!(one.events, vec![Event::UpdateDownloaded]);
}

#[test]
fn errors_have_names() {
    let all = [
        (Error::InvalidHeader, "InvalidHeader"),
        (Error::NetworkError, "NetworkError"),
        (Error::MalformedResponse, "MalformedResponse"),
        (Error::WaitingOnPin, "WaitingOnPin"),
        (Error::NotAuthenticated, "NotAuthenticated"),
        (Error::NoServerSelected, "NoServerSelected"),
        (Error::NoLibrarySelected, "NoLibrarySelected"),
        (Error::InvalidServerName, "InvalidServerName"),
        (Error::InvalidLibraryName, "InvalidLibraryName"),
        (Error::NoResourcesFound, "NoResourcesFound"),
        (Error::NoLibrariesFound, "NoLibrariesFound"),
        (Error::NoAlbumsFound, "NoAlbumsFound"),
        (Error::NoAlbumFound, "NoAlbumFound"),
        (Error::NoValidConnections, "NoValidConnections"),
        (Error::DownloadFailed, "DownloadFailed"),
        (Error::BookNotDownloaded, "BookNotDownloaded"),
        (Error::NoBookFound, "NoBookFound"),
        (Error::LockFailure, "LockFailure"),
    ];
    for (error, name) in all {
        assert_eq!(error.name(), name);
        assert_eq!(format!("{:?}", error), name);
        assert_eq!(error.is_waiting(), error == Error::WaitingOnPin);
    }
}

#[test]
fn a_poisoned_lock_is_a_lock_failure() {
    assert_eq!(Error::from(PoisonError::new(())), Error::LockFailure);
    assert_eq!(Error::from(PoisonError::new(vec![1, 2, 3])), Error::LockFailure);
    let converted: Error = PoisonError::new("guard").into();
    assert_eq!(converted, Error::LockFailure);
}

fn parse(text: &str) -> Value {
    serde_json::from_str(text).unwrap()
}

#[test]
fn listings_stand_in_a_container() {
    assert_eq!((MEDIA_CONTAINER, DIRECTORY, METADATA), ("MediaContainer", "Directory", "Metadata"));
    let body = parse(
        r#"{"MediaContainer": {"size": 2, "Directory": [{"title": "Audiobooks"}], "Metadata": [1, 2]}}"#,
    );
    assert_eq!(libraries_section(&body).unwrap(), &parse(r#"[{"title": "Audiobooks"}]"#));
    assert_eq!(albums_section(&body).unwrap(), &parse("[1, 2]"));
    assert_eq!(media_section(&body, "size").unwrap(), &parse("2"));
    assert_eq!(media_section(&body, "Other").err(), Some(Error::MalformedResponse));
    assert_eq!(media_section(&body, "directory").err(), Some(Error::MalformedResponse));
}

#[test]
fn a_body_without_its_container_is_malformed() {
    for text in [
        r#"{}"#,
        r#"{"Directory": []}"#,
        r#"{"mediacontainer": {"Directory": []}}"#,
        r#"{"MediaContainer": []}"#,
        r#"{"MediaContainer": "Directory"}"#,
        r#"{"MediaContainer": null}"#,
        r#"{"MediaContainer": {}}"#,
        r#"[{"MediaContainer": {"Directory": []}}]"#,
        r#"null"#,
        r#"3"#,
    ] {
        let body = parse(text);
        assert_eq!(libraries_section(&body).err(), Some(Error::MalformedResponse), "{}", text);
        assert_eq!(albums_section(&body).err(), Some(Error::MalformedResponse), "{}", text);
    }
    let only_libraries = parse(r#"{"MediaContainer": {"Directory": null}}"#);
    assert_eq!(libraries_section(&only_libraries).unwrap(), &Value::Null);
    assert_eq!(albums_section(&only_libraries).err(), Some(Error::MalformedResponse));
}

#[test]
fn a_member_is_there_or_the_answer_is_malformed() {
    let value = parse("[1]");
    assert_eq!(member_or_malformed(Some(&value)).unwrap(), &value);
    assert_eq!(member_or_malformed(None).err(), Some(Error::MalformedResponse));
}

#[test]
fn a_request_fails_in_one_of_two_ways() {
    assert_eq!(Error::of_request(true), Error::MalformedResponse);
    assert_eq!(Error::of_request(false), Error::NetworkError);
}
