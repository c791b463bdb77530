//! The identification headers that every request to the media server
//! carries, held in the header map of the HTTP client.

use vstd::prelude::*;
use vstd::utf8::{encode_utf8, is_ascii_chars, is_ascii_chars_encode_utf8};
use reqwest::header::{HeaderMap, HeaderValue, InvalidHeaderValue};
use crate::error::Error;

verus! {

/// `reqwest::header::HeaderMap`, the client's map from header names to values.
#[verifier::external_type_specification]
#[verifier::external_body]
#[verifier::reject_recursive_types(T)]
pub struct ExHeaderMap<T>(HeaderMap<T>);

/// `reqwest::header::HeaderValue`, the bytes of one header value.
#[verifier::external_type_specification]
#[verifier::external_body]
pub struct ExHeaderValue(HeaderValue);

/// `reqwest::header::InvalidHeaderValue`, the error of a refused value.
#[verifier::external_type_specification]
#[verifier::external_body]
pub struct ExInvalidHeaderValue(InvalidHeaderValue);

/// What a header map holds: under each name, in lower case, the bytes of the
/// first value stored for it.
pub uninterp spec fn header_entries(map: HeaderMap<HeaderValue>) -> Map<Seq<char>, Seq<u8>>;

/// The bytes that a header value holds.
pub uninterp spec fn header_value_bytes(value: HeaderValue) -> Seq<u8>;

/// A byte that a header value may hold: no control character but the tab.
pub open spec fn is_value_byte(byte: u8) -> bool {
    (byte >= 32 && byte != 127) || byte == 9
}

/// Whether a text can be sent as a header value: every byte of its UTF-8
/// form is one that a header value may hold.
pub open spec fn sendable(text: Seq<char>) -> bool {
    forall|i: int| 0 <= i < encode_utf8(text).len() ==> is_value_byte(#[trigger] encode_utf8(text)[i])
}

/// A character of the header names used here: a letter, a digit or a hyphen.
pub open spec fn is_name_char(c: char) -> bool {
    ('a' <= c <= 'z') || ('A' <= c <= 'Z') || ('0' <= c <= '9') || c == '-'
}

/// A header name of at most 64 such characters.
pub open spec fn is_header_name(name: Seq<char>) -> bool {
    1 <= name.len() <= 64 && forall|i: int| 0 <= i < name.len() ==> is_name_char(#[trigger] name[i])
}

/// The lower-case form of an ASCII letter; any other character as it is.
pub open spec fn lower(c: char) -> char {
    if 'A' <= c <= 'Z' {
        ((c as u8) + 32) as char
    } else {
        c
    }
}

/// A name in lower case, as a header map files it.
pub open spec fn lowercase(name: Seq<char>) -> Seq<char> {
    Seq::new(name.len(), |i: int| lower(name[i]))
}

/// No header at all.
pub open spec fn no_headers() -> Map<Seq<char>, Seq<u8>> {
    Map::empty()
}

/// `HeaderMap::new`: a map that holds nothing.
#[verifier::external_body]
fn header_map_new() -> (map: HeaderMap<HeaderValue>)
    ensures
        header_entries(map) == no_headers(),
{
    HeaderMap::new()
}

/// `HeaderValue::from_str`: accepts a text exactly when every byte of it is
/// one that a header value may hold, and then holds those bytes.
#[verifier::external_body]
fn header_value_from_str(text: &str) -> (parsed: Result<HeaderValue, InvalidHeaderValue>)
    ensures
        parsed is Ok == sendable(text@),
        parsed matches Ok(value) ==> header_value_bytes(value) == encode_utf8(text@),
{
    HeaderValue::from_str(text)
}

/// `HeaderMap::insert` with a static name: files the value under the name in
/// lower case, in the place of whatever stood there. It panics on a name
/// that is no header name, and when the map outgrows its size limit, which
/// lies far above the number of names admitted here.
#[verifier::external_body]
fn header_map_insert(map: &mut HeaderMap<HeaderValue>, name: &'static str, value: HeaderValue)
    requires
        is_header_name(name@),
        header_entries(*old(map)).dom().finite(),
        header_entries(*old(map)).len() < 1024,
    ensures
        header_entries(*final(map)) == header_entries(*old(map)).insert(
            lowercase(name@),
            header_value_bytes(value),
        ),
{
    map.insert(name, value);
}

/// The product on whose behalf the requests are made, and the machine it
/// runs on.
#[derive(Debug)]
pub struct Product {
    pub name: String,
    pub version: String,
    pub platform: String,
    pub platform_version: String,
}

pub struct ProductView {
    pub name: Seq<char>,
    pub version: Seq<char>,
    pub platform: Seq<char>,
    pub platform_version: Seq<char>,
}

impl View for Product {
    type V = ProductView;

    open spec fn view(&self) -> ProductView {
        ProductView {
            name: self.name@,
            version: self.version@,
            platform: self.platform@,
            platform_version: self.platform_version@,
        }
    }
}

impl Clone for Product {
    fn clone(&self) -> (copy: Self)
        ensures
            copy == *self,
    {
        Product {
            name: self.name.clone(),
            version: self.version.clone(),
            platform: self.platform.clone(),
            platform_version: self.platform_version.clone(),
        }
    }
}

impl Product {
    pub fn new(name: String, version: String, platform: String, platform_version: String) -> (product:
        Self)
        ensures
            product.name == name,
            product.version == version,
            product.platform == platform,
            product.platform_version == platform_version,
    {
        Product { name, version, platform, platform_version }
    }
}

/// The seconds after which a request to the media server is given up.
pub const REQUEST_TIMEOUT_SECS: u64 = 5;

/// Whether everything that identifies a session can be sent in a header.
pub open spec fn identity_sendable(
    client_ident: Seq<char>,
    session_token: Seq<char>,
    user_token: Option<Seq<char>>,
    product: ProductView,
) -> bool {
    &&& sendable(product.platform)
    &&& sendable(product.platform_version)
    &&& sendable(product.name)
    &&& sendable(client_ident)
    &&& sendable(product.version)
    &&& sendable(session_token)
    &&& (user_token matches Some(token) ==> sendable(token))
}

/// The headers of a request: what is accepted and provided, the platform
/// and product, the installation and the session, and the user token once
/// there is one.
pub open spec fn request_headers(
    client_ident: Seq<char>,
    session_token: Seq<char>,
    user_token: Option<Seq<char>>,
    product: ProductView,
) -> Map<Seq<char>, Seq<u8>> {
    let fixed = no_headers().insert("accept"@, encode_utf8("application/json"@)).insert(
        "x-plex-provides"@,
        encode_utf8("player"@),
    ).insert("x-plex-platform"@, encode_utf8(product.platform)).insert(
        "x-plex-platform-version"@,
        encode_utf8(product.platform_version),
    ).insert("x-plex-client-name"@, encode_utf8(product.name)).insert(
        "x-plex-client-identifier"@,
        encode_utf8(client_ident),
    ).insert("x-plex-version"@, encode_utf8(product.version)).insert(
        "x-plex-product"@,
        encode_utf8(product.name),
    ).insert("x-plex-session-identifier"@, encode_utf8(session_token));
    match user_token {
        Some(token) => fixed.insert("x-plex-token"@, encode_utf8(token)),
        None => fixed,
    }
}

/// A text of visible ASCII characters can be sent as a header value.
pub proof fn lemma_visible_ascii_sendable(text: Seq<char>)
    requires
        forall|i: int| 0 <= i < text.len() ==> ' ' <= #[trigger] text[i] <= '~',
    ensures
        sendable(text),
{
    assert(is_ascii_chars(text));
    is_ascii_chars_encode_utf8(text);
    assert forall|i: int| 0 <= i < encode_utf8(text).len() implies is_value_byte(
        #[trigger] encode_utf8(text)[i],
    ) by {
        assert(text[i] as u8 == encode_utf8(text)[i]);
        assert(' ' <= text[i] <= '~');
    }
}

/// Files `text` under `name`, or refuses it and leaves the map as it was.
fn put_header(map: &mut HeaderMap<HeaderValue>, name: &'static str, text: &str) -> (done: Result<
    (),
    Error,
>)
    requires
        is_header_name(name@),
        header_entries(*old(map)).dom().finite(),
        header_entries(*old(map)).len() < 1024,
    ensures
        header_entries(*final(map)).dom().finite(),
        header_entries(*final(map)).len() <= header_entries(*old(map)).len() + 1,
        sendable(text@) ==> done is Ok && header_entries(*final(map)) == header_entries(
            *old(map),
        ).insert(lowercase(name@), encode_utf8(text@)),
        !sendable(text@) ==> done == Err::<(), Error>(Error::InvalidHeader) && header_entries(
            *final(map),
        ) == header_entries(*old(map)),
{
    match header_value_from_str(text) {
        Ok(value) => {
            header_map_insert(map, name, value);
            Ok(())
        },
        Err(_) => Err(Error::InvalidHeader),
    }
}

/// The header names of a request are well formed, and this is how a header
/// map files them.
proof fn lemma_header_names()
    ensures
        is_header_name("Accept"@) && lowercase("Accept"@) == "accept"@,
        is_header_name("X-Plex-Provides"@) && lowercase("X-Plex-Provides"@) == "x-plex-provides"@,
        is_header_name("X-Plex-Platform"@) && lowercase("X-Plex-Platform"@) == "x-plex-platform"@,
        is_header_name("X-Plex-Platform-Version"@) && lowercase("X-Plex-Platform-Version"@)
            == "x-plex-platform-version"@,
        is_header_name("X-Plex-Client-Name"@) && lowercase("X-Plex-Client-Name"@)
            == "x-plex-client-name"@,
        is_header_name("X-Plex-Client-Identifier"@) && lowercase("X-Plex-Client-Identifier"@)
            == "x-plex-client-identifier"@,
        is_header_name("X-Plex-Version"@) && lowercase("X-Plex-Version"@) == "x-plex-version"@,
        is_header_name("X-Plex-Product"@) && lowercase("X-Plex-Product"@) == "x-plex-product"@,
        is_header_name("X-Plex-Session-Identifier"@) && lowercase("X-Plex-Session-Identifier"@)
            == "x-plex-session-identifier"@,
        is_header_name("X-Plex-Token"@) && lowercase("X-Plex-Token"@) == "x-plex-token"@,
{
    reveal_strlit("Accept");
    reveal_strlit("accept");
    assert(lowercase("Accept"@) =~= "accept"@);
    reveal_strlit("X-Plex-Provides");
    reveal_strlit("x-plex-provides");
    assert(lowercase("X-Plex-Provides"@) =~= "x-plex-provides"@);
    reveal_strlit("X-Plex-Platform");
    reveal_strlit("x-plex-platform");
    assert(lowercase("X-Plex-Platform"@) =~= "x-plex-platform"@);
    reveal_strlit("X-Plex-Platform-Version");
    reveal_strlit("x-plex-platform-version");
    assert(lowercase("X-Plex-Platform-Version"@) =~= "x-plex-platform-version"@);
    reveal_strlit("X-Plex-Client-Name");
    reveal_strlit("x-plex-client-name");
    assert(lowercase("X-Plex-Client-Name"@) =~= "x-plex-client-name"@);
    reveal_strlit("X-Plex-Client-Identifier");
    reveal_strlit("x-plex-client-identifier");
    assert(lowercase("X-Plex-Client-Identifier"@) =~= "x-plex-client-identifier"@);
    reveal_strlit("X-Plex-Version");
    reveal_strlit("x-plex-version");
    assert(lowercase("X-Plex-Version"@) =~= "x-plex-version"@);
    reveal_strlit("X-Plex-Product");
    reveal_strlit("x-plex-product");
    assert(lowercase("X-Plex-Product"@) =~= "x-plex-product"@);
    reveal_strlit("X-Plex-Session-Identifier");
    reveal_strlit("x-plex-session-identifier");
    assert(lowercase("X-Plex-Session-Identifier"@) =~= "x-plex-session-identifier"@);
    reveal_strlit("X-Plex-Token");
    reveal_strlit("x-plex-token");
    assert(lowercase("X-Plex-Token"@) =~= "x-plex-token"@);
}

/// The two fixed header values can be sent.
proof fn lemma_fixed_values()
    ensures
        sendable("application/json"@),
        sendable("player"@),
{
    reveal_strlit("application/json");
    reveal_strlit("player");
    lemma_visible_ascii_sendable("application/json"@);
    lemma_visible_ascii_sendable("player"@);
}

/// Builds the headers of a request. Fails with `InvalidHeader`, and only
/// then, when an identifier, the token or a product string cannot be sent
/// as a header value.
pub fn identification_headers(
    client_ident: &str,
    session_token: &str,
    user_token: Option<&str>,
    product: &Product,
) -> (built: Result<HeaderMap<HeaderValue>, Error>)
    ensures
        built is Ok == identity_sendable(
            client_ident@,
            session_token@,
            match user_token {
                Some(token) => Some(token@),
                None => None,
            },
            product@,
        ),
        built matches Ok(map) ==> header_entries(map) == request_headers(
            client_ident@,
            session_token@,
            match user_token {
                Some(token) => Some(token@),
                None => None,
            },
            product@,
        ),
        built matches Err(error) ==> error == Error::InvalidHeader,
{
    proof {
        lemma_header_names();
        lemma_fixed_values();
    }
    let mut map = header_map_new();
    put_header(&mut map, "Accept", "application/json")?;
    put_header(&mut map, "X-Plex-Provides", "player")?;
    put_header(&mut map, "X-Plex-Platform", product.platform.as_str())?;
    put_header(&mut map, "X-Plex-Platform-Version", product.platform_version.as_str())?;
    put_header(&mut map, "X-Plex-Client-Name", product.name.as_str())?;
    put_header(&mut map, "X-Plex-Client-Identifier", client_ident)?;
    put_header(&mut map, "X-Plex-Version", product.version.as_str())?;
    put_header(&mut map, "X-Plex-Product", product.name.as_str())?;
    put_header(&mut map, "X-Plex-Session-Identifier", session_token)?;
    if let Some(token) = user_token {
        put_header(&mut map, "X-Plex-Token", token)?;
    }
    Ok(map)
}

} // verus!
