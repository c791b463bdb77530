//! Where the listings stand in what a server answers: the libraries and
//! the albums come wrapped in a container, each under a member of its own.

use vstd::prelude::*;
use serde_json::Value;
use crate::error::Error;

verus! {

/// `serde_json::Value`, a parsed JSON document.
#[verifier::external_type_specification]
#[verifier::external_body]
pub struct ExValue(Value);

/// The member that a JSON value has under `key`: none where the value is
/// no object, or an object without that key.
pub uninterp spec fn json_member(value: Value, key: Seq<char>) -> Option<Value>;

/// `Value::get` with a string key: the member under that key.
#[verifier::external_body]
fn json_get<'a>(value: &'a Value, key: &str) -> (member: Option<&'a Value>)
    ensures
        member is Some == json_member(*value, key@) is Some,
        member is Some ==> *member->Some_0 == json_member(*value, key@)->Some_0,
{
    value.get(key)
}

/// The member under which a server wraps what it lists.
pub const MEDIA_CONTAINER: &'static str = "MediaContainer";

/// The member of the container that holds the libraries.
pub const DIRECTORY: &'static str = "Directory";

/// The member of the container that holds the albums.
pub const METADATA: &'static str = "Metadata";

/// A member that was looked for, or `MalformedResponse` where it is
/// missing.
pub fn member_or_malformed<'a>(member: Option<&'a Value>) -> (found: Result<&'a Value, Error>)
    ensures
        member is Some ==> found == Ok::<&Value, Error>(member->Some_0),
        member is None ==> found == Err::<&Value, Error>(Error::MalformedResponse),
{
    match member {
        Some(value) => Ok(value),
        None => Err(Error::MalformedResponse),
    }
}

/// What a body holds under `section` of its container.
pub open spec fn section_of(body: Value, section: Seq<char>) -> Option<Value> {
    match json_member(body, MEDIA_CONTAINER@) {
        Some(container) => json_member(container, section),
        None => None,
    }
}

/// The listing that stands under `section` of the container of `body`.
/// Fails with `MalformedResponse` where the body has no container or the
/// container no such section.
pub fn media_section<'a>(body: &'a Value, section: &str) -> (listing: Result<&'a Value, Error>)
    ensures
        listing is Ok == section_of(*body, section@) is Some,
        listing is Ok ==> *listing->Ok_0 == section_of(*body, section@)->Some_0,
        listing is Err ==> listing->Err_0 == Error::MalformedResponse,
{
    let container = member_or_malformed(json_get(body, MEDIA_CONTAINER))?;
    member_or_malformed(json_get(container, section))
}

/// The listing of libraries in `body`.
pub fn libraries_section<'a>(body: &'a Value) -> (listing: Result<&'a Value, Error>)
    ensures
        listing is Ok == section_of(*body, DIRECTORY@) is Some,
        listing is Ok ==> *listing->Ok_0 == section_of(*body, DIRECTORY@)->Some_0,
        listing is Err ==> listing->Err_0 == Error::MalformedResponse,
{
    media_section(body, DIRECTORY)
}

/// The listing of albums in `body`.
pub fn albums_section<'a>(body: &'a Value) -> (listing: Result<&'a Value, Error>)
    ensures
        listing is Ok == section_of(*body, METADATA@) is Some,
        listing is Ok ==> *listing->Ok_0 == section_of(*body, METADATA@)->Some_0,
        listing is Err ==> listing->Err_0 == Error::MalformedResponse,
{
    media_section(body, METADATA)
}

} // verus!
