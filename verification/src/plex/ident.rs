//! The identifiers of an installation and of a session.

use vstd::prelude::*;
use crate::plex::headers::{lemma_visible_ascii_sendable, sendable};

verus! {

/// A lower-case hexadecimal digit.
pub open spec fn is_lower_hex(c: char) -> bool {
    ('0' <= c <= '9') || ('a' <= c <= 'f')
}

/// What stands at place `i` of a hyphenated identifier: a hyphen after the
/// groups of 8, 4, 4 and 4 digits, a digit elsewhere.
pub open spec fn fits_uuid_place(i: int, c: char) -> bool {
    if i == 8 || i == 13 || i == 18 || i == 23 {
        c == '-'
    } else {
        is_lower_hex(c)
    }
}

/// The text of a random (version 4) identifier: 36 characters in five
/// groups of lower-case digits, the version 4 leading the third group and
/// the variant, one of `8 9 a b`, leading the fourth.
pub open spec fn is_uuid_text(text: Seq<char>) -> bool {
    &&& text.len() == 36
    &&& forall|i: int| 0 <= i < 36 ==> fits_uuid_place(i, #[trigger] text[i])
    &&& text[14] == '4'
    &&& (text[19] == '8' || text[19] == '9' || text[19] == 'a' || text[19] == 'b')
}

/// `uuid::Uuid::new_v4` written out by its `Display`: a fresh random
/// identifier in hyphenated lower-case form. Which one it is depends on
/// chance; only its shape is known.
#[verifier::external_body]
pub(crate) fn default_session() -> (id: String)
    ensures
        is_uuid_text(id@),
{
    uuid::Uuid::new_v4().to_string()
}

/// An identifier of that shape can be sent as a header value.
pub proof fn lemma_uuid_sendable(text: Seq<char>)
    requires
        is_uuid_text(text),
    ensures
        sendable(text),
{
    assert forall|i: int| 0 <= i < text.len() implies ' ' <= #[trigger] text[i] <= '~' by {
        assert(fits_uuid_place(i, text[i]));
    }
    lemma_visible_ascii_sendable(text);
}

} // verus!
