//! The identifier under which an event is addressed from outside.
//!
//! The 128 bits are held as a plain integer; reading an identifier out of a
//! text, writing it as text and drawing a fresh one are left to the `uuid`
//! crate.

use crate::text::Text;
use vstd::prelude::*;

verus! {

/// The identifier that `uuid::Uuid::parse_str` reads out of `text`, as a
/// big-endian integer; `None` where it reads none.
pub uninterp spec fn uuid_value(text: Seq<char>) -> Option<u128>;

/// The sixteen digits of the text form, in the order of their values.
pub open spec fn hex_digits() -> Seq<char> {
    "0123456789abcdef"@
}

/// The hexadecimal digit of `value` at `index`, the most significant being
/// at 0 and the least at 31.
pub open spec fn nibble(value: u128, index: int) -> int {
    ((value >> ((4 * (31 - index)) as u128)) & 0xf) as int
}

/// Whether a hyphen stands at the place `at` of the text form.
pub open spec fn is_hyphen_at(at: int) -> bool {
    at == 8 || at == 13 || at == 18 || at == 23
}

/// How many hyphens stand before the place `at` of the text form.
pub open spec fn hyphens_before(at: int) -> int {
    if at > 23 {
        4
    } else if at > 18 {
        3
    } else if at > 13 {
        2
    } else if at > 8 {
        1
    } else {
        0
    }
}

/// The text form of the identifier `value`: its 32 hexadecimal digits in
/// lower case, the most significant first, in groups of 8, 4, 4, 4 and 12
/// with a hyphen between the groups.
pub open spec fn uuid_text(value: u128) -> Seq<char> {
    Seq::new(
        36,
        |at: int|
            if is_hyphen_at(at) {
                '-'
            } else {
                hex_digits()[nibble(value, at - hyphens_before(at))]
            },
    )
}

/// Whether `value` carries the version and variant bits of a random (version
/// 4) identifier.
pub open spec fn is_random(value: u128) -> bool {
    value & 0x0000_0000_0000_f000_c000_0000_0000_0000u128
        == 0x0000_0000_0000_4000_8000_0000_0000_0000u128
}

/// Calls `uuid::Uuid::parse_str` and hands the identifier back as an integer
/// (`Uuid::as_u128`). Nothing is claimed of which texts are accepted: the
/// result is only given its name.
#[verifier::external_body]
fn parse_str(text: &str) -> (value: Option<u128>)
    ensures
        value == uuid_value(text@),
{
    match uuid::Uuid::parse_str(text) {
        Ok(id) => Some(id.as_u128()),
        Err(_) => None,
    }
}

/// Calls the `Display` impl of `uuid::Uuid` on the identifier made by
/// `Uuid::from_u128`. Claimed: the text is the hyphenated form in lower
/// case, and `parse_str` reads the same identifier back out of it, as the
/// crate documents of every format that it writes.
#[verifier::external_body]
fn to_hyphenated(value: u128) -> (text: String)
    ensures
        text@ == uuid_text(value),
        uuid_value(text@) == Some(value),
{
    uuid::Uuid::from_u128(value).to_string()
}

/// Calls `uuid::Uuid::new_v4`. The bits are random; claimed is only that the
/// version and variant bits are those of a version 4 identifier, which the
/// function sets on every draw. The call panics where the system has no
/// random bytes to give.
#[verifier::external_body]
fn new_v4() -> (value: u128)
    ensures
        is_random(value),
{
    uuid::Uuid::new_v4().as_u128()
}

/// An event's identifier.
#[derive(Clone, Copy, Debug, PartialEq, Eq, Structural)]
pub struct EventUuid {
    /// The 128 bits, most significant first.
    pub value: u128,
}

impl EventUuid {
    /// The text form under which the identifier is stored and shown.
    pub open spec fn text(self) -> Text {
        uuid_text(self.value)
    }

    /// Reads an identifier out of `text`.
    pub fn parse(text: &str) -> (id: Option<EventUuid>)
        ensures
            id == parsed(text@),
    {
        match parse_str(text) {
            Some(value) => Some(EventUuid { value }),
            None => None,
        }
    }

    /// Writes the identifier as text.
    pub fn to_text(&self) -> (text: String)
        ensures
            text@ == self.text(),
            parsed(text@) == Some(*self),
    {
        to_hyphenated(self.value)
    }

    /// Draws a fresh random identifier.
    pub fn generate() -> (id: EventUuid)
        ensures
            is_random(id.value),
    {
        EventUuid { value: new_v4() }
    }
}

/// The identifier that `text` stands for, if it stands for one.
pub open spec fn parsed(text: Text) -> Option<EventUuid> {
    match uuid_value(text) {
        Some(value) => Some(EventUuid { value }),
        None => None,
    }
}

/// The text form holds no comma and is not empty, so that identifiers can
/// stand in a list with commas between them.
pub proof fn text_has_no_comma(value: u128)
    ensures
        uuid_text(value).len() == 36,
        forall|at: int| 0 <= at < 36 ==> uuid_text(value)[at] != ',',
{
    reveal_strlit("0123456789abcdef");
    assert forall|at: int| 0 <= at < 36 implies uuid_text(value)[at] != ',' by {
        if !is_hyphen_at(at) {
            let shift = (4 * (31 - (at - hyphens_before(at)))) as u128;
            assert((value >> shift) & 0xf < 16) by (bit_vector);
        }
    }
}

} // verus!
