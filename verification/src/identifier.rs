//! Textual UUIDs: which strings name a check, and how a run identifier is
//! written into a URL.

use vstd::prelude::*;

verus! {

/// An ASCII hexadecimal digit of either case.
pub open spec fn is_hex_digit(c: char) -> bool {
    ('0' <= c && c <= '9') || ('a' <= c && c <= 'f') || ('A' <= c && c <= 'F')
}

/// The 32 digit form without separators.
pub open spec fn is_simple_uuid(s: Seq<char>) -> bool {
    s.len() == 32 && forall|i: int| 0 <= i < 32 ==> is_hex_digit(#[trigger] s[i])
}

/// Positions of the four separators in the 36 character form.
pub open spec fn is_hyphen_position(i: int) -> bool {
    i == 8 || i == 13 || i == 18 || i == 23
}

/// The 36 character form: digits grouped 8-4-4-4-12 with `-` between groups.
pub open spec fn is_hyphenated_uuid(s: Seq<char>) -> bool {
    &&& s.len() == 36
    &&& forall|i: int|
        0 <= i < 36 ==> if is_hyphen_position(i) {
            #[trigger] s[i] == '-'
        } else {
            is_hex_digit(s[i])
        }
}

/// The hyphenated form wrapped in braces.
pub open spec fn is_braced_uuid(s: Seq<char>) -> bool {
    s.len() == 38 && s[0] == '{' && s[37] == '}' && is_hyphenated_uuid(s.subrange(1, 37))
}

/// `urn:uuid:` in any mix of ASCII upper and lower case.
pub open spec fn is_urn_prefix(s: Seq<char>) -> bool {
    &&& s.len() == 9
    &&& (s[0] == 'u' || s[0] == 'U')
    &&& (s[1] == 'r' || s[1] == 'R')
    &&& (s[2] == 'n' || s[2] == 'N')
    &&& s[3] == ':'
    &&& (s[4] == 'u' || s[4] == 'U')
    &&& (s[5] == 'u' || s[5] == 'U')
    &&& (s[6] == 'i' || s[6] == 'I')
    &&& (s[7] == 'd' || s[7] == 'D')
    &&& s[8] == ':'
}

/// The hyphenated form behind a `urn:uuid:` prefix.
pub open spec fn is_urn_uuid(s: Seq<char>) -> bool {
    s.len() == 45 && is_urn_prefix(s.subrange(0, 9)) && is_hyphenated_uuid(s.subrange(9, 45))
}

/// The strings that are accepted as a UUID: simple, hyphenated, braced or URN.
pub open spec fn is_uuid_text(s: Seq<char>) -> bool {
    is_simple_uuid(s) || is_hyphenated_uuid(s) || is_braced_uuid(s) || is_urn_uuid(s)
}

/// Calls [`uuid::Uuid::parse_str`] and keeps only whether it succeeded.
///
/// Trusted: the parser accepts exactly the four textual forms of
/// [`is_uuid_text`]. It dispatches on the byte length (32, 36, 38, 45), checks
/// braces, prefix and hyphen positions, and rejects any byte that is not an
/// ASCII hexadecimal digit, so an accepted text is pure ASCII and its
/// characters are its bytes.
#[verifier::external_body]
fn parses_as_uuid(text: &str) -> (accepted: bool)
    ensures
        accepted == is_uuid_text(text@),
{
    uuid::Uuid::parse_str(text).is_ok()
}

/// Whether `text` is a UUID in one of the accepted textual forms.
pub fn is_uuid(text: &str) -> (accepted: bool)
    ensures
        accepted == is_uuid_text(text@),
{
    parses_as_uuid(text)
}

/// The lowercase hexadecimal digit for a value below sixteen.
pub open spec fn hex_char(nibble: int) -> char {
    if nibble < 10 {
        ('0' as int + nibble) as char
    } else {
        ('a' as int + nibble - 10) as char
    }
}

/// The lowest `count` hexadecimal digits of `value`, most significant first.
pub open spec fn hex_digits(value: nat, count: nat) -> Seq<char>
    decreases count,
{
    if count == 0 {
        Seq::empty()
    } else {
        hex_digits(value / 16, (count - 1) as nat).push(hex_char((value % 16) as int))
    }
}

/// The canonical text of a 128-bit UUID: 32 lowercase hexadecimal digits,
/// most significant first, grouped 8-4-4-4-12 with `-` between groups.
pub open spec fn hyphenated(value: u128) -> Seq<char> {
    let digits = hex_digits(value as nat, 32);
    digits.subrange(0, 8) + seq!['-'] + digits.subrange(8, 12) + seq!['-'] + digits.subrange(
        12,
        16,
    ) + seq!['-'] + digits.subrange(16, 20) + seq!['-'] + digits.subrange(20, 32)
}

/// Formats a UUID through the `Display` impl of [`uuid::Uuid`].
///
/// Trusted: `Display` writes the hyphenated lowercase form of the value that
/// `Uuid::from_u128` stores big-endian, which is [`hyphenated`].
#[verifier::external_body]
fn display_uuid(value: u128) -> (text: String)
    ensures
        text@ == hyphenated(value),
{
    uuid::Uuid::from_u128(value).to_string()
}

/// Identifies one execution of a job, so that the service can pair the start
/// of a run with its end when runs of the same check overlap.
///
/// It is the 128-bit value of a UUID that the caller generated.
#[derive(Clone, Copy, Debug, PartialEq, Eq, Structural)]
pub struct RunId {
    pub value: u128,
}

impl RunId {
    /// The run identifier with the given 128-bit value.
    pub fn from_u128(value: u128) -> (id: RunId)
        ensures
            id.value == value,
    {
        RunId { value }
    }

    /// The 128-bit value of this identifier.
    pub fn as_u128(&self) -> (value: u128)
        ensures
            value == self.value,
    {
        self.value
    }

    /// The identifier as it is written into a URL.
    pub fn to_text(&self) -> (text: String)
        ensures
            text@ == hyphenated(self.value),
    {
        display_uuid(self.value)
    }
}

/// `hex_digits` yields exactly `count` characters, each a hexadecimal digit.
pub proof fn lemma_hex_digits(value: nat, count: nat)
    ensures
        hex_digits(value, count).len() == count,
        forall|i: int| 0 <= i < count ==> is_hex_digit(#[trigger] hex_digits(value, count)[i]),
    decreases count,
{
    if count > 0 {
        lemma_hex_digits(value / 16, (count - 1) as nat);
    }
}

/// The text of every run identifier is itself a UUID in hyphenated form.
pub proof fn lemma_hyphenated_is_uuid_text(value: u128)
    ensures
        is_hyphenated_uuid(hyphenated(value)),
        is_uuid_text(hyphenated(value)),
{
    lemma_hex_digits(value as nat, 32);
    let digits = hex_digits(value as nat, 32);
    let text = hyphenated(value);
    assert(text.len() == 36);
    assert forall|i: int| 0 <= i < 36 implies if is_hyphen_position(i) {
        #[trigger] text[i] == '-'
    } else {
        is_hex_digit(text[i])
    } by {
        if i < 8 {
            assert(text[i] == digits[i]);
        } else if i == 8 {
        } else if i < 13 {
            assert(text[i] == digits[i - 1]);
        } else if i == 13 {
        } else if i < 18 {
            assert(text[i] == digits[i - 2]);
        } else if i == 18 {
        } else if i < 23 {
            assert(text[i] == digits[i - 3]);
        } else if i == 23 {
        } else {
            assert(text[i] == digits[i - 4]);
        }
    }
}

} // verus!
