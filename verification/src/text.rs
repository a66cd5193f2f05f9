//! Text helpers: decimal numbers, lowercase, substrings.

use vstd::prelude::*;
use vstd::string::StringExecFns;

verus! {

/// The texts of a list of strings.
pub open spec fn texts(parts: Seq<String>) -> Seq<Seq<char>> {
    parts.map_values(|part: String| part@)
}

/// The character of one decimal digit.
pub open spec fn digit_char(digit: int) -> char {
    ('0' as int + digit) as char
}

/// A natural number in decimal, without leading zeros.
pub open spec fn decimal_digits(n: nat) -> Seq<char>
    decreases n,
{
    if n < 10 {
        seq![digit_char(n as int)]
    } else {
        decimal_digits(n / 10).push(digit_char((n % 10) as int))
    }
}

/// An integer in decimal, with `-` in front of a negative one.
pub open spec fn decimal(n: int) -> Seq<char> {
    if n < 0 {
        seq!['-'] + decimal_digits((-n) as nat)
    } else {
        decimal_digits(n as nat)
    }
}

/// The text of one decimal digit.
fn digit_str(digit: u8) -> (text: &'static str)
    requires
        digit < 10,
    ensures
        text@ == seq![digit_char(digit as int)],
{
    proof {
        reveal_strlit("0");
        reveal_strlit("1");
        reveal_strlit("2");
        reveal_strlit("3");
        reveal_strlit("4");
        reveal_strlit("5");
        reveal_strlit("6");
        reveal_strlit("7");
        reveal_strlit("8");
        reveal_strlit("9");
    }
    let text = match digit {
        0 => "0",
        1 => "1",
        2 => "2",
        3 => "3",
        4 => "4",
        5 => "5",
        6 => "6",
        7 => "7",
        8 => "8",
        _ => "9",
    };
    assert(text@ =~= seq![digit_char(digit as int)]);
    text
}

/// The characters of digits that are listed from the least significant one.
spec fn digits_text(low_first: Seq<u8>) -> Seq<char> {
    Seq::new(low_first.len(), |i: int| digit_char(low_first[low_first.len() - 1 - i] as int))
}

/// Writes a natural number in decimal.
fn magnitude_string(n: u128) -> (text: String)
    ensures
        text@ == decimal_digits(n as nat),
{
    let mut low_first: Vec<u8> = Vec::new();
    let mut rest: u128 = n;
    while rest >= 10
        invariant
            decimal_digits(n as nat) == decimal_digits(rest as nat) + digits_text(low_first@),
            forall|i: int| 0 <= i < low_first@.len() ==> low_first@[i] < 10,
        decreases rest,
    {
        let digit: u8 = (rest % 10) as u8;
        proof {
            let ghost longer = low_first@.push(digit);
            assert(decimal_digits(rest as nat) == decimal_digits((rest / 10) as nat).push(
                digit_char(digit as int),
            ));
            assert(seq![digit_char(digit as int)] + digits_text(low_first@) =~= digits_text(
                longer,
            ));
            assert(decimal_digits((rest / 10) as nat).push(digit_char(digit as int))
                + digits_text(low_first@) =~= decimal_digits((rest / 10) as nat) + digits_text(
                longer,
            ));
        }
        low_first.push(digit);
        rest = rest / 10;
    }
    let mut text = String::from_str(digit_str(rest as u8));
    let mut left: usize = low_first.len();
    while left > 0
        invariant
            left <= low_first@.len(),
            forall|i: int| 0 <= i < low_first@.len() ==> low_first@[i] < 10,
            text@ == decimal_digits(rest as nat) + digits_text(low_first@).take(
                low_first@.len() - left,
            ),
        decreases left,
    {
        left = left - 1;
        let ghost done = low_first@.len() - left;
        assert(digits_text(low_first@).take(done) =~= digits_text(low_first@).take(done - 1).push(
            digit_char(low_first@[left as int] as int),
        ));
        text.append(digit_str(low_first[left]));
    }
    assert(digits_text(low_first@).take(low_first@.len() as int) =~= digits_text(low_first@));
    text
}

/// Writes an integer in decimal.
pub fn decimal_string(n: i128) -> (text: String)
    ensures
        text@ == decimal(n as int),
{
    if n < 0 {
        let magnitude: u128 = ((-(n + 1)) as u128) + 1;
        proof {
            reveal_strlit("-");
            assert("-"@ =~= seq!['-']);
        }
        String::from_str("-").concat(magnitude_string(magnitude).as_str())
    } else {
        magnitude_string(n as u128)
    }
}

/// The lowercase form of a text under the Unicode case mapping.
pub uninterp spec fn lowercase(text: Seq<char>) -> Seq<char>;

/// `str::to_lowercase`.
///
/// Trusted: the result depends on the characters of the text alone; it is
/// given the name [`lowercase`].
#[verifier::external_body]
pub(crate) fn to_lowercase(text: &str) -> (lower: String)
    ensures
        lower@ == lowercase(text@),
{
    text.to_lowercase()
}

/// `part` occurs in `text` as a run of neighbouring characters.
pub open spec fn has_substring(text: Seq<char>, part: Seq<char>) -> bool {
    exists|start: int|
        0 <= start <= text.len() - part.len() && #[trigger] text.subrange(
            start,
            start + part.len(),
        ) == part
}

/// The characters of a text, one by one.
pub fn characters(text: &str) -> (chars: Vec<char>)
    ensures
        chars@ == text@,
{
    let mut chars: Vec<char> = Vec::new();
    for c in it: text.chars()
        invariant
            it.seq() == text@,
            chars@ == it.seq().take(it.index() as int),
    {
        assert(it.seq().take(it.index() + 1) =~= it.seq().take(it.index() as int).push(c));
        chars.push(c);
    }
    assert(text@.take(text@.len() as int) =~= text@);
    chars
}

/// Whether `part` stands in `text` at the position `start`.
fn occurs_at(text: &Vec<char>, part: &Vec<char>, start: usize) -> (here: bool)
    requires
        start + part@.len() <= text@.len(),
    ensures
        here == (text@.subrange(start as int, start + part@.len()) == part@),
{
    let ghost window = text@.subrange(start as int, start + part@.len());
    let length: usize = text.len();
    let mut k: usize = 0;
    while k < part.len()
        invariant
            k <= part@.len(),
            start + part@.len() <= text@.len() == length,
            window == text@.subrange(start as int, start + part@.len()),
            forall|j: int| 0 <= j < k ==> window[j] == part@[j],
        decreases part@.len() - k,
    {
        if text[start + k] != part[k] {
            assert(window[k as int] != part@[k as int]);
            return false;
        }
        k = k + 1;
    }
    assert(window =~= part@);
    true
}

/// Whether `part` occurs in `text`.
pub fn contains(text: &str, part: &str) -> (found: bool)
    ensures
        found == has_substring(text@, part@),
{
    let hay = characters(text);
    let needle = characters(part);
    if needle.len() > hay.len() {
        return false;
    }
    let last: usize = hay.len() - needle.len();
    let mut start: usize = 0;
    loop
        invariant
            hay@ == text@,
            needle@ == part@,
            last == hay@.len() - needle@.len(),
            start <= last,
            forall|earlier: int|
                0 <= earlier < start ==> #[trigger] hay@.subrange(
                    earlier,
                    earlier + needle@.len(),
                ) != needle@,
        decreases last - start,
    {
        if occurs_at(&hay, &needle, start) {
            return true;
        }
        if start == last {
            return false;
        }
        start = start + 1;
    }
}

} // verus!
