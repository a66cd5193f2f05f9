//! Decisions of the account tool: which checks a search finds, and how long
//! ago a check was last heard of.

use vstd::prelude::*;
use vstd::string::StringExecFns;
use crate::model::{is_last_segment, Check};
use crate::text::{
    contains, decimal, decimal_string, has_substring, lowercase, texts, to_lowercase,
};

verus! {

/// The error of the parsers of the `time` crate. Nothing is known of its
/// values here.
#[verifier::external_type_specification]
#[verifier::external_body]
pub struct ExParse(time::error::Parse);

/// What can go wrong in a command of the account tool.
#[derive(Clone, Debug, PartialEq, Eq)]
pub enum CommandError {
    /// No check has the search term in its name.
    NoChecksMatched(String),
    /// The checks that a search found have no pings.
    NoPingsMatched(String),
    /// This text is no timestamp as RFC 3339 asks for.
    InvalidTimestamp(String),
    /// Two instants are further apart than can be counted.
    TimeSpanOverflow,
}

/// A [`CommandError`] as mathematical values.
pub enum CommandErrorView {
    NoChecksMatched(Seq<char>),
    NoPingsMatched(Seq<char>),
    InvalidTimestamp(Seq<char>),
    TimeSpanOverflow,
}

impl View for CommandError {
    type V = CommandErrorView;

    open spec fn view(&self) -> CommandErrorView {
        match self {
            CommandError::NoChecksMatched(term) => CommandErrorView::NoChecksMatched(term@),
            CommandError::NoPingsMatched(term) => CommandErrorView::NoPingsMatched(term@),
            CommandError::InvalidTimestamp(text) => CommandErrorView::InvalidTimestamp(text@),
            CommandError::TimeSpanOverflow => CommandErrorView::TimeSpanOverflow,
        }
    }
}

impl CommandError {
    /// The text of [`message`](Self::message).
    pub open spec fn message_text(&self) -> Seq<char> {
        match self {
            CommandError::NoChecksMatched(term) => "No checks matched search term '"@ + term@
                + "'"@,
            CommandError::NoPingsMatched(term) => "No pings matched search term '"@ + term@
                + "'"@,
            CommandError::InvalidTimestamp(text) => "invalid timestamp '"@ + text@ + "'"@,
            CommandError::TimeSpanOverflow => "time span out of range"@,
        }
    }

    /// A description of the error for people.
    pub fn message(&self) -> (text: String)
        ensures
            text@ == self.message_text(),
    {
        match self {
            CommandError::NoChecksMatched(term) => String::from_str(
                "No checks matched search term '",
            ).concat(term.as_str()).concat("'"),
            CommandError::NoPingsMatched(term) => String::from_str(
                "No pings matched search term '",
            ).concat(term.as_str()).concat("'"),
            CommandError::InvalidTimestamp(text) => String::from_str(
                "invalid timestamp '",
            ).concat(text.as_str()).concat("'"),
            CommandError::TimeSpanOverflow => String::from_str("time span out of range"),
        }
    }
}

/// The instant that an RFC 3339 timestamp denotes, in nanoseconds since the
/// Unix epoch; `None` for a text that is no such timestamp.
pub uninterp spec fn rfc3339_instant(text: Seq<char>) -> Option<i128>;

/// Parses a timestamp with `time::OffsetDateTime::parse` in the well-known
/// format `Rfc3339` and takes its `unix_timestamp_nanos`.
///
/// Trusted: whether the text parses and which instant it denotes depends on
/// the text alone; the result is given the name [`rfc3339_instant`].
#[verifier::external_body]
fn parse_rfc3339(text: &str) -> (parsed: Result<i128, time::error::Parse>)
    ensures
        match parsed {
            Ok(nanos) => rfc3339_instant(text@) == Some(nanos),
            Err(_) => rfc3339_instant(text@) is None,
        },
{
    match time::OffsetDateTime::parse(text, &time::format_description::well_known::Rfc3339) {
        Ok(instant) => Ok(instant.unix_timestamp_nanos()),
        Err(error) => Err(error),
    }
}

/// The nanoseconds of a minute.
pub const NANOS_PER_MINUTE: i128 = 60_000_000_000;

/// The nanoseconds of an hour.
pub const NANOS_PER_HOUR: i128 = 3_600_000_000_000;

/// The quotient of `a` by `b`, rounded towards zero.
pub open spec fn truncated_quotient(a: int, b: int) -> int
    recommends
        b > 0,
{
    if a >= 0 {
        a / b
    } else {
        -((-a) / b)
    }
}

/// What is left of `a` after taking out whole multiples of `b`: the
/// remainder of the size of `a`, with the sign of `a`.
pub open spec fn truncated_remainder(a: int, b: int) -> int
    recommends
        b != 0,
{
    if a >= 0 {
        a % b
    } else {
        -((-a) % b)
    }
}

/// The hours shown for a time span: its whole hours.
pub open spec fn shown_hours(elapsed_nanos: int) -> int {
    truncated_quotient(elapsed_nanos, NANOS_PER_HOUR as int)
}

/// The minutes shown for a time span: its whole minutes where it is
/// shorter than an hour, else what is left of the whole minutes after
/// division by the hours.
pub open spec fn shown_minutes(elapsed_nanos: int) -> int {
    let minutes = truncated_quotient(elapsed_nanos, NANOS_PER_MINUTE as int);
    if shown_hours(elapsed_nanos) == 0 {
        minutes
    } else {
        truncated_remainder(minutes, shown_hours(elapsed_nanos))
    }
}

/// What [`human_readable_duration`] gives for an instant and a timestamp.
pub open spec fn duration_text(now_unix_nanos: int, date: Seq<char>) -> Result<
    Seq<char>,
    CommandErrorView,
> {
    match rfc3339_instant(date) {
        None => Err(CommandErrorView::InvalidTimestamp(date)),
        Some(then) => if i128::MIN <= now_unix_nanos - then <= i128::MAX {
            Ok(elapsed_text(now_unix_nanos - then))
        } else {
            Err(CommandErrorView::TimeSpanOverflow)
        },
    }
}

/// The views of a text or of the error in its place.
pub open spec fn text_view(result: Result<String, CommandError>) -> Result<
    Seq<char>,
    CommandErrorView,
> {
    match result {
        Ok(text) => Ok(text@),
        Err(error) => Err(error@),
    }
}

/// How a time span is shown.
pub open spec fn elapsed_text(elapsed_nanos: int) -> Seq<char> {
    decimal(shown_hours(elapsed_nanos)) + " hour(s) and "@ + decimal(
        shown_minutes(elapsed_nanos),
    ) + " minute(s) ago"@
}

/// Describes a time span, given in nanoseconds, in hours and minutes.
pub fn describe_elapsed(elapsed_nanos: i128) -> (text: String)
    ensures
        text@ == elapsed_text(elapsed_nanos as int),
{
    let hours: i128 = elapsed_nanos / NANOS_PER_HOUR;
    let whole_minutes: i128 = elapsed_nanos / NANOS_PER_MINUTE;
    let minutes: i128 = if hours == 0 {
        whole_minutes
    } else {
        whole_minutes % hours
    };
    decimal_string(hours).concat(" hour(s) and ").concat(decimal_string(minutes).as_str()).concat(
        " minute(s) ago",
    )
}

/// Says how long before `now_unix_nanos`, an instant in nanoseconds since
/// the Unix epoch, the RFC 3339 timestamp `date_str` lies.
///
/// # Errors
/// - [`CommandError::InvalidTimestamp`] with `date_str` if it does not parse
/// - [`CommandError::TimeSpanOverflow`] if the distance between the two
///   instants does not fit into 128 bits
pub fn human_readable_duration(now_unix_nanos: i128, date_str: &str) -> (described: Result<
    String,
    CommandError,
>)
    ensures
        text_view(described) == duration_text(now_unix_nanos as int, date_str@),
{
    match parse_rfc3339(date_str) {
        Ok(then) => match now_unix_nanos.checked_sub(then) {
            Some(elapsed) => Ok(describe_elapsed(elapsed)),
            None => Err(CommandError::TimeSpanOverflow),
        },
        Err(_) => Err(CommandError::InvalidTimestamp(date_str.to_owned())),
    }
}

/// Whether a check of this name is found by the search term: the name
/// holds the term, both taken in lowercase.
pub open spec fn name_matches(name: Seq<char>, search_term: Seq<char>) -> bool {
    has_substring(lowercase(name), lowercase(search_term))
}

/// Keeps the checks whose name holds the search term, whatever the case of
/// either, in the order they came in.
///
/// # Errors
/// - [`CommandError::NoChecksMatched`] with the search term if no check is
///   left
pub fn search_checks(checks: Vec<Check>, search_term: &str) -> (found: Result<
    Vec<Check>,
    CommandError,
>)
    ensures
        match found {
            Ok(kept) => kept@ == checks@.filter(
                |check: Check| name_matches(check.name@, search_term@),
            ) && kept@.len() > 0,
            Err(error) => error@ == CommandErrorView::NoChecksMatched(search_term@)
                && checks@.filter(
                |check: Check| name_matches(check.name@, search_term@),
            ).len() == 0,
        },
{
    let lowered_term = to_lowercase(search_term);
    let ghost wanted = |check: Check| name_matches(check.name@, search_term@);
    let mut kept: Vec<Check> = Vec::new();
    for check in it: checks
        invariant
            it.seq() == checks@,
            lowered_term@ == lowercase(search_term@),
            wanted == |check: Check| name_matches(check.name@, search_term@),
            kept@ == it.seq().take(it.index() as int).filter(wanted),
    {
        proof {
            reveal(Seq::filter);
            let ghost seen = it.seq().take(it.index() + 1);
            assert(seen.drop_last() =~= it.seq().take(it.index() as int));
            assert(seen.last() == check);
        }
        let lowered_name = to_lowercase(check.name.as_str());
        if contains(lowered_name.as_str(), lowered_term.as_str()) {
            kept.push(check);
        }
    }
    assert(checks@.take(checks@.len() as int) =~= checks@);
    if kept.is_empty() {
        Err(CommandError::NoChecksMatched(search_term.to_owned()))
    } else {
        Ok(kept)
    }
}

/// Accepts the pings gathered for a search unless there are none.
///
/// # Errors
/// - [`CommandError::NoPingsMatched`] with the search term if `pings` is
///   empty
pub fn matched_pings<T>(pings: Vec<T>, search_term: &str) -> (found: Result<Vec<T>, CommandError>)
    ensures
        match found {
            Ok(kept) => kept == pings && pings@.len() > 0,
            Err(error) => error@ == CommandErrorView::NoPingsMatched(search_term@)
                && pings@.len() == 0,
        },
{
    if pings.is_empty() {
        Err(CommandError::NoPingsMatched(search_term.to_owned()))
    } else {
        Ok(pings)
    }
}

/// How many pings of a check are shown at most.
pub const SHOWN_PINGS: usize = 10;

/// Keeps the pings that are shown: the first [`SHOWN_PINGS`] of the list.
pub fn shown_pings<T>(pings: Vec<T>) -> (shown: Vec<T>)
    ensures
        shown@ == if pings@.len() <= SHOWN_PINGS {
            pings@
        } else {
            pings@.take(SHOWN_PINGS as int)
        },
{
    let mut shown = pings;
    shown.truncate(SHOWN_PINGS);
    assert(shown@ =~= if pings@.len() <= SHOWN_PINGS {
        pings@
    } else {
        pings@.take(SHOWN_PINGS as int)
    });
    shown
}

/// How the number of a ping is shown: `#` and the number in decimal.
pub fn ping_number(n: i64) -> (text: String)
    ensures
        text@ == "#"@ + decimal(n as int),
{
    String::from_str("#").concat(decimal_string(n as i128).as_str())
}

/// The cells that list a check: its identifier, its name and how long ago
/// it last pinged, with `-` for what is not known.
pub open spec fn is_check_row(check: Check, now_unix_nanos: int, cells: Seq<Seq<char>>) -> bool {
    &&& cells.len() == 3
    &&& match check.ping_url {
        Some(url) => is_last_segment(url@, cells[0]),
        None => cells[0] == "-"@,
    }
    &&& cells[1] == check.name@
    &&& match check.last_ping {
        Some(date) => duration_text(now_unix_nanos, date@) == Ok::<Seq<char>, CommandErrorView>(
            cells[2],
        ),
        None => cells[2] == "-"@,
    }
}

/// The error in place of the row of a check: that of describing when it
/// last pinged.
pub open spec fn check_row_error(check: Check, now_unix_nanos: int) -> Option<CommandErrorView> {
    match check.last_ping {
        Some(date) => match duration_text(now_unix_nanos, date@) {
            Ok(_) => None,
            Err(error) => Some(error),
        },
        None => None,
    }
}

/// The row that lists `check`, seen at the instant `now_unix_nanos`.
///
/// # Errors
/// Those of [`human_readable_duration`] on the timestamp of the last ping.
pub fn check_row(check: &Check, now_unix_nanos: i128) -> (row: Result<Vec<String>, CommandError>)
    ensures
        match row {
            Ok(cells) => is_check_row(*check, now_unix_nanos as int, texts(cells@))
                && check_row_error(*check, now_unix_nanos as int) is None,
            Err(error) => check_row_error(*check, now_unix_nanos as int) == Some(error@),
        },
{
    let date = match &check.last_ping {
        Some(date_str) => match human_readable_duration(now_unix_nanos, date_str.as_str()) {
            Ok(text) => text,
            Err(error) => {
                return Err(error);
            },
        },
        None => String::from_str("-"),
    };
    let id = match check.id() {
        Some(id) => id,
        None => String::from_str("-"),
    };
    let mut cells: Vec<String> = Vec::new();
    cells.push(id);
    cells.push(check.name.clone());
    cells.push(date);
    Ok(cells)
}

/// The rows that list `checks`, one for each in their order.
///
/// # Errors
/// The error of the first check whose row cannot be made.
pub fn check_rows(checks: &Vec<Check>, now_unix_nanos: i128) -> (rows: Result<
    Vec<Vec<String>>,
    CommandError,
>)
    ensures
        match rows {
            Ok(list) => list@.len() == checks@.len() && forall|i: int|
                0 <= i < checks@.len() ==> is_check_row(
                    checks@[i],
                    now_unix_nanos as int,
                    texts(#[trigger] list@[i]@),
                ),
            Err(error) => exists|i: int|
                0 <= i < checks@.len() && check_row_error(checks@[i], now_unix_nanos as int)
                    == Some(error@) && forall|j: int|
                    0 <= j < i ==> check_row_error(#[trigger] checks@[j], now_unix_nanos as int)
                        is None,
        },
{
    let mut list: Vec<Vec<String>> = Vec::new();
    let mut i: usize = 0;
    while i < checks.len()
        invariant
            i <= checks@.len(),
            list@.len() == i,
            forall|j: int|
                0 <= j < i ==> is_check_row(
                    checks@[j],
                    now_unix_nanos as int,
                    texts(#[trigger] list@[j]@),
                ),
            forall|j: int|
                0 <= j < i ==> check_row_error(#[trigger] checks@[j], now_unix_nanos as int)
                    is None,
        decreases checks@.len() - i,
    {
        match check_row(&checks[i], now_unix_nanos) {
            Ok(cells) => list.push(cells),
            Err(error) => {
                return Err(error);
            },
        }
        i = i + 1;
    }
    Ok(list)
}

} // verus!
