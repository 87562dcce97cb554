//! The schedule: its talks, and how a day's talks are read.
//!
//! A day's talks come in one of two forms. The structured form is a list of
//! `TalkRecord`s, which the caller has read from a document; `get_talks`
//! checks them. The line form is a text with one talk on each line, its
//! title and its start; `read_lines` reads it, and `read_talks` gives the
//! titles alone. Either form gives all talks of the day or the first reason
//! why it gives none.

use crate::devoxx::model::{
    checked, instant_in, time_check, Instant, Talk, TalkRecord, TalkView, ValidationError,
};
use crate::devoxx::time::parse_instant;
use crate::devoxx::weekday::Weekday;
use crate::text::{chars_of, find, index_of, lemma_index_of, opt_text, text_between};
use vstd::prelude::*;

pub mod model;
pub mod time;
pub mod weekday;

verus! {

/// Why a line of the line form is no record.
#[derive(Clone, Copy, Debug, PartialEq, Eq, Structural)]
pub enum LineError {
    /// The line has no second field.
    MissingTimestamp,
    /// The second field is no timestamp.
    InvalidTimestamp,
}

/// Why the talks of a day could not be had.
#[derive(Debug, PartialEq, Eq)]
pub enum LoadError {
    /// The source could not be read; with what it reported.
    Unavailable(String),
    /// What was read is no document of talk records; with what the reader
    /// reported.
    Malformed(String),
    /// The record at this position does not make a talk.
    InvalidRecord(usize, ValidationError),
    /// The line at this position is no record.
    InvalidLine(usize, LineError),
}

/// The name under which a source keeps the talks of a day: the English name
/// of the day in small letters. Saturday and Sunday go by Monday's name.
pub open spec fn day_name_text(day: Weekday) -> Seq<char> {
    match day {
        Weekday::Mon => "monday"@,
        Weekday::Tue => "tuesday"@,
        Weekday::Wed => "wednesday"@,
        Weekday::Thu => "thursday"@,
        Weekday::Fri => "friday"@,
        Weekday::Sat => "monday"@,
        Weekday::Sun => "monday"@,
    }
}

/// The name under which a source keeps the talks of a day.
pub fn day_name(day: &Weekday) -> (name: &'static str)
    ensures
        name@ == day_name_text(*day),
{
    match day {
        Weekday::Mon => "monday",
        Weekday::Tue => "tuesday",
        Weekday::Wed => "wednesday",
        Weekday::Thu => "thursday",
        Weekday::Fri => "friday",
        _ => "monday",
    }
}

/// What a list of records gives: the talk of every record, in order, where
/// each record makes one; else the position of the first record that makes
/// none, with the reason.
pub open spec fn talks_of(records: Seq<TalkRecord>, result: Result<Vec<Talk>, LoadError>) -> bool {
    match result {
        Ok(talks) => {
            &&& talks@.len() == records.len()
            &&& forall|i: int|
                0 <= i < records.len() ==> checked(records[i]@, time_check(records[i]@)) == Ok::<
                    _,
                    ValidationError,
                >((#[trigger] talks@[i])@)
        },
        Err(LoadError::InvalidRecord(at, error)) => {
            &&& at < records.len()
            &&& checked(records[at as int]@, time_check(records[at as int]@)) == Err::<TalkView, _>(
                error,
            )
            &&& forall|i: int|
                0 <= i < at ==> (#[trigger] checked(records[i]@, time_check(records[i]@))) is Ok
        },
        Err(_) => false,
    }
}

/// Checks the records of a day and makes a talk of each. One record that
/// makes no talk fails the whole day: no talk is handed out then. Every
/// talk that is handed out is valid, so none ends before it starts.
pub fn get_talks(records: Vec<TalkRecord>) -> (result: Result<Vec<Talk>, LoadError>)
    ensures
        talks_of(records@, result),
        result matches Ok(talks) ==> forall|i: int|
            0 <= i < talks@.len() ==> (#[trigger] talks@[i]).valid(),
{
    let mut talks: Vec<Talk> = Vec::new();
    for record in it: records
        invariant
            it.seq() == records@,
            talks@.len() == it.index(),
            forall|i: int|
                0 <= i < it.index() ==> checked(records@[i]@, time_check(records@[i]@)) == Ok::<
                    _,
                    ValidationError,
                >((#[trigger] talks@[i])@),
            forall|i: int| 0 <= i < talks@.len() ==> (#[trigger] talks@[i]).valid(),
    {
        let at = talks.len();
        match Talk::from_record(record) {
            Ok(talk) => {
                talks.push(talk);
            },
            Err(error) => {
                proof {
                    assert forall|i: int| 0 <= i < at implies (#[trigger] checked(
                        records@[i]@,
                        time_check(records@[i]@),
                    )) is Ok by {
                        assert(checked(records@[i]@, time_check(records@[i]@)) == Ok::<
                            _,
                            ValidationError,
                        >(talks@[i]@));
                    }
                }
                return Err(LoadError::InvalidRecord(at, error));
            },
        }
    }
    Ok(talks)
}

/// The lines of a text from position `from` on. A line ends before the next
/// line feed or at the end of the text; a text that ends with a line feed
/// has no further line after it.
pub open spec fn lines_from(text: Seq<char>, from: int) -> Seq<Seq<char>>
    decreases text.len() - from,
{
    if 0 <= from < text.len() {
        let end = index_of(text, seq!['\n'], from);
        if from <= end < text.len() {
            seq![text.subrange(from, end)] + lines_from(text, end + 1)
        } else {
            seq![text.subrange(from, text.len() as int)]
        }
    } else {
        Seq::empty()
    }
}

/// The lines of a text.
pub open spec fn lines(text: Seq<char>) -> Seq<Seq<char>> {
    lines_from(text, 0)
}

/// The first field of a line: what stands before the first comma with a
/// space behind it, or the whole line where there is none.
pub open spec fn first_field(line: Seq<char>) -> Seq<char> {
    line.subrange(0, index_of(line, seq![',', ' '], 0))
}

/// The second field of a line: what stands behind the first comma and
/// space, up to the next or to the end of the line; `None` for a line
/// without comma and space.
pub open spec fn second_field(line: Seq<char>) -> Option<Seq<char>> {
    let first = index_of(line, seq![',', ' '], 0);
    if first < line.len() {
        Some(line.subrange(first + 2, index_of(line, seq![',', ' '], first + 2)))
    } else {
        None
    }
}

/// The talk of the line form with this title and start. It ends when it
/// starts, and has nothing else: no room, no zone, no speakers.
pub open spec fn titled_talk(title: Seq<char>, start: Instant) -> TalkView {
    TalkView {
        title: Some(title),
        description: None,
        tags: Seq::empty(),
        room: Seq::empty(),
        start,
        end: start,
        session_type: None,
        speakers: Seq::empty(),
        timezone: Seq::empty(),
    }
}

/// The talk on a line, given the instant that the second field denotes; or
/// the reason why the line is no record: it has no second field, or that
/// field is no timestamp.
pub open spec fn line_talk(line: Seq<char>, start: Option<Instant>) -> Result<TalkView, LineError> {
    if second_field(line) is None {
        Err(LineError::MissingTimestamp)
    } else if start is None {
        Err(LineError::InvalidTimestamp)
    } else {
        Ok(titled_talk(first_field(line), start->0))
    }
}

/// The instant that the second field of a line denotes; `None` where the
/// line has no second field or the field is no timestamp.
pub open spec fn line_start(line: Seq<char>) -> Option<Instant> {
    instant_in(second_field(line))
}

/// What the lines of a text give: the talk on every line, in order, where
/// each line is a record; else the position of the first line that is none,
/// with the reason.
pub open spec fn talks_of_lines(lines: Seq<Seq<char>>, result: Result<Vec<Talk>, LoadError>) -> bool {
    match result {
        Ok(talks) => {
            &&& talks@.len() == lines.len()
            &&& forall|i: int|
                0 <= i < lines.len() ==> line_talk(lines[i], line_start(lines[i])) == Ok::<
                    _,
                    LineError,
                >((#[trigger] talks@[i])@)
        },
        Err(error) => first_bad_line(lines, error),
    }
}

/// The error names the first line that is no record, with the reason.
pub open spec fn first_bad_line(lines: Seq<Seq<char>>, error: LoadError) -> bool {
    match error {
        LoadError::InvalidLine(at, reason) => {
            &&& at < lines.len()
            &&& line_talk(lines[at as int], line_start(lines[at as int])) == Err::<TalkView, _>(
                reason,
            )
            &&& forall|i: int|
                0 <= i < at ==> (#[trigger] line_talk(lines[i], line_start(lines[i]))) is Ok
        },
        _ => false,
    }
}

/// What the lines of a text give as titles: the first field of every line,
/// in order, where each line is a record; else the position of the first
/// line that is none, with the reason.
pub open spec fn titles_of(lines: Seq<Seq<char>>, result: Result<Vec<String>, LoadError>) -> bool {
    match result {
        Ok(titles) => {
            &&& titles@.len() == lines.len()
            &&& forall|i: int|
                0 <= i < lines.len() ==> line_talk(lines[i], line_start(lines[i])) is Ok && (
                #[trigger] titles@[i])@ == first_field(lines[i])
        },
        Err(error) => first_bad_line(lines, error),
    }
}

/// The first two fields of a line.
#[derive(Debug)]
pub struct Fields {
    pub first: String,
    pub second: Option<String>,
}

/// Cuts a line into its first two fields.
pub fn split_line(line: &str) -> (fields: Fields)
    ensures
        fields.first@ == first_field(line@),
        opt_text(fields.second) == second_field(line@),
{
    let chars = chars_of(line);
    let separator: Vec<char> = vec![',', ' '];
    let first = find(&chars, &separator, 0);
    proof {
        lemma_index_of(chars@, separator@, 0);
    }
    let second = if first < chars.len() {
        let from = first + 2;
        let to = find(&chars, &separator, from);
        Some(text_between(&chars, from, to))
    } else {
        None
    };
    Fields { first: text_between(&chars, 0, first), second }
}

/// The talk of a line, given its fields and the instant that the second
/// denotes; or the reason why the line is no record.
pub fn talk_of(fields: Fields, start: Option<Instant>) -> (result: Result<Talk, LineError>)
    ensures
        match result {
            Ok(talk) => fields.second is Some && start is Some && talk@ == titled_talk(
                fields.first@,
                start->0,
            ),
            Err(LineError::MissingTimestamp) => fields.second is None,
            Err(LineError::InvalidTimestamp) => fields.second is Some && start is None,
        },
{
    if fields.second.is_none() {
        return Err(LineError::MissingTimestamp);
    }
    match start {
        Some(start) => Ok(
            Talk {
                talk_title: Some(fields.first),
                talk_description: None,
                tags: None,
                room_name: String::new(),
                from_date: start,
                to_date: start,
                session_type_name: None,
                speakers: None,
                timezone: String::new(),
            },
        ),
        None => Err(LineError::InvalidTimestamp),
    }
}

/// Reads the talk on a line.
pub fn read_line(line: &str) -> (result: Result<Talk, LineError>)
    ensures
        match result {
            Ok(talk) => line_talk(line@, line_start(line@)) == Ok::<_, LineError>(talk@),
            Err(error) => line_talk(line@, line_start(line@)) == Err::<TalkView, _>(error),
        },
{
    let fields = split_line(line);
    let start = match &fields.second {
        Some(field) => match parse_instant(field.as_str()) {
            Some((secs, nanos)) => Some(Instant { secs, nanos }),
            None => None,
        },
        None => None,
    };
    talk_of(fields, start)
}

/// Reads a day's talks in the line form.
///
/// Each line holds one talk as fields with a comma and a space between
/// them: first the title, then the start as a timestamp with its offset;
/// further fields are not read. A talk read this way ends when it starts
/// and has no room, zone or speakers. One line that is no such record fails
/// the whole text: no talk is handed out then.
pub fn read_lines(text: &str) -> (result: Result<Vec<Talk>, LoadError>)
    ensures
        talks_of_lines(lines(text@), result),
        result matches Ok(talks) ==> forall|i: int|
            0 <= i < talks@.len() ==> (#[trigger] talks@[i])@.start.at_or_before(talks@[i]@.end),
{
    let chars = chars_of(text);
    let line_feed: Vec<char> = vec!['\n'];
    let mut talks: Vec<Talk> = Vec::new();
    let mut from: usize = 0;
    let ghost mut seen: Seq<Seq<char>> = Seq::empty();
    while from < chars.len()
        invariant
            from <= chars.len(),
            chars@ == text@,
            line_feed@ == seq!['\n'],
            lines(text@) == seen + lines_from(chars@, from as int),
            talks@.len() == seen.len(),
            forall|i: int|
                0 <= i < seen.len() ==> line_talk(seen[i], line_start(seen[i])) == Ok::<
                    _,
                    LineError,
                >((#[trigger] talks@[i])@),
        decreases chars.len() - from,
    {
        let end = find(&chars, &line_feed, from);
        let line = text_between(&chars, from, end);
        let next = if end < chars.len() {
            end + 1
        } else {
            end
        };
        proof {
            lemma_index_of(chars@, line_feed@, from as int);
            assert(lines_from(chars@, next as int) =~= if end < chars.len() {
                lines_from(chars@, end + 1)
            } else {
                Seq::empty()
            });
            assert(seen + lines_from(chars@, from as int) =~= seen.push(line@) + lines_from(
                chars@,
                next as int,
            ));
        }
        match read_line(line.as_str()) {
            Ok(talk) => {
                talks.push(talk);
            },
            Err(error) => {
                proof {
                    assert forall|i: int| 0 <= i < seen.len() implies (#[trigger] line_talk(
                        lines(text@)[i],
                        line_start(lines(text@)[i]),
                    )) is Ok by {
                        assert(line_talk(seen[i], line_start(seen[i])) == Ok::<_, LineError>(
                            talks@[i]@,
                        ));
                    }
                }
                return Err(LoadError::InvalidLine(talks.len(), error));
            },
        }
        proof {
            seen = seen.push(line@);
        }
        from = next;
    }
    Ok(talks)
}

/// Reads a day's talks in the line form and gives their titles, in order.
/// One line that is no record fails the whole text, as in `read_lines`.
pub fn read_talks(text: &str) -> (result: Result<Vec<String>, LoadError>)
    ensures
        titles_of(lines(text@), result),
{
    let talks = match read_lines(text) {
        Ok(talks) => talks,
        Err(error) => { return Err(error); },
    };
    let ghost all = lines(text@);
    assert forall|i: int| 0 <= i < all.len() implies (#[trigger] line_talk(
        all[i],
        line_start(all[i]),
    )) is Ok by {
        assert(line_talk(all[i], line_start(all[i])) == Ok::<_, LineError>(talks@[i]@));
    }
    let mut titles: Vec<String> = Vec::new();
    for talk in it: talks
        invariant
            it.seq() == talks@,
            talks@.len() == all.len(),
            forall|i: int|
                0 <= i < all.len() ==> line_talk(all[i], line_start(all[i])) == Ok::<_, LineError>(
                    (#[trigger] talks@[i])@,
                ),
            titles@.len() == it.index(),
            forall|i: int| 0 <= i < it.index() ==> (#[trigger] titles@[i])@ == first_field(all[i]),
    {
        titles.push(
            match talk.talk_title {
                Some(title) => title,
                None => String::new(),
            },
        );
    }
    Ok(titles)
}

} // verus!
