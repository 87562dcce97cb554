//! A talk of the schedule and the people who give it.
//!
//! A `Talk` is modelled by its view, a `TalkView`: texts are sequences of
//! characters, an absent list is the empty list. What the screen shows of a
//! talk is defined on the view.

use crate::devoxx::time::{
    known_zone, local_time, local_time_text, parse_instant, parsed_instant, zone_is_known,
};
use crate::text::{join, joined, opt_text, texts};
use vstd::prelude::*;
use vstd::string::StringExecFns;

verus! {

/// A point in time: the seconds since the start of 1970 in UTC, and the
/// nanoseconds within that second.
#[derive(Clone, Copy, Debug, PartialEq, Eq, Structural)]
pub struct Instant {
    pub secs: i64,
    pub nanos: u32,
}

impl Instant {
    /// This instant is not later than `other`.
    pub open spec fn spec_at_or_before(self, other: Instant) -> bool {
        self.secs < other.secs || (self.secs == other.secs && self.nanos <= other.nanos)
    }

    /// Whether this instant is not later than `other`.
    #[verifier::when_used_as_spec(spec_at_or_before)]
    pub fn at_or_before(self, other: Instant) -> (b: bool)
        ensures
            b == self.spec_at_or_before(other),
    {
        self.secs < other.secs || (self.secs == other.secs && self.nanos <= other.nanos)
    }

    /// The start of 1970 in UTC.
    pub fn epoch() -> (instant: Instant)
        ensures
            instant == (Instant { secs: 0, nanos: 0 }),
    {
        Instant { secs: 0, nanos: 0 }
    }
}

/// Why a record does not make a talk.
#[derive(Clone, Copy, Debug, PartialEq, Eq, Structural)]
pub enum ValidationError {
    /// The record names no room.
    MissingRoom,
    /// The record has no start.
    MissingFromDate,
    /// The record has no end.
    MissingToDate,
    /// The record names no time zone.
    MissingTimezone,
    /// The start is no timestamp.
    InvalidFromDate,
    /// The end is no timestamp.
    InvalidToDate,
    /// The time zone is not one that is known by this name.
    UnknownTimezone,
    /// The talk would end before it starts.
    EndBeforeStart,
    /// The start or the end cannot be written as the clocks of the zone
    /// show it.
    TimeOutOfRange,
}

/// A label on a talk.
#[derive(Debug)]
pub struct Tag {
    pub name: String,
}

/// One of the people who give a talk.
#[derive(Debug)]
pub struct Speaker {
    pub id: u32,
    pub first_name: String,
    pub last_name: String,
    pub company: Option<String>,
}

/// The model of a `Speaker`.
pub struct SpeakerView {
    pub id: u32,
    pub first_name: Seq<char>,
    pub last_name: Seq<char>,
    pub company: Option<Seq<char>>,
}

impl SpeakerView {
    /// First and last name with one space between them.
    pub open spec fn full_name(self) -> Seq<char> {
        self.first_name + seq![' '] + self.last_name
    }
}

impl View for Speaker {
    type V = SpeakerView;

    open spec fn view(&self) -> SpeakerView {
        SpeakerView {
            id: self.id,
            first_name: self.first_name@,
            last_name: self.last_name@,
            company: opt_text(self.company),
        }
    }
}

impl Speaker {
    /// First and last name with one space between them.
    pub fn full_name(&self) -> (name: String)
        ensures
            name@ == self@.full_name(),
    {
        let mut name = self.first_name.clone();
        name.push(' ');
        name.append(self.last_name.as_str());
        name
    }
}

/// One talk of the schedule.
#[derive(Debug)]
pub struct Talk {
    pub talk_title: Option<String>,
    pub talk_description: Option<String>,
    pub tags: Option<Vec<Tag>>,
    pub room_name: String,
    pub from_date: Instant,
    pub to_date: Instant,
    pub session_type_name: Option<String>,
    pub speakers: Option<Vec<Speaker>>,
    pub timezone: String,
}

/// The model of a `Talk`.
pub struct TalkView {
    pub title: Option<Seq<char>>,
    pub description: Option<Seq<char>>,
    pub tags: Seq<Seq<char>>,
    pub room: Seq<char>,
    pub start: Instant,
    pub end: Instant,
    pub session_type: Option<Seq<char>>,
    pub speakers: Seq<SpeakerView>,
    pub timezone: Seq<char>,
}

/// The names of the tags of a talk; none where the list is absent.
pub open spec fn tag_names(tags: Option<Vec<Tag>>) -> Seq<Seq<char>> {
    match tags {
        Some(list) => list@.map_values(|tag: Tag| tag.name@),
        None => Seq::empty(),
    }
}

/// The models of the speakers of a talk; none where the list is absent.
pub open spec fn speaker_views(speakers: Option<Vec<Speaker>>) -> Seq<SpeakerView> {
    match speakers {
        Some(list) => list@.map_values(|speaker: Speaker| speaker@),
        None => Seq::empty(),
    }
}

impl View for Talk {
    type V = TalkView;

    open spec fn view(&self) -> TalkView {
        TalkView {
            title: opt_text(self.talk_title),
            description: opt_text(self.talk_description),
            tags: tag_names(self.tags),
            room: self.room_name@,
            start: self.from_date,
            end: self.to_date,
            session_type: opt_text(self.session_type_name),
            speakers: speaker_views(self.speakers),
            timezone: self.timezone@,
        }
    }
}

impl TalkView {
    /// The title where the talk has one, else the name of its kind of
    /// session, else nothing.
    pub open spec fn display_title(self) -> Seq<char> {
        match self.title {
            Some(title) => title,
            None => match self.session_type {
                Some(name) => name,
                None => Seq::empty(),
            },
        }
    }

    /// The description where the talk has one, else nothing.
    pub open spec fn display_description(self) -> Seq<char> {
        match self.description {
            Some(description) => description,
            None => Seq::empty(),
        }
    }

    /// The full names of the speakers, in their order, with a comma and a
    /// space between each two.
    pub open spec fn speaker_names(self) -> Seq<char> {
        joined(self.speakers.map_values(|speaker: SpeakerView| speaker.full_name()), seq![',', ' '])
    }

    /// The start as the clocks of the talk's own zone show it.
    pub open spec fn local_start(self) -> Option<Seq<char>> {
        local_time_text(self.start.secs, self.start.nanos, self.timezone)
    }

    /// The end as the clocks of the talk's own zone show it.
    pub open spec fn local_end(self) -> Option<Seq<char>> {
        local_time_text(self.end.secs, self.end.nanos, self.timezone)
    }

    /// The talk does not end before it starts, its zone is known, and its
    /// start and end can be written as the clocks of that zone show them.
    pub open spec fn valid(self) -> bool {
        &&& self.start.at_or_before(self.end)
        &&& known_zone(self.timezone)
        &&& self.local_start() is Some
        &&& self.local_end() is Some
    }
}

impl Default for Talk {
    /// A talk without title, people or place, that starts and ends at the
    /// start of 1970 in a zone without a name.
    fn default() -> (talk: Talk)
        ensures
            talk@ == (TalkView {
                title: None,
                description: None,
                tags: Seq::empty(),
                room: Seq::empty(),
                start: Instant { secs: 0, nanos: 0 },
                end: Instant { secs: 0, nanos: 0 },
                session_type: None,
                speakers: Seq::empty(),
                timezone: Seq::empty(),
            }),
    {
        Talk {
            talk_title: None,
            talk_description: None,
            tags: None,
            room_name: String::new(),
            from_date: Instant::epoch(),
            to_date: Instant::epoch(),
            session_type_name: None,
            speakers: None,
            timezone: String::new(),
        }
    }
}

impl Talk {
    /// The title to show: the talk's own, else the name of its kind of
    /// session, else the empty text.
    pub fn get_title(&self) -> (title: &str)
        ensures
            title@ == self@.display_title(),
    {
        match &self.talk_title {
            Some(title) => title.as_str(),
            None => match &self.session_type_name {
                Some(name) => name.as_str(),
                None => {
                    proof {
                        reveal_strlit("");
                    }
                    ""
                },
            },
        }
    }

    /// The description to show: the talk's own, else the empty text.
    pub fn get_description(&self) -> (description: &str)
        ensures
            description@ == self@.display_description(),
    {
        match &self.talk_description {
            Some(description) => description.as_str(),
            None => {
                proof {
                    reveal_strlit("");
                }
                ""
            },
        }
    }

    /// The full names of the speakers, in their order, with a comma and a
    /// space between each two; the empty text for a talk without speakers.
    pub fn speaker_names(&self) -> (names: String)
        ensures
            names@ == self@.speaker_names(),
    {
        let mut names: Vec<String> = Vec::new();
        if let Some(speakers) = &self.speakers {
            let mut i: usize = 0;
            while i < speakers.len()
                invariant
                    i <= speakers.len(),
                    names@.len() == i,
                    forall|k: int| 0 <= k < i ==> (#[trigger] names@[k])@ == speakers@[k]@.full_name(),
                decreases speakers.len() - i,
            {
                names.push(speakers[i].full_name());
                i += 1;
            }
        }
        proof {
            reveal_strlit(", ");
            assert(", "@ =~= seq![',', ' ']);
            assert(texts(names@) =~= self@.speakers.map_values(
                |speaker: SpeakerView| speaker.full_name(),
            ));
        }
        join(&names, ", ")
    }

    /// The talk does not end before it starts, its zone is known, and its
    /// start and end can be written as the clocks of that zone show them.
    pub open spec fn valid(&self) -> bool {
        self@.valid()
    }

    /// Whether the talk is valid.
    pub fn is_valid(&self) -> (b: bool)
        ensures
            b == self.valid(),
    {
        self.from_date.at_or_before(self.to_date) && zone_is_known(self.timezone.as_str())
            && local_time(self.from_date.secs, self.from_date.nanos, self.timezone.as_str()).is_some()
            && local_time(self.to_date.secs, self.to_date.nanos, self.timezone.as_str()).is_some()
    }

    /// The start as the clocks of the talk's own zone show it, in the form
    /// `Mon, 4 Nov 2019 09:30:00 +0100`.
    pub fn local_from_date(&self) -> (text: String)
        requires
            self.valid(),
        ensures
            Some(text@) == self@.local_start(),
    {
        match local_time(self.from_date.secs, self.from_date.nanos, self.timezone.as_str()) {
            Some(text) => text,
            None => String::new(),
        }
    }

    /// The end as the clocks of the talk's own zone show it, in the form
    /// `Mon, 4 Nov 2019 10:30:00 +0100`.
    pub fn local_to_date(&self) -> (text: String)
        requires
            self.valid(),
        ensures
            Some(text@) == self@.local_end(),
    {
        match local_time(self.to_date.secs, self.to_date.nanos, self.timezone.as_str()) {
            Some(text) => text,
            None => String::new(),
        }
    }

    /// Start and end as the clocks of the talk's own zone show them, for a
    /// valid talk; `None` for any other.
    pub fn local_dates(&self) -> (dates: Option<(String, String)>)
        ensures
            match dates {
                Some((from, to)) => self.valid() && Some(from@) == self@.local_start() && Some(to@)
                    == self@.local_end(),
                None => !self.valid(),
            },
    {
        if self.is_valid() {
            Some((self.local_from_date(), self.local_to_date()))
        } else {
            None
        }
    }
}

/// A talk as a source hands it over, with nothing checked yet: any field
/// may be absent, and the times are texts.
#[derive(Debug)]
pub struct TalkRecord {
    pub talk_title: Option<String>,
    pub talk_description: Option<String>,
    pub tags: Option<Vec<Tag>>,
    pub room_name: Option<String>,
    pub from_date: Option<String>,
    pub to_date: Option<String>,
    pub session_type_name: Option<String>,
    pub speakers: Option<Vec<Speaker>>,
    pub timezone: Option<String>,
}

/// The model of a `TalkRecord`.
pub struct RecordView {
    pub title: Option<Seq<char>>,
    pub description: Option<Seq<char>>,
    pub tags: Seq<Seq<char>>,
    pub room: Option<Seq<char>>,
    pub from_date: Option<Seq<char>>,
    pub to_date: Option<Seq<char>>,
    pub session_type: Option<Seq<char>>,
    pub speakers: Seq<SpeakerView>,
    pub timezone: Option<Seq<char>>,
}

impl View for TalkRecord {
    type V = RecordView;

    open spec fn view(&self) -> RecordView {
        RecordView {
            title: opt_text(self.talk_title),
            description: opt_text(self.talk_description),
            tags: tag_names(self.tags),
            room: opt_text(self.room_name),
            from_date: opt_text(self.from_date),
            to_date: opt_text(self.to_date),
            session_type: opt_text(self.session_type_name),
            speakers: speaker_views(self.speakers),
            timezone: opt_text(self.timezone),
        }
    }
}

impl Default for TalkRecord {
    /// The record with every field absent.
    fn default() -> (record: TalkRecord)
        ensures
            record@ == (RecordView {
                title: None,
                description: None,
                tags: Seq::empty(),
                room: None,
                from_date: None,
                to_date: None,
                session_type: None,
                speakers: Seq::empty(),
                timezone: None,
            }),
    {
        TalkRecord {
            talk_title: None,
            talk_description: None,
            tags: None,
            room_name: None,
            from_date: None,
            to_date: None,
            session_type_name: None,
            speakers: None,
            timezone: None,
        }
    }
}

/// What the calendar and the table of zones say of the times of a record.
#[derive(Clone, Copy, Debug, PartialEq, Eq, Structural)]
pub struct TimeCheck {
    /// The instant that the start denotes; `None` where it is absent or no
    /// timestamp.
    pub start: Option<Instant>,
    /// The instant that the end denotes; `None` where it is absent or no
    /// timestamp.
    pub end: Option<Instant>,
    /// Whether the record names a time zone that is known.
    pub zone_known: bool,
    /// Whether the start can be written as the clocks of the zone show it.
    pub start_shown: bool,
    /// Whether the end can be written as the clocks of the zone show it.
    pub end_shown: bool,
}

/// The instant of a pair of seconds and nanoseconds.
pub open spec fn instant_of(read: Option<(i64, u32)>) -> Option<Instant> {
    match read {
        Some((secs, nanos)) => Some(Instant { secs, nanos }),
        None => None,
    }
}

/// The instant that an optional text denotes; `None` where it is absent or no
/// timestamp.
pub open spec fn instant_in(text: Option<Seq<char>>) -> Option<Instant> {
    match text {
        Some(text) => instant_of(parsed_instant(text)),
        None => None,
    }
}

/// Whether the instant can be written as the clocks of the zone show it;
/// not so where either is absent.
pub open spec fn shown_in(instant: Option<Instant>, zone: Option<Seq<char>>) -> bool {
    match (instant, zone) {
        (Some(instant), Some(zone)) => local_time_text(instant.secs, instant.nanos, zone) is Some,
        _ => false,
    }
}

/// What the calendar and the table of zones say of the times of this
/// record.
pub open spec fn time_check(record: RecordView) -> TimeCheck {
    let start = instant_in(record.from_date);
    let end = instant_in(record.to_date);
    TimeCheck {
        start,
        end,
        zone_known: match record.timezone {
            Some(zone) => known_zone(zone),
            None => false,
        },
        start_shown: shown_in(start, record.timezone),
        end_shown: shown_in(end, record.timezone),
    }
}

/// The talk that a record makes, given what the calendar says of its times,
/// or the first reason why it makes none: the room, the start, the end or
/// the zone is absent, in this order; the start or the end is no timestamp;
/// the zone is not known; the talk would end before it starts; the start or
/// the end cannot be written in the zone.
pub open spec fn checked(record: RecordView, times: TimeCheck) -> Result<TalkView, ValidationError> {
    if record.room is None {
        Err(ValidationError::MissingRoom)
    } else if record.from_date is None {
        Err(ValidationError::MissingFromDate)
    } else if record.to_date is None {
        Err(ValidationError::MissingToDate)
    } else if record.timezone is None {
        Err(ValidationError::MissingTimezone)
    } else if times.start is None {
        Err(ValidationError::InvalidFromDate)
    } else if times.end is None {
        Err(ValidationError::InvalidToDate)
    } else if !times.zone_known {
        Err(ValidationError::UnknownTimezone)
    } else if !times.start->0.at_or_before(times.end->0) {
        Err(ValidationError::EndBeforeStart)
    } else if !times.start_shown || !times.end_shown {
        Err(ValidationError::TimeOutOfRange)
    } else {
        Ok(
            TalkView {
                title: record.title,
                description: record.description,
                tags: record.tags,
                room: record.room->0,
                start: times.start->0,
                end: times.end->0,
                session_type: record.session_type,
                speakers: record.speakers,
                timezone: record.timezone->0,
            },
        )
    }
}

/// The model of a talk or of the reason why there is none.
pub open spec fn talk_result_view(result: Result<Talk, ValidationError>) -> Result<
    TalkView,
    ValidationError,
> {
    match result {
        Ok(talk) => Ok(talk@),
        Err(error) => Err(error),
    }
}

/// A record that passes every check makes a valid talk with the record's own
/// title, kind of session and speakers, so that the talk shows the title and
/// the speakers' names that the record has.
pub proof fn lemma_checked_talk_shows_record(record: RecordView)
    requires
        checked(record, time_check(record)) is Ok,
    ensures
        ({
            let talk = checked(record, time_check(record))->Ok_0;
            &&& talk.valid()
            &&& talk.start.at_or_before(talk.end)
            &&& talk.display_title() == match record.title {
                Some(title) => title,
                None => match record.session_type {
                    Some(name) => name,
                    None => Seq::empty(),
                },
            }
            &&& talk.speaker_names() == joined(
                record.speakers.map_values(|speaker: SpeakerView| speaker.full_name()),
                seq![',', ' '],
            )
        }),
{
}

impl TimeCheck {
    /// Asks the calendar and the table of zones about the times of a
    /// record.
    pub fn of(record: &TalkRecord) -> (times: TimeCheck)
        ensures
            times == time_check(record@),
    {
        let start = match &record.from_date {
            Some(text) => match parse_instant(text.as_str()) {
                Some((secs, nanos)) => Some(Instant { secs, nanos }),
                None => None,
            },
            None => None,
        };
        let end = match &record.to_date {
            Some(text) => match parse_instant(text.as_str()) {
                Some((secs, nanos)) => Some(Instant { secs, nanos }),
                None => None,
            },
            None => None,
        };
        let zone_known = match &record.timezone {
            Some(zone) => zone_is_known(zone.as_str()),
            None => false,
        };
        let start_shown = match (start, &record.timezone) {
            (Some(instant), Some(zone)) => local_time(
                instant.secs,
                instant.nanos,
                zone.as_str(),
            ).is_some(),
            _ => false,
        };
        let end_shown = match (end, &record.timezone) {
            (Some(instant), Some(zone)) => local_time(
                instant.secs,
                instant.nanos,
                zone.as_str(),
            ).is_some(),
            _ => false,
        };
        TimeCheck { start, end, zone_known, start_shown, end_shown }
    }
}

impl Talk {
    /// Makes a talk of a record, given what the calendar says of its times,
    /// or gives the first reason why it makes none.
    pub fn from_checked(record: TalkRecord, times: TimeCheck) -> (result: Result<
        Talk,
        ValidationError,
    >)
        ensures
            talk_result_view(result) == checked(record@, times),
    {
        let TalkRecord {
            talk_title,
            talk_description,
            tags,
            room_name,
            from_date,
            to_date,
            session_type_name,
            speakers,
            timezone,
        } = record;
        let room_name = match room_name {
            Some(room_name) => room_name,
            None => { return Err(ValidationError::MissingRoom); },
        };
        if from_date.is_none() {
            return Err(ValidationError::MissingFromDate);
        }
        if to_date.is_none() {
            return Err(ValidationError::MissingToDate);
        }
        let timezone = match timezone {
            Some(timezone) => timezone,
            None => { return Err(ValidationError::MissingTimezone); },
        };
        let from_date = match times.start {
            Some(instant) => instant,
            None => { return Err(ValidationError::InvalidFromDate); },
        };
        let to_date = match times.end {
            Some(instant) => instant,
            None => { return Err(ValidationError::InvalidToDate); },
        };
        if !times.zone_known {
            return Err(ValidationError::UnknownTimezone);
        }
        if !from_date.at_or_before(to_date) {
            return Err(ValidationError::EndBeforeStart);
        }
        if !times.start_shown || !times.end_shown {
            return Err(ValidationError::TimeOutOfRange);
        }
        Ok(
            Talk {
                talk_title,
                talk_description,
                tags,
                room_name,
                from_date,
                to_date,
                session_type_name,
                speakers,
                timezone,
            },
        )
    }

    /// Makes a talk of a record, or gives the first reason why the record
    /// makes none. A talk that comes out is valid.
    pub fn from_record(record: TalkRecord) -> (result: Result<Talk, ValidationError>)
        ensures
            talk_result_view(result) == checked(record@, time_check(record@)),
            result matches Ok(talk) ==> talk.valid(),
    {
        let times = TimeCheck::of(&record);
        Talk::from_checked(record, times)
    }
}

} // verus!
