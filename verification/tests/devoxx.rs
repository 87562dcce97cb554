use devoxx_schedule::devoxx::model::{
    Instant, Speaker, Tag, Talk, TalkRecord, TimeCheck, ValidationError,
};
use devoxx_schedule::devoxx::weekday::Weekday;
use devoxx_schedule::devoxx::{
    day_name, get_talks, read_line, read_lines, read_talks, split_line, talk_of, Fields, LineError,
    LoadError,
};

const MONDAY_LINES: &str = "\
Monty Python meets the Cloud of Doom, 2019-11-04T09:30:00+01:00
Rust for Java Developers, 2019-11-04T09:30:00+01:00
Kubernetes in practice, 2019-11-04T09:30:00+01:00
Reactive streams: a field report, 2019-11-04T13:30:00+01:00
GraalVM deep dive, 2019-11-04T13:30:00+01:00
Micronaut workshop, 2019-11-04T13:30:00+01:00
What is new in Java 13, 2019-11-04T17:00:00+01:00
Kotlin coroutines, 2019-11-04T17:00:00+01:00
Event sourcing without tears, 2019-11-04T17:45:00+01:00
Testing in production, 2019-11-04T17:45:00+01:00
Quarkus from scratch, 2019-11-04T18:30:00+01:00
Birds of a feather: build tools, 2019-11-04T19:00:00+01:00
";

const MONDAY_TITLES: [&str; 12] = [
    "Monty Python meets the Cloud of Doom",
    "Rust for Java Developers",
    "Kubernetes in practice",
    "Reactive streams: a field report",
    "GraalVM deep dive",
    "Micronaut workshop",
    "What is new in Java 13",
    "Kotlin coroutines",
    "Event sourcing without tears",
    "Testing in production",
    "Quarkus from scratch",
    "Birds of a feather: build tools",
];

fn record(title: &str) -> TalkRecord {
    let mut record = TalkRecord::default();
    record.talk_title = Some(title.to_string());
    record.room_name = Some("Room 8".to_string());
    record.from_date = Some("2019-11-04T08:30:00Z".to_string());
    record.to_date = Some("2019-11-04T11:30:00Z".to_string());
    record.timezone = Some("Europe/Brussels".to_string());
    record
}

fn monday_records() -> Vec<TalkRecord> {
    MONDAY_TITLES.iter().map(|title| record(title)).collect()
}

#[test]
fn test_read_talks() {
    let items = read_talks(MONDAY_LINES);
    assert_eq!(items.is_ok(), true, "{:?}", items.err());
    if let Ok(talks) = items {
        assert_eq!(talks.len(), 12);
        assert_eq!(&talks.get(0).unwrap()[..12], "Monty Python");
    }
}

#[test]
fn test_structured_data() {
    let items = get_talks(monday_records());
    assert_eq!(items.is_ok(), true, "{:?}", items.err());
    if let Ok(items) = items {
        assert_eq!(items.len(), 12);
        assert_eq!(
            items.get(0).unwrap().talk_title.as_ref().unwrap(),
            "Monty Python meets the Cloud of Doom"
        );
    }
}

#[test]
fn test_talk_title() {
    let mut talk = Talk::default();
    talk.talk_title = Some(String::from("some title"));

    assert_eq!(talk.get_title(), "some title");

    let mut talk = Talk::default();
    talk.session_type_name = Some(String::from("Session name"));

    assert_eq!(talk.get_title(), "Session name");
}

#[test]
fn test_speaker_names() {
    let mut talk = Talk::default();
    let speaker1 = Speaker {
        id: 1,
        first_name: "First".to_string(),
        last_name: "Speaker".to_string(),
        company: Some("Acme Inc".to_string()),
    };
    let speaker2 = Speaker {
        id: 2,
        first_name: "Second".to_string(),
        last_name: "Speaker".to_string(),
        company: Some("Acme Inc".to_string()),
    };

    talk.speakers = Some(vec![speaker1, speaker2]);

    assert_eq!(talk.speaker_names(), "First Speaker, Second Speaker".to_string());
}

#[test]
fn read_talks_gives_every_title_in_order() {
    let titles = read_talks(MONDAY_LINES).unwrap();
    assert_eq!(titles, MONDAY_TITLES.to_vec());
}

#[test]
fn read_talks_of_an_empty_text_is_empty() {
    assert_eq!(read_talks(""), Ok(Vec::new()));
}

#[test]
fn read_talks_takes_a_last_line_without_line_feed() {
    let titles = read_talks("One, 2019-11-04T09:30:00+01:00\nTwo, 2019-11-05T09:30:00+01:00");
    assert_eq!(titles, Ok(vec!["One".to_string(), "Two".to_string()]));
}

#[test]
fn read_talks_does_not_read_further_fields() {
    let titles = read_talks("One, 2019-11-04T09:30:00+01:00, Room 8, whatever\n");
    assert_eq!(titles, Ok(vec!["One".to_string()]));
}

#[test]
fn read_talks_fails_on_a_line_without_timestamp() {
    let result = read_talks("One, 2019-11-04T09:30:00+01:00\nTwo\nThree, 2019-11-04T09:30:00+01:00\n");
    assert_eq!(result, Err(LoadError::InvalidLine(1, LineError::MissingTimestamp)));
}

#[test]
fn read_talks_fails_on_a_timestamp_that_is_none() {
    let result = read_talks("One, 2019-11-04T09:30:00+01:00\nTwo, tomorrow\n");
    assert_eq!(result, Err(LoadError::InvalidLine(1, LineError::InvalidTimestamp)));
}

#[test]
fn read_talks_fails_on_a_timestamp_without_offset() {
    let result = read_talks("One, 2019-11-04T09:30:00\n");
    assert_eq!(result, Err(LoadError::InvalidLine(0, LineError::InvalidTimestamp)));
}

#[test]
fn read_talks_fails_on_an_empty_line() {
    let result = read_talks("One, 2019-11-04T09:30:00+01:00\n\nThree, 2019-11-04T09:30:00+01:00\n");
    assert_eq!(result, Err(LoadError::InvalidLine(1, LineError::MissingTimestamp)));
}

#[test]
fn read_talks_reports_the_first_bad_line() {
    let result = read_talks("One, never\nTwo\n");
    assert_eq!(result, Err(LoadError::InvalidLine(0, LineError::InvalidTimestamp)));
}

#[test]
fn split_line_cuts_at_comma_and_space() {
    let fields = split_line("Title, 2019-11-04T09:30:00+01:00, rest");
    assert_eq!(fields.first, "Title");
    assert_eq!(fields.second, Some("2019-11-04T09:30:00+01:00".to_string()));
}

#[test]
fn split_line_keeps_a_comma_without_space_in_the_title() {
    let fields = split_line("Streams,sinks and sources, now");
    assert_eq!(fields.first, "Streams,sinks and sources");
    assert_eq!(fields.second, Some("now".to_string()));
}

#[test]
fn split_line_without_separator_has_no_second_field() {
    let fields = split_line("Just a title");
    assert_eq!(fields.first, "Just a title");
    assert_eq!(fields.second, None);
}

#[test]
fn split_line_may_have_empty_fields() {
    let fields = split_line(", ");
    assert_eq!(fields.first, "");
    assert_eq!(fields.second, Some(String::new()));
    let fields = split_line("");
    assert_eq!(fields.first, "");
    assert_eq!(fields.second, None);
}

#[test]
fn split_line_counts_characters_not_bytes() {
    let fields = split_line("Café au lait, 2019-11-04T09:30:00+01:00");
    assert_eq!(fields.first, "Café au lait");
    assert_eq!(fields.second, Some("2019-11-04T09:30:00+01:00".to_string()));
}

#[test]
fn talk_of_tells_the_two_errors_apart() {
    let start = Some(Instant { secs: 5, nanos: 6 });
    let fields = Fields { first: "T".to_string(), second: None };
    assert_eq!(talk_of(fields, start).err(), Some(LineError::MissingTimestamp));
    let fields = Fields { first: "T".to_string(), second: None };
    assert_eq!(talk_of(fields, None).err(), Some(LineError::MissingTimestamp));
    let fields = Fields { first: "T".to_string(), second: Some("x".to_string()) };
    assert_eq!(talk_of(fields, None).err(), Some(LineError::InvalidTimestamp));
}

#[test]
fn talk_of_a_line_has_title_and_start_and_nothing_else() {
    let fields = Fields { first: "T".to_string(), second: Some("x".to_string()) };
    let talk = talk_of(fields, Some(Instant { secs: 5, nanos: 6 })).unwrap();
    assert_eq!(talk.talk_title, Some("T".to_string()));
    assert_eq!(talk.get_title(), "T");
    assert_eq!(talk.from_date, Instant { secs: 5, nanos: 6 });
    assert_eq!(talk.to_date, Instant { secs: 5, nanos: 6 });
    assert_eq!(talk.get_description(), "");
    assert_eq!(talk.room_name, "");
    assert_eq!(talk.timezone, "");
    assert_eq!(talk.speaker_names(), "");
    assert!(talk.tags.is_none());
    assert!(talk.session_type_name.is_none());
}

#[test]
fn read_line_reads_the_start() {
    let talk = read_line("Rust for Java Developers, 2019-11-04T09:30:00+01:00").unwrap();
    assert_eq!(talk.get_title(), "Rust for Java Developers");
    assert_eq!(talk.from_date, Instant { secs: 1572856200, nanos: 0 });
    assert_eq!(talk.to_date, talk.from_date);
}

#[test]
fn read_line_takes_a_space_for_the_t() {
    assert_eq!(read_line("T, 2019-11-04 09:30:00+01:00").unwrap().get_title(), "T");
    assert_eq!(read_line("T, 04.11.2019").err(), Some(LineError::InvalidTimestamp));
    assert_eq!(read_line("T,2019-11-04T09:30:00+01:00").err(), Some(LineError::MissingTimestamp));
}

#[test]
fn read_lines_gives_a_talk_for_each_line() {
    let talks = read_lines(MONDAY_LINES).unwrap();
    assert_eq!(talks.len(), 12);
    for (talk, title) in talks.iter().zip(MONDAY_TITLES.iter()) {
        assert_eq!(talk.get_title(), *title);
        assert!(talk.from_date.at_or_before(talk.to_date));
    }
    assert_eq!(talks[0].from_date, Instant { secs: 1572856200, nanos: 0 });
    assert_eq!(talks[11].from_date, Instant { secs: 1572890400, nanos: 0 });
}

#[test]
fn read_lines_fails_as_read_talks_does() {
    let text = "One, 2019-11-04T09:30:00+01:00\nTwo, then\nThree\n";
    assert_eq!(read_lines(text).err(), Some(LoadError::InvalidLine(1, LineError::InvalidTimestamp)));
    assert_eq!(read_talks(text).err(), Some(LoadError::InvalidLine(1, LineError::InvalidTimestamp)));
    assert_eq!(read_lines("").unwrap().len(), 0);
}

#[test]
fn day_name_of_each_day() {
    assert_eq!(day_name(&Weekday::Mon), "monday");
    assert_eq!(day_name(&Weekday::Tue), "tuesday");
    assert_eq!(day_name(&Weekday::Wed), "wednesday");
    assert_eq!(day_name(&Weekday::Thu), "thursday");
    assert_eq!(day_name(&Weekday::Fri), "friday");
}

#[test]
fn day_name_of_the_weekend_is_monday() {
    assert_eq!(day_name(&Weekday::Sat), "monday");
    assert_eq!(day_name(&Weekday::Sun), "monday");
}

#[test]
fn weekday_succ_and_pred_go_round_the_week() {
    let days = [
        Weekday::Mon,
        Weekday::Tue,
        Weekday::Wed,
        Weekday::Thu,
        Weekday::Fri,
        Weekday::Sat,
        Weekday::Sun,
    ];
    for i in 0..7 {
        assert_eq!(days[i].succ(), days[(i + 1) % 7]);
        assert_eq!(days[i].pred(), days[(i + 6) % 7]);
        assert_eq!(days[i].num_days_from_monday(), i as u32);
    }
}

#[test]
fn get_talks_of_no_records_is_empty() {
    assert_eq!(get_talks(Vec::new()).unwrap().len(), 0);
}

#[test]
fn get_talks_keeps_order_and_fields() {
    let talks = get_talks(monday_records()).unwrap();
    for (talk, title) in talks.iter().zip(MONDAY_TITLES.iter()) {
        assert_eq!(talk.get_title(), *title);
        assert_eq!(talk.room_name, "Room 8");
        assert_eq!(talk.timezone, "Europe/Brussels");
        assert!(talk.from_date.at_or_before(talk.to_date));
        assert!(talk.is_valid());
    }
}

#[test]
fn get_talks_fails_the_whole_day_on_one_bad_record() {
    let mut records = monday_records();
    records[7].room_name = None;
    records[9].timezone = None;
    let result = get_talks(records);
    assert_eq!(result.err(), Some(LoadError::InvalidRecord(7, ValidationError::MissingRoom)));
}

#[test]
fn from_record_reads_the_times() {
    let talk = Talk::from_record(record("T")).unwrap();
    assert_eq!(talk.from_date, Instant { secs: 1572856200, nanos: 0 });
    assert_eq!(talk.to_date, Instant { secs: 1572867000, nanos: 0 });
}

#[test]
fn from_record_reads_an_offset_and_a_fraction() {
    let mut record = record("T");
    record.from_date = Some("2019-11-04T09:30:00.25+01:00".to_string());
    let talk = Talk::from_record(record).unwrap();
    assert_eq!(talk.from_date, Instant { secs: 1572856200, nanos: 250_000_000 });
}

#[test]
fn from_record_keeps_what_the_record_has() {
    let mut record = record("T");
    record.talk_description = Some("D".to_string());
    record.session_type_name = Some("Conference".to_string());
    record.tags = Some(vec![Tag { name: "rust".to_string() }, Tag { name: "java".to_string() }]);
    record.speakers = Some(vec![Speaker {
        id: 7,
        first_name: "Ada".to_string(),
        last_name: "Lovelace".to_string(),
        company: None,
    }]);
    let talk = Talk::from_record(record).unwrap();
    assert_eq!(talk.get_title(), "T");
    assert_eq!(talk.get_description(), "D");
    assert_eq!(talk.session_type_name, Some("Conference".to_string()));
    assert_eq!(talk.tags.as_ref().unwrap().len(), 2);
    assert_eq!(talk.tags.as_ref().unwrap()[1].name, "java");
    assert_eq!(talk.speaker_names(), "Ada Lovelace");
    assert_eq!(talk.speakers.as_ref().unwrap()[0].id, 7);
}

#[test]
fn from_record_without_room() {
    let mut record = record("T");
    record.room_name = None;
    assert_eq!(Talk::from_record(record).err(), Some(ValidationError::MissingRoom));
}

#[test]
fn from_record_without_start() {
    let mut record = record("T");
    record.from_date = None;
    assert_eq!(Talk::from_record(record).err(), Some(ValidationError::MissingFromDate));
}

#[test]
fn from_record_without_end() {
    let mut record = record("T");
    record.to_date = None;
    assert_eq!(Talk::from_record(record).err(), Some(ValidationError::MissingToDate));
}

#[test]
fn from_record_without_zone() {
    let mut record = record("T");
    record.timezone = None;
    assert_eq!(Talk::from_record(record).err(), Some(ValidationError::MissingTimezone));
}

#[test]
fn from_record_with_a_start_that_is_no_timestamp() {
    let mut record = record("T");
    record.from_date = Some("Monday morning".to_string());
    assert_eq!(Talk::from_record(record).err(), Some(ValidationError::InvalidFromDate));
}

#[test]
fn from_record_with_an_end_that_is_no_timestamp() {
    let mut record = record("T");
    record.to_date = Some("2019-11-04".to_string());
    assert_eq!(Talk::from_record(record).err(), Some(ValidationError::InvalidToDate));
}

#[test]
fn from_record_with_an_unknown_zone() {
    let mut record = record("T");
    record.timezone = Some("Europe/Atlantis".to_string());
    assert_eq!(Talk::from_record(record).err(), Some(ValidationError::UnknownTimezone));
    let mut record = self::record("T");
    record.timezone = Some(String::new());
    assert_eq!(Talk::from_record(record).err(), Some(ValidationError::UnknownTimezone));
}

#[test]
fn from_record_that_ends_before_it_starts() {
    let mut record = record("T");
    record.to_date = Some("2019-11-04T08:29:59Z".to_string());
    assert_eq!(Talk::from_record(record).err(), Some(ValidationError::EndBeforeStart));
}

#[test]
fn from_record_that_ends_a_fraction_before_it_starts() {
    let mut record = record("T");
    record.from_date = Some("2019-11-04T08:30:00.5Z".to_string());
    record.to_date = Some("2019-11-04T08:30:00.4Z".to_string());
    assert_eq!(Talk::from_record(record).err(), Some(ValidationError::EndBeforeStart));
}

#[test]
fn from_record_that_ends_when_it_starts() {
    let mut record = record("T");
    record.to_date = record.from_date.clone();
    assert!(Talk::from_record(record).is_ok());
}

#[test]
fn from_record_compares_instants_not_texts() {
    let mut record = record("T");
    record.from_date = Some("2019-11-04T10:00:00+02:00".to_string());
    record.to_date = Some("2019-11-04T09:00:00+00:00".to_string());
    assert!(Talk::from_record(record).is_ok());
}

#[test]
fn from_record_with_a_time_that_the_zone_cannot_show() {
    let mut record = record("T");
    record.from_date = Some("9999-12-31T23:00:00Z".to_string());
    record.to_date = Some("9999-12-31T23:30:00Z".to_string());
    assert_eq!(Talk::from_record(record).err(), Some(ValidationError::TimeOutOfRange));
}

#[test]
fn from_record_checks_in_a_fixed_order() {
    let record = TalkRecord::default();
    assert_eq!(Talk::from_record(record).err(), Some(ValidationError::MissingRoom));
    let mut record = TalkRecord::default();
    record.room_name = Some(String::new());
    record.timezone = Some("nowhere".to_string());
    assert_eq!(Talk::from_record(record).err(), Some(ValidationError::MissingFromDate));
    let mut record = self::record("T");
    record.from_date = Some("x".to_string());
    record.to_date = Some("y".to_string());
    record.timezone = Some("nowhere".to_string());
    assert_eq!(Talk::from_record(record).err(), Some(ValidationError::InvalidFromDate));
}

#[test]
fn from_checked_goes_by_what_it_is_told() {
    let times = TimeCheck {
        start: Some(Instant { secs: 10, nanos: 0 }),
        end: Some(Instant { secs: 20, nanos: 0 }),
        zone_known: true,
        start_shown: true,
        end_shown: true,
    };
    let talk = Talk::from_checked(record("T"), times).unwrap();
    assert_eq!(talk.from_date, Instant { secs: 10, nanos: 0 });
    assert_eq!(talk.to_date, Instant { secs: 20, nanos: 0 });
    assert_eq!(talk.room_name, "Room 8");

    let unknown = TimeCheck { zone_known: false, ..times };
    assert_eq!(
        Talk::from_checked(record("T"), unknown).err(),
        Some(ValidationError::UnknownTimezone)
    );
    let hidden = TimeCheck { end_shown: false, ..times };
    assert_eq!(Talk::from_checked(record("T"), hidden).err(), Some(ValidationError::TimeOutOfRange));
    let backwards = TimeCheck { end: Some(Instant { secs: 9, nanos: 999 }), ..times };
    assert_eq!(
        Talk::from_checked(record("T"), backwards).err(),
        Some(ValidationError::EndBeforeStart)
    );
    let unread = TimeCheck { end: None, ..times };
    assert_eq!(Talk::from_checked(record("T"), unread).err(), Some(ValidationError::InvalidToDate));
}

#[test]
fn time_check_of_a_record() {
    let times = TimeCheck::of(&record("T"));
    assert_eq!(
        times,
        TimeCheck {
            start: Some(Instant { secs: 1572856200, nanos: 0 }),
            end: Some(Instant { secs: 1572867000, nanos: 0 }),
            zone_known: true,
            start_shown: true,
            end_shown: true,
        }
    );
    let times = TimeCheck::of(&TalkRecord::default());
    assert_eq!(
        times,
        TimeCheck { start: None, end: None, zone_known: false, start_shown: false, end_shown: false }
    );
}

#[test]
fn local_dates_in_the_zone_of_the_talk() {
    let talk = Talk::from_record(record("T")).unwrap();
    assert_eq!(talk.local_from_date(), "Mon, 4 Nov 2019 09:30:00 +0100");
    assert_eq!(talk.local_to_date(), "Mon, 4 Nov 2019 12:30:00 +0100");
    assert_eq!(
        talk.local_dates(),
        Some((
            "Mon, 4 Nov 2019 09:30:00 +0100".to_string(),
            "Mon, 4 Nov 2019 12:30:00 +0100".to_string()
        ))
    );
}

#[test]
fn local_dates_follow_the_zone_not_the_machine() {
    let mut record = record("T");
    record.timezone = Some("America/New_York".to_string());
    let talk = Talk::from_record(record).unwrap();
    assert_eq!(talk.local_from_date(), "Mon, 4 Nov 2019 03:30:00 -0500");
    let mut record = self::record("T");
    record.from_date = Some("2019-07-01T08:30:00Z".to_string());
    record.to_date = Some("2019-07-01T09:30:00Z".to_string());
    let talk = Talk::from_record(record).unwrap();
    assert_eq!(talk.local_from_date(), "Mon, 1 Jul 2019 10:30:00 +0200");
}

#[test]
fn local_dates_of_a_talk_that_is_not_valid() {
    let talk = Talk::default();
    assert!(!talk.is_valid());
    assert_eq!(talk.local_dates(), None);
    let mut talk = Talk::from_record(record("T")).unwrap();
    assert!(talk.is_valid());
    talk.to_date = Instant { secs: 0, nanos: 0 };
    assert!(!talk.is_valid());
    assert_eq!(talk.local_dates(), None);
}

#[test]
fn local_dates_of_instants_beyond_the_calendar() {
    let mut talk = Talk::from_record(record("T")).unwrap();
    talk.to_date = Instant { secs: i64::MAX, nanos: 0 };
    assert!(!talk.is_valid());
    assert_eq!(talk.local_dates(), None);
    talk.from_date = Instant { secs: i64::MIN, nanos: 0 };
    talk.to_date = Instant { secs: 0, nanos: 0 };
    assert!(!talk.is_valid());
    talk.from_date = Instant { secs: 0, nanos: 0 };
    talk.to_date = Instant { secs: 8_210_266_876_799, nanos: 999_999_999 };
    assert!(!talk.is_valid());
    talk.to_date = Instant { secs: 253_402_300_799 - 3600, nanos: 0 };
    assert!(talk.is_valid());
    assert_eq!(talk.local_to_date(), "Fri, 31 Dec 9999 23:59:59 +0100");
}

#[test]
fn default_talk_is_empty() {
    let talk = Talk::default();
    assert_eq!(talk.get_title(), "");
    assert_eq!(talk.get_description(), "");
    assert_eq!(talk.speaker_names(), "");
    assert_eq!(talk.room_name, "");
    assert_eq!(talk.timezone, "");
    assert_eq!(talk.from_date, Instant::epoch());
    assert_eq!(talk.to_date, Instant { secs: 0, nanos: 0 });
    assert!(talk.tags.is_none());
}

#[test]
fn title_wins_over_session_type() {
    let mut talk = Talk::default();
    talk.talk_title = Some("Title".to_string());
    talk.session_type_name = Some("Keynote".to_string());
    assert_eq!(talk.get_title(), "Title");
}

#[test]
fn description_of_a_talk() {
    let mut talk = Talk::default();
    talk.talk_description = Some("What it is about".to_string());
    assert_eq!(talk.get_description(), "What it is about");
}

#[test]
fn speaker_names_of_one_and_of_none() {
    let mut talk = Talk::default();
    talk.speakers = Some(Vec::new());
    assert_eq!(talk.speaker_names(), "");
    talk.speakers = Some(vec![Speaker {
        id: 3,
        first_name: "Grace".to_string(),
        last_name: "Hopper".to_string(),
        company: None,
    }]);
    assert_eq!(talk.speaker_names(), "Grace Hopper");
    assert_eq!(talk.speakers.as_ref().unwrap()[0].full_name(), "Grace Hopper");
}

#[test]
fn speaker_names_of_three() {
    let speaker = |id: u32, first: &str, last: &str| Speaker {
        id,
        first_name: first.to_string(),
        last_name: last.to_string(),
        company: None,
    };
    let mut talk = Talk::default();
    talk.speakers = Some(vec![speaker(1, "A", "B"), speaker(2, "C", "D"), speaker(3, "E", "F")]);
    assert_eq!(talk.speaker_names(), "A B, C D, E F");
}

#[test]
fn instants_are_ordered_by_seconds_then_nanoseconds() {
    let a = Instant { secs: 1, nanos: 5 };
    let b = Instant { secs: 1, nanos: 6 };
    let c = Instant { secs: 2, nanos: 0 };
    let d = Instant { secs: -1, nanos: 999_999_999 };
    assert!(a.at_or_before(a));
    assert!(a.at_or_before(b));
    assert!(!b.at_or_before(a));
    assert!(b.at_or_before(c));
    assert!(!c.at_or_before(b));
    assert!(d.at_or_before(a));
    assert!(!a.at_or_before(d));
}
