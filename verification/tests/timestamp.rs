use still_bott::gq::{format_tweet_at, RoleEnum, Time, Timestamptz};
use still_bott::model::Role;
use still_bott::timestamp::{parse_clock, Timestamp};

#[test]
fn rfc3339_text_is_read_as_instant_and_offset() {
    let t = Timestamp::parse_rfc3339("2023-05-01T12:00:00+09:00").unwrap();
    // 2023-05-01T03:00:00Z
    assert_eq!(t.unix_nanos, 1_682_910_000_000_000_000);
    assert_eq!(t.offset_seconds, 9 * 3600);
    let z = Timestamp::parse_rfc3339("1970-01-01T00:00:00.5Z").unwrap();
    assert_eq!(z.unix_nanos, 500_000_000);
    assert_eq!(z.offset_seconds, 0);
}

#[test]
fn rfc3339_rejects_other_text() {
    assert_eq!(Timestamp::parse_rfc3339(""), None);
    assert_eq!(Timestamp::parse_rfc3339("2023-05-01 12:00:00"), None);
    assert_eq!(Timestamp::parse_rfc3339("Mon, 01 May 2023 12:00:00 +0900"), None);
}

#[test]
fn rfc2822_text_is_read_as_instant_and_offset() {
    let t = Timestamp::parse_rfc2822("Mon, 01 May 2023 12:00:00 +0900").unwrap();
    assert_eq!(t.unix_nanos, 1_682_910_000_000_000_000);
    assert_eq!(t.offset_seconds, 9 * 3600);
    let g = Timestamp::parse_rfc2822("Thu, 01 Jan 1970 00:00:01 GMT").unwrap();
    assert_eq!(g.unix_nanos, 1_000_000_000);
    assert_eq!(g.offset_seconds, 0);
}

#[test]
fn rfc2822_rejects_other_text() {
    assert_eq!(Timestamp::parse_rfc2822("2023-05-01T12:00:00+09:00"), None);
    assert_eq!(Timestamp::parse_rfc2822("yesterday"), None);
}

#[test]
fn timestamp_is_written_as_rfc3339() {
    let t = Timestamp { unix_nanos: 1_682_910_000_000_000_000, offset_seconds: 9 * 3600 };
    assert_eq!(t.to_rfc3339().as_deref(), Some("2023-05-01T12:00:00+09:00"));
    let z = Timestamp::from_unix_seconds(0);
    assert_eq!(z.to_rfc3339().as_deref(), Some("1970-01-01T00:00:00Z"));
}

#[test]
fn timestamp_display_text() {
    let t = Timestamp { unix_nanos: 1_682_910_000_000_000_000, offset_seconds: 9 * 3600 };
    assert_eq!(t.to_text().as_deref(), Some("2023-05-01 12:00:00.0 +09:00:00"));
    let z = Timestamp::from_unix_seconds(0);
    assert_eq!(z.to_text().as_deref(), Some("1970-01-01 0:00:00.0 +00:00:00"));
}

#[test]
fn timestamp_without_text_form() {
    let far = Timestamp { unix_nanos: i128::MAX, offset_seconds: 0 };
    assert_eq!(far.to_text(), None);
    assert_eq!(far.to_rfc3339(), None);
    let odd_offset = Timestamp { unix_nanos: 0, offset_seconds: i32::MAX };
    assert_eq!(odd_offset.to_text(), None);
    // RFC 3339 has no seconds in its offsets.
    let seconds_in_offset = Timestamp { unix_nanos: 0, offset_seconds: 1 };
    assert_eq!(seconds_in_offset.to_rfc3339(), None);
    assert!(seconds_in_offset.to_text().is_some());
}

#[test]
fn round_trip_through_rfc3339() {
    let t = Timestamp { unix_nanos: 1_700_000_000_123_456_000, offset_seconds: -5 * 3600 };
    let text = t.to_rfc3339().unwrap();
    assert_eq!(Timestamp::parse_rfc3339(&text), Some(t));
}

#[test]
fn from_unix_seconds_is_in_utc() {
    let t = Timestamp::from_unix_seconds(-3);
    assert_eq!(t.unix_nanos, -3_000_000_000);
    assert_eq!(t.offset_seconds, 0);
    let big = Timestamp::from_unix_seconds(i64::MAX);
    assert_eq!(big.unix_nanos, i64::MAX as i128 * 1_000_000_000);
}

#[test]
fn later_instant_is_after() {
    let a = Timestamp { unix_nanos: 10, offset_seconds: 3600 };
    let b = Timestamp { unix_nanos: 11, offset_seconds: -3600 };
    assert!(b.is_after(&a));
    assert!(!a.is_after(&b));
    assert!(!a.is_after(&a));
}

#[test]
fn now_is_in_utc_and_recent() {
    let now = Timestamp::now_utc();
    assert_eq!(now.offset_seconds, 0);
    // After 2023-01-01.
    assert!(now.unix_nanos > 1_672_531_200_000_000_000);
}

#[test]
fn clock_text_is_read() {
    assert_eq!(parse_clock("07:30:00"), Some((7, 30, 0)));
    assert_eq!(parse_clock("23:59:59"), Some((23, 59, 59)));
    assert_eq!(parse_clock("24:00:00"), None);
    assert_eq!(parse_clock("7:30"), None);
    assert_eq!(parse_clock(""), None);
}

#[test]
fn stored_time_to_time_of_day() {
    let t = Time(String::from("07:30:15")).to_time_of_day().unwrap();
    assert_eq!(t.seconds_since_midnight(), 7 * 3600 + 30 * 60 + 15);
    assert!(Time(String::from("07:30")).to_time_of_day().is_none());
    assert!(Time(String::from("25:00:00")).to_time_of_day().is_none());
}

#[test]
fn stored_timestamp_conversions() {
    let stored = Timestamptz(String::from("2023-05-01T12:00:00+09:00"));
    let t = stored.to_timestamp().unwrap();
    assert_eq!(t.unix_nanos, 1_682_910_000_000_000_000);
    let back = Timestamptz::from_timestamp(t).unwrap();
    assert_eq!(back.0, "2023-05-01T12:00:00+09:00");
    assert!(Timestamptz(String::from("not a date")).to_timestamp().is_none());
    assert!(Timestamptz::from_timestamp(Timestamp { unix_nanos: i128::MIN, offset_seconds: 0 })
        .is_none());
}

#[test]
fn tweet_at_is_written_in_two_digit_fields() {
    let t = still_bott::calendar::TimeOfDay::from_hms(7, 5, 9).unwrap();
    assert_eq!(format_tweet_at(t), "07:05:09");
    let late = still_bott::calendar::TimeOfDay::from_hms(23, 59, 59).unwrap();
    assert_eq!(format_tweet_at(late), "23:59:59");
    let midnight = still_bott::calendar::TimeOfDay::from_hms(0, 0, 0).unwrap();
    assert_eq!(format_tweet_at(midnight), "00:00:00");
    // What is written can be read back.
    assert_eq!(Time(format_tweet_at(t)).to_time_of_day(), Some(t));
}

#[test]
fn role_names_of_the_store() {
    assert_eq!(RoleEnum::from(Role::Anonymous), RoleEnum::Anonymous);
    assert_eq!(RoleEnum::from(Role::Basic), RoleEnum::Basic);
    assert_eq!(RoleEnum::from(Role::Premium), RoleEnum::Premium);
    assert_eq!(Role::from(RoleEnum::Anonymous), Role::Anonymous);
    assert_eq!(Role::from(RoleEnum::Basic), Role::Basic);
    assert_eq!(Role::from(RoleEnum::Premium), Role::Premium);
}

#[test]
fn clock_text_is_read_as_the_time_crate_reads_it() {
    let description = time::format_description::parse_borrowed::<1>("[hour]:[minute]:[second]")
        .unwrap();
    let mut texts: Vec<String> = vec![
        "", "0", "00:00", "00:00:0", "00:00:000", "0:00:00", "00:0:00", "00-00-00", "00:00:00 ",
        " 00:00:00", "00:00:00Z", "00:00:00.0", "24:00:00", "23:60:00", "23:59:60", "23:59:59",
        "ab:cd:ef", "1a:00:00", "00:b0:00", "00:00:0c", "+1:00:00", "-1:00:00", "０７:３０:００",
        "07：30：00", "07:30:00\n", "99:99:99", "19:5 :00", "12:34:56",
    ]
    .into_iter()
    .map(String::from)
    .collect();
    for h in [0u8, 1, 9, 10, 19, 20, 23, 24, 25, 30, 99] {
        for m in [0u8, 7, 59, 60, 61, 99] {
            for s in [0u8, 8, 59, 60, 61, 99] {
                texts.push(format!("{:02}:{:02}:{:02}", h, m, s));
            }
        }
    }
    for text in texts {
        let theirs = time::Time::parse(&text, &description)
            .ok()
            .map(|t| (t.hour(), t.minute(), t.second()));
        assert_eq!(parse_clock(&text), theirs, "{:?}", text);
    }
}
