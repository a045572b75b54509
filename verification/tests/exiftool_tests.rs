use phorg::exiftool::{first_parsed, naive_date_time_parse, read_timestamp};
use phorg::timestamp::Timestamp;

fn ts(year: u16, month: u8, day: u8, hour: u8, minute: u8, second: u8) -> Timestamp {
    Timestamp { year, month, day, hour, minute, second }
}

#[test]
fn t_naive_date_time_parse() {
    assert!(naive_date_time_parse("").is_none());
    assert!(naive_date_time_parse("-200:88:90 1:2:3").is_none());
    assert_eq!(
        ts(2022, 10, 3, 17, 52, 16),
        naive_date_time_parse("2022:10:03 17:52:16.597752928733826Z").unwrap()
    );
    assert_eq!(
        ts(2022, 10, 3, 17, 52, 16),
        naive_date_time_parse("2022:10:03 17:52:16").unwrap()
    );
    assert_eq!(
        ts(2022, 10, 3, 17, 52, 16),
        naive_date_time_parse("2022:10:03 17:52:16+4:00").unwrap()
    );
    assert_eq!(
        ts(2022, 10, 3, 17, 52, 16),
        naive_date_time_parse("2022:10:03 17:52:16-7:00").unwrap()
    );
}

#[test]
fn parse_rejects_malformed() {
    // Missing pieces, wrong separators, trailing garbage.
    assert!(naive_date_time_parse("2022:10:03").is_none());
    assert!(naive_date_time_parse("2022-10-03 17:52:16").is_none());
    assert!(naive_date_time_parse("2022:10:03 17:52:16x").is_none());
    assert!(naive_date_time_parse("2022:10:03T17:52:16").is_none());
    assert!(naive_date_time_parse("20223:10:03 17:52:16").is_none());
}

#[test]
fn parse_rejects_invalid_calendar() {
    // Month, day and time fields must form a real calendar date-time.
    assert!(naive_date_time_parse("2022:13:03 17:52:16").is_none());
    assert!(naive_date_time_parse("2022:00:03 17:52:16").is_none());
    assert!(naive_date_time_parse("2022:04:31 17:52:16").is_none());
    assert!(naive_date_time_parse("2022:10:03 24:00:00").is_none());
    assert!(naive_date_time_parse("1900:02:29 00:00:00").is_none());
}

#[test]
fn parse_accepts_short_fields() {
    // Single-digit fields parse, as does a leap day.
    assert_eq!(ts(2000, 2, 29, 1, 2, 3), naive_date_time_parse("2000:2:29 1:2:3").unwrap());
}

#[test]
fn exiftool_priority_order() {
    // DateTimeOriginal outranks the other candidate fields.
    let json = br#"[{"SourceFile":"x","CreateDate":"2020:01:02 03:04:05","DateTimeOriginal":"2019:05:06 07:08:09"}]"#
        .to_vec();
    assert_eq!(Some(ts(2019, 5, 6, 7, 8, 9)), read_timestamp(&json));

    // An unparsable higher-priority candidate falls through to the next.
    let json = br#"[{"DateTimeOriginal":"not a date","CreateDate":"2020:01:02 03:04:05"}]"#
        .to_vec();
    assert_eq!(Some(ts(2020, 1, 2, 3, 4, 5)), read_timestamp(&json));

    // CreationDate outranks CreateDate.
    let json = br#"[{"CreateDate":"2020:01:02 03:04:05","CreationDate":"2021:06:07 08:09:10"}]"#
        .to_vec();
    assert_eq!(Some(ts(2021, 6, 7, 8, 9, 10)), read_timestamp(&json));
}

#[test]
fn exiftool_tolerates_bad_output() {
    // Malformed JSON, an empty array, a non-array and absent fields are
    // all just "no timestamp", never an error.
    assert_eq!(None, read_timestamp(&b"not json".to_vec()));
    assert_eq!(None, read_timestamp(&b"[]".to_vec()));
    assert_eq!(None, read_timestamp(&b"{}".to_vec()));
    assert_eq!(None, read_timestamp(&br#"[{"SourceFile":"x"}]"#.to_vec()));
    assert_eq!(None, read_timestamp(&br#"[{"DateTimeOriginal":42}]"#.to_vec()));
}

#[test]
fn first_parsed_priority() {
    // The first parsable candidate wins; absent and malformed ones are
    // skipped.
    let cands = vec![
        None,
        Some("garbage".to_string()),
        Some("2019:05:06 07:08:09".to_string()),
        Some("2001:01:01 01:01:01".to_string()),
    ];
    assert_eq!(Some(ts(2019, 5, 6, 7, 8, 9)), first_parsed(&cands));
    assert_eq!(None, first_parsed(&vec![]));
    assert_eq!(None, first_parsed(&vec![None, Some("nope".to_string())]));
}

#[test]
fn exiftool_uses_first_object() {
    let json = br#"[{"DateTimeOriginal":"2019:05:06 07:08:09"},{"DateTimeOriginal":"2001:01:01 01:01:01"}]"#
        .to_vec();
    assert_eq!(Some(ts(2019, 5, 6, 7, 8, 9)), read_timestamp(&json));
}
