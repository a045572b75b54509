//! Embedded-metadata timestamp strategies.
//!
//! A capture timestamp is resolved by an ordered chain: embedded metadata
//! for the file's media kind first, then an optional external-tool
//! fallback.  An image whose container format is not recognized is
//! unsupported and leaves the pipeline entirely, which is distinct from
//! merely having no timestamp.

use chrono::{Datelike, Timelike};
use vstd::prelude::*;

use crate::files::Typ;
use crate::timestamp::{spec_valid_fields, Timestamp};

verus! {

#[verifier::external_type_specification]
#[verifier::external_body]
pub struct ExExif(exif::Exif);

/// Raw date-time fields as read from embedded metadata, before calendar
/// validation.
#[derive(Debug, Clone, Copy, PartialEq, Eq, Structural)]
pub struct RawDateTime {
    pub year: i64,
    pub month: u32,
    pub day: u32,
    pub hour: u32,
    pub minute: u32,
    pub second: u32,
}

/// How reading one file's metadata ended.
#[derive(Debug, Clone, Copy, PartialEq, Eq, Structural)]
pub enum TimestampOutcome {
    /// The container format is not recognized: the file is not organizable
    /// and leaves the pipeline.
    Unsupported,
    /// No strategy yielded a timestamp: the file is excluded from
    /// destination computation, without being an error.
    Missing,
    /// A valid capture timestamp.
    Found(Timestamp),
}

/// What reading an image's embedded metadata yielded.
#[derive(Debug, Clone, Copy, PartialEq, Eq, Structural)]
pub enum ImgRead {
    /// The container format is not recognized.
    Unrecognized,
    /// The container could not be read.
    Unreadable,
    /// The container parsed but held no usable original-date field.
    NoField,
    /// The raw fields of the original-date entry.
    Raw(RawDateTime),
}

impl RawDateTime {
    /// Bundles the narrow fields that an embedded image date carries.
    pub fn from_small(year: u16, month: u8, day: u8, hour: u8, minute: u8, second: u8) -> (r:
        RawDateTime)
        ensures
            r == (RawDateTime {
                year: year as i64,
                month: month as u32,
                day: day as u32,
                hour: hour as u32,
                minute: minute as u32,
                second: second as u32,
            }),
    {
        RawDateTime {
            year: year as i64,
            month: month as u32,
            day: day as u32,
            hour: hour as u32,
            minute: minute as u32,
            second: second as u32,
        }
    }
}

/// What reading an image's embedded metadata yields: a function of the
/// image bytes alone.
pub uninterp spec fn img_read_of(bytes: Seq<u8>) -> ImgRead;

/// Relies on `exif::Reader::read_from_container`, `exif::Exif::get_field`
/// and `exif::DateTime::from_ascii` of the kamadak-exif crate: parses the
/// embedded metadata block of an image held in memory and reads its
/// DateTimeOriginal field, all deterministic in the bytes alone.  An
/// `InvalidFormat` error means the container format is not recognized; a
/// field that is absent, blank, non-ASCII or malformed means no field.
#[verifier::external_body]
fn read_image_metadata(bytes: &Vec<u8>) -> (r: ImgRead)
    ensures
        r == img_read_of(bytes@),
{
    let mut cur = std::io::Cursor::new(bytes.as_slice());
    let x = match exif::Reader::new().read_from_container(&mut cur) {
        Ok(x) => x,
        Err(exif::Error::InvalidFormat(_)) => return ImgRead::Unrecognized,
        Err(_) => return ImgRead::Unreadable,
    };
    let dt = match x.get_field(exif::Tag::DateTimeOriginal, exif::In::PRIMARY) {
        Some(exif::Field { value: exif::Value::Ascii(d), .. }) => d.first(),
        _ => None,
    };
    match dt.and_then(|d| exif::DateTime::from_ascii(d).ok()) {
        Some(dt) => ImgRead::Raw(RawDateTime::from_small(dt.year, dt.month, dt.day, dt.hour, dt.minute, dt.second)),
        None => ImgRead::NoField,
    }
}

/// What reading a video's creation-date entry yields: a function of the
/// video bytes alone.
pub uninterp spec fn vid_raw_of(bytes: Seq<u8>) -> Option<RawDateTime>;

/// Relies on `nom_exif::MediaParser` of the nom-exif crate: parses the
/// metadata atoms of a video held in memory and returns the fields of its
/// creation-date entry, when one is present and time-valued, as a naive
/// local date-time, deterministic in the bytes alone.  The crate reads the
/// quicktime creation-date entry and falls back to the creation time of
/// the movie-header box when that entry is absent.
#[verifier::external_body]
fn read_video_creation_date(bytes: &Vec<u8>) -> (r: Option<RawDateTime>)
    ensures
        r == vid_raw_of(bytes@),
{
    let cur = std::io::Cursor::new(bytes.as_slice());
    let src = nom_exif::MediaSource::seekable(cur).ok()?;
    let mut parser = nom_exif::MediaParser::new();
    let info: nom_exif::TrackInfo = parser.parse_track(src).ok()?;
    let naive = match info.get(nom_exif::TrackInfoTag::CreateDate)? {
        nom_exif::EntryValue::DateTime(t) => t.naive_local(),
        nom_exif::EntryValue::NaiveDateTime(t) => *t,
        _ => return None,
    };
    Some(RawDateTime {
        year: naive.year() as i64, month: naive.month(), day: naive.day(),
        hour: naive.hour(), minute: naive.minute(), second: naive.second(),
    })
}

/// The calendar validation of raw metadata fields: the timestamp with
/// those fields when they form a valid date-time, and nothing otherwise.
pub open spec fn spec_timestamp_from_raw(raw: RawDateTime) -> Option<Timestamp> {
    if spec_valid_fields(
        raw.year as int,
        raw.month as int,
        raw.day as int,
        raw.hour as int,
        raw.minute as int,
        raw.second as int,
    ) {
        Some(
            Timestamp {
                year: raw.year as u16,
                month: raw.month as u8,
                day: raw.day as u8,
                hour: raw.hour as u8,
                minute: raw.minute as u8,
                second: raw.second as u8,
            },
        )
    } else {
        None
    }
}

/// Validates raw metadata fields as a calendar timestamp.
pub fn timestamp_from_raw(raw: RawDateTime) -> (r: Option<Timestamp>)
    ensures
        r == spec_timestamp_from_raw(raw),
        r matches Some(ts) ==> ts.wf(),
{
    Timestamp::new(raw.year, raw.month, raw.day, raw.hour, raw.minute, raw.second)
}

/// The outcome of the image strategy: an unrecognized container is
/// unsupported; an unreadable container, a missing or malformed field, and
/// invalid calendar fields all leave the timestamp missing.
pub open spec fn spec_read_timestamp_img(bytes: Seq<u8>) -> TimestampOutcome {
    match img_read_of(bytes) {
        ImgRead::Unrecognized => TimestampOutcome::Unsupported,
        ImgRead::Unreadable => TimestampOutcome::Missing,
        ImgRead::NoField => TimestampOutcome::Missing,
        ImgRead::Raw(raw) => match spec_timestamp_from_raw(raw) {
            Some(ts) => TimestampOutcome::Found(ts),
            None => TimestampOutcome::Missing,
        },
    }
}

/// The outcome of the video strategy: no creation-date entry or invalid
/// calendar fields leave the timestamp missing; a video is never
/// unsupported.
pub open spec fn spec_read_timestamp_vid(bytes: Seq<u8>) -> TimestampOutcome {
    match vid_raw_of(bytes) {
        Some(raw) => match spec_timestamp_from_raw(raw) {
            Some(ts) => TimestampOutcome::Found(ts),
            None => TimestampOutcome::Missing,
        },
        None => TimestampOutcome::Missing,
    }
}

/// The embedded strategy for the file's media kind.
pub open spec fn spec_read_timestamp_embedded(bytes: Seq<u8>, typ: Typ) -> TimestampOutcome {
    match typ {
        Typ::Img => spec_read_timestamp_img(bytes),
        Typ::Vid => spec_read_timestamp_vid(bytes),
    }
}

/// Reads the embedded timestamp of an image: an unrecognized container
/// rejects the file, a blank, absent or malformed field merely yields no
/// timestamp, and invalid calendar values yield no timestamp.
pub fn read_timestamp_img(bytes: &Vec<u8>) -> (r: TimestampOutcome)
    ensures
        r == spec_read_timestamp_img(bytes@),
        r matches TimestampOutcome::Found(ts) ==> ts.wf(),
{
    match read_image_metadata(bytes) {
        ImgRead::Unrecognized => TimestampOutcome::Unsupported,
        ImgRead::Unreadable => TimestampOutcome::Missing,
        ImgRead::NoField => TimestampOutcome::Missing,
        ImgRead::Raw(raw) => match timestamp_from_raw(raw) {
            None => TimestampOutcome::Missing,
            Some(ts) => TimestampOutcome::Found(ts),
        },
    }
}

/// Reads the embedded timestamp of a video from its creation-date entry;
/// any parse failure merely yields no timestamp.
pub fn read_timestamp_vid(bytes: &Vec<u8>) -> (r: TimestampOutcome)
    ensures
        r == spec_read_timestamp_vid(bytes@),
        r matches TimestampOutcome::Found(ts) ==> ts.wf(),
        !(r is Unsupported),
{
    match read_video_creation_date(bytes) {
        None => TimestampOutcome::Missing,
        Some(raw) => match timestamp_from_raw(raw) {
            None => TimestampOutcome::Missing,
            Some(ts) => TimestampOutcome::Found(ts),
        },
    }
}

/// Reads the embedded timestamp for the file's media kind.
pub fn read_timestamp_embedded(bytes: &Vec<u8>, typ: Typ) -> (r: TimestampOutcome)
    ensures
        r == spec_read_timestamp_embedded(bytes@, typ),
        r matches TimestampOutcome::Found(ts) ==> ts.wf(),
        typ == Typ::Vid ==> !(r is Unsupported),
{
    match typ {
        Typ::Img => read_timestamp_img(bytes),
        Typ::Vid => read_timestamp_vid(bytes),
    }
}

/// The strategy chain: an embedded result stands; only a missing one falls
/// back to the external tool's answer.  An unsupported file is never
/// handed to the fallback.
pub open spec fn spec_resolve(
    embedded: TimestampOutcome,
    fallback: Option<Timestamp>,
) -> TimestampOutcome {
    match embedded {
        TimestampOutcome::Missing => match fallback {
            Some(ts) => TimestampOutcome::Found(ts),
            None => TimestampOutcome::Missing,
        },
        _ => embedded,
    }
}

/// Combines the embedded outcome with the external tool's answer, in the
/// documented strategy order.
pub fn resolve_with_fallback(embedded: TimestampOutcome, fallback: Option<Timestamp>) -> (r:
    TimestampOutcome)
    ensures
        r == spec_resolve(embedded, fallback),
{
    match embedded {
        TimestampOutcome::Missing => match fallback {
            Some(ts) => TimestampOutcome::Found(ts),
            None => TimestampOutcome::Missing,
        },
        _ => embedded,
    }
}

/// Resolves the timestamp of one file: embedded metadata first, then the
/// external tool's output when the caller enabled the fallback and handed
/// it over.  The result is found only with a valid calendar timestamp; an
/// image in an unrecognized container is unsupported whatever the
/// fallback would say.
pub fn read_timestamp(bytes: &Vec<u8>, typ: Typ, exiftool_json: Option<&Vec<u8>>) -> (r:
    TimestampOutcome)
    ensures
        r == (match exiftool_json {
            Some(json) => spec_resolve(
                spec_read_timestamp_embedded(bytes@, typ),
                crate::exiftool::spec_read_timestamp(json@),
            ),
            None => spec_read_timestamp_embedded(bytes@, typ),
        }),
        r matches TimestampOutcome::Found(ts) ==> ts.wf(),
        typ == Typ::Vid ==> !(r is Unsupported),
{
    let embedded = read_timestamp_embedded(bytes, typ);
    match embedded {
        TimestampOutcome::Missing => match exiftool_json {
            Some(json) => resolve_with_fallback(embedded, crate::exiftool::read_timestamp(json)),
            None => embedded,
        },
        _ => embedded,
    }
}

} // verus!
