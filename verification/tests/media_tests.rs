use phorg::files::{read_type, Typ};
use phorg::media::{
    read_timestamp, read_timestamp_embedded, read_timestamp_img, resolve_with_fallback,
    timestamp_from_raw, RawDateTime, TimestampOutcome,
};
use phorg::timestamp::Timestamp;

fn ts(year: u16, month: u8, day: u8, hour: u8, minute: u8, second: u8) -> Timestamp {
    Timestamp { year, month, day, hour, minute, second }
}

#[test]
fn read_type_sniffs_content_not_name() {
    // A text file is unsupported however it is named: classification reads
    // only the bytes, so renaming text to `.jpg` cannot smuggle it in.
    let text = b"hello, this is just text pretending to be a photo".to_vec();
    assert_eq!(None, read_type(&text));

    // A JPEG magic prefix classifies as an image.
    let mut jpeg = vec![0xffu8, 0xd8, 0xff, 0xe0];
    jpeg.extend(vec![0u8; 32]);
    assert_eq!(Some(Typ::Img), read_type(&jpeg));

    // An MP4 file-type box classifies as a video.
    let mut mp4 = vec![0x00u8, 0x00, 0x00, 0x18];
    mp4.extend(b"ftypmp42".to_vec());
    mp4.extend(vec![0u8; 16]);
    assert_eq!(Some(Typ::Vid), read_type(&mp4));

    // Empty content is unsupported.
    assert_eq!(None, read_type(&Vec::new()));
}

#[test]
fn raw_fields_validated() {
    let raw = RawDateTime { year: 2000, month: 12, day: 27, hour: 6, minute: 47, second: 1 };
    assert_eq!(Some(ts(2000, 12, 27, 6, 47, 1)), timestamp_from_raw(raw));

    // Invalid calendar values yield no timestamp rather than an error.
    let raw = RawDateTime { year: 2001, month: 2, day: 29, hour: 0, minute: 0, second: 0 };
    assert_eq!(None, timestamp_from_raw(raw));
    let raw = RawDateTime { year: 2000, month: 0, day: 1, hour: 0, minute: 0, second: 0 };
    assert_eq!(None, timestamp_from_raw(raw));
    let raw = RawDateTime { year: -44, month: 3, day: 15, hour: 12, minute: 0, second: 0 };
    assert_eq!(None, timestamp_from_raw(raw));
}

#[test]
fn fallback_order() {
    let embedded = ts(2019, 5, 6, 7, 8, 9);
    let tool = ts(2020, 1, 2, 3, 4, 5);

    // An embedded timestamp outranks the external tool.
    assert_eq!(
        TimestampOutcome::Found(embedded),
        resolve_with_fallback(TimestampOutcome::Found(embedded), Some(tool))
    );
    // Only a missing embedded timestamp falls back.
    assert_eq!(
        TimestampOutcome::Found(tool),
        resolve_with_fallback(TimestampOutcome::Missing, Some(tool))
    );
    assert_eq!(
        TimestampOutcome::Missing,
        resolve_with_fallback(TimestampOutcome::Missing, None)
    );
    // An unsupported file stays unsupported whatever the tool says.
    assert_eq!(
        TimestampOutcome::Unsupported,
        resolve_with_fallback(TimestampOutcome::Unsupported, Some(tool))
    );
}

#[test]
fn img_unrecognized_container_is_rejected() {
    // Content in no recognized image container format is unsupported:
    // rejected from the pipeline entirely, not merely undated.
    let garbage = b"this is no image container at all".to_vec();
    assert_eq!(TimestampOutcome::Unsupported, read_timestamp_img(&garbage));
    assert_eq!(
        TimestampOutcome::Unsupported,
        read_timestamp_embedded(&garbage, Typ::Img)
    );

    // Rejection wins over the external-tool fallback: the tool's answer
    // is never consulted for an unsupported image.
    let json = br#"[{"DateTimeOriginal":"2019:05:06 07:08:09"}]"#.to_vec();
    assert_eq!(
        TimestampOutcome::Unsupported,
        read_timestamp(&garbage, Typ::Img, Some(&json))
    );
}

#[test]
fn vid_without_metadata_falls_back() {
    // A video that nom-exif cannot parse merely has no timestamp, so the
    // external tool's answer is used when it is handed over.
    let garbage = b"this is no video container at all".to_vec();
    assert_eq!(
        TimestampOutcome::Missing,
        read_timestamp(&garbage, Typ::Vid, None)
    );
    let json = br#"[{"CreateDate":"2020:01:02 03:04:05"}]"#.to_vec();
    assert_eq!(
        TimestampOutcome::Found(ts(2020, 1, 2, 3, 4, 5)),
        read_timestamp(&garbage, Typ::Vid, Some(&json))
    );
}
