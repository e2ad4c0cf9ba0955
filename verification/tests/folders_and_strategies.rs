use media_organizer::output_folder::OutputFolder;
use media_organizer::strategies::exif_strategy::{ExifStrategy, RawDateTimeField};
use media_organizer::strategies::filename_strategy::FilenameStrategy;
use media_organizer::strategies::mp4_strategy::{creation_time, Mp4Strategy};
use media_organizer::strategies::strategy::{FileRef, Strategy, StrategyError};

fn named_file(name: &str) -> FileRef {
    FileRef {
        name: name.to_string(),
        bytes: Vec::new(),
        is_file: true,
    }
}

#[test]
fn path_is_zero_padded() {
    let folder = OutputFolder::new(2023, 7, 5);
    assert_eq!(folder.get_path().as_str(), "2023/07/05");
}

#[test]
fn path_keeps_wide_fields_unpadded() {
    assert_eq!(OutputFolder::new(987, 11, 3).get_path().as_str(), "987/11/03");
    assert_eq!(OutputFolder::new(2023, 12, 31).get_path().as_str(), "2023/12/31");
}

#[test]
fn filename_extracts_valid_token() {
    let strategy = FilenameStrategy { current_year: 2026 };
    let r = strategy.derive_output_folder(&named_file("photo_20210115_trip.png"));
    assert_eq!(r, Ok(OutputFolder::new(2021, 1, 15)));
}

#[test]
fn filename_first_valid_token_wins() {
    let strategy = FilenameStrategy { current_year: 2026 };
    let r = strategy.derive_output_folder(&named_file("a_19990101_x_20100203_b"));
    assert_eq!(r, Ok(OutputFolder::new(2010, 2, 3)));
}

#[test]
fn filename_rejects_years_out_of_window() {
    let strategy = FilenameStrategy { current_year: 2025 };
    assert_eq!(
        strategy.derive_output_folder(&named_file("_20500101_.jpg")),
        Err(StrategyError::NoFilenamePattern)
    );
    assert_eq!(
        strategy.derive_output_folder(&named_file("_20030101_.jpg")),
        Err(StrategyError::NoFilenamePattern)
    );
    assert_eq!(
        strategy.derive_output_folder(&named_file("_20250101_.jpg")),
        Ok(OutputFolder::new(2025, 1, 1))
    );
}

#[test]
fn filename_rejects_bad_month_and_day() {
    let strategy = FilenameStrategy { current_year: 2026 };
    assert_eq!(
        strategy.derive_output_folder(&named_file("_20211301_.jpg")),
        Err(StrategyError::NoFilenamePattern)
    );
    assert_eq!(
        strategy.derive_output_folder(&named_file("_20210001_.jpg")),
        Err(StrategyError::NoFilenamePattern)
    );
    assert_eq!(
        strategy.derive_output_folder(&named_file("_20210132_.jpg")),
        Err(StrategyError::NoFilenamePattern)
    );
    assert_eq!(
        strategy.derive_output_folder(&named_file("_20210100_.jpg")),
        Err(StrategyError::NoFilenamePattern)
    );
}

#[test]
fn filename_fails_without_token() {
    let strategy = FilenameStrategy { current_year: 2026 };
    let r = strategy.derive_output_folder(&named_file("random.txt"));
    assert_eq!(r, Err(StrategyError::NoFilenamePattern));
    assert_eq!(
        r.unwrap_err().message(),
        "no output folder pattern found"
    );
}

#[test]
fn filename_scan_steps_over_rejected_token_whole() {
    // The second token starts inside the first, range-rejected one; the
    // non-overlapping scan steps past it, so no date is found.
    let strategy = FilenameStrategy { current_year: 2026 };
    let r = strategy.derive_output_folder(&named_file("_00000000_20230101_"));
    assert_eq!(r, Err(StrategyError::NoFilenamePattern));
}

fn tiff_with_datetime(text: &str) -> Vec<u8> {
    let mut b: Vec<u8> = Vec::new();
    b.extend_from_slice(b"II*\0");
    b.extend_from_slice(&8u32.to_le_bytes());
    b.extend_from_slice(&1u16.to_le_bytes());
    b.extend_from_slice(&0x0132u16.to_le_bytes());
    b.extend_from_slice(&2u16.to_le_bytes());
    b.extend_from_slice(&(text.len() as u32 + 1).to_le_bytes());
    b.extend_from_slice(&26u32.to_le_bytes());
    b.extend_from_slice(&0u32.to_le_bytes());
    b.extend_from_slice(text.as_bytes());
    b.push(0);
    b
}

#[test]
fn exif_reads_embedded_date() {
    let file = FileRef {
        name: "IMG_0001.jpg".to_string(),
        bytes: tiff_with_datetime("2022:03:04 10:20:30"),
        is_file: true,
    };
    let r = ExifStrategy {}.derive_output_folder(&file);
    assert_eq!(r, Ok(OutputFolder::new(2022, 3, 4)));
}

#[test]
fn exif_discards_time_of_day() {
    let morning = FileRef {
        name: "a.jpg".to_string(),
        bytes: tiff_with_datetime("2022:03:04 00:00:01"),
        is_file: true,
    };
    let evening = FileRef {
        name: "b.jpg".to_string(),
        bytes: tiff_with_datetime("2022:03:04 23:59:59"),
        is_file: true,
    };
    let strategy = ExifStrategy {};
    assert_eq!(
        strategy.derive_output_folder(&morning),
        strategy.derive_output_folder(&evening)
    );
}

#[test]
fn exif_rejects_unparsable_date_text() {
    let file = FileRef {
        name: "a.jpg".to_string(),
        bytes: tiff_with_datetime("2022-03-04 10:20:30"),
        is_file: true,
    };
    let r = ExifStrategy {}.derive_output_folder(&file);
    assert_eq!(r, Err(StrategyError::DateTimeInvalid));
    assert_eq!(r.unwrap_err().message(), "DateTime is not valid");
}

#[test]
fn exif_fails_on_garbage_bytes() {
    let file = FileRef {
        name: "a.jpg".to_string(),
        bytes: b"certainly not a metadata container".to_vec(),
        is_file: true,
    };
    let r = ExifStrategy {}.derive_output_folder(&file);
    assert_eq!(r, Err(StrategyError::MetadataUnreadable));
}

#[test]
fn exif_field_conclusions() {
    assert_eq!(
        ExifStrategy::derive_from_field(&RawDateTimeField::Missing),
        Err(StrategyError::NoDateTimeField)
    );
    assert_eq!(
        ExifStrategy::derive_from_field(&RawDateTimeField::NotText),
        Err(StrategyError::DateTimeNotText)
    );
    assert_eq!(
        ExifStrategy::derive_from_field(&RawDateTimeField::NoContainer),
        Err(StrategyError::MetadataUnreadable)
    );
    assert_eq!(
        ExifStrategy::derive_from_field(&RawDateTimeField::Text(Vec::new())),
        Err(StrategyError::DateTimeNotText)
    );
    let text = vec![b"2021:12:31 08:09:10".to_vec()];
    assert_eq!(
        ExifStrategy::derive_from_field(&RawDateTimeField::Text(text)),
        Ok(OutputFolder::new(2021, 12, 31))
    );
}

fn mp4_with_creation_time(t: u32) -> Vec<u8> {
    let mut b: Vec<u8> = Vec::new();
    b.extend_from_slice(&16u32.to_be_bytes());
    b.extend_from_slice(b"ftyp");
    b.extend_from_slice(b"isom");
    b.extend_from_slice(&0u32.to_be_bytes());
    b.extend_from_slice(&116u32.to_be_bytes());
    b.extend_from_slice(b"moov");
    b.extend_from_slice(&108u32.to_be_bytes());
    b.extend_from_slice(b"mvhd");
    b.extend_from_slice(&0u32.to_be_bytes());
    b.extend_from_slice(&t.to_be_bytes());
    b.extend_from_slice(&0u32.to_be_bytes());
    b.extend_from_slice(&1000u32.to_be_bytes());
    b.extend_from_slice(&0u32.to_be_bytes());
    b.extend_from_slice(&0x00010000u32.to_be_bytes());
    b.extend_from_slice(&0x0100u16.to_be_bytes());
    b.extend_from_slice(&0u16.to_be_bytes());
    b.extend_from_slice(&0u64.to_be_bytes());
    for _ in 0..9 {
        b.extend_from_slice(&0i32.to_be_bytes());
    }
    for _ in 0..6 {
        b.extend_from_slice(&0u32.to_be_bytes());
    }
    b.extend_from_slice(&1u32.to_be_bytes());
    b
}

#[test]
fn container_epoch_conversion_is_guarded() {
    assert_eq!(creation_time(2082844800), 0);
    assert_eq!(creation_time(2082844800 + 1234), 1234);
    // A value too small for a post-1970 date in the 1904 epoch is taken
    // as already Unix-epoch seconds.
    assert_eq!(creation_time(100), 100);
}

#[test]
fn container_reads_creation_date() {
    // 3729196800 seconds after 1904-01-01 is 2022-03-04 UTC.
    let file = FileRef {
        name: "clip.mp4".to_string(),
        bytes: mp4_with_creation_time(3729196800),
        is_file: true,
    };
    let r = Mp4Strategy {}.derive_output_folder(&file);
    assert_eq!(r, Ok(OutputFolder::new(2022, 3, 4)));
}

#[test]
fn container_start_of_unix_epoch() {
    let file = FileRef {
        name: "clip.mp4".to_string(),
        bytes: mp4_with_creation_time(2082844800),
        is_file: true,
    };
    let r = Mp4Strategy {}.derive_output_folder(&file);
    assert_eq!(r, Ok(OutputFolder::new(1970, 1, 1)));
}

#[test]
fn container_fails_on_garbage_bytes() {
    let file = FileRef {
        name: "clip.mp4".to_string(),
        bytes: b"not a container".to_vec(),
        is_file: true,
    };
    let r = Mp4Strategy {}.derive_output_folder(&file);
    assert_eq!(r, Err(StrategyError::ContainerUnreadable));
    assert_eq!(r.unwrap_err().message(), "unable to extract container metadata");
}

#[test]
fn container_rejects_crafted_event_box() {
    // A top-level event-message box whose declared size (20) is smaller
    // than its fixed fields would wrap the reader's size arithmetic;
    // such a file must come back as unreadable, not abort the run.
    let mut b: Vec<u8> = Vec::new();
    b.extend_from_slice(&20u32.to_be_bytes());
    b.extend_from_slice(b"emsg");
    b.extend_from_slice(&[0u8; 22]);
    let file = FileRef {
        name: "clip.mp4".to_string(),
        bytes: b,
        is_file: true,
    };
    let r = Mp4Strategy {}.derive_output_folder(&file);
    assert_eq!(r, Err(StrategyError::ContainerUnreadable));
}

#[test]
fn container_rejects_zero_size_inner_box() {
    // A zero-sized box inside the movie box would stall the reader's
    // skipping loop forever; the strategy reports the file unreadable.
    let mut b: Vec<u8> = Vec::new();
    b.extend_from_slice(&16u32.to_be_bytes());
    b.extend_from_slice(b"ftyp");
    b.extend_from_slice(b"isom");
    b.extend_from_slice(&0u32.to_be_bytes());
    b.extend_from_slice(&24u32.to_be_bytes());
    b.extend_from_slice(b"moov");
    b.extend_from_slice(&0u32.to_be_bytes());
    b.extend_from_slice(b"free");
    b.extend_from_slice(&[0u8; 8]);
    let file = FileRef {
        name: "clip.mp4".to_string(),
        bytes: b,
        is_file: true,
    };
    let r = Mp4Strategy {}.derive_output_folder(&file);
    assert_eq!(r, Err(StrategyError::ContainerUnreadable));
}

#[test]
fn container_rejects_metadata_list_box() {
    // The reader's handling of a crafted metadata box inside the movie
    // box can wrap its size arithmetic too; such files are reported
    // unreadable without consulting the reader.
    let mut b: Vec<u8> = Vec::new();
    b.extend_from_slice(&16u32.to_be_bytes());
    b.extend_from_slice(b"ftyp");
    b.extend_from_slice(b"isom");
    b.extend_from_slice(&0u32.to_be_bytes());
    b.extend_from_slice(&24u32.to_be_bytes());
    b.extend_from_slice(b"moov");
    b.extend_from_slice(&16u32.to_be_bytes());
    b.extend_from_slice(b"meta");
    b.extend_from_slice(&[0u8; 8]);
    let file = FileRef {
        name: "clip.mp4".to_string(),
        bytes: b,
        is_file: true,
    };
    let r = Mp4Strategy {}.derive_output_folder(&file);
    assert_eq!(r, Err(StrategyError::ContainerUnreadable));
}

#[test]
fn mp4_derive_from_creation_time_converts() {
    assert_eq!(
        Mp4Strategy::derive_from_creation_time(2082844800),
        Ok(OutputFolder::new(1970, 1, 1))
    );
    assert_eq!(
        Mp4Strategy::derive_from_creation_time(3729196800),
        Ok(OutputFolder::new(2022, 3, 4))
    );
    assert_eq!(
        Mp4Strategy::derive_from_creation_time(u64::MAX),
        Err(StrategyError::CreationTimeOutOfRange)
    );
}
