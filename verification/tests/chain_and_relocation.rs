use media_organizer::chain::{clamp_year, current_year, derive_output_folder, is_not_hidden};
use media_organizer::output_folder::OutputFolder;
use media_organizer::relocator::{MoveAction, MoveEvent, MoveState, Relocation, RunSummary};
use media_organizer::strategies::strategy::{FileRef, StrategyError};

fn tiff_with_datetime(text: &str) -> Vec<u8> {
    let mut b: Vec<u8> = Vec::new();
    b.extend_from_slice(b"II*\0");
    b.extend_from_slice(&8u32.to_le_bytes());
    b.extend_from_slice(&1u16.to_le_bytes());
    b.extend_from_slice(&0x0132u16.to_le_bytes());
    b.extend_from_slice(&2u16.to_le_bytes());
    b.extend_from_slice(&(text.len() as u32 + 1).to_le_bytes());
    b.extend_from_slice(&26u32.to_le_bytes());
    b.extend_from_slice(&0u32.to_le_bytes());
    b.extend_from_slice(text.as_bytes());
    b.push(0);
    b
}

#[test]
fn hidden_filter_keeps_root_and_plain_names() {
    assert!(is_not_hidden(".input", 0));
    assert!(is_not_hidden("photo.jpg", 2));
    assert!(!is_not_hidden(".thumbnails", 1));
    assert!(is_not_hidden("", 1));
}

#[test]
fn chain_rejects_non_files() {
    let dir = FileRef {
        name: "holiday".to_string(),
        bytes: Vec::new(),
        is_file: false,
    };
    let r = derive_output_folder(&dir, 2026, true);
    assert_eq!(r, Err(StrategyError::NotAFile));
    assert_eq!(r.unwrap_err().message(), "not a file, skipping");
}

#[test]
fn chain_moves_image_by_embedded_date() {
    // An image whose metadata carries 2022-03-04 lands in 2022/03/04.
    let file = FileRef {
        name: "IMG_0001.jpg".to_string(),
        bytes: tiff_with_datetime("2022:03:04 10:20:30"),
        is_file: true,
    };
    let folder = derive_output_folder(&file, 2026, true).unwrap();
    assert_eq!(folder, OutputFolder::new(2022, 3, 4));
    let plan = Relocation::new(
        "input/IMG_0001.jpg".to_string(),
        "IMG_0001.jpg",
        "output",
        &folder,
        false,
    );
    assert_eq!(plan.dest_dir.as_str(), "output/2022/03/04");
    assert_eq!(plan.dest_file.as_str(), "output/2022/03/04/IMG_0001.jpg");
}

#[test]
fn chain_falls_back_to_filename() {
    // The metadata is unreadable, so the name's token decides.
    let file = FileRef {
        name: "photo_20210115_trip.png".to_string(),
        bytes: b"unparsable".to_vec(),
        is_file: true,
    };
    let folder = derive_output_folder(&file, 2026, true).unwrap();
    assert_eq!(folder, OutputFolder::new(2021, 1, 15));
    let plan = Relocation::new(
        "input/photo_20210115_trip.png".to_string(),
        "photo_20210115_trip.png",
        "output",
        &folder,
        false,
    );
    assert_eq!(
        plan.dest_file.as_str(),
        "output/2021/01/15/photo_20210115_trip.png"
    );
}

#[test]
fn chain_fails_when_no_strategy_matches() {
    let file = FileRef {
        name: "random.txt".to_string(),
        bytes: b"plain text".to_vec(),
        is_file: true,
    };
    let r = derive_output_folder(&file, 2026, true);
    assert_eq!(r, Err(StrategyError::NoFilenamePattern));
}

#[test]
fn chain_extension_matching_is_case_insensitive() {
    let file = FileRef {
        name: "IMG_0002.JPG".to_string(),
        bytes: tiff_with_datetime("2020:06:07 01:02:03"),
        is_file: true,
    };
    assert_eq!(
        derive_output_folder(&file, 2026, true),
        Ok(OutputFolder::new(2020, 6, 7))
    );
}

#[test]
fn chain_without_extension_falls_through() {
    let file = FileRef {
        name: "README_20210115_".to_string(),
        bytes: tiff_with_datetime("2020:06:07 01:02:03"),
        is_file: true,
    };
    // No extension, so the metadata is never consulted.
    assert_eq!(
        derive_output_folder(&file, 2026, true),
        Ok(OutputFolder::new(2021, 1, 15))
    );
}

#[test]
fn chain_container_strategy_can_be_disabled() {
    let file = FileRef {
        name: "clip_20210115_.mp4".to_string(),
        bytes: Vec::new(),
        is_file: true,
    };
    assert_eq!(
        derive_output_folder(&file, 2026, false),
        Ok(OutputFolder::new(2021, 1, 15))
    );
}

#[test]
fn current_year_is_plausible() {
    let y = current_year();
    assert!(y >= 2004);
}

#[test]
fn clamp_year_bounds_the_clock_value() {
    assert_eq!(clamp_year(-5), 0);
    assert_eq!(clamp_year(0), 0);
    assert_eq!(clamp_year(2026), 2026);
    assert_eq!(clamp_year(65535), 65535);
    assert_eq!(clamp_year(70000), 65535);
}

fn plan(dry_run: bool) -> Relocation {
    Relocation::new(
        "input/a.jpg".to_string(),
        "a.jpg",
        "output",
        &OutputFolder::new(2022, 3, 4),
        dry_run,
    )
}

#[test]
fn dry_run_only_previews() {
    let p = plan(true);
    assert_eq!(
        p.step(MoveState::Init, MoveEvent::Begin),
        (MoveState::Finished, MoveAction::Preview)
    );
    // Whatever is reported later, a dry run never plans a mutation.
    let states = [
        MoveState::Init,
        MoveState::CreatingDir,
        MoveState::Copying,
        MoveState::Deleting,
        MoveState::Finished,
    ];
    for s in states {
        let (_, action) = p.step(s, MoveEvent::Copied(Some(42)));
        assert!(action == MoveAction::Preview || action == MoveAction::Stop);
    }
}

#[test]
fn live_run_copies_then_deletes() {
    let p = plan(false);
    let (s1, a1) = p.step(MoveState::Init, MoveEvent::Begin);
    assert_eq!((s1, a1), (MoveState::CreatingDir, MoveAction::CreateDir));
    let (s2, a2) = p.step(s1, MoveEvent::DirCreated(true));
    assert_eq!((s2, a2), (MoveState::Copying, MoveAction::CopyFile));
    let (s3, a3) = p.step(s2, MoveEvent::Copied(Some(1024)));
    assert_eq!((s3, a3), (MoveState::Deleting, MoveAction::DeleteSource));
    let (s4, a4) = p.step(s3, MoveEvent::Deleted(true));
    assert_eq!((s4, a4), (MoveState::Finished, MoveAction::Stop));
}

#[test]
fn failed_directory_creation_stops_the_move() {
    let p = plan(false);
    assert_eq!(
        p.step(MoveState::CreatingDir, MoveEvent::DirCreated(false)),
        (MoveState::Finished, MoveAction::Stop)
    );
}

#[test]
fn run_summary_counts_each_file_once() {
    let mut s = RunSummary::new();
    assert_eq!((s.processed, s.skipped, s.failed), (0, 0, 0));
    s.record_processed();
    s.record_processed();
    s.record_skipped();
    s.record_failed();
    assert_eq!((s.processed, s.skipped, s.failed), (2, 1, 1));
}

#[test]
fn zero_byte_copy_leaves_source_in_place() {
    let p = plan(false);
    assert_eq!(
        p.step(MoveState::Copying, MoveEvent::Copied(Some(0))),
        (MoveState::Finished, MoveAction::Stop)
    );
    assert_eq!(
        p.step(MoveState::Copying, MoveEvent::Copied(None)),
        (MoveState::Finished, MoveAction::Stop)
    );
}
