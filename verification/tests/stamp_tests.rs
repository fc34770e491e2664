use syno_client::stamp::add_dt_to_filename;
use syno_client::stamp::format_timestamp;
use syno_client::stamp::stamped_filename;
use syno_client::stamp::Timestamp;

fn march_fifth() -> Timestamp {
    Timestamp::from_parts(2024, 3, 5, 10, 15, 30).expect("a valid instant")
}

#[test]
fn timestamp_renders_zero_padded() {
    assert_eq!(format_timestamp(&march_fifth()), "20240305_101530");
    let t = Timestamp::from_parts(987, 12, 31, 0, 0, 9).unwrap();
    assert_eq!(format_timestamp(&t), "09871231_000009");
}

#[test]
fn stamp_is_inserted_before_the_extension() {
    assert_eq!(stamped_filename("backup.tar", &march_fifth()), "backup_20240305_101530.tar");
}

#[test]
fn stamp_is_appended_when_there_is_no_extension() {
    assert_eq!(stamped_filename("README", &march_fifth()), "README_20240305_101530");
}

#[test]
fn only_the_last_dot_separates_the_extension() {
    assert_eq!(
        stamped_filename("archive.tar.gz", &march_fifth()),
        "archive.tar_20240305_101530.gz"
    );
}

#[test]
fn a_leading_dot_marks_no_extension() {
    assert_eq!(stamped_filename(".bashrc", &march_fifth()), ".bashrc_20240305_101530");
    assert_eq!(stamped_filename(".", &march_fifth()), "._20240305_101530");
}

#[test]
fn a_trailing_dot_keeps_its_empty_extension() {
    assert_eq!(stamped_filename("note.", &march_fifth()), "note_20240305_101530.");
}

#[test]
fn out_of_range_clock_fields_are_rejected() {
    assert!(Timestamp::from_parts(2024, 13, 5, 10, 15, 30).is_none());
    assert!(Timestamp::from_parts(2024, 0, 5, 10, 15, 30).is_none());
    assert!(Timestamp::from_parts(2024, 3, 32, 10, 15, 30).is_none());
    assert!(Timestamp::from_parts(2024, 3, 5, 24, 15, 30).is_none());
    assert!(Timestamp::from_parts(2024, 3, 5, 10, 60, 30).is_none());
    assert!(Timestamp::from_parts(2024, 3, 5, 10, 15, 60).is_none());
    assert!(Timestamp::from_parts(10000, 3, 5, 10, 15, 30).is_none());
    assert!(Timestamp::from_parts(-44, 3, 5, 10, 15, 30).is_none());
}

#[test]
fn live_clock_stamping_keeps_stem_and_extension() {
    // The wall clock decides the digits, so check the shape, not the value.
    let out = add_dt_to_filename("backup.tar").expect("the clock year fits four digits");
    assert_eq!(out.len(), "backup.tar".len() + 16);
    assert!(out.starts_with("backup_"));
    assert!(out.ends_with(".tar"));
    let digits: Vec<char> = out["backup_".len()..out.len() - ".tar".len()].chars().collect();
    assert_eq!(digits.len(), 15);
    assert_eq!(digits[8], '_');
    for (i, c) in digits.iter().enumerate() {
        if i != 8 {
            assert!(c.is_ascii_digit());
        }
    }
}
