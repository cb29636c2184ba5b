use matchbot_api::archive::{decimal_string, demo_filename, series_archive_key, ArchiveNamer};
use matchbot_api::models::SeriesType;

#[test]
fn bo1_keeps_raw_filename() {
    assert_eq!(ArchiveNamer::name(SeriesType::Bo1, "abc", "m-42.dem", 0), "m-42.dem");
}

#[test]
fn bo3_first_map() {
    assert_eq!(ArchiveNamer::name(SeriesType::Bo3, "abc", "m-42.dem", 2), "abc_1");
}

#[test]
fn bo5_first_map() {
    assert_eq!(ArchiveNamer::name(SeriesType::Bo5, "abc", "m-42.dem", 4), "abc_1");
}

#[test]
fn bo3_and_bo5_last_map() {
    assert_eq!(ArchiveNamer::name(SeriesType::Bo3, "abc", "x.dem", 0), "abc_3");
    assert_eq!(ArchiveNamer::name(SeriesType::Bo5, "s9", "x.dem", 0), "s9_5");
    assert_eq!(ArchiveNamer::name(SeriesType::Bo5, "s9", "x.dem", 2), "s9_3");
}

#[test]
fn decimal_writing() {
    assert_eq!(decimal_string(0), "0");
    assert_eq!(decimal_string(7), "7");
    assert_eq!(decimal_string(10), "10");
    assert_eq!(decimal_string(1234567890), "1234567890");
    assert_eq!(decimal_string(u64::MAX), "18446744073709551615");
}

#[test]
fn batch_keys_and_filenames() {
    assert_eq!(series_archive_key("ext", 1), "ext_1.dem");
    assert_eq!(series_archive_key("ext", 12), "ext_12.dem");
    assert_eq!(demo_filename("6410"), "6410.dem");
}
