use ffmpeg_setup::probe::executable_in;
use ffmpeg_setup::probe::first_match;
use ffmpeg_setup::probe::probe_search_path;
use ffmpeg_setup::registrar::append_search_path;
use ffmpeg_setup::registrar::registration_result;

#[test]
fn probe_reports_first_of_two_matches() {
    // Two directories hold the executable; only the first is reported.
    let flags = vec![false, true, false, true];
    assert_eq!(first_match(&flags), Some(1));
}

#[test]
fn probe_match_in_first_directory() {
    let flags = vec![true, true];
    assert_eq!(first_match(&flags), Some(0));
}

#[test]
fn probe_no_match() {
    let flags = vec![false, false, false];
    assert_eq!(first_match(&flags), None);
}

#[test]
fn probe_empty_search_path() {
    let flags: Vec<bool> = Vec::new();
    assert_eq!(first_match(&flags), None);
}

#[test]
fn probe_twice_same_search_path_same_result() {
    // An unchanged search-path variable yields identical results.
    let flags = vec![false, false, true, false, true];
    let first = first_match(&flags);
    let second = first_match(&flags);
    assert_eq!(first, second);
    assert_eq!(first, Some(2));
}

#[test]
fn probe_returns_full_path_of_first_match() {
    // Two directories hold the executable; the reported path names the
    // first one in search-path order.
    let dirs = vec![
        b"/usr/bin".to_vec(),
        b"/opt/a".to_vec(),
        b"/opt/b".to_vec(),
    ];
    let present = vec![false, true, true];
    let exe = b"ffmpeg.exe".to_vec();
    let found = probe_search_path(&dirs, &present, b'/', &exe);
    assert_eq!(found, Some(b"/opt/a/ffmpeg.exe".to_vec()));
}

#[test]
fn probe_without_match_reports_not_found() {
    let dirs = vec![b"/usr/bin".to_vec()];
    let present = vec![false];
    let exe = b"ffmpeg.exe".to_vec();
    assert_eq!(probe_search_path(&dirs, &present, b'/', &exe), None);
}

#[test]
fn executable_path_is_dir_plus_name() {
    let dir = b"/usr/local/bin".to_vec();
    let exe = b"ffmpeg.exe".to_vec();
    let full = executable_in(&dir, b'/', &exe);
    assert_eq!(full, b"/usr/local/bin/ffmpeg.exe".to_vec());
}

#[test]
fn appended_search_path_keeps_old_value_and_adds_dir() {
    let current = b"C:\\Windows;C:\\Tools".to_vec();
    let dir = b"C:\\ffmpeg\\bin".to_vec();
    let new_value = append_search_path(&current, b';', &dir);
    assert_eq!(new_value, b"C:\\Windows;C:\\Tools;C:\\ffmpeg\\bin".to_vec());
}

#[test]
fn appending_to_empty_value_still_separates() {
    let current = Vec::new();
    let dir = b"/opt/tool/bin".to_vec();
    let new_value = append_search_path(&current, b':', &dir);
    assert_eq!(new_value, b":/opt/tool/bin".to_vec());
}

#[test]
fn registration_result_follows_platform_call() {
    assert!(registration_result(true).is_ok());
    assert!(registration_result(false).is_err());
}
