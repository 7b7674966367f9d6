use morphlings::resource::{collect_file, ends_with, has_accepted_extension, ACCEPTED_EXTENSION};

#[test]
fn accepted_extension_is_mp3() {
    assert_eq!(ACCEPTED_EXTENSION, [".mp3"]);
}

#[test]
fn mp3_files_are_accepted() {
    assert!(has_accepted_extension("/music/song.mp3"));
    assert!(has_accepted_extension(".mp3"));
    assert!(has_accepted_extension("/music/dir.mp3/song.mp3"));
}

#[test]
fn other_files_are_refused() {
    assert!(!has_accepted_extension("/music/song.flac"));
    assert!(!has_accepted_extension("/music/song.MP3"));
    assert!(!has_accepted_extension("/music/song.mp3.txt"));
    assert!(!has_accepted_extension("mp3"));
    assert!(!has_accepted_extension(""));
}

#[test]
fn ends_with_compares_bytes() {
    assert!(ends_with("abc", "bc"));
    assert!(ends_with("abc", ""));
    assert!(ends_with("abc", "abc"));
    assert!(!ends_with("bc", "abc"));
    assert!(!ends_with("abc", "ab"));
    assert!(ends_with("héllo.mp3", "o.mp3"));
}

#[test]
fn collect_file_builds_resource() {
    let r = collect_file("/music/a.mp3").expect("accepted");
    assert_eq!(r.file_path, "/music/a.mp3");
    assert!(collect_file("/music/a.wav").is_none());
}
