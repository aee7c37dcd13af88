//! Tests of path admission and of the tag-display placeholder.

use playctl::admission::{filter_admissible, path_admissible};
use playctl::tags::field_or_placeholder;

fn bytes(s: &str) -> Vec<u8> {
    s.as_bytes().to_vec()
}

#[test]
fn an_existing_audio_file_is_admitted() {
    assert!(path_admissible(&bytes("/music/a.mp3"), true));
    assert!(path_admissible(&bytes("/music/b.flac"), true));
}

#[test]
fn a_missing_file_is_rejected_whatever_its_name() {
    assert!(!path_admissible(&bytes("/music/a.mp3"), false));
    assert!(!path_admissible(&bytes("/music/nosuch"), false));
}

#[test]
fn denylisted_extensions_are_rejected() {
    for p in [
        "/a/x.htm", "/a/x.html", "/a/x.jpg", "/a/x.jpeg", "/a/x.ini", "/a/x.bmp", "/a/x.db",
        "/a/x.doc", "/a/x.dtt", "/a/x.gif", "/a/x.listing", "/a/x.m3u", "/a/x.nfo", "/a/x.out",
        "/a/x.pls", "/a/x.txt", "/a/x.toc", "/a/x.zip",
    ] {
        assert!(!path_admissible(&bytes(p), true), "{} should be rejected", p);
    }
}

#[test]
fn the_extension_check_ignores_ascii_case() {
    assert!(!path_admissible(&bytes("/a/x.ZIP"), true));
    assert!(!path_admissible(&bytes("/a/x.JPeG"), true));
    assert!(path_admissible(&bytes("/a/x.MP3"), true));
}

#[test]
fn files_without_an_extension_are_admitted() {
    assert!(path_admissible(&bytes("/music/song"), true));
    assert!(path_admissible(&bytes("/music/.hidden"), true));
    assert!(path_admissible(&bytes("song"), true));
}

#[test]
fn only_the_last_extension_counts() {
    assert!(path_admissible(&bytes("/a/x.zip.mp3"), true));
    assert!(!path_admissible(&bytes("/a/x.mp3.zip"), true));
}

#[test]
fn dots_in_directories_do_not_count_as_extensions() {
    assert!(path_admissible(&bytes("/a.zip/x"), true));
    assert!(!path_admissible(&bytes("/a.mp3/x.txt"), true));
}

#[test]
fn a_loaded_batch_keeps_only_admissible_existing_files() {
    // Both paths exist on disk; the archive is dropped silently.
    let entries = vec![(bytes("/music/a.mp3"), true), (bytes("/music/evil.zip"), true)];
    assert_eq!(filter_admissible(&entries), vec![bytes("/music/a.mp3")]);
}

#[test]
fn filtering_keeps_the_submitted_order() {
    let entries = vec![
        (bytes("/m/1.mp3"), true),
        (bytes("/m/2.txt"), true),
        (bytes("/m/3.ogg"), true),
        (bytes("/m/4.ogg"), false),
        (bytes("/m/5.wav"), true),
    ];
    assert_eq!(
        filter_admissible(&entries),
        vec![bytes("/m/1.mp3"), bytes("/m/3.ogg"), bytes("/m/5.wav")]
    );
}

#[test]
fn missing_tag_fields_fall_back_to_the_placeholder() {
    assert_eq!(field_or_placeholder(None), "???");
    assert_eq!(field_or_placeholder(Some("Artist".to_string())), "Artist");
}
