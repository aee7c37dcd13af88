//! Tests of the song selector: cursor normalization, wraparound, the
//! override stack, and the Random policy.

use playctl::model::Mode;
use playctl::player::Player;

fn song(s: &str) -> Vec<u8> {
    s.as_bytes().to_vec()
}

fn idle_player(mode: Mode, songs: &[&str], position: usize) -> Player {
    let mut p = Player::new();
    p.set_mode(mode);
    p.load(songs.iter().map(|s| song(s)).collect(), false);
    p.position = position;
    p
}

#[test]
fn sequence_walks_in_order_and_wraps_after_the_end() {
    // Four successful selections under Sequence yield a, b, c, a; the cursor
    // ends at 1 after the wraparound. The reset fires only once the cursor
    // (4) exceeds the length (3), so between c and the wrapped a there is one
    // empty selection: at cursor == length, Sequence reads past the end and
    // yields nothing before the correction.
    let mut p = idle_player(Mode::Sequence, &["a", "b", "c"], 0);
    assert_eq!(p.choose_song(), Some(song("a")));
    assert_eq!(p.position, 1);
    assert_eq!(p.choose_song(), Some(song("b")));
    assert_eq!(p.choose_song(), Some(song("c")));
    assert_eq!(p.position, 3);
    assert_eq!(p.choose_song(), None);
    assert_eq!(p.position, 4);
    assert_eq!(p.choose_song(), Some(song("a")));
    assert_eq!(p.position, 1);
}

#[test]
fn circular_resets_an_out_of_range_cursor_before_the_access() {
    let mut p = idle_player(Mode::Circular, &["a", "b"], 2);
    assert_eq!(p.choose_song(), Some(song("a")));
    assert_eq!(p.position, 1);
}

#[test]
fn circular_wraps_without_an_empty_selection() {
    let mut p = idle_player(Mode::Circular, &["a", "b"], 0);
    assert_eq!(p.choose_song(), Some(song("a")));
    assert_eq!(p.choose_song(), Some(song("b")));
    assert_eq!(p.choose_song(), Some(song("a")));
    assert_eq!(p.choose_song(), Some(song("b")));
    assert_eq!(p.position, 2);
}

#[test]
fn repeated_sequence_and_circular_selection_stays_in_bounds() {
    for mode in [Mode::Sequence, Mode::Circular] {
        let mut p = idle_player(mode, &["a", "b", "c"], 0);
        for _ in 0..50 {
            if let Some(s) = p.choose_song() {
                assert!(["a", "b", "c"].iter().any(|w| song(w) == s));
            }
            assert!(p.position <= p.songs.len() + 1);
        }
    }
}

#[test]
fn empty_base_list_yields_nothing() {
    let mut p = idle_player(Mode::Sequence, &[], 0);
    assert_eq!(p.choose_song(), None);
    assert_eq!(p.position, 0);
}

#[test]
fn playlist_overrides_the_base_list_in_stack_order() {
    let mut p = idle_player(Mode::Sequence, &["a"], 0);
    p.playlist = vec![song("x"), song("y")];
    assert_eq!(p.choose_song(), Some(song("y")));
    assert_eq!(p.choose_song(), Some(song("x")));
    assert_eq!(p.choose_song(), Some(song("a")));
}

#[test]
fn random_selection_draws_from_the_base_list() {
    let mut p = idle_player(Mode::Random, &["a", "b", "c"], 0);
    for _ in 0..100 {
        let s = p.choose_song().expect("a non-empty base list yields a song");
        assert!(["a", "b", "c"].iter().any(|w| song(w) == s));
        assert!(1 <= p.position && p.position <= 3);
    }
}

#[test]
fn random_selection_of_a_single_song_returns_it() {
    let mut p = idle_player(Mode::Random, &["only"], 0);
    for _ in 0..10 {
        assert_eq!(p.choose_song(), Some(song("only")));
        assert_eq!(p.position, 1);
    }
}

#[test]
fn random_cursor_drift_carries_over_into_a_mode_switch() {
    // The cursor advances even under Random; a later switch to Sequence
    // starts from the drifted cursor, not from 0.
    let mut p = idle_player(Mode::Random, &["a", "b", "c"], 0);
    p.position = 2;
    p.set_mode(Mode::Sequence);
    assert_eq!(p.choose_song(), Some(song("c")));
}
