//! Tests of the player engine: command handling, the history bound, the
//! previous-song protocol, and the terminate handshake.

use std::collections::VecDeque;

use playctl::model::Mode;
use playctl::player::{Cmd, Player, Reaction};

fn song(s: &str) -> Vec<u8> {
    s.as_bytes().to_vec()
}

#[test]
fn a_fresh_engine_is_idle_and_empty() {
    let p = Player::new();
    assert_eq!(p.mode, Mode::Random);
    assert!(p.songs.is_empty());
    assert!(p.playlist.is_empty());
    assert!(p.history.is_empty());
    assert_eq!(p.current, None);
    assert!(!p.should_play);
    assert_eq!(p.position, 0);
    assert!(!p.live);
    assert_eq!(p.last_start, None);
}

#[test]
fn load_replacing_resets_the_cursor_and_discards_prior_songs() {
    let mut p = Player::new();
    p.set_mode(Mode::Sequence);
    p.load(vec![song("a"), song("b")], false);
    assert_eq!(p.choose_song(), Some(song("a")));
    assert_eq!(p.position, 1);
    p.load(vec![song("x")], false);
    assert_eq!(p.songs, vec![song("x")]);
    assert_eq!(p.position, 0);
}

#[test]
fn load_appending_keeps_the_cursor_and_grows_the_list() {
    let mut p = Player::new();
    p.set_mode(Mode::Sequence);
    p.load(vec![song("a"), song("b")], false);
    assert_eq!(p.choose_song(), Some(song("a")));
    p.load(vec![song("c")], true);
    assert_eq!(p.songs, vec![song("a"), song("b"), song("c")]);
    assert_eq!(p.position, 1);
    assert_eq!(p.choose_song(), Some(song("b")));
}

#[test]
fn play_from_idle_spawns_and_then_toggles_pause() {
    let mut p = Player::new();
    p.set_mode(Mode::Sequence);
    p.load(vec![song("a")], false);
    let r = p.handle(Cmd::Play, 0);
    assert_eq!(r, Reaction::Spawn(song("a")));
    assert!(p.should_play);
    assert!(!p.live);
    p.started(song("a"), 0);
    assert!(p.live);
    assert_eq!(p.current, Some(song("a")));
    assert_eq!(p.last_start, Some(0));
    let r = p.handle(Cmd::Play, 10);
    assert_eq!(r, Reaction::SendPause);
}

#[test]
fn play_with_nothing_to_play_clears_the_intent() {
    let mut p = Player::new();
    let r = p.handle(Cmd::Play, 0);
    assert_eq!(r, Reaction::Nothing);
    assert!(!p.should_play);
}

#[test]
fn spawn_failure_clears_the_intent_and_stays_idle() {
    let mut p = Player::new();
    p.set_mode(Mode::Sequence);
    p.load(vec![song("a")], false);
    let r = p.handle(Cmd::Play, 0);
    assert_eq!(r, Reaction::Spawn(song("a")));
    p.spawn_failed();
    assert!(!p.should_play);
    assert!(!p.live);
    assert_eq!(p.current, None);
}

#[test]
fn done_records_the_song_and_auto_advances() {
    let mut p = Player::new();
    p.set_mode(Mode::Circular);
    p.load(vec![song("a"), song("b")], false);
    assert_eq!(p.handle(Cmd::Play, 0), Reaction::Spawn(song("a")));
    p.started(song("a"), 0);
    let r = p.handle(Cmd::Done, 500);
    assert_eq!(r, Reaction::Spawn(song("b")));
    assert_eq!(p.history, VecDeque::from(vec![song("a")]));
    assert!(!p.live);
    assert_eq!(p.current, None);
    assert_eq!(p.last_start, None);
}

#[test]
fn done_after_stop_stays_idle() {
    let mut p = Player::new();
    p.set_mode(Mode::Sequence);
    p.load(vec![song("a")], false);
    assert_eq!(p.handle(Cmd::Play, 0), Reaction::Spawn(song("a")));
    p.started(song("a"), 0);
    assert_eq!(p.handle(Cmd::Stop, 100), Reaction::SendQuit);
    let r = p.handle(Cmd::Done, 200);
    assert_eq!(r, Reaction::Nothing);
    assert!(!p.live);
    assert_eq!(p.history, VecDeque::from(vec![song("a")]));
}

#[test]
fn history_never_exceeds_its_bound_and_evicts_the_oldest_first() {
    let mut p = Player::new();
    for i in 0..105u32 {
        p.started(song(&format!("s{}", i)), 0);
        assert_eq!(p.handle(Cmd::Done, 0), Reaction::Nothing);
        assert!(p.history.len() <= 100);
    }
    assert_eq!(p.history.len(), 100);
    // The five oldest entries were evicted, in age order.
    assert_eq!(p.history.front(), Some(&song("s5")));
    assert_eq!(p.history.back(), Some(&song("s104")));
}

#[test]
fn prev_shortly_after_the_start_replays_through_the_quit_path() {
    // Playing a song for 100 ms and asking for the previous one with an empty
    // history and an empty playlist: the current song moves onto the
    // playlist, and the live player is asked to quit so that the song
    // replays; there was no history entry to restore ahead of it.
    let mut p = Player::new();
    p.started(song("a"), 1000);
    p.should_play = true;
    let r = p.handle(Cmd::Prev, 1100);
    assert_eq!(r, Reaction::SendQuit);
    assert_eq!(p.playlist, vec![song("a")]);
    assert_eq!(p.current, None);
    assert_eq!(p.last_start, None);
    // The quit arrives at the player, which exits; the replay follows.
    let r = p.handle(Cmd::Done, 1200);
    assert_eq!(r, Reaction::Spawn(song("a")));
}

#[test]
fn prev_early_in_a_song_restores_the_previous_song_ahead_of_it() {
    let mut p = Player::new();
    p.history = VecDeque::from(vec![song("old")]);
    p.started(song("a"), 1000);
    p.should_play = true;
    let r = p.handle(Cmd::Prev, 1100);
    assert_eq!(r, Reaction::SendQuit);
    // The older song sits on top of the stack, so it plays first.
    assert_eq!(p.playlist, vec![song("a"), song("old")]);
    assert!(p.history.is_empty());
}

#[test]
fn prev_late_in_a_song_restarts_it_without_touching_the_history() {
    let mut p = Player::new();
    p.history = VecDeque::from(vec![song("old")]);
    p.started(song("a"), 1000);
    p.should_play = true;
    let r = p.handle(Cmd::Prev, 4000);
    assert_eq!(r, Reaction::SendQuit);
    assert_eq!(p.playlist, vec![song("a")]);
    assert_eq!(p.history, VecDeque::from(vec![song("old")]));
}

#[test]
fn prev_exactly_at_the_threshold_still_reaches_into_the_history() {
    // The restart rule is strict: only strictly more than 2000 ms of play
    // counts as long enough, so at exactly 2000 ms the previous song is
    // still restored.
    let mut p = Player::new();
    p.history = VecDeque::from(vec![song("old")]);
    p.started(song("a"), 1000);
    p.should_play = true;
    assert_eq!(p.handle(Cmd::Prev, 3000), Reaction::SendQuit);
    assert_eq!(p.playlist, vec![song("a"), song("old")]);
    assert!(p.history.is_empty());
}

#[test]
fn prev_with_nothing_to_replay_does_nothing() {
    let mut p = Player::new();
    let r = p.handle(Cmd::Prev, 1000);
    assert_eq!(r, Reaction::Nothing);
    assert!(p.playlist.is_empty());
}

#[test]
fn terminate_acknowledges_only_after_the_stop_took_effect() {
    let mut p = Player::new();
    p.set_mode(Mode::Sequence);
    p.load(vec![song("a")], false);
    assert_eq!(p.handle(Cmd::Play, 0), Reaction::Spawn(song("a")));
    p.started(song("a"), 0);
    // The terminate protocol enqueues Stop and then Confirm; the engine
    // applies them in queue order.
    let r = p.handle(Cmd::Stop, 100);
    assert_eq!(r, Reaction::SendQuit);
    assert!(!p.should_play);
    let r = p.handle(Cmd::Confirm, 100);
    assert_eq!(r, Reaction::Ack);
    // By acknowledgment time the intent is cleared and the quit was sent.
    assert!(!p.should_play);
}

#[test]
fn set_mode_replaces_the_policy_and_nothing_else() {
    let mut p = Player::new();
    p.load(vec![song("a")], false);
    p.handle(Cmd::SetMode(Mode::Circular), 0);
    assert_eq!(p.mode, Mode::Circular);
    assert_eq!(p.songs, vec![song("a")]);
}

#[test]
fn next_from_idle_starts_and_from_playing_quits() {
    let mut p = Player::new();
    p.set_mode(Mode::Sequence);
    p.load(vec![song("a"), song("b")], false);
    assert_eq!(p.handle(Cmd::Next, 0), Reaction::Spawn(song("a")));
    p.started(song("a"), 0);
    assert_eq!(p.handle(Cmd::Next, 10), Reaction::SendQuit);
    assert!(p.should_play);
}
