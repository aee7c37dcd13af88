//! The executable player engine: a single-owner state machine driven by
//! commands, proved to follow the transition functions of `crate::model`.

use vstd::prelude::*;

use std::collections::VecDeque;

use crate::parse::copy_bytes;

use crate::model::{
    done_post, init_model, load_model, next_post, play_post, prev_model, prev_post, push_history,
    record_done, select_model, start_post, stop_model, stop_reaction, wf, Mode, PlayerModel,
    ReactionModel, HISTORY_LIMIT, RESTART_THRESHOLD_MS,
};

verus! {

broadcast use crate::model::lemma_bytes_deep_view;

/// A command for the engine, as the control protocol or the subprocess
/// watcher produces it.
pub enum Cmd {
    /// Toggle pause, or start playing.
    Play,
    /// Clear the playback intent and ask the live player to quit.
    Stop,
    /// Skip to the next selection.
    Next,
    /// Go back to the previous song.
    Prev,
    /// Replace or extend the base song list.
    Load { songs: Vec<Vec<u8>>, append: bool },
    /// Replace the traversal policy.
    SetMode(Mode),
    /// Ask for an acknowledgment once all earlier commands have been applied.
    Confirm,
    /// The external player exited (enqueued by its watcher).
    Done,
}

/// One decision of the engine that the surrounding process must carry out.
#[derive(Debug, PartialEq, Eq)]
pub enum Reaction {
    /// Start the external player on this song, then report the outcome
    /// through `Player::started` or `Player::spawn_failed`.
    Spawn(Vec<u8>),
    /// Write the pause toggle to the live player's control channel.
    SendPause,
    /// Write the quit directive to the live player's control channel.
    SendQuit,
    /// Acknowledge the confirmation request.
    Ack,
    /// Nothing to do outside the engine.
    Nothing,
}

impl View for Reaction {
    type V = ReactionModel;

    open spec fn view(&self) -> ReactionModel {
        match self {
            Reaction::Spawn(song) => ReactionModel::Spawn(song@),
            Reaction::SendPause => ReactionModel::SendPause,
            Reaction::SendQuit => ReactionModel::SendQuit,
            Reaction::Ack => ReactionModel::Ack,
            Reaction::Nothing => ReactionModel::Nothing,
        }
    }
}

/// The player state. One instance lives for the whole process and is mutated
/// only through the methods below, one command at a time.
pub struct Player {
    /// Current traversal policy.
    pub mode: Mode,
    /// The base song list.
    pub songs: Vec<Vec<u8>>,
    /// Override stack of songs to play next; the last element plays first.
    pub playlist: Vec<Vec<u8>>,
    /// Previously played songs, oldest at the front.
    pub history: VecDeque<Vec<u8>>,
    /// The song assigned to the live external player, if any.
    pub current: Option<Vec<u8>>,
    /// Whether playback should continue and auto-advance.
    pub should_play: bool,
    /// Cursor into `songs` for the Sequence and Circular policies.
    pub position: usize,
    /// Whether an external player subprocess is live.
    pub live: bool,
    /// Start time of the live player, in caller-supplied milliseconds.
    pub last_start: Option<u64>,
}

impl View for Player {
    type V = PlayerModel;

    open spec fn view(&self) -> PlayerModel {
        PlayerModel {
            mode: self.mode,
            songs: self.songs.deep_view(),
            playlist: self.playlist.deep_view(),
            history: self.history.deep_view(),
            current: self.current.deep_view(),
            should_play: self.should_play,
            position: self.position as int,
            live: self.live,
            last_start: match self.last_start {
                Some(t) => Some(t as int),
                None => None,
            },
        }
    }
}

impl Player {
    /// A fresh engine: Random mode, no songs, nothing playing.
    pub fn new() -> (p: Player)
        ensures
            p@ == init_model(),
            wf(p@),
    {
        let p = Player {
            mode: Mode::Random,
            songs: Vec::new(),
            playlist: Vec::new(),
            history: VecDeque::new(),
            current: None,
            should_play: false,
            position: 0,
            live: false,
            last_start: None,
        };
        proof {
            assert(p@ =~= init_model());
        }
        p
    }

    /// Clear the playback intent; the quit directive goes out if and only if
    /// a player is live.
    pub fn stop(&mut self) -> (r: Reaction)
        requires
            wf(old(self)@),
        ensures
            wf(final(self)@),
            final(self)@ == stop_model(old(self)@),
            r@ == stop_reaction(old(self)@),
    {
        self.should_play = false;
        proof {
            assert(self@ =~= stop_model(old(self)@));
        }
        if self.live {
            Reaction::SendQuit
        } else {
            Reaction::Nothing
        }
    }

    /// Replace the traversal policy.
    pub fn set_mode(&mut self, mode: Mode)
        requires
            wf(old(self)@),
        ensures
            wf(final(self)@),
            final(self)@ == (PlayerModel { mode: mode, ..old(self)@ }),
    {
        self.mode = mode;
        proof {
            assert(self@ =~= (PlayerModel { mode: mode, ..old(self)@ }));
        }
    }

    /// Replace or extend the base song list; replacing also resets the
    /// traversal cursor.
    pub fn load(&mut self, songs: Vec<Vec<u8>>, append: bool)
        requires
            wf(old(self)@),
            old(self)@.songs.len() + songs@.len() + 1 <= usize::MAX,
        ensures
            wf(final(self)@),
            final(self)@ == load_model(old(self)@, songs.deep_view(), append),
    {
        let ghost target = load_model(old(self)@, songs.deep_view(), append);
        if append {
            let mut incoming = songs;
            self.songs.append(&mut incoming);
        } else {
            self.songs = songs;
            self.position = 0;
        }
        proof {
            assert(self@.songs =~= target.songs);
            assert(self@ =~= target);
        }
    }

    /// Pick the next song: the top of the override stack first; else nothing
    /// if the base list is empty; else the entry under the (normalized)
    /// cursor, which then advances by one.
    pub fn choose_song(&mut self) -> (r: Option<Vec<u8>>)
        requires
            wf(old(self)@),
        ensures
            wf(final(self)@),
            (old(self)@.mode != Mode::Random || old(self)@.playlist.len() > 0 || old(
                self,
            )@.songs.len() == 0) ==> ({
                let (ms, chosen) = select_model(old(self)@);
                final(self)@ == ms && r.deep_view() == chosen
            }),
            (old(self)@.mode == Mode::Random && old(self)@.playlist.len() == 0 && old(
                self,
            )@.songs.len() > 0) ==> exists|i: int|
                0 <= i < old(self)@.songs.len() && final(self)@ == (PlayerModel {
                    position: i + 1,
                    ..old(self)@
                }) && r.deep_view() == Some(old(self)@.songs[i]),
    {
        if let Some(song) = self.playlist.pop() {
            proof {
                assert(self@.playlist =~= old(self)@.playlist.drop_last());
                assert(self@ =~= select_model(old(self)@).0);
                assert(song.deep_view() == old(self)@.playlist.last());
            }
            return Some(song);
        }
        if self.songs.len() == 0 {
            return None;
        }
        match self.mode {
            Mode::Random => {
                self.position = random_index(self.songs.len());
            },
            Mode::Sequence => {
                if self.position > self.songs.len() {
                    self.position = 0;
                }
            },
            Mode::Circular => {
                if self.position >= self.songs.len() {
                    self.position = 0;
                }
            },
        }
        let chosen = if self.position < self.songs.len() {
            Some(copy_bytes(&self.songs[self.position]))
        } else {
            None
        };
        let ghost used: int = self.position as int;
        self.position = self.position + 1;
        proof {
            if old(self)@.mode != Mode::Random {
                assert(self@ =~= select_model(old(self)@).0);
                assert(chosen.deep_view() == select_model(old(self)@).1);
            } else {
                assert(self@ =~= (PlayerModel { position: used + 1, ..old(self)@ }));
                assert(chosen.deep_view() == Some(old(self)@.songs[used]));
            }
        }
        chosen
    }

    /// Ask the selector for a song and hand it out to be spawned; with
    /// nothing to play, clear the playback intent instead.
    pub fn start(&mut self) -> (r: Reaction)
        requires
            wf(old(self)@),
            !old(self)@.live,
            old(self)@.current is None,
        ensures
            wf(final(self)@),
            start_post(old(self)@, final(self)@, r@),
    {
        match self.choose_song() {
            Some(song) => Reaction::Spawn(song),
            None => {
                self.should_play = false;
                proof {
                    assert(self@ =~= (PlayerModel {
                        should_play: false,
                        ..select_model(old(self)@).0
                    }));
                }
                Reaction::Nothing
            },
        }
    }

    /// Record that the external player was spawned for `song` at time `now`
    /// (milliseconds): the song becomes current and the player live.
    pub fn started(&mut self, song: Vec<u8>, now: u64)
        requires
            wf(old(self)@),
            !old(self)@.live,
            old(self)@.current is None,
        ensures
            wf(final(self)@),
            final(self)@ == (PlayerModel {
                current: Some(song.deep_view()),
                live: true,
                last_start: Some(now as int),
                ..old(self)@
            }),
    {
        let ghost target = PlayerModel {
            current: Some(song.deep_view()),
            live: true,
            last_start: Some(now as int),
            ..old(self)@
        };
        self.current = Some(song);
        self.live = true;
        self.last_start = Some(now);
        proof {
            assert(self@ =~= target);
        }
    }

    /// Record that spawning the external player failed: the playback intent
    /// is cleared and the engine stays idle.
    pub fn spawn_failed(&mut self)
        requires
            wf(old(self)@),
        ensures
            wf(final(self)@),
            final(self)@ == stop_model(old(self)@),
    {
        self.should_play = false;
        proof {
            assert(self@ =~= stop_model(old(self)@));
        }
    }

    /// Set the playback intent; toggle pause on a live player, else start.
    pub fn play_pause(&mut self) -> (r: Reaction)
        requires
            wf(old(self)@),
        ensures
            wf(final(self)@),
            play_post(old(self)@, final(self)@, r@),
    {
        self.should_play = true;
        proof {
            assert(self@ =~= (PlayerModel { should_play: true, ..old(self)@ }));
        }
        if self.live {
            Reaction::SendPause
        } else {
            self.start()
        }
    }

    /// Set the playback intent; ask a live player to quit (its exit
    /// re-enters through `Done` and auto-advances), else start directly.
    pub fn next(&mut self) -> (r: Reaction)
        requires
            wf(old(self)@),
        ensures
            wf(final(self)@),
            next_post(old(self)@, final(self)@, r@),
    {
        self.should_play = true;
        proof {
            assert(self@ =~= (PlayerModel { should_play: true, ..old(self)@ }));
        }
        if self.live {
            Reaction::SendQuit
        } else {
            self.start()
        }
    }

    /// Go back: restock the override stack from the current song and, unless
    /// the current song already played past the restart threshold, from the
    /// youngest history entry; then make the restocked song play.
    pub fn prev(&mut self, now: u64) -> (r: Reaction)
        requires
            wf(old(self)@),
        ensures
            wf(final(self)@),
            prev_post(old(self)@, now as int, final(self)@, r@),
    {
        if let Some(current) = self.current.take() {
            self.playlist.push(current);
        }
        let restart = match self.last_start {
            Some(t) => {
                let elapsed: u64 = if now >= t {
                    now - t
                } else {
                    0
                };
                elapsed > RESTART_THRESHOLD_MS
            },
            None => false,
        };
        self.last_start = None;
        if !restart {
            if let Some(prev_song) = self.history.pop_back() {
                self.playlist.push(prev_song);
            }
        }
        proof {
            assert(self@.playlist =~= prev_model(old(self)@, now as int).playlist);
            assert(self@.history =~= prev_model(old(self)@, now as int).history);
            assert(self@ =~= prev_model(old(self)@, now as int));
        }
        if self.playlist.len() > 0 {
            self.next()
        } else {
            Reaction::Nothing
        }
    }

    /// The external player exited: record the current song in the history
    /// (evicting the oldest entries beyond the bound) and, if the playback
    /// intent still holds, auto-advance to a new start.
    pub fn done(&mut self) -> (r: Reaction)
        requires
            wf(old(self)@),
        ensures
            wf(final(self)@),
            done_post(old(self)@, final(self)@, r@),
    {
        let ghost m0 = old(self)@;
        if let Some(current) = self.current.take() {
            let ghost target_h = push_history(m0.history, current.deep_view());
            self.history.push_back(current);
            while self.history.len() > HISTORY_LIMIT
                invariant
                    self.mode == old(self).mode,
                    self.songs == old(self).songs,
                    self.playlist == old(self).playlist,
                    self.current is None,
                    self.should_play == old(self).should_play,
                    self.position == old(self).position,
                    self.live == old(self).live,
                    self.last_start == old(self).last_start,
                    self.history.deep_view().len() <= HISTORY_LIMIT + 1,
                    target_h == (if self.history.deep_view().len() <= HISTORY_LIMIT {
                        self.history.deep_view()
                    } else {
                        self.history.deep_view().skip(
                            self.history.deep_view().len() - HISTORY_LIMIT as int,
                        )
                    }),
                decreases self.history.len(),
            {
                let evicted = self.history.pop_front();
                proof {
                    assert(evicted is Some);
                }
            }
        }
        self.live = false;
        self.last_start = None;
        proof {
            assert(self@ =~= record_done(m0));
        }
        if self.should_play {
            self.start()
        } else {
            Reaction::Nothing
        }
    }

    /// Acknowledge that every earlier command has been fully applied. The
    /// engine's state does not change.
    pub fn confirm(&self) -> (r: Reaction)
        ensures
            r@ == ReactionModel::Ack,
    {
        Reaction::Ack
    }

    /// Apply one command at time `now` (milliseconds on the caller's clock)
    /// and return the engine's reaction.
    pub fn handle(&mut self, cmd: Cmd, now: u64) -> (r: Reaction)
        requires
            wf(old(self)@),
            (cmd matches Cmd::Load { songs, append: _ } ==> old(self)@.songs.len() + songs@.len()
                + 1 <= usize::MAX),
        ensures
            wf(final(self)@),
            match cmd {
                Cmd::Play => play_post(old(self)@, final(self)@, r@),
                Cmd::Stop => final(self)@ == stop_model(old(self)@) && r@ == stop_reaction(
                    old(self)@,
                ),
                Cmd::Next => next_post(old(self)@, final(self)@, r@),
                Cmd::Prev => prev_post(old(self)@, now as int, final(self)@, r@),
                Cmd::Load { songs, append } => final(self)@ == load_model(
                    old(self)@,
                    songs.deep_view(),
                    append,
                ) && r@ == ReactionModel::Nothing,
                Cmd::SetMode(mode) => final(self)@ == (PlayerModel { mode: mode, ..old(self)@ })
                    && r@ == ReactionModel::Nothing,
                Cmd::Confirm => final(self)@ == old(self)@ && r@ == ReactionModel::Ack,
                Cmd::Done => done_post(old(self)@, final(self)@, r@),
            },
    {
        match cmd {
            Cmd::Play => self.play_pause(),
            Cmd::Stop => self.stop(),
            Cmd::Next => self.next(),
            Cmd::Prev => self.prev(now),
            Cmd::Load { songs, append } => {
                self.load(songs, append);
                Reaction::Nothing
            },
            Cmd::SetMode(mode) => {
                self.set_mode(mode);
                Reaction::Nothing
            },
            Cmd::Confirm => self.confirm(),
            Cmd::Done => self.done(),
        }
    }
}

/// Relies on rand::random_range: a sample drawn from `0..len` lies strictly
/// below `len`. The call panics only on an empty range, which `len > 0`
/// rules out.
#[verifier::external_body]
fn random_index(len: usize) -> (r: usize)
    requires
        0 < len,
    ensures
        r < len,
{
    rand::random_range(0..len)
}

} // verus!
