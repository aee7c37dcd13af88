//! The mathematical model of the player engine: abstract state, the
//! well-formedness invariant, and the transition functions that the
//! executable engine is proved to follow.

use vstd::prelude::*;

verus! {

/// A byte vector's deep view coincides with its view.
pub broadcast proof fn lemma_bytes_deep_view(v: Vec<u8>)
    ensures
        #[trigger] v.deep_view() == v@,
{
    assert(v.deep_view() =~= v@);
}

/// Traversal policy for the base song list.
#[derive(Clone, Copy, Debug, PartialEq, Eq, Structural)]
pub enum Mode {
    /// Draw a uniformly random index into the base list.
    Random,
    /// Walk the base list in order; stop at the end until the cursor passes it.
    Sequence,
    /// Walk the base list in order and wrap around at the end.
    Circular,
}

/// Upper bound on the number of remembered songs.
pub const HISTORY_LIMIT: usize = 100;

/// Milliseconds the current song must have played for `prev` to restart it
/// instead of also reaching one entry further back into the history.
pub const RESTART_THRESHOLD_MS: u64 = 2000;

/// Abstract player state. Song paths are byte sequences; times are
/// milliseconds on the caller's clock.
#[verifier::ext_equal]
pub struct PlayerModel {
    /// Current traversal policy.
    pub mode: Mode,
    /// The base song list, traversed per `mode`.
    pub songs: Seq<Seq<u8>>,
    /// Override stack of songs to play next, ahead of the base list; the top
    /// (last element) plays first.
    pub playlist: Seq<Seq<u8>>,
    /// Previously played songs, oldest first.
    pub history: Seq<Seq<u8>>,
    /// The song assigned to the live external player, if one is live.
    pub current: Option<Seq<u8>>,
    /// Whether playback should continue and auto-advance.
    pub should_play: bool,
    /// Cursor into `songs` for the Sequence and Circular policies.
    pub position: int,
    /// Whether an external player subprocess (and its control channel) is live.
    pub live: bool,
    /// When the live player was started, if one is live and `prev` has not
    /// consumed the timestamp.
    pub last_start: Option<int>,
}

/// The engine's reply to a command: what the surrounding process must do next.
#[verifier::ext_equal]
pub enum ReactionModel {
    /// Start the external player on this song, then report the outcome back.
    Spawn(Seq<u8>),
    /// Write the pause toggle to the live player's control channel.
    SendPause,
    /// Write the quit directive to the live player's control channel.
    SendQuit,
    /// Acknowledge a confirmation request.
    Ack,
    /// Nothing to do outside the engine.
    Nothing,
}

/// Well-formedness of the player state: the history respects its bound, the
/// cursor never drifts more than one step past the end of the base list, the
/// base list leaves room for the cursor arithmetic, and a current song is
/// only ever assigned while a player is live.
pub open spec fn wf(m: PlayerModel) -> bool {
    &&& m.history.len() <= HISTORY_LIMIT
    &&& 0 <= m.position <= m.songs.len() + 1
    &&& m.songs.len() + 1 <= usize::MAX
    &&& (m.current is Some ==> m.live)
}

/// The state at startup: Random mode, nothing known, nothing playing.
pub open spec fn init_model() -> PlayerModel {
    PlayerModel {
        mode: Mode::Random,
        songs: Seq::empty(),
        playlist: Seq::empty(),
        history: Seq::empty(),
        current: None,
        should_play: false,
        position: 0,
        live: false,
        last_start: None,
    }
}

/// The cursor actually used for the next read of the base list: reset to 0
/// once it passed the policy's bound (strictly past the end under Sequence,
/// at or past the end under Circular), kept otherwise. Random ignores it.
pub open spec fn normalized_position(m: PlayerModel) -> int {
    if m.mode == Mode::Sequence && m.position > m.songs.len() {
        0
    } else if m.mode == Mode::Circular && m.position >= m.songs.len() {
        0
    } else {
        m.position
    }
}

/// One selector step where no randomness enters (the override stack is
/// non-empty, the base list is empty, or the policy is Sequence or Circular):
/// the override stack pops from its top; otherwise the cursor is normalized,
/// the entry under it (if any) is returned, and the cursor advances by one.
pub open spec fn select_model(m: PlayerModel) -> (PlayerModel, Option<Seq<u8>>) {
    if m.playlist.len() > 0 {
        (PlayerModel { playlist: m.playlist.drop_last(), ..m }, Some(m.playlist.last()))
    } else if m.songs.len() == 0 {
        (m, None)
    } else {
        let p = normalized_position(m);
        let chosen = if p < m.songs.len() {
            Some(m.songs[p])
        } else {
            None
        };
        (PlayerModel { position: p + 1, ..m }, chosen)
    }
}

/// The history after one finished song: appended at the young end; if the
/// bound is exceeded, the oldest entries fall off the old end.
pub open spec fn push_history(h: Seq<Seq<u8>>, s: Seq<u8>) -> Seq<Seq<u8>> {
    let grown = h.push(s);
    if grown.len() <= HISTORY_LIMIT {
        grown
    } else {
        grown.skip(grown.len() - HISTORY_LIMIT as int)
    }
}

/// The bookkeeping part of handling a finished player: the current song (if
/// any) moves into the history and the subprocess bookkeeping clears.
pub open spec fn record_done(m: PlayerModel) -> PlayerModel {
    PlayerModel {
        history: match m.current {
            Some(s) => push_history(m.history, s),
            None => m.history,
        },
        current: None,
        live: false,
        last_start: None,
        ..m
    }
}

/// Relates an idle pre-state `m` to the post-state `m2` and reaction `r` of a
/// start attempt: where no randomness enters, the selector's step is followed
/// exactly and a chosen song is handed out to be spawned, while an empty
/// selection clears the playback intent; under Random on a non-empty base
/// list, some in-range index is drawn and its song handed out.
pub open spec fn start_post(m: PlayerModel, m2: PlayerModel, r: ReactionModel) -> bool {
    if m.mode == Mode::Random && m.playlist.len() == 0 && m.songs.len() > 0 {
        exists|i: int|
            0 <= i < m.songs.len() && m2 == (PlayerModel { position: i + 1, ..m }) && r
                == ReactionModel::Spawn(m.songs[i])
    } else {
        let (ms, chosen) = select_model(m);
        match chosen {
            Some(s) => m2 == ms && r == ReactionModel::Spawn(s),
            None => m2 == (PlayerModel { should_play: false, ..ms }) && r == ReactionModel::Nothing,
        }
    }
}

/// Handling `Stop`: the playback intent is cleared; everything else stays.
pub open spec fn stop_model(m: PlayerModel) -> PlayerModel {
    PlayerModel { should_play: false, ..m }
}

/// The reaction to `Stop`: the quit directive goes to the player if and only
/// if one is live.
pub open spec fn stop_reaction(m: PlayerModel) -> ReactionModel {
    if m.live {
        ReactionModel::SendQuit
    } else {
        ReactionModel::Nothing
    }
}

/// Handling `Load`: with `append` the base list grows at its end and the
/// cursor stays; without it the list is replaced and the cursor returns to 0.
pub open spec fn load_model(m: PlayerModel, songs: Seq<Seq<u8>>, append: bool) -> PlayerModel {
    if append {
        PlayerModel { songs: m.songs + songs, ..m }
    } else {
        PlayerModel { songs: songs, position: 0, ..m }
    }
}

/// The state changes of `prev` at time `now`, before any replay is kicked
/// off: the current song (if any) moves to the top of the override stack so
/// it replays; unless it had already played longer than the restart
/// threshold, the youngest history entry (if any) is stacked above it, so the
/// older song plays first. The start timestamp is consumed either way.
pub open spec fn prev_model(m: PlayerModel, now: int) -> PlayerModel {
    let moved = match m.current {
        Some(c) => PlayerModel { playlist: m.playlist.push(c), current: None, last_start: None, ..m },
        None => PlayerModel { last_start: None, ..m },
    };
    let restart = match m.last_start {
        Some(t) => now - t > RESTART_THRESHOLD_MS as int,
        None => false,
    };
    if !restart && moved.history.len() > 0 {
        PlayerModel {
            history: moved.history.drop_last(),
            playlist: moved.playlist.push(moved.history.last()),
            ..moved
        }
    } else {
        moved
    }
}

/// Post-relation of handling `Play`: intent is set; a live player gets the
/// pause toggle, otherwise a start is attempted.
pub open spec fn play_post(m: PlayerModel, m2: PlayerModel, r: ReactionModel) -> bool {
    let m1 = PlayerModel { should_play: true, ..m };
    if m1.live {
        m2 == m1 && r == ReactionModel::SendPause
    } else {
        start_post(m1, m2, r)
    }
}

/// Post-relation of handling `Next`: intent is set; a live player is asked to
/// quit (its exit will re-enter through `Done`), otherwise a start is
/// attempted directly.
pub open spec fn next_post(m: PlayerModel, m2: PlayerModel, r: ReactionModel) -> bool {
    let m1 = PlayerModel { should_play: true, ..m };
    if m1.live {
        m2 == m1 && r == ReactionModel::SendQuit
    } else {
        start_post(m1, m2, r)
    }
}

/// Post-relation of handling `Prev` at time `now`: after the override stack
/// is restocked per `prev_model`, nothing further happens if it stayed empty;
/// otherwise the `Next` path runs to make the restocked song play.
pub open spec fn prev_post(m: PlayerModel, now: int, m2: PlayerModel, r: ReactionModel) -> bool {
    let m1 = prev_model(m, now);
    if m1.playlist.len() == 0 {
        m2 == m1 && r == ReactionModel::Nothing
    } else {
        next_post(m1, m2, r)
    }
}

/// Post-relation of handling `Done`: the finished song is recorded, and if
/// playback intent still holds, a start is attempted (auto-advance).
pub open spec fn done_post(m: PlayerModel, m2: PlayerModel, r: ReactionModel) -> bool {
    let m1 = record_done(m);
    if m1.should_play {
        start_post(m1, m2, r)
    } else {
        m2 == m1 && r == ReactionModel::Nothing
    }
}

} // verus!
