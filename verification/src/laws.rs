//! Laws of the engine, stated and proved over the abstract model.

use vstd::prelude::*;

use crate::model::{
    normalized_position, push_history, select_model, start_post, stop_model, stop_reaction, wf,
    Mode, PlayerModel, ReactionModel, HISTORY_LIMIT,
};

verus! {

/// The history bound is an invariant, and eviction removes the oldest entry
/// first: recording a finished song in a history that respects the bound
/// keeps it within the bound; with room to spare the song is simply
/// appended, and at the bound the oldest entry falls off the front while the
/// rest shift up in age order.
pub proof fn lemma_history_bound(h: Seq<Seq<u8>>, s: Seq<u8>)
    requires
        h.len() <= HISTORY_LIMIT,
    ensures
        push_history(h, s).len() <= HISTORY_LIMIT,
        h.len() < HISTORY_LIMIT ==> push_history(h, s) == h.push(s),
        h.len() == HISTORY_LIMIT ==> push_history(h, s) == h.skip(1).push(s),
{
    if h.len() == HISTORY_LIMIT {
        assert(push_history(h, s) =~= h.skip(1).push(s));
    }
}

/// Under Sequence or Circular, the selector never reads the base list out of
/// bounds: the cursor is normalized onto the list before each access, so the
/// access index is at most the length, a strictly smaller index always
/// yields the entry under it, Circular always yields a song, and under
/// Sequence only the one transient cursor value at the length yields
/// nothing. The advanced cursor stays within the well-formedness bound, so
/// repeated selection never drifts out.
pub proof fn lemma_selector_in_bounds(m: PlayerModel)
    requires
        wf(m),
        m.playlist.len() == 0,
        m.songs.len() > 0,
        m.mode == Mode::Sequence || m.mode == Mode::Circular,
    ensures
        wf(select_model(m).0),
        0 <= normalized_position(m) <= m.songs.len(),
        select_model(m).0.position == normalized_position(m) + 1,
        normalized_position(m) < m.songs.len() ==> select_model(m).1 == Some(
            m.songs[normalized_position(m)],
        ),
        m.mode == Mode::Circular ==> normalized_position(m) < m.songs.len(),
        m.mode == Mode::Sequence ==> ((select_model(m).1 is None) <==> m.position
            == m.songs.len()),
{
}

/// The engine only ever starts songs it knows: whatever the policy, a song
/// handed out to be spawned from a well-formed state comes from the override
/// stack or from the base list.
pub proof fn lemma_start_spawns_known_song(m: PlayerModel, m2: PlayerModel, r: ReactionModel)
    requires
        wf(m),
        start_post(m, m2, r),
    ensures
        forall|s: Seq<u8>| r == ReactionModel::Spawn(s) ==> m.playlist.contains(s) || m.songs.contains(s),
{
    assert forall|s: Seq<u8>| r == ReactionModel::Spawn(s) implies m.playlist.contains(s)
        || m.songs.contains(s) by {
        if m.mode == Mode::Random && m.playlist.len() == 0 && m.songs.len() > 0 {
            let i = choose|i: int|
                0 <= i < m.songs.len() && m2 == (PlayerModel { position: i + 1, ..m }) && r
                    == ReactionModel::Spawn(m.songs[i]);
            assert(m.songs[i] == s);
        } else {
            if m.playlist.len() > 0 {
                assert(m.playlist.last() == s);
                assert(m.playlist.contains(s));
            } else {
                assert(m.songs.len() > 0);
                let p = normalized_position(m);
                assert(m.songs[p] == s);
            }
        }
    }
}

/// The override stack is always consumed before the base list: with a
/// non-empty stack the selector pops its top and leaves the base list, the
/// cursor and the rest of the state untouched, whatever the policy.
pub proof fn lemma_playlist_first(m: PlayerModel)
    requires
        m.playlist.len() > 0,
    ensures
        select_model(m).1 == Some(m.playlist.last()),
        select_model(m).0.playlist == m.playlist.drop_last(),
        select_model(m).0.songs == m.songs,
        select_model(m).0.position == m.position,
        select_model(m).0.history == m.history,
{
}

/// The terminate protocol sends `Stop` and then `Confirm` through the same
/// strictly ordered command queue, so the engine applies them in that order.
/// Confirmation changes nothing: the acknowledged state is exactly the
/// stopped one, in which the playback intent is already cleared and the quit
/// directive has already been handed out for the live player (if any). The
/// acknowledgment therefore never precedes either effect.
pub proof fn lemma_terminate_ack_after_stop(m: PlayerModel)
    ensures
        !stop_model(m).should_play,
        m.live ==> stop_reaction(m) == ReactionModel::SendQuit,
        !m.live ==> stop_reaction(m) == ReactionModel::Nothing,
{
}

} // verus!
