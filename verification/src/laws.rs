//! The laws of the engine: what every turn, and every run of turns,
//! preserves or forbids.

use vstd::prelude::*;
use crate::engine::{GameState, step};
use crate::input::Key;
use crate::{LANE_WIDTH, BOARD_DEPTH, VISIBLE_DEPTH};

verus! {

/// Whether `key` names a move whose destination cell — the lookahead cell,
/// for an up key at the threshold row — holds an obstacle.
pub open spec fn move_blocked(pre: GameState, key: Key) -> bool {
    match key {
        Key::Up => (pre.row() < VISIBLE_DEPTH - 1 && pre.occupied(pre.row() + 1, pre.col()))
            || (pre.row() == VISIBLE_DEPTH - 1 && pre.occupied(VISIBLE_DEPTH as int, pre.col())),
        Key::Left => pre.col() > 0 && pre.occupied(pre.row(), pre.col() - 1),
        Key::Right => pre.col() < LANE_WIDTH - 1 && pre.occupied(pre.row(), pre.col() + 1),
        Key::Down => pre.row() > 0 && pre.occupied(pre.row() - 1, pre.col()),
        Key::Quit => false,
        Key::Other => false,
    }
}

/// One turn keeps the state well formed: the board keeps its seven
/// full-width rows, and the player stays inside the lane and inside the
/// visible window.
pub proof fn lemma_step_preserves_well_formed(pre: GameState, key: Key, post: GameState)
    requires
        pre.well_formed(),
        step(pre, key, post),
    ensures
        post.well_formed(),
{
    match key {
        Key::Up => {
            if pre.row() == VISIBLE_DEPTH - 1 && !pre.occupied(VISIBLE_DEPTH as int, pre.col()) {
                assert forall|i: int| 0 <= i < BOARD_DEPTH implies (#[trigger] post.rows()[i]).well_formed() by {
                    if i < BOARD_DEPTH - 1 {
                        assert(post.rows()[i] == pre.rows()[i + 1]);
                    }
                }
            }
        },
        _ => {},
    }
}

/// A run of turns: `states` is one longer than `keys`, and each state
/// follows from the one before it by applying the matching key.
pub open spec fn run_steps(states: Seq<GameState>, keys: Seq<Key>) -> bool {
    &&& states.len() == keys.len() + 1
    &&& forall|i: int| 0 <= i < keys.len() ==> step(states[i], #[trigger] keys[i], states[i + 1])
}

/// Along any run of turns from a well-formed start state, every state is
/// well formed: in particular the player's column stays inside the lane and
/// the player's row inside the visible window.
pub proof fn lemma_run_preserves_well_formed(states: Seq<GameState>, keys: Seq<Key>)
    requires
        run_steps(states, keys),
        states.len() > 0,
        states[0].well_formed(),
    ensures
        forall|i: int| 0 <= i < states.len() ==> (#[trigger] states[i]).well_formed(),
        forall|i: int| 0 <= i < states.len() ==> 0 <= (#[trigger] states[i]).col() < LANE_WIDTH,
        forall|i: int| 0 <= i < states.len() ==> 0 <= (#[trigger] states[i]).row() < VISIBLE_DEPTH,
    decreases keys.len(),
{
    if keys.len() > 0 {
        lemma_step_preserves_well_formed(states[0], keys[0], states[1]);
        let tail_states = states.drop_first();
        let tail_keys = keys.drop_first();
        assert forall|i: int| 0 <= i < tail_keys.len() implies step(
            tail_states[i],
            #[trigger] tail_keys[i],
            tail_states[i + 1],
        ) by {
            assert(step(states[i + 1], keys[i + 1], states[i + 1 + 1]));
            assert(tail_states[i] == states[i + 1]);
            assert(tail_states[i + 1] == states[i + 2]);
        }
        lemma_run_preserves_well_formed(tail_states, tail_keys);
        assert forall|i: int| 0 <= i < states.len() implies (
        #[trigger] states[i]).well_formed() by {
            if i > 0 {
                assert(states[i] == tail_states[i - 1]);
            }
        }
    }
}

/// A move onto an occupied cell is rejected outright: the whole state —
/// board, player position and score — stays as it was.
pub proof fn lemma_blocked_move_keeps_state(pre: GameState, key: Key, post: GameState)
    requires
        step(pre, key, post),
        move_blocked(pre, key),
    ensures
        post == pre,
{
}

/// The score never decreases, never grows by more than one per turn, and
/// grows exactly when an up key succeeds — by a climb or by a scroll —
/// never on a left, right or down key and never on a rejected move.
pub proof fn lemma_score_changes_only_on_up(pre: GameState, key: Key, post: GameState)
    requires
        pre.well_formed(),
        step(pre, key, post),
    ensures
        pre.score() <= post.score() <= pre.score() + 1,
        key != Key::Up ==> post.score() == pre.score(),
        post.score() == pre.score() + 1 <==> (key == Key::Up && !move_blocked(pre, key)),
{
}

/// The board changes only by the scroll rule: the player stands at the
/// threshold row, an up key is pressed, and the lookahead row is free at
/// the player's column. The scroll discards the nearest row, shifts the
/// rest down and appends one fresh full-width row; the player stays put
/// and the score counts the step.
pub proof fn lemma_scroll_only_at_threshold(pre: GameState, key: Key, post: GameState)
    requires
        pre.well_formed(),
        step(pre, key, post),
        post.rows() != pre.rows(),
    ensures
        key == Key::Up,
        pre.row() == VISIBLE_DEPTH - 1,
        !pre.occupied(VISIBLE_DEPTH as int, pre.col()),
        post.rows().len() == BOARD_DEPTH,
        forall|i: int| 0 <= i < BOARD_DEPTH - 1 ==> post.rows()[i] == pre.rows()[i + 1],
        post.rows()[BOARD_DEPTH - 1].well_formed(),
        post.row() == pre.row(),
        post.col() == pre.col(),
        post.score() == pre.score() + 1,
{
}

} // verus!
