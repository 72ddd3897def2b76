use crate::board::{blank_row, cleared, full_rows, is_board, kept_rows, row_full, Cells};
use crate::color::Color;
use crate::input::Command;
use crate::layout::{clamped, layout_of, Rect, BORDER, FOOTER_HEIGHT, MIN_HEIGHT, MIN_WIDTH};
use crate::model::{first_kick, kick_fits, TetrisView, Tick};
use crate::shape::Shape;
use crate::tetris::GameState;
use crate::tetris_block::{some_fresh, BlockView};
use vstd::prelude::*;

verus! {

/// Every layout leaves a board of at least 38 rows of at least 6 cells, and a
/// preview of 9 by 6.
pub proof fn law_layout_leaves_room(screen: Rect)
    ensures
        layout_of(screen).game_width() >= MIN_WIDTH - BORDER,
        layout_of(screen).game_height() >= (MIN_HEIGHT - FOOTER_HEIGHT - BORDER) * 2,
        layout_of(screen).game_width() == clamped(screen).width - 2,
        layout_of(screen).game_height() == (clamped(screen).height - 7) * 2,
        layout_of(screen).next_width() == 9,
        layout_of(screen).next_height() == 6,
{
}

/// The kick that a rotation settles on is the least offset from `k` on, below
/// `limit`, at which the shape lands on empty cells; there is none exactly
/// when no such offset lets it.
pub proof fn law_kick_is_least(b: Cells, s: Shape, x: int, y: int, k: int, limit: int)
    ensures
        match first_kick(b, s, x, y, k, limit) {
            Some(m) => {
                &&& k <= m < limit
                &&& kick_fits(b, s, x, y, m)
                &&& forall|n: int| k <= n < m ==> !#[trigger] kick_fits(b, s, x, y, n)
            },
            None => forall|n: int| k <= n < limit ==> !#[trigger] kick_fits(b, s, x, y, n),
        },
    decreases limit - k,
{
    if k < limit && !kick_fits(b, s, x, y, k) {
        law_kick_is_least(b, s, x, y, k + 1, limit);
    }
}

/// A piece that cannot advance is not moved by a step forward: it is locked in
/// where it stands, once. One round is counted, the board is the old one with
/// the piece written into it at its place and the full rows among its rows
/// cleared, and the points for those rows are added. Where the game ends with
/// that, the piece is still the current one, at its place.
pub proof fn law_blocked_advance_locks_in(pre: TetrisView, post: TetrisView)
    requires
        pre.game_state != GameState::Finished,
        !pre.woken().can_advance(),
        pre.moves_forward_to(post),
    ensures
        post.rounds == pre.rounds + 1,
        post.board == pre.locked().board,
        post.points == pre.locked().points,
        post.game_state == GameState::Finished ==> post.current == pre.current,
        post.game_state != GameState::Finished ==> post.current.shape == pre.next.shape,
        post.game_state == GameState::Finished <==> pre.woken().locked().spawn_blocked(),
{
}

/// A piece that can advance goes one cell further, and nothing is locked in:
/// board, points and rounds stay as they are.
pub proof fn law_free_advance_moves(pre: TetrisView, post: TetrisView)
    requires
        pre.game_state != GameState::Finished,
        pre.woken().can_advance(),
        pre.moves_forward_to(post),
    ensures
        post.current.pos == (pre.current.pos.0 + 1, pre.current.pos.1),
        post.current.shape == pre.current.shape,
        post.board == pre.board,
        post.points == pre.points,
        post.rounds == pre.rounds,
        post.game_state == GameState::Playing,
{
}

/// Rows of which none is full are all kept.
pub proof fn lemma_no_full_rows(rows: Cells)
    requires
        rows.filter(|row: Seq<Color>| row_full(row)).len() == 0,
    ensures
        kept_rows(rows) == rows,
    decreases rows.len(),
{
    reveal(Seq::filter);
    if rows.len() > 0 {
        lemma_no_full_rows(rows.drop_last());
        assert(rows.drop_last().push(rows.last()) =~= rows);
    }
}

/// Of rows of which none is full, all are kept and none is counted.
pub proof fn lemma_none_full(rows: Cells)
    requires
        forall|u: int| 0 <= u < rows.len() ==> !row_full(#[trigger] rows[u]),
    ensures
        kept_rows(rows) == rows,
        rows.filter(|row: Seq<Color>| row_full(row)).len() == 0,
    decreases rows.len(),
{
    reveal(Seq::filter);
    if rows.len() > 0 {
        lemma_none_full(rows.drop_last());
        assert(rows.drop_last().push(rows.last()) =~= rows);
    }
}

/// Of rows of which the one at `k` alone is full, all but that one are kept,
/// and one is counted.
pub proof fn lemma_one_full(rows: Cells, k: int)
    requires
        0 <= k < rows.len(),
        row_full(rows[k]),
        forall|u: int| 0 <= u < rows.len() && u != k ==> !row_full(#[trigger] rows[u]),
    ensures
        kept_rows(rows) == rows.remove(k),
        rows.filter(|row: Seq<Color>| row_full(row)).len() == 1,
    decreases rows.len(),
{
    reveal(Seq::filter);
    let rest = rows.drop_last();
    if k == rows.len() - 1 {
        lemma_none_full(rest);
        assert(rest =~= rows.remove(k));
    } else {
        lemma_one_full(rest, k);
        assert(rest.remove(k).push(rows.last()) =~= rows.remove(k));
    }
}

/// Where one row alone among `from..to` is full, clearing takes out that row:
/// an empty row stands at index 0, every row before the cleared one has moved
/// one place on, and the rows after it are where they were.
pub proof fn law_single_clear(b: Cells, from: int, to: int, r: int, height: int)
    requires
        0 <= from <= r < to <= b.len(),
        row_full(b[r]),
        forall|u: int| from <= u < to && u != r ==> !row_full(#[trigger] b[u]),
    ensures
        full_rows(b, from, to) == 1,
        cleared(b, from, to, height) == seq![blank_row(height)] + b.subrange(0, r) + b.subrange(
            r + 1,
            b.len() as int,
        ),
        cleared(b, from, to, height).len() == b.len(),
        cleared(b, from, to, height)[0] == blank_row(height),
        forall|u: int| 0 <= u < r ==> cleared(b, from, to, height)[u + 1] == b[u],
        forall|u: int| r < u < b.len() ==> cleared(b, from, to, height)[u] == b[u],
{
    let span = b.subrange(from, to);
    assert forall|u: int| 0 <= u < span.len() && u != r - from implies !row_full(
        #[trigger] span[u],
    ) by {
        assert(span[u] == b[from + u]);
    }
    lemma_one_full(span, r - from);
    let c = cleared(b, from, to, height);
    let goal = seq![blank_row(height)] + b.subrange(0, r) + b.subrange(r + 1, b.len() as int);
    assert(c.len() == goal.len());
    assert forall|u: int| 0 <= u < c.len() implies c[u] == goal[u] by {
        if u == 0 {
        } else if u <= from {
            assert(c[u] == b[u - 1]);
        } else if u <= r {
            assert(c[u] == span.remove(r - from)[u - 1 - from]);
        } else if u < to {
            assert(c[u] == span.remove(r - from)[u - 1 - from]);
        } else {
            assert(c[u] == b[u]);
        }
    }
    assert(c =~= goal);
}

/// What a lock-in with a given piece makes of a game is one of the outcomes
/// of a lock-in, if the piece is one that can be drawn; and every outcome of a
/// lock-in is made with some such piece.
pub proof fn law_round_outcomes(pre: TetrisView, post: TetrisView)
    ensures
        pre.finishes_round_to(post) ==> exists|fresh: BlockView|
            fresh.is_fresh() && post == #[trigger] pre.round_finished(fresh),
        forall|fresh: BlockView|
            fresh.is_fresh() ==> pre.finishes_round_to(#[trigger] pre.round_finished(fresh)),
{
    if pre.finishes_round_to(post) {
        if pre.locked().spawn_blocked() {
            let fresh = some_fresh();
            assert(post == pre.round_finished(fresh));
        } else {
            let fresh = choose|fresh: BlockView|
                fresh.is_fresh() && post == #[trigger] pre.locked().spawned(fresh);
            assert(post == pre.round_finished(fresh));
        }
    }
    assert forall|fresh: BlockView| fresh.is_fresh() implies pre.finishes_round_to(
        #[trigger] pre.round_finished(fresh),
    ) by {
        if !pre.locked().spawn_blocked() {
            assert(pre.round_finished(fresh) == pre.locked().spawned(fresh));
        }
    }
}

/// Gravity does nothing to a game that is paused or finished, nor after a
/// request to leave: only a game that is being played takes a step.
pub proof fn law_gravity_rests(pre: TetrisView, tick: Tick, post: TetrisView)
    requires
        pre.ticks_to(tick, post),
    ensures
        pre.exit || pre.game_state != GameState::Playing ==> post == pre,
        tick == Tick::Redraw <==> !pre.exit && pre.game_state == GameState::Playing,
        tick == Tick::Stop <==> pre.exit || pre.game_state == GameState::Finished,
        pre.game_state == GameState::Paused ==> post.game_state == GameState::Paused,
{
}

/// A lock-in that clears no row counts one round and leaves the points as they
/// are; the board is the old one with the piece written into it.
pub proof fn law_lock_in_without_clear(pre: TetrisView, fresh: BlockView)
    requires
        is_board(pre.board, pre.game_width as int, pre.game_height as int),
        0 <= pre.current.pos.0,
        pre.current.pos.0 + pre.current.shape.len() <= pre.game_width,
        pre.lines_to_clear() == 0,
    ensures
        pre.round_finished(fresh).rounds == pre.rounds + 1,
        pre.round_finished(fresh).points == pre.points,
        pre.round_finished(fresh).board == pre.board_with_current(),
{
    let b = pre.board_with_current();
    let from = pre.current.pos.0;
    let to = pre.current.pos.0 + pre.current.shape.len();
    lemma_no_full_rows(b.subrange(from, to));
    assert(cleared(b, from, to, pre.game_height as int) =~= b);
}

/// Where the next piece cannot enter after a lock-in, the game is finished,
/// and both pieces stay as they were.
pub proof fn law_blocked_spawn_ends_game(pre: TetrisView, fresh: BlockView)
    requires
        pre.locked().spawn_blocked(),
    ensures
        pre.round_finished(fresh).game_state == GameState::Finished,
        pre.round_finished(fresh).current == pre.current,
        pre.round_finished(fresh).next == pre.next,
{
}

/// Where the next piece can enter after a lock-in, it becomes the current one
/// at the start of the falling axis, on empty cells, and the state of play is
/// kept.
pub proof fn law_free_spawn_goes_on(pre: TetrisView, fresh: BlockView)
    requires
        !pre.locked().spawn_blocked(),
    ensures
        pre.round_finished(fresh).game_state == pre.game_state,
        pre.round_finished(fresh).current == pre.next.at(0, pre.locked().spawn_row()),
        pre.round_finished(fresh).current_fits(),
        pre.round_finished(fresh).next.shape == fresh.shape,
        pre.round_finished(fresh).next.color == fresh.color,
{
}

/// A finished game stays as it is under every command but the request to
/// leave, which changes nothing but the note of that request.
pub proof fn law_finished_is_absorbing(pre: TetrisView, command: Command, post: TetrisView)
    requires
        pre.game_state == GameState::Finished,
        pre.applies_to(command, post),
    ensures
        command != Command::Quit ==> post == pre,
        post.game_state == GameState::Finished,
        post.board == pre.board,
        post.points == pre.points,
        post.rounds == pre.rounds,
        post.current == pre.current,
        post.next == pre.next,
{
}

/// Pausing a game that is being played pauses it, and pausing it once more
/// gives back the game as it was.
pub proof fn law_pause_toggles(pre: TetrisView)
    requires
        pre.game_state == GameState::Playing,
    ensures
        pre.paused().game_state == GameState::Paused,
        pre.paused() == pre.in_state(GameState::Paused),
        pre.paused().paused() == pre,
{
}

/// A command that moves the piece resumes a paused game and then does to it
/// what it does to a game that is being played; the game is not paused after it.
pub proof fn law_move_resumes(pre: TetrisView, command: Command, post: TetrisView)
    requires
        pre.game_state == GameState::Paused,
        command.moves_piece(),
        pre.applies_to(command, post),
    ensures
        pre.in_state(GameState::Playing).applies_to(command, post),
        post.game_state != GameState::Paused,
{
}

/// No command takes points or rounds away, and none changes the extents of
/// the game.
pub proof fn law_counters_grow(pre: TetrisView, command: Command, post: TetrisView)
    requires
        pre.applies_to(command, post),
    ensures
        post.points >= pre.points,
        post.rounds >= pre.rounds,
        post.rounds <= pre.rounds + 1,
        post.game_width == pre.game_width,
        post.game_height == pre.game_height,
        post.layout == pre.layout,
{
}

/// Only a lock-in changes the board or the counters: a command after which
/// the round is the same has left board and points alone.
pub proof fn law_board_changes_by_lock_in(pre: TetrisView, command: Command, post: TetrisView)
    requires
        pre.applies_to(command, post),
        post.rounds == pre.rounds,
    ensures
        post.board == pre.board,
        post.points == pre.points,
        post.next == pre.next,
{
}

} // verus!
