use crate::board::{
    blank_rows, cleared, committed, free_at, full_rows, is_board, line_score, placeable, Cells,
};
use crate::input::Command;
use crate::layout::{layout_of, Layout, Rect};
use crate::shape::{breadth, depth, is_rect, is_tight, rotated, row_used, Shape};
use crate::tetris::{GameState, MoveDirection};
use crate::tetris_block::{BlockView, MAX_EXTENT};
use vstd::prelude::*;

verus! {

impl MoveDirection {
    /// The change of the lateral coordinate.
    pub open spec fn delta(self) -> int {
        match self {
            MoveDirection::Up => 1,
            MoveDirection::Down => -1,
        }
    }
}

/// Milliseconds between two steps of gravity.
pub const MOVE_INTERVAL_MS: u64 = 100;

/// Longest stretch, in milliseconds, that gravity sleeps without looking at
/// the request to leave.
pub const SLICE_MS: u64 = 100;

/// What the timer does after a step of gravity.
#[derive(Clone, Copy, Debug, PartialEq, Eq, Structural)]
pub enum Tick {
    /// The timer ends: the player wants to leave, or the game is finished.
    Stop,
    /// The piece was moved: the game is to be drawn, and the timer goes on.
    Redraw,
    /// The game is paused: nothing was done, and the timer goes on.
    Idle,
}

/// How gravity sleeps between two steps: `parts` slices of `slice_nanos`
/// nanoseconds each.
#[derive(Clone, Copy, Debug, PartialEq, Eq, Structural)]
pub struct SleepPlan {
    pub parts: u32,
    pub slice_nanos: u64,
}

/// Number of slices of at most `SLICE_MS` that cover `interval_ms`.
pub open spec fn slices(interval_ms: nat) -> nat {
    (interval_ms + SLICE_MS - 1) as nat / SLICE_MS as nat
}

/// Nanoseconds of one of the equal slices of `interval_ms`, rounded down.
pub open spec fn slice_nanos(interval_ms: nat) -> nat {
    interval_ms * 1_000_000 / slices(interval_ms)
}

/// Most kick offsets that a rotation tries.
pub const MAX_KICKS: usize = 4;

/// Number of kick offsets that a rotation tries for a piece whose lateral
/// coordinate is `y`: the offsets 0, 1, 2 and 3, as far as they do not exceed
/// `y`.
pub open spec fn kick_limit(y: int) -> int {
    if y < MAX_KICKS - 1 {
        y + 1
    } else {
        MAX_KICKS as int
    }
}

/// Moved back by `k` cells along the lateral axis, the shape lands on empty
/// cells.
pub open spec fn kick_fits(b: Cells, s: Shape, x: int, y: int, k: int) -> bool {
    placeable(b, s, x, y - k)
}

/// The first offset from `k` on, below `limit`, by which the shape can be
/// moved back along the lateral axis to land on empty cells.
pub open spec fn first_kick(b: Cells, s: Shape, x: int, y: int, k: int, limit: int) -> Option<int>
    decreases limit - k,
{
    if k >= limit {
        None
    } else if kick_fits(b, s, x, y, k) {
        Some(k)
    } else {
        first_kick(b, s, x, y, k + 1, limit)
    }
}

/// Where a shape that starts at `(x, y)` comes to rest when it advances as
/// long as its next place is free.
pub open spec fn landing(b: Cells, s: Shape, x: int, y: int) -> int
    decreases b.len() - x,
{
    if x < b.len() && placeable(b, s, x + 1, y) {
        landing(b, s, x + 1, y)
    } else {
        x
    }
}

/// A dropped shape comes to rest at the farthest place that it reaches by
/// advancing through free places only: every place on the way is free, and the
/// place after the last is not.
pub proof fn lemma_landing(b: Cells, s: Shape, x: int, y: int)
    requires
        is_rect(s),
        is_tight(s),
    ensures
        x <= landing(b, s, x, y),
        forall|k: int| x < k <= landing(b, s, x, y) ==> placeable(b, s, k, y),
        !placeable(b, s, landing(b, s, x, y) + 1, y),
    decreases b.len() - x,
{
    if placeable(b, s, x + 1, y) {
        assert(row_used(s, 0));
        let j = choose|j: int| 0 <= j < s[0].len() && #[trigger] s[0][j];
        assert(free_at(b, x + 1 + 0, y + j));
        lemma_landing(b, s, x + 1, y);
    }
}

/// The whole state of a game, mathematically.
pub struct TetrisView {
    pub cursor_state: bool,
    pub game_state: GameState,
    pub rounds: nat,
    pub points: nat,
    pub exit: bool,
    pub layout: Layout,
    pub game_width: nat,
    pub game_height: nat,
    pub next_width: int,
    pub next_height: int,
    pub board: Cells,
    pub current: BlockView,
    pub next: BlockView,
    pub move_interval_ms: nat,
}

/// The parts from which a game can be put together: a board of at least four
/// by four cells that fits `i32` coordinates, a well-formed current piece that
/// lies on empty cells of it, and a next piece that the board has room for.
pub open spec fn parts_valid(board: Cells, current: BlockView, next: BlockView) -> bool {
    &&& MAX_EXTENT <= board.len() <= i32::MAX
    &&& MAX_EXTENT <= board[0].len() <= i32::MAX
    &&& is_board(board, board.len() as int, board[0].len() as int)
    &&& current.well_formed()
    &&& placeable(board, current.shape, current.pos.0, current.pos.1)
    &&& next.sound()
    &&& depth(next.shape) <= board.len()
    &&& breadth(next.shape) <= board[0].len()
}

/// The game put together from its parts, laid out for `screen`: it is being
/// played, nothing is counted yet, and the next piece stands in the preview.
pub open spec fn assembled(screen: Rect, board: Cells, current: BlockView, next: BlockView) -> TetrisView {
    let layout = layout_of(screen);
    let start = TetrisView {
        cursor_state: false,
        game_state: GameState::Playing,
        rounds: 0,
        points: 0,
        exit: false,
        layout,
        game_width: board.len(),
        game_height: board[0].len(),
        next_width: layout.next_width(),
        next_height: layout.next_height(),
        board,
        current,
        next,
        move_interval_ms: MOVE_INTERVAL_MS as nat,
    };
    TetrisView {
        next: next.at(start.preview_pos(next.shape).0, start.preview_pos(next.shape).1),
        ..start
    }
}

/// The game as it starts on `screen` with `first` as its current and `second`
/// as its next piece: the board that the layout leaves is empty, and the
/// current piece enters in the middle of the lateral axis.
pub open spec fn initial(screen: Rect, first: BlockView, second: BlockView) -> TetrisView {
    let layout = layout_of(screen);
    assembled(
        screen,
        blank_rows(layout.game_width(), layout.game_height()),
        first.at(0, layout.game_height() / 2 - breadth(first.shape) / 2),
        second,
    )
}

impl TetrisView {
    /// The piece is sound, and the board has room for it somewhere.
    pub open spec fn admits(self, piece: BlockView) -> bool {
        &&& piece.sound()
        &&& depth(piece.shape) <= self.game_width
        &&& breadth(piece.shape) <= self.game_height
    }

    /// What holds of a game whether or not its current piece overlaps settled
    /// cells: the board has its extents, which leave room for every piece of
    /// the catalogue; the current piece is well formed and lies on the board;
    /// the next piece is one that the board has room for.
    pub open spec fn well_sized(self) -> bool {
        &&& MAX_EXTENT <= self.game_width <= i32::MAX
        &&& MAX_EXTENT <= self.game_height <= i32::MAX
        &&& is_board(self.board, self.game_width as int, self.game_height as int)
        &&& self.current.well_formed()
        &&& self.current.pos.0 + depth(self.current.shape) <= self.game_width
        &&& self.current.pos.1 + breadth(self.current.shape) <= self.game_height
        &&& self.admits(self.next)
        &&& self.next_width >= 0
        &&& self.next_height >= 0
        &&& 1 <= self.move_interval_ms <= u32::MAX
    }

    /// The invariant of a game: it is well sized, and until it is finished its
    /// current piece covers empty cells only.
    pub open spec fn wf(self) -> bool {
        &&& self.well_sized()
        &&& self.game_state != GameState::Finished ==> self.current_fits()
    }

    /// The current piece covers empty cells of the board only.
    pub open spec fn current_fits(self) -> bool {
        placeable(self.board, self.current.shape, self.current.pos.0, self.current.pos.1)
    }

    /// The counters can take one more lock-in without leaving `u64`.
    pub open spec fn has_room(self) -> bool {
        self.rounds < u64::MAX && self.points + line_score(4) <= u64::MAX
    }

    /// The game with another state.
    pub open spec fn in_state(self, game_state: GameState) -> TetrisView {
        TetrisView { game_state, ..self }
    }

    /// The game with its current piece moved to `(x, y)`.
    pub open spec fn with_current_at(self, x: int, y: int) -> TetrisView {
        TetrisView { current: self.current.at(x, y), ..self }
    }

    /// What the pause command makes of the game: it pauses a game that is
    /// being played, resumes a paused one, and leaves a finished one alone.
    pub open spec fn paused(self) -> TetrisView {
        match self.game_state {
            GameState::Playing => self.in_state(GameState::Paused),
            GameState::Paused => self.in_state(GameState::Playing),
            GameState::Finished => self,
        }
    }

    /// The game after a request to leave.
    pub open spec fn exited(self) -> TetrisView {
        TetrisView { exit: true, ..self }
    }

    /// A paused game resumed; any other game as it is. Every command that
    /// moves the piece starts with this.
    pub open spec fn woken(self) -> TetrisView {
        if self.game_state == GameState::Paused {
            self.in_state(GameState::Playing)
        } else {
            self
        }
    }

    /// The current piece can go one cell further along the falling axis.
    pub open spec fn can_advance(self) -> bool {
        placeable(self.board, self.current.shape, self.current.pos.0 + 1, self.current.pos.1)
    }

    /// The game with its current piece one cell further along the falling axis.
    pub open spec fn advanced(self) -> TetrisView {
        self.with_current_at(self.current.pos.0 + 1, self.current.pos.1)
    }

    /// The current piece can go one cell in `direction` along the lateral axis.
    pub open spec fn can_shift(self, direction: MoveDirection) -> bool {
        placeable(
            self.board,
            self.current.shape,
            self.current.pos.0,
            self.current.pos.1 + direction.delta(),
        )
    }

    /// What a lateral shift makes of a game that is not finished: the piece
    /// goes one cell in `direction` where all its cells can, and stays where
    /// it is otherwise.
    pub open spec fn shifted(self, direction: MoveDirection) -> TetrisView {
        if self.can_shift(direction) {
            self.with_current_at(self.current.pos.0, self.current.pos.1 + direction.delta())
        } else {
            self
        }
    }

    /// The kick offset that a rotation of the current piece settles on, if any.
    pub open spec fn kick(self) -> Option<int> {
        first_kick(
            self.board,
            rotated(self.current.shape),
            self.current.pos.0,
            self.current.pos.1,
            0,
            kick_limit(self.current.pos.1),
        )
    }

    /// What a rotation makes of a game that is not finished: the piece takes
    /// its turned shape, moved back along the lateral axis by the first kick
    /// offset that lets it land on empty cells; where no offset does, nothing
    /// changes.
    pub open spec fn turned(self) -> TetrisView {
        match self.kick() {
            Some(k) => TetrisView {
                current: BlockView {
                    color: self.current.color,
                    pos: (self.current.pos.0, self.current.pos.1 - k),
                    shape: rotated(self.current.shape),
                },
                ..self
            },
            None => self,
        }
    }

    /// The coordinate along the falling axis at which the current piece would
    /// come to rest if it were dropped now.
    pub open spec fn landing_row(self) -> int {
        landing(self.board, self.current.shape, self.current.pos.0, self.current.pos.1)
    }

    /// The game with its current piece at rest.
    pub open spec fn landed(self) -> TetrisView {
        self.with_current_at(self.landing_row(), self.current.pos.1)
    }

    /// The board with the current piece written into it.
    pub open spec fn board_with_current(self) -> Cells {
        committed(
            self.board,
            self.current.shape,
            self.current.pos.0,
            self.current.pos.1,
            self.current.color,
        )
    }

    /// Number of rows that locking the current piece in would clear: the full
    /// ones among the rows that the piece spans.
    pub open spec fn lines_to_clear(self) -> nat {
        full_rows(
            self.board_with_current(),
            self.current.pos.0,
            self.current.pos.0 + depth(self.current.shape),
        )
    }

    /// The game after the current piece has been locked in: its cells are
    /// written into the board, the full rows among those it spans are cleared,
    /// the points for them are added and one more round is counted.
    pub open spec fn locked(self) -> TetrisView {
        TetrisView {
            board: cleared(
                self.board_with_current(),
                self.current.pos.0,
                self.current.pos.0 + depth(self.current.shape),
                self.game_height as int,
            ),
            points: self.points + line_score(self.lines_to_clear()),
            rounds: self.rounds + 1,
            ..self
        }
    }

    /// The lateral coordinate at which the next piece enters: that of the
    /// current piece, or the last one at which the next piece still fits.
    pub open spec fn spawn_row(self) -> int {
        let last = self.game_height - breadth(self.next.shape);
        if self.current.pos.1 <= last {
            self.current.pos.1
        } else {
            last
        }
    }

    /// The next piece cannot enter: one of its cells would land on a settled one.
    pub open spec fn spawn_blocked(self) -> bool {
        !placeable(self.board, self.next.shape, 0, self.spawn_row())
    }

    /// Where a staged piece of this shape is shown in the preview.
    pub open spec fn preview_pos(self, s: Shape) -> (int, int) {
        (self.next_width / 2 - depth(s) / 2, self.next_height / 2 - breadth(s) / 2)
    }

    /// The game after the next piece has entered and `fresh` has been staged.
    pub open spec fn spawned(self, fresh: BlockView) -> TetrisView {
        TetrisView {
            current: self.next.at(0, self.spawn_row()),
            next: fresh.at(self.preview_pos(fresh.shape).0, self.preview_pos(fresh.shape).1),
            ..self
        }
    }

    /// The game after a round has been finished with `fresh` as the piece to
    /// stage: the current piece is locked in; then the game is over if the
    /// next piece cannot enter, and goes on with it otherwise.
    pub open spec fn round_finished(self, fresh: BlockView) -> TetrisView {
        let locked = self.locked();
        if locked.spawn_blocked() {
            locked.in_state(GameState::Finished)
        } else {
            locked.spawned(fresh)
        }
    }

    /// `post` is the game after a round has been finished: the current piece
    /// is locked in; then the game is over if the next piece cannot enter, and
    /// goes on with it and some newly drawn piece otherwise.
    pub open spec fn finishes_round_to(self, post: TetrisView) -> bool {
        if self.locked().spawn_blocked() {
            post == self.locked().in_state(GameState::Finished)
        } else {
            exists|fresh: BlockView|
                fresh.is_fresh() && post == #[trigger] self.locked().spawned(fresh)
        }
    }

    /// The command would lock the current piece in: the game is not finished,
    /// and the command is a drop, or a step forward of a piece that cannot
    /// advance.
    pub open spec fn locks_on(self, command: Command) -> bool {
        &&& self.game_state != GameState::Finished
        &&& match command {
            Command::Drop => true,
            Command::MoveForward => !self.woken().can_advance(),
            _ => false,
        }
    }

    /// The command would not take the counters out of `u64`: it locks no piece
    /// in, or the counters have room.
    pub open spec fn can_take(self, command: Command) -> bool {
        self.locks_on(command) ==> self.has_room()
    }

    /// A step of gravity would not take the counters out of `u64`: it moves
    /// nothing, or the step forward that it takes can be taken.
    pub open spec fn can_tick(self) -> bool {
        !self.exit && self.game_state == GameState::Playing ==> self.can_take(Command::MoveForward)
    }

    /// `post` is what a step forward makes of the game: nothing if the game is
    /// finished; else the game is resumed if it was paused, and the piece
    /// advances by one cell if it can, and is locked in if it cannot.
    pub open spec fn moves_forward_to(self, post: TetrisView) -> bool {
        if self.game_state == GameState::Finished {
            post == self
        } else if self.woken().can_advance() {
            post == self.woken().advanced()
        } else {
            self.woken().finishes_round_to(post)
        }
    }

    /// `post` is what a lateral shift makes of the game.
    pub open spec fn shifts_to(self, direction: MoveDirection, post: TetrisView) -> bool {
        if self.game_state == GameState::Finished {
            post == self
        } else {
            post == self.woken().shifted(direction)
        }
    }

    /// `post` is what a rotation makes of the game.
    pub open spec fn turns_to(self, post: TetrisView) -> bool {
        if self.game_state == GameState::Finished {
            post == self
        } else {
            post == self.woken().turned()
        }
    }

    /// `post` is what a drop makes of the game: nothing if the game is
    /// finished; else the game is resumed if it was paused, and the piece is
    /// locked in where it comes to rest.
    pub open spec fn drops_to(self, post: TetrisView) -> bool {
        if self.game_state == GameState::Finished {
            post == self
        } else {
            self.woken().landed().finishes_round_to(post)
        }
    }

    /// `post` is what a step of gravity makes of the game, and `tick` what the
    /// timer does after it: on a request to leave and in a finished game the
    /// timer stops; a game that is being played takes a step forward; a paused
    /// game is left alone.
    pub open spec fn ticks_to(self, tick: Tick, post: TetrisView) -> bool {
        if self.exit || self.game_state == GameState::Finished {
            tick == Tick::Stop && post == self
        } else if self.game_state == GameState::Playing {
            tick == Tick::Redraw && self.moves_forward_to(post)
        } else {
            tick == Tick::Idle && post == self
        }
    }

    /// The game after a frame has been drawn, or could not be. A frame that
    /// fits flips the cursor's switch; one that does not pauses a game that is
    /// being played.
    pub open spec fn framed(self, fits: bool) -> TetrisView {
        if fits {
            TetrisView { cursor_state: !self.cursor_state, ..self }
        } else if self.game_state == GameState::Playing {
            self.in_state(GameState::Paused)
        } else {
            self
        }
    }

    /// `post` is what a command makes of the game.
    pub open spec fn applies_to(self, command: Command, post: TetrisView) -> bool {
        match command {
            Command::Rotate => self.turns_to(post),
            Command::MoveForward => self.moves_forward_to(post),
            Command::ShiftUp => self.shifts_to(MoveDirection::Up, post),
            Command::ShiftDown => self.shifts_to(MoveDirection::Down, post),
            Command::Drop => self.drops_to(post),
            Command::Pause => post == self.paused(),
            Command::Quit => post == self.exited(),
        }
    }
}

} // verus!
