use crate::board::{
    blank_rows, can_place, clear_lines, commit, free_at, is_board, lemma_cleared_is_board,
    lemma_committed_is_board, lemma_placeable_in_bounds, new_board, placeable, score_for,
    MAX_SCORE,
};
use crate::color::Color;
use crate::input::{Command, KeyEvent};
use crate::layout::{Layout, Rect, NEXT_WIDTH};
use crate::model::{
    assembled, first_kick, initial, kick_limit, landing, lemma_landing, parts_valid, slice_nanos,
    slices, SleepPlan, TetrisView, Tick, MAX_KICKS, MOVE_INTERVAL_MS, SLICE_MS,
};
use crate::shape::{
    breadth, column_used, depth, grid, is_rect, is_tight, lemma_rotated_rect,
    lemma_rotated_tight, rotated,
};
use crate::tetris_block::{lemma_fresh_compact, BlockView, TetrisBlock, MAX_EXTENT};
use vstd::prelude::*;

verus! {

/// How far the game has got.
#[derive(Clone, Copy, Debug, PartialEq, Eq, Structural)]
pub enum GameState {
    Playing,
    Paused,
    Finished,
}

/// The two ways to shift a piece along the lateral axis: `Up` raises its
/// lateral coordinate by one, `Down` lowers it.
#[derive(Clone, Copy, Debug, PartialEq, Eq, Structural)]
pub enum MoveDirection {
    Up,
    Down,
}

/// A game: the settled cells, the falling piece, the staged one, the counters
/// and the state of play, with the layout that it is shown in.
#[derive(Debug)]
pub struct Tetris {
    cursor_state: bool,
    game_state: GameState,
    rounds: u64,
    points: u64,
    exit: bool,
    layout: Layout,
    game_width: usize,
    game_height: usize,
    next_width: i32,
    next_height: i32,
    filled_area: Vec<Vec<Color>>,
    current_block: TetrisBlock,
    next_block: TetrisBlock,
    move_interval_ms: u64,
}

impl View for Tetris {
    type V = TetrisView;

    closed spec fn view(&self) -> TetrisView {
        TetrisView {
            cursor_state: self.cursor_state,
            game_state: self.game_state,
            rounds: self.rounds as nat,
            points: self.points as nat,
            exit: self.exit,
            layout: self.layout,
            game_width: self.game_width as nat,
            game_height: self.game_height as nat,
            next_width: self.next_width as int,
            next_height: self.next_height as int,
            board: grid(self.filled_area),
            current: self.current_block@,
            next: self.next_block@,
            move_interval_ms: self.move_interval_ms as nat,
        }
    }
}

/// Finds the extents of a board of at least one row whose rows all have one
/// length.
fn board_extents(board: &Vec<Vec<Color>>) -> (extents: Option<(usize, usize)>)
    ensures
        match extents {
            Some((width, height)) => width == board.len() && width >= 1 && height
                == grid(*board)[0].len() && is_board(grid(*board), width as int, height as int),
            None => board.len() == 0 || !is_board(
                grid(*board),
                board.len() as int,
                grid(*board)[0].len() as int,
            ),
        },
{
    if board.len() == 0 {
        return None;
    }
    let height = board[0].len();
    let mut x: usize = 0;
    while x < board.len()
        invariant
            x <= board.len(),
            height == grid(*board)[0].len(),
            forall|a: int| 0 <= a < x ==> (#[trigger] grid(*board)[a]).len() == height,
        decreases board.len() - x,
    {
        if board[x].len() != height {
            assert(grid(*board)[x as int].len() != height);
            return None;
        }
        x += 1;
    }
    Some((board.len(), height))
}

impl Tetris {
    /// The invariant of a game, which every constructor establishes and every
    /// operation keeps.
    pub open spec fn wf(&self) -> bool {
        self@.wf()
    }

    /// Starts a game on `screen_rect` with two pieces drawn at random.
    pub fn new(screen_rect: Rect) -> (game: Self)
        requires
            screen_rect.x + NEXT_WIDTH <= u16::MAX,
        ensures
            game.wf(),
            exists|first: BlockView, second: BlockView|
                first.is_fresh() && second.is_fresh() && game@ == #[trigger] initial(
                    screen_rect,
                    first,
                    second,
                ),
    {
        let current_block = TetrisBlock::new_random();
        let next_block = TetrisBlock::new_random();
        proof {
            lemma_fresh_compact(current_block@);
            lemma_fresh_compact(next_block@);
        }
        Tetris::with_blocks(screen_rect, current_block, next_block)
    }

    /// Starts a game on `screen_rect` with the two given pieces, wherever they
    /// stand: the first enters the empty board, the second is staged.
    pub fn with_blocks(screen_rect: Rect, current_block: TetrisBlock, next_block: TetrisBlock) -> (game:
        Self)
        requires
            screen_rect.x + NEXT_WIDTH <= u16::MAX,
            current_block@.compact(),
            next_block@.compact(),
        ensures
            game.wf(),
            game@ == initial(screen_rect, current_block@, next_block@),
    {
        let layout = Layout::new(screen_rect);
        let game_width = (layout.board_rect.width - 2) as usize;
        let game_height = (layout.board_rect.height - 2) as usize * 2;
        let next_width: i32 = (layout.next_rect.width - 2) as i32;
        let next_height: i32 = (layout.next_rect.height - 2) as i32 * 2;
        let filled_area = new_board(game_width, game_height);
        let mut current_block = current_block;
        let mut next_block = next_block;
        current_block.pos = (0, game_height as i32 / 2 - current_block.pattern[0].len() as i32 / 2);
        next_block.pos = (
            next_width / 2 - next_block.pattern.len() as i32 / 2,
            next_height / 2 - next_block.pattern[0].len() as i32 / 2,
        );
        let game = Tetris {
            cursor_state: false,
            game_state: GameState::Playing,
            rounds: 0,
            points: 0,
            exit: false,
            layout,
            game_width,
            game_height,
            next_width,
            next_height,
            filled_area,
            current_block,
            next_block,
            move_interval_ms: MOVE_INTERVAL_MS,
        };
        proof {
            let b = blank_rows(game_width as int, game_height as int);
            assert(game@.board == b);
            assert(is_board(b, game_width as int, game_height as int));
            assert(placeable(b, game@.current.shape, game@.current.pos.0, game@.current.pos.1));
        }
        game
    }

    /// Puts a game together from its parts, laid out for `screen_rect`: the
    /// settled cells, the current piece where it stands, and the next piece.
    /// There is a game of these parts if and only if they are valid.
    pub fn from_parts(
        screen_rect: Rect,
        filled_area: Vec<Vec<Color>>,
        current_block: TetrisBlock,
        next_block: TetrisBlock,
    ) -> (game: Option<Self>)
        requires
            screen_rect.x + NEXT_WIDTH <= u16::MAX,
        ensures
            game.is_some() == parts_valid(grid(filled_area), current_block@, next_block@),
            game matches Some(g) ==> g.wf() && g@ == assembled(
                screen_rect,
                grid(filled_area),
                current_block@,
                next_block@,
            ),
    {
        let (game_width, game_height) = match board_extents(&filled_area) {
            Some(extents) => extents,
            None => {
                return None;
            },
        };
        if game_width < MAX_EXTENT || game_width > i32::MAX as usize || game_height < MAX_EXTENT
            || game_height > i32::MAX as usize {
            return None;
        }
        if !current_block.is_well_formed() || !next_block.is_sound() {
            return None;
        }
        if next_block.pattern.len() > game_width || next_block.pattern[0].len() > game_height {
            return None;
        }
        if !can_place(
            &filled_area,
            &current_block.pattern,
            current_block.pos.0 as usize,
            current_block.pos.1 as usize,
        ) {
            return None;
        }
        proof {
            lemma_placeable_in_bounds(
                grid(filled_area),
                current_block@.shape,
                current_block@.pos.0,
                current_block@.pos.1,
                game_width as int,
                game_height as int,
            );
        }
        let layout = Layout::new(screen_rect);
        let next_width: i32 = (layout.next_rect.width - 2) as i32;
        let next_height: i32 = (layout.next_rect.height - 2) as i32 * 2;
        let mut next_block = next_block;
        next_block.pos = (
            next_width / 2 - next_block.pattern.len() as i32 / 2,
            next_height / 2 - next_block.pattern[0].len() as i32 / 2,
        );
        Some(
            Tetris {
                cursor_state: false,
                game_state: GameState::Playing,
                rounds: 0,
                points: 0,
                exit: false,
                layout,
                game_width,
                game_height,
                next_width,
                next_height,
                filled_area,
                current_block,
                next_block,
                move_interval_ms: MOVE_INTERVAL_MS,
            },
        )
    }

    /// The coordinates of the current piece as `usize`.
    fn origin(&self) -> (at: (usize, usize))
        requires
            self@.well_sized(),
        ensures
            at.0 == self@.current.pos.0,
            at.1 == self@.current.pos.1,
    {
        (self.current_block.pos.0 as usize, self.current_block.pos.1 as usize)
    }

    /// Resumes the game if it is paused.
    fn wake(&mut self)
        ensures
            final(self)@ == old(self)@.woken(),
    {
        if self.game_state == GameState::Paused {
            self.game_state = GameState::Playing;
        }
    }

    /// Pauses a game that is being played and resumes a paused one. A finished
    /// game stays finished.
    pub fn pause(&mut self)
        ensures
            final(self)@ == old(self)@.paused(),
            old(self).wf() ==> final(self).wf(),
    {
        match self.game_state {
            GameState::Playing => self.game_state = GameState::Paused,
            GameState::Paused => self.game_state = GameState::Playing,
            GameState::Finished => {},
        }
    }

    /// Notes that the player wants to leave.
    pub fn exit(&mut self)
        ensures
            final(self)@ == old(self)@.exited(),
            old(self).wf() ==> final(self).wf(),
    {
        self.exit = true;
    }

    /// Shifts the current piece by one cell along the lateral axis if all its
    /// cells can go there, after resuming a paused game. A finished game is
    /// left alone.
    pub fn move_side(&mut self, direction: MoveDirection)
        requires
            old(self).wf(),
        ensures
            final(self).wf(),
            old(self)@.shifts_to(direction, final(self)@),
    {
        if self.game_state == GameState::Finished {
            return ;
        }
        self.wake();
        let (x, y) = self.origin();
        match direction {
            MoveDirection::Up => {
                if can_place(&self.filled_area, &self.current_block.pattern, x, y + 1) {
                    self.current_block.pos.1 += 1;
                }
            },
            MoveDirection::Down => {
                if y == 0 {
                    proof {
                        let s = self@.current.shape;
                        assert(column_used(s, 0));
                        let i = choose|i: int| 0 <= i < s.len() && #[trigger] s[i][0];
                        assert(s[i].len() == breadth(s));
                        assert(!free_at(self@.board, x + i, -1 + 0));
                    }
                } else if can_place(&self.filled_area, &self.current_block.pattern, x, y - 1) {
                    self.current_block.pos.1 -= 1;
                }
            },
        }
        proof {
            if self@.current.pos != old(self)@.current.pos {
                lemma_placeable_in_bounds(
                    self@.board,
                    self@.current.shape,
                    self@.current.pos.0,
                    self@.current.pos.1,
                    self@.game_width as int,
                    self@.game_height as int,
                );
            }
        }
    }

    /// Turns the current piece clockwise by a quarter, after resuming a paused
    /// game. Up to four places are tried for the turned piece: its own, and
    /// those one, two and three cells back along the lateral axis, as far as
    /// the axis goes. The first on which the turned piece covers empty cells
    /// only is taken. Where none is, the piece stays as it is. A finished game
    /// is left alone.
    pub fn rotate90(&mut self)
        requires
            old(self).wf(),
        ensures
            final(self).wf(),
            old(self)@.turns_to(final(self)@),
    {
        if self.game_state == GameState::Finished {
            return ;
        }
        self.wake();
        let new_pattern = TetrisBlock::rotate90(&self.current_block.pattern);
        let (x, y) = self.origin();
        let limit = if y < MAX_KICKS - 1 {
            y + 1
        } else {
            MAX_KICKS
        };
        let ghost start = self@;
        let ghost s = grid(new_pattern);
        proof {
            lemma_rotated_rect(start.current.shape);
            lemma_rotated_tight(start.current.shape);
        }
        let mut move_y: usize = 0;
        while move_y < limit
            invariant
                self@ == start,
                start == old(self)@.woken(),
                start.wf(),
                start.game_state != GameState::Finished,
                x == start.current.pos.0,
                y == start.current.pos.1,
                s == grid(new_pattern),
                s == rotated(start.current.shape),
                is_rect(s),
                is_tight(s),
                limit == kick_limit(y as int),
                move_y <= limit,
                start.kick() == first_kick(start.board, s, x as int, y as int, move_y as int, limit as int),
            decreases limit - move_y,
        {
            if can_place(&self.filled_area, &new_pattern, x, y - move_y) {
                self.current_block.pattern = new_pattern;
                self.current_block.pos.1 -= move_y as i32;
                proof {
                    lemma_placeable_in_bounds(
                        start.board,
                        s,
                        x as int,
                        y - move_y,
                        start.game_width as int,
                        start.game_height as int,
                    );
                }
                return ;
            }
            move_y += 1;
        }
    }

    /// Finds where the current piece would come to rest if it were dropped now.
    pub fn get_end_move_pos(&self) -> (end: (i32, i32))
        requires
            self.wf(),
        ensures
            end.0 == self@.landing_row(),
            end.1 == self@.current.pos.1,
    {
        let (x0, y) = self.origin();
        let mut x = x0;
        let ghost b = self@.board;
        let ghost s = self@.current.shape;
        while can_place(&self.filled_area, &self.current_block.pattern, x + 1, y)
            invariant
                self.wf(),
                b == self@.board,
                b == grid(self.filled_area),
                s == self@.current.shape,
                s == grid(self.current_block.pattern),
                x < self@.game_width,
                landing(b, s, x0 as int, y as int) == landing(b, s, x as int, y as int),
            decreases self@.game_width - x,
        {
            proof {
                lemma_placeable_in_bounds(
                    b,
                    s,
                    x + 1,
                    y as int,
                    self@.game_width as int,
                    self@.game_height as int,
                );
            }
            x += 1;
        }
        (x as i32, y as i32)
    }

    /// Locks the current piece in: writes it into the board, clears the full
    /// rows among those it spans, and counts the points and the round.
    fn lock_in(&mut self)
        requires
            old(self)@.well_sized(),
            old(self)@.current_fits(),
            old(self)@.has_room(),
        ensures
            final(self)@ == old(self)@.locked(),
            final(self)@.well_sized(),
    {
        let (x, y) = self.origin();
        let ghost start = self@;
        commit(&mut self.filled_area, &self.current_block.pattern, x, y, self.current_block.color);
        proof {
            lemma_committed_is_board(
                start.board,
                start.current.shape,
                x as int,
                y as int,
                start.current.color,
                start.game_width as int,
                start.game_height as int,
            );
            lemma_cleared_is_board(
                start.board_with_current(),
                x as int,
                x + depth(start.current.shape),
                start.game_width as int,
                start.game_height as int,
            );
        }
        let lines = clear_lines(
            &mut self.filled_area,
            x,
            x + self.current_block.pattern.len(),
            self.game_height,
        );
        self.points += score_for(lines);
        self.rounds += 1;
    }

    /// Finds the lateral coordinate at which the next piece enters.
    fn spawn_row(&self) -> (row: usize)
        requires
            self@.well_sized(),
        ensures
            row == self@.spawn_row(),
            row + breadth(self@.next.shape) <= self@.game_height,
    {
        let last = self.game_height - self.next_block.pattern[0].len();
        let y = self.current_block.pos.1 as usize;
        if y <= last {
            y
        } else {
            last
        }
    }

    /// Lets the next piece enter at `row` and stages `fresh`.
    fn spawn(&mut self, fresh: TetrisBlock, row: usize)
        requires
            old(self)@.well_sized(),
            row == old(self)@.spawn_row(),
            !old(self)@.spawn_blocked(),
            fresh@.compact(),
        ensures
            final(self)@ == old(self)@.spawned(fresh@),
            final(self)@.well_sized(),
            final(self)@.current_fits(),
    {
        let mut fresh = fresh;
        fresh.pos = (
            self.next_width / 2 - fresh.pattern.len() as i32 / 2,
            self.next_height / 2 - fresh.pattern[0].len() as i32 / 2,
        );
        std::mem::swap(&mut self.next_block, &mut fresh);
        self.current_block = fresh;
        self.current_block.pos = (0, row as i32);
        proof {
            lemma_placeable_in_bounds(
                self@.board,
                self@.current.shape,
                0,
                row as int,
                self@.game_width as int,
                self@.game_height as int,
            );
        }
    }

    /// Finishes a round with `fresh` as the piece to stage: the current piece
    /// is locked in; then the game is over if the next piece cannot enter, and
    /// goes on with it otherwise.
    pub fn finish_round_with(&mut self, fresh: TetrisBlock)
        requires
            old(self).wf(),
            old(self)@.game_state != GameState::Finished,
            old(self)@.has_room(),
            fresh@.compact(),
        ensures
            final(self).wf(),
            final(self)@ == old(self)@.round_finished(fresh@),
    {
        self.lock_in();
        let row = self.spawn_row();
        if can_place(&self.filled_area, &self.next_block.pattern, 0, row) {
            self.spawn(fresh, row);
        } else {
            self.game_state = GameState::Finished;
        }
    }

    /// Finishes a round: the current piece is locked in; then the game is over
    /// if the next piece cannot enter, and goes on with it and a newly drawn
    /// next piece otherwise.
    pub fn finish_round(&mut self)
        requires
            old(self).wf(),
            old(self)@.game_state != GameState::Finished,
            old(self)@.has_room(),
        ensures
            final(self).wf(),
            old(self)@.finishes_round_to(final(self)@),
    {
        self.lock_in();
        let row = self.spawn_row();
        if can_place(&self.filled_area, &self.next_block.pattern, 0, row) {
            let fresh = TetrisBlock::new_random();
            proof {
                lemma_fresh_compact(fresh@);
            }
            self.spawn(fresh, row);
        } else {
            self.game_state = GameState::Finished;
        }
    }

    /// Moves the current piece one cell along the falling axis, after resuming
    /// a paused game. A piece that cannot go on is locked in where it is. A
    /// finished game is left alone.
    pub fn move_forward(&mut self)
        requires
            old(self).wf(),
            old(self)@.can_take(Command::MoveForward),
        ensures
            final(self).wf(),
            old(self)@.moves_forward_to(final(self)@),
    {
        if self.game_state == GameState::Finished {
            return ;
        }
        self.wake();
        let (x, y) = self.origin();
        if can_place(&self.filled_area, &self.current_block.pattern, x + 1, y) {
            self.current_block.pos.0 += 1;
            proof {
                lemma_placeable_in_bounds(
                    self@.board,
                    self@.current.shape,
                    x + 1,
                    y as int,
                    self@.game_width as int,
                    self@.game_height as int,
                );
            }
        } else {
            self.finish_round();
        }
    }

    /// Drops the current piece, after resuming a paused game: the piece goes
    /// to where it comes to rest and is locked in there. A finished game is
    /// left alone.
    pub fn move_till_end(&mut self)
        requires
            old(self).wf(),
            old(self)@.can_take(Command::Drop),
        ensures
            final(self).wf(),
            old(self)@.drops_to(final(self)@),
    {
        if self.game_state == GameState::Finished {
            return ;
        }
        self.wake();
        let end = self.get_end_move_pos();
        proof {
            let v = self@;
            lemma_landing(v.board, v.current.shape, v.current.pos.0, v.current.pos.1);
            if v.landing_row() > v.current.pos.0 {
                lemma_placeable_in_bounds(
                    v.board,
                    v.current.shape,
                    v.landing_row(),
                    v.current.pos.1,
                    v.game_width as int,
                    v.game_height as int,
                );
            }
        }
        self.current_block.pos.0 = end.0;
        self.finish_round();
    }

    /// Carries out a command.
    pub fn apply(&mut self, command: Command)
        requires
            old(self).wf(),
            old(self)@.can_take(command),
        ensures
            final(self).wf(),
            old(self)@.applies_to(command, final(self)@),
    {
        match command {
            Command::Rotate => self.rotate90(),
            Command::MoveForward => self.move_forward(),
            Command::ShiftUp => self.move_side(MoveDirection::Up),
            Command::ShiftDown => self.move_side(MoveDirection::Down),
            Command::Drop => self.move_till_end(),
            Command::Pause => self.pause(),
            Command::Quit => self.exit(),
        }
    }

    /// Carries out the command bound to a key press. A key press that no
    /// command is bound to changes nothing.
    pub fn handle_key_event(&mut self, key_event: KeyEvent)
        requires
            old(self).wf(),
            key_event.bound() matches Some(command) ==> old(self)@.can_take(command),
        ensures
            final(self).wf(),
            match key_event.bound() {
                Some(command) => old(self)@.applies_to(command, final(self)@),
                None => final(self)@ == old(self)@,
            },
    {
        match key_event.command() {
            Some(command) => self.apply(command),
            None => {},
        }
    }

    /// Takes a step of gravity and tells the timer what to do next.
    pub fn gravity_tick(&mut self) -> (tick: Tick)
        requires
            old(self).wf(),
            old(self)@.can_tick(),
        ensures
            final(self).wf(),
            old(self)@.ticks_to(tick, final(self)@),
    {
        if self.exit {
            return Tick::Stop;
        }
        match self.game_state {
            GameState::Finished => Tick::Stop,
            GameState::Playing => {
                self.move_forward();
                Tick::Redraw
            },
            GameState::Paused => Tick::Idle,
        }
    }

    /// Tells how gravity sleeps between two steps: in equal slices of at most
    /// a tenth of a second, so that a request to leave is seen soon.
    pub fn sleep_plan(&self) -> (plan: SleepPlan)
        requires
            self.wf(),
        ensures
            plan.parts == slices(self@.move_interval_ms),
            plan.slice_nanos == slice_nanos(self@.move_interval_ms),
            plan.parts >= 1,
    {
        let parts = (self.move_interval_ms + (SLICE_MS - 1)) / SLICE_MS;
        SleepPlan { parts: parts as u32, slice_nanos: self.move_interval_ms * 1_000_000 / parts }
    }

    /// Notes that a frame was drawn (`fits`) or that the screen was too small
    /// for one: a drawn frame flips the cursor's switch, and a screen that is
    /// too small pauses a game that is being played.
    pub fn begin_frame(&mut self, fits: bool)
        ensures
            final(self)@ == old(self)@.framed(fits),
            old(self).wf() ==> final(self).wf(),
    {
        if fits {
            self.cursor_state = !self.cursor_state;
        } else if self.game_state == GameState::Playing {
            self.game_state = GameState::Paused;
        }
    }

    /// The state of play.
    pub fn game_state(&self) -> (state: GameState)
        ensures
            state == self@.game_state,
    {
        self.game_state
    }

    /// The points scored so far.
    pub fn points(&self) -> (points: u64)
        ensures
            points == self@.points,
    {
        self.points
    }

    /// The number of pieces locked in so far.
    pub fn rounds(&self) -> (rounds: u64)
        ensures
            rounds == self@.rounds,
    {
        self.rounds
    }

    /// Whether the player has asked to leave.
    pub fn exit_requested(&self) -> (exit: bool)
        ensures
            exit == self@.exit,
    {
        self.exit
    }

    /// The cursor's switch, which every drawn frame flips.
    pub fn cursor_state(&self) -> (on: bool)
        ensures
            on == self@.cursor_state,
    {
        self.cursor_state
    }

    /// Where the parts of the game stand on the screen.
    pub fn layout(&self) -> (layout: Layout)
        ensures
            layout == self@.layout,
    {
        self.layout
    }

    /// The number of rows of the board.
    pub fn game_width(&self) -> (width: usize)
        ensures
            width == self@.game_width,
    {
        self.game_width
    }

    /// The number of cells in a row of the board.
    pub fn game_height(&self) -> (height: usize)
        ensures
            height == self@.game_height,
    {
        self.game_height
    }

    /// The extent of the preview along the falling axis.
    pub fn next_width(&self) -> (width: i32)
        ensures
            width == self@.next_width,
    {
        self.next_width
    }

    /// The extent of the preview along the lateral axis.
    pub fn next_height(&self) -> (height: i32)
        ensures
            height == self@.next_height,
    {
        self.next_height
    }

    /// The settled cells.
    pub fn filled_area(&self) -> (cells: &Vec<Vec<Color>>)
        ensures
            grid(*cells) == self@.board,
    {
        &self.filled_area
    }

    /// The falling piece.
    pub fn current_block(&self) -> (piece: &TetrisBlock)
        ensures
            piece@ == self@.current,
    {
        &self.current_block
    }

    /// The staged piece.
    pub fn next_block(&self) -> (piece: &TetrisBlock)
        ensures
            piece@ == self@.next,
    {
        &self.next_block
    }

    /// The milliseconds between two steps of gravity.
    pub fn move_interval_ms(&self) -> (interval: u64)
        ensures
            interval == self@.move_interval_ms,
    {
        self.move_interval_ms
    }

    /// Tells whether the counters can take one more lock-in without leaving
    /// `u64`.
    pub fn has_room(&self) -> (r: bool)
        ensures
            r == self@.has_room(),
    {
        self.rounds < u64::MAX && self.points <= u64::MAX - MAX_SCORE
    }

    /// Tells whether the command can be carried out without taking the
    /// counters out of `u64`: whether it locks no piece in, or the counters
    /// have room.
    pub fn can_take(&self, command: Command) -> (r: bool)
        requires
            self.wf(),
        ensures
            r == self@.can_take(command),
    {
        if self.game_state == GameState::Finished || self.has_room() {
            return true;
        }
        match command {
            Command::Drop => false,
            Command::MoveForward => {
                let (x, y) = self.origin();
                can_place(&self.filled_area, &self.current_block.pattern, x + 1, y)
            },
            _ => true,
        }
    }

    /// Tells whether a step of gravity can be taken without taking the
    /// counters out of `u64`.
    pub fn can_tick(&self) -> (r: bool)
        requires
            self.wf(),
        ensures
            r == self@.can_tick(),
    {
        self.exit || self.game_state != GameState::Playing || self.can_take(Command::MoveForward)
    }
}

} // verus!
