use crate::color::Color;
use crate::shape::{breadth, column_used, depth, grid, is_rect, is_tight, row_used, Shape};
use vstd::prelude::*;

verus! {

/// The settled cells: `b[x][y]` is the colour at `x` along the falling axis and
/// `y` along the lateral one. `b[x]` is one row, the unit that a line clear
/// removes.
pub type Cells = Seq<Seq<Color>>;

/// A board of the given extents: `width` rows of `height` cells.
pub open spec fn is_board(b: Cells, width: int, height: int) -> bool {
    &&& b.len() == width
    &&& forall|x: int| 0 <= x < width ==> (#[trigger] b[x]).len() == height
}

/// The cell `(x, y)` lies on the board and is empty.
pub open spec fn free_at(b: Cells, x: int, y: int) -> bool {
    0 <= x < b.len() && 0 <= y < b[x].len() && !b[x][y].occupied()
}

/// A shape with its origin at `(x, y)` covers the cell `(u, v)`.
pub open spec fn covers(s: Shape, x: int, y: int, u: int, v: int) -> bool {
    0 <= u - x < s.len() && 0 <= v - y < s[u - x].len() && s[u - x][v - y]
}

/// Every filled cell of the shape, with its origin at `(x, y)`, lands on a
/// cell of the board that is empty.
pub open spec fn placeable(b: Cells, s: Shape, x: int, y: int) -> bool {
    forall|i: int, j: int|
        0 <= i < s.len() && 0 <= j < s[i].len() && #[trigger] s[i][j] ==> free_at(b, x + i, y + j)
}

/// Every filled cell of the shape, with its origin at `(x, y)`, lands on a
/// cell of the board, empty or not.
pub open spec fn on_board(b: Cells, s: Shape, x: int, y: int) -> bool {
    forall|i: int, j: int|
        0 <= i < s.len() && 0 <= j < s[i].len() && #[trigger] s[i][j] ==> 0 <= x + i < b.len() && 0
            <= y + j < b[x + i].len()
}

/// The board after the shape at `(x, y)` has been written into it in `color`.
pub open spec fn committed(b: Cells, s: Shape, x: int, y: int, color: Color) -> Cells {
    Seq::new(
        b.len(),
        |u: int|
            Seq::new(
                b[u].len(),
                |v: int|
                    if covers(s, x, y, u, v) {
                        color
                    } else {
                        b[u][v]
                    },
            ),
    )
}

/// Every cell of the row is occupied.
pub open spec fn row_full(row: Seq<Color>) -> bool {
    forall|v: int| 0 <= v < row.len() ==> (#[trigger] row[v]).occupied()
}

/// A row of `height` empty cells.
pub open spec fn blank_row(height: int) -> Seq<Color> {
    Seq::new(height as nat, |v: int| Color::Black)
}

/// `n` empty rows.
pub open spec fn blank_rows(n: int, height: int) -> Cells {
    Seq::new(n as nat, |u: int| blank_row(height))
}

/// The rows that are not full, in their order.
pub open spec fn kept_rows(rows: Cells) -> Cells {
    rows.filter(|row: Seq<Color>| !row_full(row))
}

/// Number of full rows among the rows `from..to`.
pub open spec fn full_rows(b: Cells, from: int, to: int) -> nat {
    b.subrange(from, to).filter(|row: Seq<Color>| row_full(row)).len()
}

/// The board after the full rows among `from..to` have been cleared: they
/// leave, the rows before them move up in index by as many places, keeping
/// their order, and as many empty rows enter at index 0. Rows from `to` on
/// stay where they are.
pub open spec fn cleared(b: Cells, from: int, to: int, height: int) -> Cells {
    blank_rows(full_rows(b, from, to) as int, height) + b.subrange(0, from) + kept_rows(
        b.subrange(from, to),
    ) + b.subrange(to, b.len() as int)
}

/// Points for clearing `lines` rows with one piece.
pub open spec fn line_score(lines: nat) -> nat {
    if lines == 1 {
        40
    } else if lines == 2 {
        100
    } else if lines == 3 {
        300
    } else if lines == 4 {
        1200
    } else {
        0
    }
}

/// Most points that one piece can bring.
pub const MAX_SCORE: u64 = 1200;

/// Computes the points for clearing `lines` rows with one piece.
pub fn score_for(lines: usize) -> (points: u64)
    ensures
        points == line_score(lines as nat),
        points <= MAX_SCORE,
{
    if lines == 1 {
        40
    } else if lines == 2 {
        100
    } else if lines == 3 {
        300
    } else if lines == 4 {
        1200
    } else {
        0
    }
}

/// Tells whether the cell `(x, y)` lies on the board and is empty.
pub fn cell_free(board: &Vec<Vec<Color>>, x: usize, y: usize) -> (r: bool)
    ensures
        r == free_at(grid(*board), x as int, y as int),
{
    x < board.len() && y < board[x].len() && !board[x][y].is_occupied()
}

/// Tells whether `pattern`, with its origin at `(x, y)`, lands on empty cells
/// of the board only.
pub fn can_place(board: &Vec<Vec<Color>>, pattern: &Vec<Vec<bool>>, x: usize, y: usize) -> (r:
    bool)
    ensures
        r == placeable(grid(*board), grid(*pattern), x as int, y as int),
{
    let ghost b = grid(*board);
    let ghost s = grid(*pattern);
    let mut i: usize = 0;
    while i < pattern.len()
        invariant
            b == grid(*board),
            s == grid(*pattern),
            i <= pattern.len(),
            forall|a: int, c: int|
                0 <= a < i && 0 <= c < s[a].len() && #[trigger] s[a][c] ==> free_at(
                    b,
                    x + a,
                    y + c,
                ),
        decreases pattern.len() - i,
    {
        let mut j: usize = 0;
        while j < pattern[i].len()
            invariant
                b == grid(*board),
                s == grid(*pattern),
                i < pattern.len(),
                j <= s[i as int].len(),
                forall|a: int, c: int|
                    0 <= a < i && 0 <= c < s[a].len() && #[trigger] s[a][c] ==> free_at(
                        b,
                        x + a,
                        y + c,
                    ),
                forall|c: int| 0 <= c < j && #[trigger] s[i as int][c] ==> free_at(b, x + i, y + c),
            decreases s[i as int].len() - j,
        {
            if pattern[i][j] {
                let free = match (x.checked_add(i), y.checked_add(j)) {
                    (Some(u), Some(v)) => cell_free(board, u, v),
                    _ => false,
                };
                if !free {
                    assert(!free_at(b, x + i, y + j)) by {
                        if x + i < b.len() {
                            assert(b.len() == board.len());
                            assert(b[x + i].len() == board[x + i].len());
                        }
                    }
                    assert(s[i as int][j as int]);
                    return false;
                }
            }
            j += 1;
        }
        i += 1;
    }
    true
}

/// Tells whether every cell of the row is occupied.
pub fn row_is_full(row: &Vec<Color>) -> (r: bool)
    ensures
        r == row_full(row@),
{
    let mut v: usize = 0;
    while v < row.len()
        invariant
            v <= row.len(),
            forall|a: int| 0 <= a < v ==> (#[trigger] row@[a]).occupied(),
        decreases row.len() - v,
    {
        if !row[v].is_occupied() {
            return false;
        }
        v += 1;
    }
    true
}

/// Makes a row of `height` empty cells.
pub fn new_row(height: usize) -> (row: Vec<Color>)
    ensures
        row@ == blank_row(height as int),
{
    let mut row: Vec<Color> = Vec::new();
    let mut v: usize = 0;
    while v < height
        invariant
            v <= height,
            row@ == blank_row(v as int),
        decreases height - v,
    {
        row.push(Color::Black);
        v += 1;
        assert(row@ =~= blank_row(v as int));
    }
    row
}

/// Makes an empty board of `width` rows of `height` cells.
pub fn new_board(width: usize, height: usize) -> (board: Vec<Vec<Color>>)
    ensures
        grid(board) == blank_rows(width as int, height as int),
{
    let mut board: Vec<Vec<Color>> = Vec::new();
    let mut u: usize = 0;
    while u < width
        invariant
            u <= width,
            grid(board) == blank_rows(u as int, height as int),
        decreases width - u,
    {
        let ghost prev = grid(board);
        board.push(new_row(height));
        u += 1;
        assert(grid(board) =~= prev.push(blank_row(height as int)));
        assert(grid(board) =~= blank_rows(u as int, height as int));
    }
    board
}

/// Clears the full rows among the rows `from..to` of the board and tells how
/// many they were.
pub fn clear_lines(board: &mut Vec<Vec<Color>>, from: usize, to: usize, height: usize) -> (lines:
    usize)
    requires
        from <= to <= old(board).len(),
    ensures
        lines == full_rows(grid(*old(board)), from as int, to as int),
        lines <= to - from,
        grid(*final(board)) == cleared(
            grid(*old(board)),
            from as int,
            to as int,
            height as int,
        ),
{
    let ghost before = grid(*board);
    let ghost full = |row: Seq<Color>| row_full(row);
    let ghost kept = |row: Seq<Color>| !row_full(row);
    let mut lines: usize = 0;
    let mut r: usize = from;
    assert(before.subrange(from as int, from as int) =~= Seq::<Seq<Color>>::empty());
    assert(before.subrange(0, from as int) + before.subrange(from as int, before.len() as int)
        =~= before);
    proof {
        reveal(Seq::filter);
        assert(grid(*board) =~= blank_rows(0, height as int) + before.subrange(0, from as int)
            + before.subrange(from as int, from as int).filter(kept) + before.subrange(
            from as int,
            before.len() as int,
        ));
    }
    while r < to
        invariant
            from <= r <= to <= before.len(),
            full == |row: Seq<Color>| row_full(row),
            kept == |row: Seq<Color>| !row_full(row),
            board.len() == before.len(),
            lines == before.subrange(from as int, r as int).filter(full).len(),
            lines <= r - from,
            grid(*board) == blank_rows(lines as int, height as int) + before.subrange(
                0,
                from as int,
            ) + before.subrange(from as int, r as int).filter(kept) + before.subrange(
                r as int,
                before.len() as int,
            ),
        decreases to - r,
    {
        let ghost seen = before.subrange(from as int, r as int);
        let ghost next = before.subrange(from as int, r + 1);
        let ghost now = grid(*board);
        proof {
            reveal(Seq::filter);
            assert(next.drop_last() =~= seen);
            assert(next.last() == before[r as int]);
            seen.lemma_filter_len(kept);
            seen.lemma_filter_len(full);
            assert(seen.filter(kept).len() + seen.filter(full).len() == seen.len()) by {
                lemma_filter_split(seen);
            }
            assert(seen.filter(kept).len() == r - from - lines);
            assert(now[r as int] == before[r as int]);
        }
        if row_is_full(&board[r]) {
            board.remove(r);
            board.insert(0, new_row(height));
            lines += 1;
            proof {
                let after = grid(*board);
                assert(after =~= now.remove(r as int).insert(0, blank_row(height as int)));
                assert(next.filter(kept) == seen.filter(kept));
                let goal = blank_rows(lines as int, height as int) + before.subrange(
                    0,
                    from as int,
                ) + next.filter(kept) + before.subrange(r + 1, before.len() as int);
                assert(after.len() == goal.len());
                assert forall|k: int| 0 <= k < after.len() implies after[k] == goal[k] by {
                    if k == 0 {
                    } else if k <= r {
                        assert(after[k] == now[k - 1]);
                    } else {
                        assert(after[k] == now[k]);
                    }
                }
                assert(after =~= goal);
            }
        } else {
            assert(grid(*board) =~= blank_rows(lines as int, height as int) + before.subrange(
                0,
                from as int,
            ) + next.filter(kept) + before.subrange(r + 1, before.len() as int));
        }
        r += 1;
    }
    lines
}

/// Of the rows of a board, those that are full and those that are not add up
/// to all of them.
pub proof fn lemma_filter_split(rows: Cells)
    ensures
        kept_rows(rows).len() + rows.filter(|row: Seq<Color>| row_full(row)).len() == rows.len(),
    decreases rows.len(),
{
    reveal(Seq::filter);
    if rows.len() > 0 {
        lemma_filter_split(rows.drop_last());
    }
}

/// A tight rectangle that lands on empty cells of a board lies on the board
/// with all its rows and columns.
pub proof fn lemma_placeable_in_bounds(b: Cells, s: Shape, x: int, y: int, width: int, height: int)
    requires
        is_board(b, width, height),
        is_rect(s),
        is_tight(s),
        placeable(b, s, x, y),
    ensures
        0 <= x,
        0 <= y,
        x + depth(s) <= width,
        y + breadth(s) <= height,
{
    let d = depth(s);
    let w = breadth(s);
    assert(row_used(s, 0));
    let j0 = choose|j: int| 0 <= j < s[0].len() && #[trigger] s[0][j];
    assert(free_at(b, x + 0, y + j0));
    assert(row_used(s, d - 1));
    let j1 = choose|j: int| 0 <= j < s[d - 1].len() && #[trigger] s[d - 1][j];
    assert(free_at(b, x + (d - 1), y + j1));
    assert(column_used(s, 0));
    let i0 = choose|i: int| 0 <= i < s.len() && #[trigger] s[i][0];
    assert(s[i0].len() == w);
    assert(free_at(b, x + i0, y + 0));
    assert(column_used(s, w - 1));
    let i1 = choose|i: int| 0 <= i < s.len() && #[trigger] s[i][w - 1];
    assert(s[i1].len() == w);
    assert(free_at(b, x + i1, y + (w - 1)));
}

/// Writing a shape into a board leaves its extents as they are.
pub proof fn lemma_committed_is_board(
    b: Cells,
    s: Shape,
    x: int,
    y: int,
    color: Color,
    width: int,
    height: int,
)
    requires
        is_board(b, width, height),
    ensures
        is_board(committed(b, s, x, y, color), width, height),
{
}

/// The rows that a filter keeps are rows of the board it was given.
pub proof fn lemma_kept_rows(rows: Cells, height: int)
    requires
        forall|u: int| 0 <= u < rows.len() ==> (#[trigger] rows[u]).len() == height,
    ensures
        forall|u: int| 0 <= u < kept_rows(rows).len() ==> (#[trigger] kept_rows(rows)[u]).len() == height,
    decreases rows.len(),
{
    reveal(Seq::filter);
    if rows.len() > 0 {
        let rest = kept_rows(rows.drop_last());
        lemma_kept_rows(rows.drop_last(), height);
        assert forall|u: int| 0 <= u < kept_rows(rows).len() implies (#[trigger] kept_rows(
            rows,
        )[u]).len() == height by {
            if u < rest.len() {
                assert(kept_rows(rows)[u] == rest[u]);
            } else {
                assert(kept_rows(rows)[u] == rows.last());
            }
        }
    }
}

/// Clearing rows leaves the extents of a board as they are.
pub proof fn lemma_cleared_is_board(b: Cells, from: int, to: int, width: int, height: int)
    requires
        is_board(b, width, height),
        0 <= from <= to <= width,
        0 <= height,
    ensures
        is_board(cleared(b, from, to, height), width, height),
{
    let span = b.subrange(from, to);
    let kept = kept_rows(span);
    lemma_filter_split(span);
    lemma_kept_rows(span, height);
    let c = cleared(b, from, to, height);
    let n = full_rows(b, from, to) as int;
    assert(c.len() == width);
    assert forall|u: int| 0 <= u < width implies (#[trigger] c[u]).len() == height by {
        if u < n {
            assert(c[u] == blank_row(height));
        } else if u < n + from {
            assert(c[u] == b[u - n]);
        } else if u < n + from + kept.len() {
            assert(c[u] == kept[u - n - from]);
        } else {
            assert(c[u] == b[u]);
        }
    }
}

/// Writes the filled cells of `pattern`, with its origin at `(x, y)`, into the
/// board in `color`.
pub fn commit(
    board: &mut Vec<Vec<Color>>,
    pattern: &Vec<Vec<bool>>,
    x: usize,
    y: usize,
    color: Color,
)
    requires
        on_board(grid(*old(board)), grid(*pattern), x as int, y as int),
    ensures
        grid(*final(board)) == committed(
            grid(*old(board)),
            grid(*pattern),
            x as int,
            y as int,
            color,
        ),
{
    let ghost before = grid(*board);
    let ghost s = grid(*pattern);
    let mut i: usize = 0;
    while i < pattern.len()
        invariant
            s == grid(*pattern),
            on_board(before, s, x as int, y as int),
            i <= pattern.len(),
            grid(*board).len() == before.len(),
            forall|u: int| 0 <= u < before.len() ==> (#[trigger] grid(*board)[u]).len() == before[u].len(),
            forall|u: int, v: int|
                0 <= u < before.len() && 0 <= v < before[u].len() ==> #[trigger] grid(*board)[u][v] == (
                if covers(s, x as int, y as int, u, v) && u - x < i {
                    color
                } else {
                    before[u][v]
                }),
        decreases pattern.len() - i,
    {
        let mut j: usize = 0;
        while j < pattern[i].len()
            invariant
                s == grid(*pattern),
                on_board(before, s, x as int, y as int),
                i < pattern.len(),
                j <= s[i as int].len(),
                grid(*board).len() == before.len(),
                forall|u: int| 0 <= u < before.len() ==> (#[trigger] grid(*board)[u]).len() == before[u].len(),
                forall|u: int, v: int|
                    0 <= u < before.len() && 0 <= v < before[u].len() ==> #[trigger] grid(*board)[u][v] == (
                    if covers(s, x as int, y as int, u, v) && (u - x < i || u - x == i && v - y < j) {
                        color
                    } else {
                        before[u][v]
                    }),
            decreases s[i as int].len() - j,
        {
            if pattern[i][j] {
                assert(s[i as int][j as int]);
                assert(x + i < board.len() && y + j < board[x + i].len()) by {
                    assert(grid(*board)[x + i].len() == before[x + i].len());
                }
                let ghost prev = grid(*board);
                board[x + i][y + j] = color;
                assert(grid(*board) =~~= prev.update(
                    x + i,
                    prev[x + i].update(y + j, color),
                ));
            }
            j += 1;
        }
        i += 1;
    }
    assert(grid(*board) =~~= committed(before, s, x as int, y as int, color));
}

} // verus!
