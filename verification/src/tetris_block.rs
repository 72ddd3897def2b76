use crate::color::{Color, PALETTE_FIRST, PALETTE_LEN};
use crate::rng::gen_range;
use crate::shape::{
    breadth, clamped_breadth, clamped_depth, column_used, depth, filled, grid, is_rect, is_tight,
    is_uniform, lemma_rotated_rect, lemma_rotated_tight, rotated, row_used, turned, Shape,
};
use vstd::prelude::*;

verus! {

/// A piece: an occupancy pattern, the colour it carries and where its origin
/// stands. `pos.0` counts along the falling axis, `pos.1` along the lateral one.
#[derive(Debug)]
pub struct TetrisBlock {
    pub color: Color,
    pub pos: (i32, i32),
    pub pattern: Vec<Vec<bool>>,
}

/// What a piece is, mathematically.
pub struct BlockView {
    pub color: Color,
    pub pos: (int, int),
    pub shape: Shape,
}

impl View for TetrisBlock {
    type V = BlockView;

    open spec fn view(&self) -> BlockView {
        BlockView {
            color: self.color,
            pos: (self.pos.0 as int, self.pos.1 as int),
            shape: grid(self.pattern),
        }
    }
}

/// Number of kinds of piece.
pub const KINDS: u32 = 7;

/// Largest extent that a piece of the catalogue has along either axis.
pub const MAX_EXTENT: usize = 4;

/// The seven canonical shapes, before any turn. Zero, like every number that
/// names no other shape, stands for the bar.
pub open spec fn base_shape(kind: int) -> Shape {
    if kind == 1 {
        seq![seq![true, true], seq![true, true]]
    } else if kind == 2 {
        seq![seq![true, true, true], seq![false, true, false]]
    } else if kind == 3 {
        seq![seq![false, true, true], seq![true, true, false]]
    } else if kind == 4 {
        seq![seq![true, true, false], seq![false, true, true]]
    } else if kind == 5 {
        seq![seq![true, true, true], seq![false, false, true]]
    } else if kind == 6 {
        seq![seq![false, false, true], seq![true, true, true]]
    } else {
        seq![seq![true, true, true, true]]
    }
}

/// The shapes that a new piece can have: a canonical shape after zero to three
/// quarter turns.
pub open spec fn is_catalogue(s: Shape) -> bool {
    exists|kind: int, turns: nat|
        0 <= kind < KINDS && turns < 4 && s == #[trigger] turned(base_shape(kind), turns)
}

impl BlockView {
    /// A piece is sound when its shape is a tight rectangle and its colour
    /// marks a cell as occupied.
    pub open spec fn sound(self) -> bool {
        &&& is_rect(self.shape)
        &&& is_tight(self.shape)
        &&& self.color.occupied()
    }

    /// A piece is well formed when it is sound and its origin has no negative
    /// coordinate.
    pub open spec fn well_formed(self) -> bool {
        &&& self.sound()
        &&& self.pos.0 >= 0
        &&& self.pos.1 >= 0
    }

    /// What holds of every newly drawn piece: it stands at the origin, has a
    /// colour of the palette and a shape of the catalogue.
    pub open spec fn is_fresh(self) -> bool {
        &&& self.pos == (0int, 0int)
        &&& self.color.in_palette()
        &&& is_catalogue(self.shape)
    }

    /// A piece that any board of four by four cells or more has room for.
    pub open spec fn compact(self) -> bool {
        &&& self.sound()
        &&& depth(self.shape) <= MAX_EXTENT
        &&& breadth(self.shape) <= MAX_EXTENT
    }

    /// The same piece at another place.
    pub open spec fn at(self, x: int, y: int) -> BlockView {
        BlockView { pos: (x, y), ..self }
    }
}

/// Every canonical shape is a tight rectangle that fits in four by four cells.
pub proof fn lemma_base_shape(kind: int)
    ensures
        is_rect(base_shape(kind)),
        is_tight(base_shape(kind)),
        depth(base_shape(kind)) <= MAX_EXTENT,
        breadth(base_shape(kind)) <= MAX_EXTENT,
{
    let s = base_shape(kind);
    if kind == 1 {
        assert(s[0][0] && s[1][1]);
    } else if kind == 2 {
        assert(s[0][0] && s[1][1] && s[0][2]);
    } else if kind == 3 {
        assert(s[0][1] && s[1][0] && s[0][2]);
    } else if kind == 4 {
        assert(s[0][0] && s[1][1] && s[1][2]);
    } else if kind == 5 {
        assert(s[0][0] && s[0][1] && s[1][2]);
    } else if kind == 6 {
        assert(s[1][0] && s[1][1] && s[0][2]);
    } else {
        assert(s[0][0] && s[0][1] && s[0][2] && s[0][3]);
    }
    assert forall|i: int| 0 <= i < s.len() implies #[trigger] row_used(s, i) by {
        if i == 0 {
            assert(s[0][0] || s[0][1] || s[0][2]);
        } else {
            assert(s[1][0] || s[1][1] || s[1][2]);
        }
    }
    assert forall|j: int| 0 <= j < s[0].len() implies #[trigger] column_used(s, j) by {
        assert(s[0][j] || s[1][j]);
    }
}

/// Turning a tight rectangle any number of times leaves a tight rectangle with
/// the same two extents, in one order or the other.
pub proof fn lemma_turned_shape(s: Shape, n: nat)
    requires
        is_rect(s),
        is_tight(s),
    ensures
        is_rect(turned(s, n)),
        is_tight(turned(s, n)),
        depth(turned(s, n)) == depth(s) && breadth(turned(s, n)) == breadth(s) || depth(
            turned(s, n),
        ) == breadth(s) && breadth(turned(s, n)) == depth(s),
    decreases n,
{
    if n > 0 {
        let t = turned(s, (n - 1) as nat);
        lemma_turned_shape(s, (n - 1) as nat);
        lemma_rotated_rect(t);
        lemma_rotated_tight(t);
    }
}

/// Every shape of the catalogue is a tight rectangle that fits in four by four
/// cells.
pub proof fn lemma_catalogue_shape(s: Shape)
    requires
        is_catalogue(s),
    ensures
        is_rect(s),
        is_tight(s),
        depth(s) <= MAX_EXTENT,
        breadth(s) <= MAX_EXTENT,
{
    let (kind, turns) = choose|kind: int, turns: nat|
        0 <= kind < KINDS && turns < 4 && s == #[trigger] turned(base_shape(kind), turns);
    lemma_base_shape(kind);
    lemma_turned_shape(base_shape(kind), turns);
}

/// There is a piece that can be drawn: the bar, unturned, in the first colour
/// of the palette.
pub proof fn some_fresh() -> (piece: BlockView)
    ensures
        piece.is_fresh(),
{
    let piece = BlockView {
        color: Color::Indexed(PALETTE_FIRST),
        pos: (0, 0),
        shape: turned(base_shape(0), 0),
    };
    assert(piece.shape == turned(base_shape(0), 0nat));
    piece
}

/// Every newly drawn piece is compact.
pub proof fn lemma_fresh_compact(piece: BlockView)
    requires
        piece.is_fresh(),
    ensures
        piece.compact(),
        piece.well_formed(),
{
    lemma_catalogue_shape(piece.shape);
}

impl Clone for TetrisBlock {
    /// The copy is the same piece: colour, position and every cell.
    fn clone(&self) -> (copy: Self)
        ensures
            copy@ == self@,
    {
        let mut pattern: Vec<Vec<bool>> = Vec::new();
        let mut i: usize = 0;
        while i < self.pattern.len()
            invariant
                i <= self.pattern.len(),
                pattern.len() == i,
                forall|a: int| 0 <= a < i ==> (#[trigger] pattern@[a])@ == self.pattern@[a]@,
            decreases self.pattern.len() - i,
        {
            let mut row: Vec<bool> = Vec::new();
            let mut j: usize = 0;
            while j < self.pattern[i].len()
                invariant
                    i < self.pattern.len(),
                    j <= self.pattern@[i as int].len(),
                    row.len() == j,
                    forall|b: int| 0 <= b < j ==> #[trigger] row@[b] == self.pattern@[i as int]@[b],
                decreases self.pattern@[i as int].len() - j,
            {
                row.push(self.pattern[i][j]);
                j += 1;
            }
            assert(row@ =~= self.pattern@[i as int]@);
            pattern.push(row);
            i += 1;
        }
        assert(grid(pattern) =~= grid(self.pattern));
        TetrisBlock { color: self.color, pos: self.pos, pattern }
    }
}

/// The canonical pattern of a kind of piece.
fn base_pattern(kind: u32) -> (pattern: Vec<Vec<bool>>)
    ensures
        grid(pattern) == base_shape(kind as int),
{
    let pattern = if kind == 1 {
        vec![vec![true, true], vec![true, true]]
    } else if kind == 2 {
        vec![vec![true, true, true], vec![false, true, false]]
    } else if kind == 3 {
        vec![vec![false, true, true], vec![true, true, false]]
    } else if kind == 4 {
        vec![vec![true, true, false], vec![false, true, true]]
    } else if kind == 5 {
        vec![vec![true, true, true], vec![false, false, true]]
    } else if kind == 6 {
        vec![vec![false, false, true], vec![true, true, true]]
    } else {
        vec![vec![true, true, true, true]]
    };
    proof {
        let g = grid(pattern);
        let s = base_shape(kind as int);
        assert(g.len() == s.len());
        assert forall|i: int| 0 <= i < g.len() implies g[i] =~= s[i] by {}
        assert(g =~= s);
    }
    pattern
}

/// Tells whether a pattern is rectangular.
fn pattern_is_rect(pattern: &Vec<Vec<bool>>) -> (r: bool)
    ensures
        r == is_rect(grid(*pattern)),
{
    if pattern.len() == 0 {
        return false;
    }
    let width = pattern[0].len();
    if width == 0 {
        return false;
    }
    let mut i: usize = 0;
    while i < pattern.len()
        invariant
            i <= pattern.len(),
            width == pattern@[0].len(),
            forall|a: int| 0 <= a < i ==> (#[trigger] grid(*pattern)[a]).len() == width,
        decreases pattern.len() - i,
    {
        if pattern[i].len() != width {
            assert(grid(*pattern)[i as int].len() != grid(*pattern)[0].len());
            return false;
        }
        i += 1;
    }
    true
}

/// Tells whether row `i` of a pattern holds a filled cell.
fn row_has_cell(pattern: &Vec<Vec<bool>>, i: usize) -> (r: bool)
    requires
        i < pattern.len(),
    ensures
        r == row_used(grid(*pattern), i as int),
{
    let mut j: usize = 0;
    while j < pattern[i].len()
        invariant
            i < pattern.len(),
            j <= pattern@[i as int].len(),
            forall|b: int| 0 <= b < j ==> !#[trigger] grid(*pattern)[i as int][b],
        decreases pattern@[i as int].len() - j,
    {
        if pattern[i][j] {
            assert(grid(*pattern)[i as int][j as int]);
            return true;
        }
        j += 1;
    }
    false
}

/// Tells whether column `j` of a rectangular pattern holds a filled cell.
fn column_has_cell(pattern: &Vec<Vec<bool>>, j: usize) -> (r: bool)
    requires
        is_rect(grid(*pattern)),
        j < breadth(grid(*pattern)),
    ensures
        r == column_used(grid(*pattern), j as int),
{
    let mut i: usize = 0;
    while i < pattern.len()
        invariant
            is_rect(grid(*pattern)),
            j < breadth(grid(*pattern)),
            i <= pattern.len(),
            forall|a: int| 0 <= a < i ==> !#[trigger] grid(*pattern)[a][j as int],
        decreases pattern.len() - i,
    {
        assert(grid(*pattern)[i as int].len() == breadth(grid(*pattern)));
        if pattern[i][j] {
            assert(grid(*pattern)[i as int][j as int]);
            return true;
        }
        i += 1;
    }
    false
}

/// Tells whether a rectangular pattern is tight.
fn pattern_is_tight(pattern: &Vec<Vec<bool>>) -> (r: bool)
    requires
        is_rect(grid(*pattern)),
    ensures
        r == is_tight(grid(*pattern)),
{
    let mut i: usize = 0;
    while i < pattern.len()
        invariant
            i <= pattern.len(),
            forall|a: int| 0 <= a < i ==> #[trigger] row_used(grid(*pattern), a),
        decreases pattern.len() - i,
    {
        if !row_has_cell(pattern, i) {
            return false;
        }
        i += 1;
    }
    let mut j: usize = 0;
    while j < pattern[0].len()
        invariant
            is_rect(grid(*pattern)),
            j <= pattern@[0].len(),
            forall|a: int| 0 <= a < pattern.len() ==> #[trigger] row_used(grid(*pattern), a),
            forall|b: int| 0 <= b < j ==> #[trigger] column_used(grid(*pattern), b),
        decreases pattern@[0].len() - j,
    {
        if !column_has_cell(pattern, j) {
            return false;
        }
        j += 1;
    }
    true
}

impl TetrisBlock {
    /// Tells whether the piece is sound: a tight rectangle of cells in a
    /// colour that is not the empty one.
    pub fn is_sound(&self) -> (r: bool)
        ensures
            r == self@.sound(),
    {
        pattern_is_rect(&self.pattern) && pattern_is_tight(&self.pattern)
            && self.color.is_occupied()
    }

    /// Tells whether the piece is well formed: sound, and with no negative
    /// coordinate.
    pub fn is_well_formed(&self) -> (r: bool)
        ensures
            r == self@.well_formed(),
    {
        self.is_sound() && self.pos.0 >= 0 && self.pos.1 >= 0
    }

    /// Draws a piece at random: one of the seven kinds, a colour of the
    /// palette, and zero to three quarter turns.
    pub fn new_random() -> (piece: Self)
        ensures
            piece@.is_fresh(),
    {
        let mut rng = rand::thread_rng();
        let kind = gen_range(&mut rng, 0, KINDS);
        let color = gen_range(&mut rng, PALETTE_FIRST as u32, (PALETTE_FIRST + PALETTE_LEN) as u32);
        let turns = gen_range(&mut rng, 0, 4);
        TetrisBlock::from_choice(kind, turns, color as u8)
    }

    /// Builds the piece that a draw of `kind`, `turns` and `color` stands for:
    /// the canonical shape of the kind, turned `turns` times, in the palette
    /// entry `color`, at the origin.
    pub fn from_choice(kind: u32, turns: u32, color: u8) -> (piece: Self)
        ensures
            piece@ == (BlockView {
                color: Color::Indexed(color),
                pos: (0, 0),
                shape: turned(base_shape(kind as int), turns as nat),
            }),
    {
        let mut pattern = base_pattern(kind);
        let mut done: u32 = 0;
        proof {
            lemma_base_shape(kind as int);
        }
        while done < turns
            invariant
                done <= turns,
                is_rect(grid(pattern)),
                grid(pattern) == turned(base_shape(kind as int), done as nat),
            decreases turns - done,
        {
            proof {
                lemma_rotated_rect(grid(pattern));
            }
            pattern = TetrisBlock::rotate90(&pattern);
            done += 1;
        }
        TetrisBlock { color: Color::Indexed(color), pos: (0, 0), pattern }
    }

    /// Turns a pattern clockwise by a quarter. A pattern without rows, or
    /// with rows without cells, is taken to have the extent 1 there, so that
    /// what comes back always has a cell.
    pub fn rotate90(pattern: &Vec<Vec<bool>>) -> (turned: Vec<Vec<bool>>)
        requires
            is_uniform(grid(*pattern)),
        ensures
            grid(turned) == rotated(grid(*pattern)),
            is_rect(grid(turned)),
    {
        let width = if pattern.len() == 0 {
            1
        } else {
            pattern.len()
        };
        let height = if pattern.len() == 0 || pattern[0].len() == 0 {
            1
        } else {
            pattern[0].len()
        };
        let ghost s = grid(*pattern);
        let ghost goal = rotated(s);
        let mut new_pattern: Vec<Vec<bool>> = Vec::new();
        let mut h: usize = 0;
        while h < height
            invariant
                s == grid(*pattern),
                width == clamped_depth(s),
                height == clamped_breadth(s),
                goal == rotated(s),
                h <= height,
                new_pattern.len() == h,
                forall|a: int| 0 <= a < h ==> (#[trigger] new_pattern@[a])@ == goal[a],
            decreases height - h,
        {
            let mut row: Vec<bool> = Vec::new();
            let mut w: usize = 0;
            while w < width
                invariant
                    s == grid(*pattern),
                    width == clamped_depth(s),
                    height == clamped_breadth(s),
                    h < height,
                    w <= width,
                    row.len() == w,
                    forall|b: int| 0 <= b < w ==> #[trigger] row@[b] == filled(s, b, height - 1 - h),
                decreases width - w,
            {
                let cell = w < pattern.len() && height - 1 - h < pattern[w].len()
                    && pattern[w][height - 1 - h];
                row.push(cell);
                w += 1;
            }
            assert(row@ =~= goal[h as int]);
            new_pattern.push(row);
            h += 1;
        }
        assert(grid(new_pattern) =~= goal);
        new_pattern
    }
}

} // verus!
