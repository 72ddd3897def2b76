use vstd::prelude::*;

verus! {

/// The occupancy pattern of a piece: `s[i][j]` tells whether the cell `i`
/// steps along the falling axis and `j` steps along the lateral axis is filled.
pub type Shape = Seq<Seq<bool>>;

/// The rows of a nested vector, each as a sequence.
pub open spec fn grid<T>(v: Vec<Vec<T>>) -> Seq<Seq<T>> {
    Seq::new(v@.len(), |i: int| v@[i]@)
}

/// A shape is rectangular when it has at least one row and all its rows have
/// one common, positive length.
pub open spec fn is_rect(s: Shape) -> bool {
    &&& s.len() >= 1
    &&& s[0].len() >= 1
    &&& forall|i: int| 0 <= i < s.len() ==> (#[trigger] s[i]).len() == s[0].len()
}

/// Extent of a shape along the falling axis.
pub open spec fn depth(s: Shape) -> int {
    s.len() as int
}

/// Extent of a rectangular shape along the lateral axis.
pub open spec fn breadth(s: Shape) -> int {
    s[0].len() as int
}

/// All rows of the shape have one length. A shape without rows, and one whose
/// rows have no cells, is uniform too.
pub open spec fn is_uniform(s: Shape) -> bool {
    forall|i: int| 0 <= i < s.len() ==> (#[trigger] s[i]).len() == s[0].len()
}

/// The cell `(i, j)` of the shape is filled. A cell that the shape does not
/// have is not.
pub open spec fn filled(s: Shape, i: int, j: int) -> bool {
    0 <= i < s.len() && 0 <= j < s[i].len() && s[i][j]
}

/// Extent of a shape along the falling axis, taken as 1 where it has no rows.
pub open spec fn clamped_depth(s: Shape) -> int {
    if s.len() == 0 {
        1
    } else {
        s.len() as int
    }
}

/// Extent of a uniform shape along the lateral axis, taken as 1 where its rows
/// have no cells.
pub open spec fn clamped_breadth(s: Shape) -> int {
    if s.len() == 0 || s[0].len() == 0 {
        1
    } else {
        s[0].len() as int
    }
}

/// The clockwise quarter turn: a shape of depth `d` and breadth `b` becomes one
/// of depth `b` and breadth `d`, whose cell `(h, w)` is the old cell
/// `(w, b - 1 - h)`. An extent of 0 counts as 1, so that the turned shape
/// always has a cell; the cells that it has beyond the old ones are empty.
pub open spec fn rotated(s: Shape) -> Shape {
    Seq::new(
        clamped_breadth(s) as nat,
        |h: int|
            Seq::new(clamped_depth(s) as nat, |w: int| filled(s, w, clamped_breadth(s) - 1 - h)),
    )
}

/// A quarter turn never gives a shape without cells: what it gives is a
/// rectangle of the two clamped extents, whatever it was given.
pub proof fn law_rotated_never_empty(s: Shape)
    ensures
        is_rect(rotated(s)),
        depth(rotated(s)) == clamped_breadth(s),
        breadth(rotated(s)) == clamped_depth(s),
{
}

/// A shape without cells turns into a single empty cell if it has no rows, and
/// into one row of as many empty cells as it had rows otherwise.
pub proof fn law_rotated_degenerate(s: Shape)
    requires
        is_uniform(s),
        s.len() == 0 || s[0].len() == 0,
    ensures
        rotated(s).len() == 1,
        rotated(s)[0].len() == clamped_depth(s),
        forall|w: int| 0 <= w < clamped_depth(s) ==> !(#[trigger] rotated(s)[0][w]),
{
}

/// `n` quarter turns in a row.
pub open spec fn turned(s: Shape, n: nat) -> Shape
    decreases n,
{
    if n == 0 {
        s
    } else {
        rotated(turned(s, (n - 1) as nat))
    }
}

/// Row `i` of the shape holds a filled cell.
pub open spec fn row_used(s: Shape, i: int) -> bool {
    exists|j: int| 0 <= j < s[i].len() && #[trigger] s[i][j]
}

/// Column `j` of the shape holds a filled cell.
pub open spec fn column_used(s: Shape, j: int) -> bool {
    exists|i: int| 0 <= i < s.len() && #[trigger] s[i][j]
}

/// A rectangular shape is tight when no row and no column of it is empty, so
/// that its rectangle is the bounding box of its filled cells.
pub open spec fn is_tight(s: Shape) -> bool {
    &&& forall|i: int| 0 <= i < s.len() ==> #[trigger] row_used(s, i)
    &&& forall|j: int| 0 <= j < s[0].len() ==> #[trigger] column_used(s, j)
}

/// A quarter turn keeps a shape rectangular and swaps its two extents.
pub proof fn lemma_rotated_rect(s: Shape)
    requires
        is_rect(s),
    ensures
        is_rect(rotated(s)),
        depth(rotated(s)) == breadth(s),
        breadth(rotated(s)) == depth(s),
{
}

/// Two quarter turns mirror a shape along both axes.
pub proof fn lemma_half_turn(s: Shape)
    requires
        is_rect(s),
    ensures
        rotated(rotated(s)) == Seq::new(
            s.len(),
            |a: int| Seq::new(s[0].len(), |b: int| s[s.len() - 1 - a][s[0].len() - 1 - b]),
        ),
{
    lemma_rotated_rect(s);
    let r = rotated(s);
    let rr = rotated(r);
    let m = Seq::new(
        s.len(),
        |a: int| Seq::new(s[0].len(), |b: int| s[s.len() - 1 - a][s[0].len() - 1 - b]),
    );
    assert(rr.len() == m.len());
    assert forall|a: int| 0 <= a < rr.len() implies rr[a] =~= m[a] by {
        assert forall|b: int| 0 <= b < rr[a].len() implies rr[a][b] == m[a][b] by {
            assert(rr[a][b] == r[b][r[0].len() - 1 - a]);
        }
    }
    assert(rr =~= m);
}

/// Four quarter turns give back the shape they started from.
pub proof fn law_four_turns(s: Shape)
    requires
        is_rect(s),
    ensures
        rotated(rotated(rotated(rotated(s)))) == s,
{
    lemma_half_turn(s);
    let h = rotated(rotated(s));
    lemma_rotated_rect(s);
    lemma_rotated_rect(rotated(s));
    lemma_half_turn(h);
    let f = rotated(rotated(h));
    assert(f.len() == s.len());
    assert forall|a: int| 0 <= a < f.len() implies f[a] =~= s[a] by {
        assert forall|b: int| 0 <= b < f[a].len() implies f[a][b] == s[a][b] by {
            assert(f[a][b] == h[h.len() - 1 - a][h[0].len() - 1 - b]);
        }
    }
    assert(f =~= s);
}

/// Any number of quarter turns keeps a shape rectangular.
pub proof fn lemma_turned_rect(s: Shape, n: nat)
    requires
        is_rect(s),
    ensures
        is_rect(turned(s, n)),
    decreases n,
{
    if n > 0 {
        lemma_turned_rect(s, (n - 1) as nat);
        lemma_rotated_rect(turned(s, (n - 1) as nat));
    }
}

/// Whatever the number of turns already made, four more change nothing: the
/// occupancy after `n + 4` quarter turns is that after `n`.
pub proof fn law_turns_cycle(s: Shape, n: nat)
    requires
        is_rect(s),
    ensures
        turned(s, n + 4) == turned(s, n),
{
    let t = turned(s, n);
    lemma_turned_rect(s, n);
    law_four_turns(t);
    assert(turned(s, n + 4) == rotated(rotated(rotated(rotated(t))))) by {
        reveal_with_fuel(turned, 5);
    }
}

/// A quarter turn keeps a tight shape tight.
pub proof fn lemma_rotated_tight(s: Shape)
    requires
        is_rect(s),
        is_tight(s),
    ensures
        is_tight(rotated(s)),
{
    let r = rotated(s);
    lemma_rotated_rect(s);
    assert forall|h: int| 0 <= h < r.len() implies #[trigger] row_used(r, h) by {
        let j = s[0].len() - 1 - h;
        assert(column_used(s, j));
        let i = choose|i: int| 0 <= i < s.len() && #[trigger] s[i][j];
        assert(r[h][i]);
    }
    assert forall|w: int| 0 <= w < r[0].len() implies #[trigger] column_used(r, w) by {
        assert(row_used(s, w));
        let j = choose|j: int| 0 <= j < s[w].len() && #[trigger] s[w][j];
        let h = s[0].len() - 1 - j;
        assert(r[h][w]);
    }
}

} // verus!
