use tetris::tetris_block::TetrisBlock;
use tetris::Color;

fn pattern(rows: &[&str]) -> Vec<Vec<bool>> {
    rows.iter().map(|row| row.chars().map(|c| c == 'X').collect()).collect()
}

fn turned(base: &Vec<Vec<bool>>, turns: usize) -> Vec<Vec<bool>> {
    let mut shape = base.clone();
    for _ in 0..turns {
        shape = TetrisBlock::rotate90(&shape);
    }
    shape
}

fn bases() -> Vec<Vec<Vec<bool>>> {
    vec![
        pattern(&["XXXX"]),
        pattern(&["XX", "XX"]),
        pattern(&["XXX", "OXO"]),
        pattern(&["OXX", "XXO"]),
        pattern(&["XXO", "OXX"]),
        pattern(&["XXX", "OOX"]),
        pattern(&["OOX", "XXX"]),
    ]
}

fn block(rows: &[&str], color: Color, pos: (i32, i32)) -> TetrisBlock {
    TetrisBlock { color, pos, pattern: pattern(rows) }
}

#[test]
fn rotate90_turns_the_bar_upright() {
    let bar = pattern(&["XXXX"]);
    assert_eq!(TetrisBlock::rotate90(&bar), pattern(&["X", "X", "X", "X"]));
}

#[test]
fn rotate90_of_the_tee_is_exact() {
    let tee = pattern(&["XXX", "OXO"]);
    // New cell (h, w) is the old cell (w, 2 - h).
    assert_eq!(TetrisBlock::rotate90(&tee), pattern(&["XO", "XX", "XO"]));
}

#[test]
fn rotate90_of_the_ell_is_exact() {
    let ell = pattern(&["XXX", "OOX"]);
    assert_eq!(TetrisBlock::rotate90(&ell), pattern(&["XX", "XO", "XO"]));
    assert_eq!(turned(&ell, 2), pattern(&["XOO", "XXX"]));
    assert_eq!(turned(&ell, 3), pattern(&["OX", "OX", "XX"]));
}

#[test]
fn rotate90_swaps_the_extents() {
    for base in bases() {
        let once = TetrisBlock::rotate90(&base);
        assert_eq!(once.len(), base[0].len());
        for row in &once {
            assert_eq!(row.len(), base.len());
        }
    }
}

#[test]
fn rotate90_follows_the_cell_formula() {
    for base in bases() {
        let once = TetrisBlock::rotate90(&base);
        let height = base[0].len();
        for w in 0..base.len() {
            for h in 0..height {
                assert_eq!(once[h][w], base[w][height - 1 - h]);
            }
        }
    }
}

#[test]
fn rotate90_of_a_single_cell_is_itself() {
    let dot = pattern(&["X"]);
    assert_eq!(TetrisBlock::rotate90(&dot), dot);
}

#[test]
fn rotate90_of_a_pattern_without_rows_is_one_empty_cell() {
    let none: Vec<Vec<bool>> = Vec::new();
    assert_eq!(TetrisBlock::rotate90(&none), vec![vec![false]]);
}

#[test]
fn rotate90_of_rows_without_cells_has_one_row() {
    let one: Vec<Vec<bool>> = vec![vec![]];
    assert_eq!(TetrisBlock::rotate90(&one), vec![vec![false]]);
    let three: Vec<Vec<bool>> = vec![vec![], vec![], vec![]];
    assert_eq!(TetrisBlock::rotate90(&three), vec![vec![false, false, false]]);
    // What comes back is a rectangle, and turns on like one.
    assert_eq!(turned(&three, 2), vec![vec![false], vec![false], vec![false]]);
    assert_eq!(turned(&three, 5), vec![vec![false, false, false]]);
}

#[test]
fn four_quarter_turns_give_the_shape_back() {
    for base in bases() {
        for already in 0..4 {
            let start = turned(&base, already);
            assert_eq!(turned(&start, 4), start);
        }
    }
}

#[test]
fn four_quarter_turns_give_an_odd_shape_back() {
    let odd = pattern(&["XOOXO", "OOXOO", "XXOOX"]);
    assert_eq!(turned(&odd, 4), odd);
    assert_ne!(turned(&odd, 1), odd);
    assert_ne!(turned(&odd, 2), odd);
}

#[test]
fn every_turn_keeps_four_cells() {
    for base in bases() {
        for turns in 0..4 {
            let shape = turned(&base, turns);
            let filled: usize = shape.iter().map(|row| row.iter().filter(|c| **c).count()).sum();
            assert_eq!(filled, 4);
        }
    }
}

#[test]
fn from_choice_builds_each_kind() {
    let all = bases();
    for kind in 0..7u32 {
        let piece = TetrisBlock::from_choice(kind, 0, 9);
        assert_eq!(piece.pattern, all[kind as usize]);
        assert_eq!(piece.color, Color::Indexed(9));
        assert_eq!(piece.pos, (0, 0));
    }
}

#[test]
fn from_choice_takes_an_unknown_kind_for_the_bar() {
    assert_eq!(TetrisBlock::from_choice(7, 0, 10).pattern, pattern(&["XXXX"]));
    assert_eq!(TetrisBlock::from_choice(4000, 0, 10).pattern, pattern(&["XXXX"]));
}

#[test]
fn from_choice_turns_as_often_as_told() {
    let all = bases();
    for kind in 0..7u32 {
        for turns in 0..4u32 {
            let piece = TetrisBlock::from_choice(kind, turns, 14);
            assert_eq!(piece.pattern, turned(&all[kind as usize], turns as usize));
            assert_eq!(piece.color, Color::Indexed(14));
        }
    }
    assert_eq!(TetrisBlock::from_choice(2, 1, 11).pattern, pattern(&["XO", "XX", "XO"]));
    assert_eq!(TetrisBlock::from_choice(2, 5, 11).pattern, pattern(&["XO", "XX", "XO"]));
}

#[test]
fn new_random_draws_from_the_catalogue() {
    let all = bases();
    let mut seen_kinds = [false; 7];
    let mut seen_colors = [false; 6];
    for _ in 0..2000 {
        let piece = TetrisBlock::new_random();
        assert_eq!(piece.pos, (0, 0));
        let index = match piece.color {
            Color::Indexed(n) => n,
            Color::Black => panic!("a new piece is never empty"),
        };
        assert!((9..=14).contains(&index), "colour {index} is not of the palette");
        seen_colors[(index - 9) as usize] = true;
        let mut found = false;
        for (kind, base) in all.iter().enumerate() {
            for turns in 0..4 {
                if piece.pattern == turned(base, turns) {
                    found = true;
                    seen_kinds[kind] = true;
                }
            }
        }
        assert!(found, "shape {:?} is not of the catalogue", piece.pattern);
        assert!(piece.is_sound());
        assert!(piece.is_well_formed());
    }
    assert!(seen_kinds.iter().all(|seen| *seen));
    assert!(seen_colors.iter().all(|seen| *seen));
}

#[test]
fn new_random_turns_some_pieces() {
    let mut upright_bar = false;
    let mut flat_bar = false;
    for _ in 0..2000 {
        let piece = TetrisBlock::new_random();
        if piece.pattern == pattern(&["XXXX"]) {
            flat_bar = true;
        }
        if piece.pattern == pattern(&["X", "X", "X", "X"]) {
            upright_bar = true;
        }
    }
    assert!(flat_bar && upright_bar);
}

#[test]
fn sound_pieces_are_tight_rectangles_in_a_colour() {
    assert!(block(&["XX", "XX"], Color::Indexed(9), (0, 0)).is_sound());
    assert!(block(&["X"], Color::Indexed(0), (0, 0)).is_sound());
    assert!(block(&["XOX", "OXO"], Color::Indexed(200), (5, 5)).is_sound());
    // No rows, or rows without cells.
    assert!(!TetrisBlock { color: Color::Indexed(9), pos: (0, 0), pattern: vec![] }.is_sound());
    assert!(!TetrisBlock { color: Color::Indexed(9), pos: (0, 0), pattern: vec![vec![]] }.is_sound());
    // Rows of different lengths.
    let ragged = TetrisBlock {
        color: Color::Indexed(9),
        pos: (0, 0),
        pattern: vec![vec![true, true], vec![true]],
    };
    assert!(!ragged.is_sound());
    // An empty row, an empty column.
    assert!(!block(&["XX", "OO"], Color::Indexed(9), (0, 0)).is_sound());
    assert!(!block(&["XO", "XO"], Color::Indexed(9), (0, 0)).is_sound());
    assert!(!block(&["O"], Color::Indexed(9), (0, 0)).is_sound());
    // The empty colour.
    assert!(!block(&["XX", "XX"], Color::Black, (0, 0)).is_sound());
}

#[test]
fn well_formed_pieces_have_no_negative_coordinate() {
    assert!(block(&["XX", "XX"], Color::Indexed(9), (0, 0)).is_well_formed());
    assert!(block(&["XX", "XX"], Color::Indexed(9), (3, 70)).is_well_formed());
    assert!(!block(&["XX", "XX"], Color::Indexed(9), (-1, 0)).is_well_formed());
    assert!(!block(&["XX", "XX"], Color::Indexed(9), (0, -1)).is_well_formed());
    assert!(!block(&["XX", "OO"], Color::Indexed(9), (0, 0)).is_well_formed());
}

#[test]
fn clone_copies_every_part() {
    let piece = block(&["OXX", "XXO"], Color::Indexed(12), (3, 4));
    let copy = piece.clone();
    assert_eq!(copy.pattern, piece.pattern);
    assert_eq!(copy.color, piece.color);
    assert_eq!(copy.pos, piece.pos);
}

#[test]
fn colours_tell_empty_from_occupied() {
    assert!(!Color::Black.is_occupied());
    assert!(Color::Indexed(0).is_occupied());
    assert!(Color::Indexed(9).is_occupied());
    assert!(Color::Indexed(255).is_occupied());
}
