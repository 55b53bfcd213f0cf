//! Positions on the board, the list of the board's cells, and the random
//! choice of a free cell.

use vstd::prelude::*;

use spacetimedb::rand::rngs::StdRng;
use spacetimedb::rand::seq::SliceRandom;

use crate::{BOARD_HEIGHT, BOARD_WIDTH};

verus! {

/// The random number generator that drives every random choice of a
/// request: rand's `StdRng`, which SpacetimeDB seeds with the request's
/// timestamp. Nothing is known of its state here.
#[verifier::external_type_specification]
#[verifier::external_body]
pub struct ExStdRng(StdRng);

/// A cell of the board, by column `x` and row `y`.
#[derive(PartialEq, Eq, Structural, Clone, Copy, Debug)]
pub struct Position {
    pub x: u8,
    pub y: u8,
}

/// `p` is one of the board's cells.
pub open spec fn on_board(p: Position) -> bool {
    p.x < BOARD_WIDTH && p.y < BOARD_HEIGHT
}

/// Every cell of the board, column by column, each column from the top row
/// down.
pub open spec fn board_cells() -> Seq<Position> {
    Seq::new(
        (BOARD_WIDTH * BOARD_HEIGHT) as nat,
        |i: int| Position { x: (i / BOARD_HEIGHT as int) as u8, y: (i % BOARD_HEIGHT as int) as u8 },
    )
}

/// The cells of the board that `taken` does not hold, in board order.
pub open spec fn free_cells(taken: Seq<Position>) -> Seq<Position> {
    board_cells().filter(|p: Position| !taken.contains(p))
}

proof fn lemma_cell_index(x: int, y: int)
    requires
        0 <= x < BOARD_WIDTH,
        0 <= y < BOARD_HEIGHT,
    ensures
        (x * BOARD_HEIGHT + y) / (BOARD_HEIGHT as int) == x,
        (x * BOARD_HEIGHT + y) % (BOARD_HEIGHT as int) == y,
        0 <= x * BOARD_HEIGHT + y < BOARD_WIDTH * BOARD_HEIGHT,
{
    assert((x * 10 + y) / 10 == x && (x * 10 + y) % 10 == y) by (nonlinear_arith)
        requires
            0 <= x < 10,
            0 <= y < 10,
    ;
}

/// The board's cells hold exactly the positions on the board.
pub proof fn lemma_board_cells_contains(p: Position)
    ensures
        board_cells().contains(p) <==> on_board(p),
{
    if on_board(p) {
        lemma_cell_index(p.x as int, p.y as int);
        let i = p.x * BOARD_HEIGHT + p.y;
        assert(board_cells()[i] == p);
    }
    if board_cells().contains(p) {
        let i = choose|i: int| 0 <= i < board_cells().len() && board_cells()[i] == p;
        assert(0 <= i / 10 < 10) by (nonlinear_arith)
            requires
                0 <= i < 100,
        ;
    }
}

/// The free cells are the cells of the board that `taken` does not hold.
pub proof fn lemma_free_cells_contains(taken: Seq<Position>, p: Position)
    ensures
        free_cells(taken).contains(p) <==> (on_board(p) && !taken.contains(p)),
{
    let pred = |q: Position| !taken.contains(q);
    broadcast use vstd::seq_lib::group_filter_ensures;

    lemma_board_cells_contains(p);
    if free_cells(taken).contains(p) {
        let j = choose|j: int| 0 <= j < free_cells(taken).len() && free_cells(taken)[j] == p;
        board_cells().lemma_filter_pred(pred, j);
        lemma_filter_subset(board_cells(), pred, p);
    }
    if on_board(p) && !taken.contains(p) {
        let i = choose|i: int| 0 <= i < board_cells().len() && board_cells()[i] == p;
        board_cells().lemma_filter_contains(pred, i);
    }
}

proof fn lemma_filter_subset(s: Seq<Position>, pred: spec_fn(Position) -> bool, p: Position)
    requires
        s.filter(pred).contains(p),
    ensures
        s.contains(p),
    decreases s.len(),
{
    reveal(Seq::filter);
    if s.len() > 0 && s.last() != p {
        lemma_filter_subset(s.drop_last(), pred, p);
        let j = choose|j: int| 0 <= j < s.drop_last().len() && s.drop_last()[j] == p;
        assert(s[j] == p);
    }
}

/// Every cell of the board, column by column, each column from the top row
/// down.
pub fn board_positions() -> (r: Vec<Position>)
    ensures
        r@ == board_cells(),
{
    let mut r: Vec<Position> = Vec::new();
    let mut x: u8 = 0;
    while x < BOARD_WIDTH
        invariant
            x <= BOARD_WIDTH,
            r@ =~= board_cells().take(x * BOARD_HEIGHT),
        decreases BOARD_WIDTH - x,
    {
        let mut y: u8 = 0;
        while y < BOARD_HEIGHT
            invariant
                x < BOARD_WIDTH,
                y <= BOARD_HEIGHT,
                r@ =~= board_cells().take(x * BOARD_HEIGHT + y),
            decreases BOARD_HEIGHT - y,
        {
            proof {
                lemma_cell_index(x as int, y as int);
            }
            r.push(Position { x, y });
            y = y + 1;
        }
        x = x + 1;
    }
    r
}

/// Whether `cells` holds `p`.
pub fn contains_position(cells: &Vec<Position>, p: &Position) -> (r: bool)
    ensures
        r == cells@.contains(*p),
{
    let mut i: usize = 0;
    while i < cells.len()
        invariant
            i <= cells.len(),
            forall|j: int| 0 <= j < i ==> cells@[j] != *p,
        decreases cells.len() - i,
    {
        if cells[i] == *p {
            return true;
        }
        i = i + 1;
    }
    false
}

/// The cells of the board that `taken` does not hold, in board order.
pub fn free_positions(taken: &Vec<Position>) -> (r: Vec<Position>)
    ensures
        r@ == free_cells(taken@),
{
    let board = board_positions();
    let ghost pred = |p: Position| !taken@.contains(p);
    let mut r: Vec<Position> = Vec::new();
    let mut i: usize = 0;
    while i < board.len()
        invariant
            i <= board.len(),
            board@ == board_cells(),
            pred == (|p: Position| !taken@.contains(p)),
            r@ == board@.take(i as int).filter(pred),
        decreases board.len() - i,
    {
        let p = board[i];
        proof {
            reveal(Seq::filter);
            assert(board@.take(i + 1).drop_last() =~= board@.take(i as int));
        }
        if !contains_position(taken, &p) {
            r.push(p);
        }
        i = i + 1;
    }
    proof {
        assert(board@.take(board.len() as int) =~= board@);
    }
    r
}

/// Chooses one of `items` at random: nothing when `items` is empty, and
/// otherwise one of its elements. This is rand's `SliceRandom::choose`,
/// which draws an index below the length from `rng`; which element comes
/// out depends on the generator's state and is not stated.
#[verifier::external_body]
pub(crate) fn choose_one<T: Copy>(rng: &mut StdRng, items: &Vec<T>) -> (r: Option<T>)
    ensures
        r is Some <==> items@.len() > 0,
        r matches Some(x) ==> items@.contains(x),
{
    items.as_slice().choose(rng).copied()
}

impl Position {
    /// A random cell of the board that `unavailable_positions` does not
    /// hold, or `None` when every cell of the board is taken.
    pub fn pick_random(rng: &mut StdRng, unavailable_positions: &Vec<Position>) -> (r: Option<
        Position,
    >)
        ensures
            r is None <==> free_cells(unavailable_positions@).len() == 0,
            r matches Some(p) ==> on_board(p) && !unavailable_positions@.contains(p),
    {
        let possible_positions = free_positions(unavailable_positions);
        if possible_positions.len() == 0 {
            return None;
        }
        let pick = choose_one(rng, &possible_positions);
        proof {
            if let Some(p) = pick {
                lemma_free_cells_contains(unavailable_positions@, p);
            }
        }
        pick
    }
}

} // verus!
