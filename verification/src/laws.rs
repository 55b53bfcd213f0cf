//! Properties of the game that hold across its requests: how steering and
//! moving relate, what a snake looks like after any number of ticks, where
//! the food can be, and which phases of a game are final.

use vstd::prelude::*;

use spacetimedb::Identity;

use crate::direction::{opposite, step, step_fits, Direction};
use crate::position::Position;
use crate::reducers::{
    grown_body, restart_allows, steer_allows, tick_allows, tick_fits, with_speed, TickWrites,
    RestartWrites,
};
use crate::tables::{initial_body, Food, Game, GameState, NextDirection, Snake};
use crate::views::{
    joinable_listing, owned_candidates, shows_board, BoardCellContent, JoinableCandidate,
    JoinableGameDto,
};
use crate::{BOARD_HEIGHT, BOARD_WIDTH};

verus! {

/// `p` lies on the board or on the column or row just past its edge, where
/// a step off the low edge of the board leads.
pub open spec fn in_reach(p: Position) -> bool {
    p.x <= BOARD_WIDTH && p.y <= BOARD_HEIGHT
}

/// A snake body as the game keeps it: at least three cells long, no cell
/// twice, every cell in reach.
pub open spec fn well_formed_body(body: Seq<Position>) -> bool {
    &&& body.len() >= 3
    &&& body.no_duplicates()
    &&& forall|i: int| 0 <= i < body.len() ==> in_reach(#[trigger] body[i])
}

/// The next direction does not point straight back against the last one.
pub open spec fn no_reversal(nd: NextDirection) -> bool {
    nd.next != opposite(nd.previous)
}

/// Being opposite is symmetric, never holds of a direction and itself, and
/// the opposite of the opposite is the direction itself.
pub proof fn law_opposite_symmetric(a: Direction, b: Direction)
    ensures
        (b == opposite(a)) <==> (a == opposite(b)),
        a != opposite(a),
        opposite(opposite(a)) == a,
{
}

/// A step from a position in reach stays in reach and never leaves `i8`
/// arithmetic.
pub proof fn law_step_stays_in_reach(d: Direction, p: Position)
    requires
        in_reach(p),
    ensures
        step_fits(d, p),
        in_reach(step(d, p)),
{
}

/// From a cell of the board that is not in its last column or last row, a
/// step and a step back return to the start (a step off the low edge lands
/// one past the last cell, and the step back wraps to zero).
pub proof fn law_step_back(d: Direction, p: Position)
    requires
        p.x < BOARD_WIDTH - 1,
        p.y < BOARD_HEIGHT - 1,
    ensures
        step(opposite(d), step(d, p)) == p,
{
}

/// The snake a game starts with is well formed.
pub proof fn law_initial_body_well_formed()
    ensures
        well_formed_body(initial_body()),
{
}

/// The directions a game starts with do not reverse.
pub proof fn law_initial_directions_do_not_reverse()
    ensures
        no_reversal(NextDirection { game_id: 0, previous: Direction::Right, next: Direction::Right }),
{
}

/// Steering never sets a direction straight back against the last one.
pub proof fn law_steering_never_reverses(
    sender: Identity,
    direction: Direction,
    ap: Option<crate::tables::ActivePlayer>,
    nd: Option<NextDirection>,
    r: Result<Option<NextDirection>, String>,
)
    requires
        steer_allows(sender, direction, ap, nd, r),
    ensures
        r matches Ok(Some(n)) ==> no_reversal(n),
{
}

/// A tick leaves directions that do not reverse.
pub proof fn law_tick_directions_do_not_reverse(
    game_id: u64,
    game: Option<Game>,
    snake: Option<Snake>,
    nd: Option<NextDirection>,
    food: Option<Food>,
    w: TickWrites,
)
    requires
        tick_allows(game_id, game, snake, nd, food, Ok(w)),
    ensures
        w.next_direction matches Some(n) ==> no_reversal(n),
{
}

/// A well-formed snake can always take its step: a tick never meets the
/// bound of its `requires`.
pub proof fn law_well_formed_snake_fits(game: Option<Game>, snake: Snake, nd: Option<NextDirection>)
    requires
        well_formed_body(snake.body@),
    ensures
        tick_fits(game, Some(snake), nd),
{
    if let Some(d) = nd {
        law_step_stays_in_reach(d.next, snake.body@[0]);
    }
}

proof fn lemma_grown_well_formed(s: Snake, head: Position)
    requires
        well_formed_body(s.body@),
        in_reach(head),
        !s.body@.contains(head),
    ensures
        well_formed_body(grown_body(s, head)),
        well_formed_body(grown_body(s, head).drop_last()),
{
    let g = grown_body(s, head);
    assert forall|i: int, j: int| 0 <= i < g.len() && 0 <= j < g.len() && i != j implies g[i]
        != g[j] by {
        if i == 0 {
            assert(g[j] == s.body@[j - 1]);
        } else if j == 0 {
            assert(g[i] == s.body@[i - 1]);
        } else {
            assert(g[i] == s.body@[i - 1] && g[j] == s.body@[j - 1]);
        }
    }
    assert forall|i: int| 0 <= i < g.len() implies in_reach(#[trigger] g[i]) by {
        if i > 0 {
            assert(g[i] == s.body@[i - 1]);
        }
    }
    let t = g.drop_last();
    assert forall|i: int, j: int| 0 <= i < t.len() && 0 <= j < t.len() && i != j implies t[i]
        != t[j] by {
        assert(t[i] == g[i] && t[j] == g[j]);
    }
    assert forall|i: int| 0 <= i < t.len() implies in_reach(#[trigger] t[i]) by {
        assert(t[i] == g[i]);
    }
}

/// A tick keeps the snake well formed: any snake that it writes is at least
/// three cells long, holds no cell twice and stays in reach.
pub proof fn law_tick_keeps_snake_well_formed(
    game_id: u64,
    game: Option<Game>,
    snake: Snake,
    nd: Option<NextDirection>,
    food: Option<Food>,
    w: TickWrites,
)
    requires
        well_formed_body(snake.body@),
        tick_allows(game_id, game, Some(snake), nd, food, Ok(w)),
    ensures
        w.snake matches Some(ns) ==> well_formed_body(ns.body@),
{
    if let (Some(g), Some(d)) = (game, nd) {
        if g.state == GameState::Running {
            let head = step(d.next, snake.body@[0]);
            law_step_stays_in_reach(d.next, snake.body@[0]);
            if !snake.body@.contains(head) {
                lemma_grown_well_formed(snake, head);
            }
        }
    }
}

/// A tick never writes a snake body with a cell twice, provided the body it
/// read had no cell twice: the new head is never a cell of the old body.
pub proof fn law_tick_keeps_body_distinct(
    game_id: u64,
    game: Option<Game>,
    snake: Snake,
    nd: Option<NextDirection>,
    food: Option<Food>,
    w: TickWrites,
)
    requires
        snake.body@.no_duplicates(),
        tick_allows(game_id, game, Some(snake), nd, food, Ok(w)),
    ensures
        w.snake matches Some(ns) ==> ns.body@.no_duplicates(),
{
    if let (Some(g), Some(d)) = (game, nd) {
        if g.state == GameState::Running && snake.body@.len() > 0 {
            let head = step(d.next, snake.body@[0]);
            let gb = grown_body(snake, head);
            if !snake.body@.contains(head) {
                assert forall|i: int, j: int|
                    0 <= i < gb.len() && 0 <= j < gb.len() && i != j implies gb[i] != gb[j] by {
                    if i == 0 {
                        assert(gb[j] == snake.body@[j - 1]);
                    } else if j == 0 {
                        assert(gb[i] == snake.body@[i - 1]);
                    } else {
                        assert(gb[i] == snake.body@[i - 1] && gb[j] == snake.body@[j - 1]);
                    }
                }
                let t = gb.drop_last();
                assert forall|i: int, j: int|
                    0 <= i < t.len() && 0 <= j < t.len() && i != j implies t[i] != t[j] by {
                    assert(t[i] == gb[i] && t[j] == gb[j]);
                }
            }
        }
    }
}

/// The snake grows by one cell exactly when its head reaches the food;
/// otherwise a snake that moves keeps its length. It never shrinks, so a
/// snake of at least three cells stays so.
pub proof fn law_tick_growth(
    game_id: u64,
    game: Option<Game>,
    snake: Snake,
    nd: Option<NextDirection>,
    food: Food,
    w: TickWrites,
)
    requires
        tick_allows(game_id, game, Some(snake), nd, Some(food), Ok(w)),
    ensures
        w.snake matches Some(ns) ==> (ns.body@.len() == snake.body@.len() + 1 <==> ns.body@[0]
            == food.position),
        w.snake matches Some(ns) ==> snake.body@.len() <= ns.body@.len() <= snake.body@.len()
            + 1,
{
}

/// The food is never on the snake: if it was not before a tick, it is not
/// after, where the rows after are those the tick writes and otherwise the
/// rows before.
pub proof fn law_tick_keeps_food_off_snake(
    game_id: u64,
    game: Option<Game>,
    snake: Snake,
    nd: Option<NextDirection>,
    food: Food,
    w: TickWrites,
)
    requires
        !snake.body@.contains(food.position),
        tick_allows(game_id, game, Some(snake), nd, Some(food), Ok(w)),
    ensures
        ({
            let new_body = match w.snake {
                Some(ns) => ns.body@,
                None => snake.body@,
            };
            let new_food = match w.food {
                Some(nf) => nf,
                None => food,
            };
            !new_body.contains(new_food.position)
        }),
{
    if let (Some(g), Some(d)) = (game, nd) {
        if g.state == GameState::Running && snake.body@.len() > 0 {
            let head = step(d.next, snake.body@[0]);
            let grown = grown_body(snake, head);
            if !snake.body@.contains(head) && food.position != head {
                let t = grown.drop_last();
                if t.contains(food.position) {
                    let i = choose|i: int| 0 <= i < t.len() && t[i] == food.position;
                    assert(i > 0);
                    assert(snake.body@[i - 1] == food.position);
                }
            }
        }
    }
}

/// A closed game stays closed: a tick does not write it, a restart fails,
/// and a speed change keeps its phase.
pub proof fn law_closed_is_final(
    game_id: u64,
    g: Game,
    snake: Option<Snake>,
    nd: Option<NextDirection>,
    food: Option<Food>,
    tick: Result<TickWrites, String>,
    sender: Identity,
    restart: Result<RestartWrites, String>,
    interval_ms: u64,
)
    requires
        g.state == GameState::Closed,
        tick_allows(game_id, Some(g), snake, nd, food, tick),
        restart_allows(sender, Some(g), restart),
    ensures
        tick matches Ok(w) && w.game is None && w.snake is None && w.food is None
            && w.next_direction is None,
        restart is Err,
        with_speed(g, interval_ms).state == GameState::Closed,
{
}

/// Only a running game moves, and a tick changes its phase only to over or
/// won.
pub proof fn law_tick_phases(
    game_id: u64,
    g: Game,
    snake: Option<Snake>,
    nd: Option<NextDirection>,
    food: Option<Food>,
    w: TickWrites,
)
    requires
        tick_allows(game_id, Some(g), snake, nd, food, Ok(w)),
    ensures
        g.state != GameState::Running ==> w.game is None && w.snake is None && w.food is None
            && w.next_direction is None,
        w.game matches Some(ng) ==> ng.game_id == g.game_id && (ng.state == GameState::GameOver
            || ng.state == GameState::Win),
{
}

/// The number of candidates whose owner has a user.
pub open spec fn count_with_owner(candidates: Seq<JoinableCandidate>) -> nat
    decreases candidates.len(),
{
    if candidates.len() == 0 {
        0
    } else {
        count_with_owner(candidates.drop_last()) + if candidates.last().owner is Some {
            1nat
        } else {
            0nat
        }
    }
}

proof fn lemma_owned_count(candidates: Seq<JoinableCandidate>)
    ensures
        owned_candidates(candidates).len() == count_with_owner(candidates),
    decreases candidates.len(),
{
    reveal(Seq::filter);
    if candidates.len() > 0 {
        lemma_owned_count(candidates.drop_last());
    }
}

proof fn lemma_all_owned(candidates: Seq<JoinableCandidate>)
    requires
        forall|i: int| 0 <= i < candidates.len() ==> (#[trigger] candidates[i]).owner is Some,
    ensures
        owned_candidates(candidates) == candidates,
    decreases candidates.len(),
{
    reveal(Seq::filter);
    if candidates.len() > 0 {
        let front = candidates.drop_last();
        assert forall|i: int| 0 <= i < front.len() implies (#[trigger] front[i]).owner is Some by {
            assert(front[i] == candidates[i]);
        }
        lemma_all_owned(front);
        assert(candidates.last().owner is Some);
        assert(owned_candidates(candidates) =~= front.push(candidates.last()));
        assert(front.push(candidates.last()) =~= candidates);
    } else {
        assert(owned_candidates(candidates) =~= candidates);
    }
}

/// Every joinable game whose owner has a user is listed, whatever the
/// game's phase, and no other: the list is as long as the number of such
/// candidates. When every candidate has an owner, each is listed in its own
/// place, with its id, its name and its player count (wrapping at 256).
pub proof fn law_joinable_lists_every_owned_game(
    candidates: Seq<JoinableCandidate>,
    r: Seq<JoinableGameDto>,
)
    requires
        joinable_listing(candidates, r),
    ensures
        r.len() == count_with_owner(candidates),
        (forall|i: int| 0 <= i < candidates.len() ==> (#[trigger] candidates[i]).owner is Some)
            ==> {
            &&& r.len() == candidates.len()
            &&& forall|j: int|
                0 <= j < r.len() ==> {
                    &&& (#[trigger] r[j]).game_id == candidates[j].game.game_id
                    &&& r[j].name == candidates[j].game.name
                    &&& r[j].player_count == candidates[j].player_count % 256
                }
        },
{
    lemma_owned_count(candidates);
    if forall|i: int| 0 <= i < candidates.len() ==> (#[trigger] candidates[i]).owner is Some {
        lemma_all_owned(candidates);
    }
}

/// What the board shows, cell by cell: the snake exactly on the cells of its
/// body; food at most on the food's own cell, and there whenever the snake
/// does not cover it; nothing elsewhere.
pub proof fn law_board_cells(
    board: Seq<Vec<BoardCellContent>>,
    body: Seq<Position>,
    food: Position,
    x: int,
    y: int,
)
    requires
        shows_board(board, body, food),
        0 <= x < BOARD_WIDTH,
        0 <= y < BOARD_HEIGHT,
    ensures
        board[y]@[x] == BoardCellContent::Snake <==> body.contains(
            Position { x: x as u8, y: y as u8 },
        ),
        board[y]@[x] == BoardCellContent::Food ==> x == food.x && y == food.y,
        x == food.x && y == food.y && !body.contains(food) ==> board[y]@[x]
            == BoardCellContent::Food,
        board[y]@[x] == BoardCellContent::Empty <==> !body.contains(
            Position { x: x as u8, y: y as u8 },
        ) && !(x == food.x && y == food.y),
{
    let p = Position { x: x as u8, y: y as u8 };
    assert(board[y]@.len() == BOARD_WIDTH);
    assert(board[y]@[x] == crate::views::cell_content(body, food, x, y));
    if x == food.x && y == food.y {
        assert(p == food);
    }
}

} // verus!
