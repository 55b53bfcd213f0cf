//! What each request does to the rows it reads. Every function here takes the
//! rows that the request reads, and the requester's identity where it
//! matters, and returns the rows to write; an `Err` means that the request
//! fails and writes nothing.

use vstd::prelude::*;

use spacetimedb::rand::rngs::StdRng;
use spacetimedb::Identity;

use crate::direction::{opposite, step, step_fits, step_in_range, Direction};
use crate::position::{
    contains_position, free_cells, lemma_free_cells_contains, on_board, Position,
};
use crate::tables::{
    initial_body, same_identity, ActivePlayer, Food, Game, GameCleanup, GameState, NextDirection,
    Schedule, Snake, User, CLEANUP_DELAY_MICROS, PLAYER_TURN_DURATION_MICROS,
    TICK_INTERVAL_MICROS,
};

verus! {

/// `r` is the failure with message `msg`.
pub open spec fn fails_with<T>(r: Result<T, String>, msg: Seq<char>) -> bool {
    r matches Err(e) && e@ == msg
}

fn message(s: &str) -> (r: String)
    ensures
        r@ == s@,
{
    s.to_owned()
}

/// A row to write: a new one, or a new value for an existing one.
#[derive(Debug, PartialEq)]
pub enum Upsert<T> {
    Insert(T),
    Update(T),
}

/// Sets the name of the requesting user (read as `user`) to `name`.
pub fn set_user_name(user: Option<User>, name: String) -> (r: Result<User, String>)
    ensures
        name@.len() == 0 ==> fails_with(r, "Name must not be empty"@),
        name@.len() != 0 && user is None ==> fails_with(
            r,
            "Cannot set name for unknown user"@,
        ),
        name@.len() != 0 && user is Some ==> r == Ok::<User, String>(
            User { name: Some(name), ..user->0 },
        ),
{
    if name.as_str().is_empty() {
        return Err(message("Name must not be empty"));
    }
    match user {
        Some(user) => Ok(User { name: Some(name), ..user }),
        None => Err(message("Cannot set name for unknown user")),
    }
}

/// A client `sender` connects: its user (read as `user`) goes online, or a
/// new online user without a name and outside any game is created.
pub fn identity_connected(sender: Identity, user: Option<User>) -> (r: Upsert<User>)
    ensures
        user is Some ==> r == Upsert::Update(User { online: true, ..user->0 }),
        user is None ==> r == Upsert::Insert(
            User { identity: sender, name: None, online: true, game_id: 0 },
        ),
{
    match user {
        Some(user) => Upsert::Update(User { online: true, ..user }),
        None => Upsert::Insert(User { name: None, identity: sender, online: true, game_id: 0 }),
    }
}

/// A client disconnects: its user (read as `user`), if any, goes offline.
pub fn identity_disconnected(user: Option<User>) -> (r: Option<User>)
    ensures
        user is Some ==> r == Some(User { online: false, ..user->0 }),
        user is None ==> r is None,
{
    match user {
        Some(user) => Some(User { online: false, ..user }),
        None => None,
    }
}

/// First part of creating a game: the game row to insert for `sender`, who
/// names it `name`. The table assigns its id on insertion.
pub fn create_game(sender: Identity, name: String) -> (r: Result<Game, String>)
    ensures
        name@.len() == 0 ==> fails_with(r, "Name must not be empty"@),
        name@.len() != 0 ==> (r matches Ok(g) && g.game_id == 0 && g.owner == sender && g.name
            == name && g.state == GameState::Idle && g.joinable && g.scheduled_at == (
        Schedule::Interval { micros: TICK_INTERVAL_MICROS })),
{
    if name.as_str().is_empty() {
        return Err(message("Name must not be empty"));
    }
    Ok(Game::new(sender, name))
}

/// The rows that a new game starts with, and its owner's updated user row.
#[derive(Debug, PartialEq)]
pub struct GameRecords {
    pub active_player: ActivePlayer,
    pub snake: Snake,
    pub food: Food,
    pub next_direction: NextDirection,
    pub user: User,
}

/// Second part of creating a game, once `game` has its id: the rows that
/// the game starts with, and the creator's user (read as `user`) moved into
/// the game. Fails when the creator has no user.
pub fn create_game_records(rng: &mut StdRng, game: &Game, user: Option<User>) -> (r: Result<
    GameRecords,
    String,
>)
    ensures
        user is None ==> fails_with(r, "No user"@),
        user is Some ==> (r matches Ok(rec) && {
            &&& rec.active_player == (ActivePlayer {
                game_id: game.game_id,
                scheduled_at: Schedule::Interval { micros: PLAYER_TURN_DURATION_MICROS },
                active_player: game.owner,
            })
            &&& rec.snake.game_id == game.game_id
            &&& rec.snake.body@ == initial_body()
            &&& rec.food.game_id == game.game_id
            &&& on_board(rec.food.position)
            &&& !initial_body().contains(rec.food.position)
            &&& rec.next_direction == (NextDirection {
                game_id: game.game_id,
                previous: Direction::Right,
                next: Direction::Right,
            })
            &&& rec.user == (User { game_id: game.game_id, ..user->0 })
        }),
{
    let active_player = game.provide_active_player();
    let snake = game.provide_snake();
    proof {
        lemma_initial_body_leaves_room();
    }
    let food = game.provide_food(rng, &snake);
    let next_direction = game.provide_next_direction();
    match user {
        Some(user) => Ok(
            GameRecords {
                active_player,
                snake,
                food,
                next_direction,
                user: User { game_id: game.game_id, ..user },
            },
        ),
        None => Err(message("No user")),
    }
}

/// The initial snake leaves free cells on the board.
pub proof fn lemma_initial_body_leaves_room()
    ensures
        free_cells(initial_body()).len() > 0,
        free_cells(initial_body()).contains(Position { x: 0, y: 0 }),
{
    let p = Position { x: 0, y: 0 };
    assert(!initial_body().contains(p)) by {
        if initial_body().contains(p) {
            let i = choose|i: int| 0 <= i < initial_body().len() && initial_body()[i] == p;
        }
    }
    lemma_free_cells_contains(initial_body(), p);
}

/// The requesting user (read as `user`), if any, joins game `game_id`.
pub fn join_game(game_id: u64, user: Option<User>) -> (r: Option<User>)
    ensures
        user is Some ==> r == Some(User { game_id: game_id, ..user->0 }),
        user is None ==> r is None,
{
    match user {
        Some(user) => Some(User { game_id: game_id, ..user }),
        None => None,
    }
}

/// The rows that one tick of a game writes.
#[derive(Debug, PartialEq)]
pub struct TickWrites {
    pub next_direction: Option<NextDirection>,
    pub game: Option<Game>,
    pub food: Option<Food>,
    pub snake: Option<Snake>,
}

/// The rows read by a tick are such that the step of its head stays within
/// `i8` arithmetic.
pub open spec fn tick_fits(game: Option<Game>, snake: Option<Snake>, nd: Option<NextDirection>) -> bool {
    match (game, snake, nd) {
        (Some(g), Some(s), Some(d)) => g.state == GameState::Running && s.body@.len() > 0
            ==> step_fits(d.next, s.body@[0]),
        _ => true,
    }
}

/// Whether the rows read by a tick meet `tick_fits`.
pub fn tick_can_step(game: &Option<Game>, snake: &Option<Snake>, nd: &Option<NextDirection>) -> (r: bool)
    ensures
        r == tick_fits(*game, *snake, *nd),
{
    match (game, snake, nd) {
        (Some(g), Some(s), Some(d)) => {
            if g.state == GameState::Running && s.body.len() > 0 {
                step_in_range(d.next, &s.body[0])
            } else {
                true
            }
        },
        _ => true,
    }
}

/// The cells that the snake `s` covers after it moves its head to `head`,
/// before its tail follows.
pub open spec fn grown_body(s: Snake, head: Position) -> Seq<Position> {
    seq![head] + s.body@
}

/// What a tick of game `game_id` may write, given the rows it reads: the
/// game, its snake, its directions and its food.
///
/// A game that does not run is left alone. Otherwise the last direction
/// becomes the next one and the head moves one step in it. A head that
/// lands on the body ends the game. A head that lands on the food grows the
/// snake and moves the food to a random free cell of the board; when no
/// cell is free the game is won and the snake stays as it was. Otherwise the
/// tail follows the head.
pub open spec fn tick_allows(
    game_id: u64,
    game: Option<Game>,
    snake: Option<Snake>,
    nd: Option<NextDirection>,
    food: Option<Food>,
    r: Result<TickWrites, String>,
) -> bool {
    match game {
        None => fails_with(r, "no game"@),
        Some(g) => if g.state != GameState::Running {
            r == Ok::<TickWrites, String>(
                TickWrites { next_direction: None, game: None, food: None, snake: None },
            )
        } else {
            match snake {
                None => fails_with(r, "No snake for game"@),
                Some(s) => if s.body@.len() == 0 {
                    fails_with(r, "Snake body must not be empty"@)
                } else {
                    match nd {
                        None => fails_with(r, "No next direction for game"@),
                        Some(d) => {
                            let head = step(d.next, s.body@[0]);
                            let turned = NextDirection { previous: d.next, ..d };
                            if s.body@.contains(head) {
                                r == Ok::<TickWrites, String>(
                                    TickWrites {
                                        next_direction: Some(turned),
                                        game: Some(Game { state: GameState::GameOver, ..g }),
                                        food: None,
                                        snake: None,
                                    },
                                )
                            } else {
                                match food {
                                    None => fails_with(r, "No food for game"@),
                                    Some(f) => {
                                        let grown = grown_body(s, head);
                                        r matches Ok(w) && w.next_direction == Some(turned) && if f.position == head {
                                            if free_cells(grown).len() == 0 {
                                                &&& w.game == Some(Game { state: GameState::Win, ..g })
                                                &&& w.food is None
                                                &&& w.snake is None
                                            } else {
                                                &&& w.game is None
                                                &&& w.food matches Some(nf) && nf.game_id == game_id
                                                    && on_board(nf.position) && !grown.contains(nf.position)
                                                &&& w.snake matches Some(ns) && ns.game_id == s.game_id
                                                    && ns.body@ == grown
                                            }
                                        } else {
                                            &&& w.game is None
                                            &&& w.food is None
                                            &&& w.snake matches Some(ns) && ns.game_id == s.game_id
                                                && ns.body@ == grown.drop_last()
                                        }
                                    },
                                }
                            }
                        },
                    }
                }
            }
        },
    }
}

/// One tick of game `game_id`, given the rows it reads: the game, its
/// snake, its directions and its food. See `tick_allows`.
pub fn game_tick(
    rng: &mut StdRng,
    game_id: u64,
    game: Option<Game>,
    snake: Option<Snake>,
    next_direction: Option<NextDirection>,
    food: Option<Food>,
) -> (r: Result<TickWrites, String>)
    requires
        tick_fits(game, snake, next_direction),
    ensures
        tick_allows(game_id, game, snake, next_direction, food, r),
{
    let ghost old_snake = snake;
    let game = match game {
        Some(g) => g,
        None => return Err(message("no game")),
    };
    if game.state != GameState::Running {
        return Ok(TickWrites { next_direction: None, game: None, food: None, snake: None });
    }
    let snake = match snake {
        Some(s) => s,
        None => return Err(message("No snake for game")),
    };
    let Snake { game_id: snake_game_id, body } = snake;
    let mut next_body = body;
    if next_body.len() == 0 {
        return Err(message("Snake body must not be empty"));
    }
    let next_direction = match next_direction {
        Some(d) => d,
        None => return Err(message("No next direction for game")),
    };
    let turned = NextDirection { previous: next_direction.next, ..next_direction };
    let next_head = next_direction.next.apply_to(&next_body[0]);
    if contains_position(&next_body, &next_head) {
        return Ok(
            TickWrites {
                next_direction: Some(turned),
                game: Some(Game { state: GameState::GameOver, ..game }),
                food: None,
                snake: None,
            },
        );
    }
    next_body.insert(0, next_head);
    proof {
        assert(next_body@ =~= grown_body(old_snake->0, next_head));
    }
    let food = match food {
        Some(f) => f,
        None => return Err(message("No food for game")),
    };
    if food.position == next_head {
        match Position::pick_random(rng, &next_body) {
            Some(next_food_position) => Ok(
                TickWrites {
                    next_direction: Some(turned),
                    game: None,
                    food: Some(Food { game_id: game_id, position: next_food_position }),
                    snake: Some(Snake { game_id: snake_game_id, body: next_body }),
                },
            ),
            None => Ok(
                TickWrites {
                    next_direction: Some(turned),
                    game: Some(Game { state: GameState::Win, ..game }),
                    food: None,
                    snake: None,
                },
            ),
        }
    } else {
        next_body.pop();
        Ok(
            TickWrites {
                next_direction: Some(turned),
                game: None,
                food: None,
                snake: Some(Snake { game_id: snake_game_id, body: next_body }),
            },
        )
    }
}

/// `players` holds exactly one user, and that user is `current`.
pub open spec fn only_player_is(players: Seq<User>, current: Identity) -> bool {
    players.len() == 1 && players[0].identity == current
}

/// `players` holds a user other than `current`.
pub open spec fn has_other_player(players: Seq<User>, current: Identity) -> bool {
    exists|i: int| 0 <= i < players.len() && players[i].identity != current
}

/// The rows read by a hand-over are such that a new player can be found
/// whenever one is looked for.
pub open spec fn handover_possible(ap: ActivePlayer, game: Option<Game>, players: Seq<User>) -> bool {
    (game is Some && game->0.state == GameState::Running) && !only_player_is(
        players,
        ap.active_player,
    ) ==> has_other_player(players, ap.active_player)
}

/// What a hand-over of the turn may write, given the active player row `ap`,
/// its game and the online users in the game: nothing while the game does
/// not run or while its active player is its only player; otherwise a new
/// active player, chosen among the others.
pub open spec fn handover_allows(
    ap: ActivePlayer,
    game: Option<Game>,
    players: Seq<User>,
    r: Result<Option<ActivePlayer>, String>,
) -> bool {
    match game {
        None => fails_with(r, "no game"@),
        Some(g) => if g.state != GameState::Running || only_player_is(players, ap.active_player) {
            r == Ok::<Option<ActivePlayer>, String>(None)
        } else {
            r matches Ok(Some(next)) && next.game_id == ap.game_id && next.scheduled_at
                == ap.scheduled_at && next.active_player != ap.active_player && is_player(
                players,
                next.active_player,
            ) && others_of(players, ap.active_player).contains(next.active_player)
        },
    }
}

/// `id` is the identity of one of `players`.
pub open spec fn is_player(players: Seq<User>, id: Identity) -> bool {
    exists|i: int| 0 <= i < players.len() && players[i].identity == id
}

/// Whether the rows read by a hand-over meet `handover_possible`.
pub fn handover_is_possible(ap: &ActivePlayer, game: &Option<Game>, players: &Vec<User>) -> (r: bool)
    ensures
        r == handover_possible(*ap, *game, players@),
{
    let running = match game {
        Some(g) => g.state == GameState::Running,
        None => false,
    };
    if !running {
        return true;
    }
    if players.len() == 1 && same_identity(&players[0].identity, &ap.active_player) {
        return true;
    }
    let others = other_players(players, &ap.active_player);
    proof {
        if others@.len() > 0 {
            assert(is_player(players@, others@[0]));
        }
    }
    others.len() > 0
}

/// The identities of `players` other than `current`, in order: the list the
/// new active player is drawn from.
pub open spec fn others_of(players: Seq<User>, current: Identity) -> Seq<Identity>
    decreases players.len(),
{
    if players.len() == 0 {
        Seq::empty()
    } else {
        let rest = others_of(players.drop_last(), current);
        if players.last().identity != current {
            rest.push(players.last().identity)
        } else {
            rest
        }
    }
}

/// The identities of `players` other than `current`, in order.
fn other_players(players: &Vec<User>, current: &Identity) -> (r: Vec<Identity>)
    ensures
        r@ == others_of(players@, *current),
        forall|j: int|
            0 <= j < r@.len() ==> #[trigger] r@[j] != *current && is_player(players@, r@[j]),
        has_other_player(players@, *current) ==> r@.len() > 0,
{
    let mut r: Vec<Identity> = Vec::new();
    let mut i: usize = 0;
    while i < players.len()
        invariant
            i <= players.len(),
            r@ == others_of(players@.take(i as int), *current),
            forall|j: int|
                0 <= j < r@.len() ==> #[trigger] r@[j] != *current && is_player(players@, r@[j]),
            (exists|k: int| 0 <= k < i && players@[k].identity != *current) ==> r@.len() > 0,
        decreases players.len() - i,
    {
        let id = players[i].identity;
        proof {
            assert(players@.take(i + 1).drop_last() =~= players@.take(i as int));
        }
        if !same_identity(&id, current) {
            r.push(id);
            proof {
                let j = r@.len() - 1;
                assert(players@[i as int].identity == r@[j]);
            }
        }
        i = i + 1;
    }
    proof {
        assert(players@.take(players@.len() as int) =~= players@);
    }
    r
}

/// Hands the turn of a game on, given its active player row, the game (as
/// read) and the online users in the game. The new active player is drawn
/// at random, with equal chances, among the players other than the current
/// one.
pub fn pick_next_active_player(
    rng: &mut StdRng,
    active_player: ActivePlayer,
    game: Option<Game>,
    players: &Vec<User>,
) -> (r: Result<Option<ActivePlayer>, String>)
    requires
        handover_possible(active_player, game, players@),
    ensures
        handover_allows(active_player, game, players@, r),
{
    let game = match game {
        Some(g) => g,
        None => return Err(message("no game")),
    };
    if game.state != GameState::Running {
        return Ok(None);
    }
    if players.len() == 1 && same_identity(&players[0].identity, &active_player.active_player) {
        return Ok(None);
    }
    let others = other_players(players, &active_player.active_player);
    match crate::position::choose_one(rng, &others) {
        Some(next_player_id) => Ok(
            Some(ActivePlayer { active_player: next_player_id, ..active_player }),
        ),
        None => {
            proof {
                assert(false);
            }
            Ok(None)
        },
    }
}

/// What a steering request of `sender` in direction `direction` may write,
/// given the game's active player row and directions: only the active
/// player may steer, and a turn straight back against the last direction
/// is ignored.
pub open spec fn steer_allows(
    sender: Identity,
    direction: Direction,
    active_player: Option<ActivePlayer>,
    next_direction: Option<NextDirection>,
    r: Result<Option<NextDirection>, String>,
) -> bool {
    match active_player {
        None => fails_with(r, "no active player"@),
        Some(ap) => if ap.active_player != sender {
            fails_with(r, "Not active player"@)
        } else {
            match next_direction {
                None => fails_with(r, "No next direction"@),
                Some(d) => if direction == opposite(d.previous) {
                    r == Ok::<Option<NextDirection>, String>(None)
                } else {
                    r == Ok::<Option<NextDirection>, String>(
                        Some(NextDirection { next: direction, ..d }),
                    )
                },
            }
        },
    }
}

/// A steering request of `sender` in direction `direction`, given the
/// game's active player row and directions. See `steer_allows`.
pub fn set_next_direction(
    sender: Identity,
    direction: Direction,
    active_player: Option<ActivePlayer>,
    next_direction: Option<NextDirection>,
) -> (r: Result<Option<NextDirection>, String>)
    ensures
        steer_allows(sender, direction, active_player, next_direction, r),
{
    let active_player = match active_player {
        Some(ap) => ap,
        None => return Err(message("no active player")),
    };
    if !same_identity(&active_player.active_player, &sender) {
        return Err(message("Not active player"));
    }
    let next_direction = match next_direction {
        Some(d) => d,
        None => return Err(message("No next direction")),
    };
    if next_direction.previous.is_opposite(direction) {
        return Ok(None);
    }
    Ok(Some(NextDirection { next: direction, ..next_direction }))
}

/// The rows that a restart writes.
#[derive(Debug, PartialEq)]
pub struct RestartWrites {
    pub snake: Option<Snake>,
    pub food: Option<Food>,
    pub next_direction: Option<NextDirection>,
    pub game: Option<Game>,
}

/// What a restart by `sender` may write, given the game as read. A running
/// or closed game cannot be restarted; one of another owner is left alone.
/// The owner's game runs again; unless it was idle its snake, food and
/// directions start afresh.
pub open spec fn restart_allows(sender: Identity, game: Option<Game>, r: Result<RestartWrites, String>) -> bool {
    match game {
        None => r == Ok::<RestartWrites, String>(
            RestartWrites { snake: None, food: None, next_direction: None, game: None },
        ),
        Some(g) => if g.state == GameState::Running || g.state == GameState::Closed {
            fails_with(r, "Game cannot be started right now!"@)
        } else if g.owner != sender {
            r == Ok::<RestartWrites, String>(
                RestartWrites { snake: None, food: None, next_direction: None, game: None },
            )
        } else {
            r matches Ok(w) && w.game == Some(Game { state: GameState::Running, ..g }) && if g.state
                == GameState::Idle {
                &&& w.snake is None
                &&& w.food is None
                &&& w.next_direction is None
            } else {
                &&& w.snake matches Some(s) && s.game_id == g.game_id && s.body@ == initial_body()
                &&& w.food matches Some(f) && f.game_id == g.game_id && on_board(f.position)
                    && !initial_body().contains(f.position)
                &&& w.next_direction == Some(
                    NextDirection {
                        game_id: g.game_id,
                        previous: Direction::Right,
                        next: Direction::Right,
                    },
                )
            }
        },
    }
}

/// A restart of a game by `sender`, given the game as read. See
/// `restart_allows`.
pub fn restart_game(rng: &mut StdRng, sender: Identity, game: Option<Game>) -> (r: Result<
    RestartWrites,
    String,
>)
    ensures
        restart_allows(sender, game, r),
{
    let game = match game {
        Some(g) => g,
        None => return Ok(
            RestartWrites { snake: None, food: None, next_direction: None, game: None },
        ),
    };
    if game.state == GameState::Running || game.state == GameState::Closed {
        return Err(message("Game cannot be started right now!"));
    }
    if !same_identity(&game.owner, &sender) {
        return Ok(RestartWrites { snake: None, food: None, next_direction: None, game: None });
    }
    let mut writes = RestartWrites { snake: None, food: None, next_direction: None, game: None };
    if game.state != GameState::Idle {
        let snake = game.provide_snake();
        proof {
            lemma_initial_body_leaves_room();
        }
        let food = game.provide_food(rng, &snake);
        let next_direction = game.provide_next_direction();
        writes = RestartWrites {
            snake: Some(snake),
            food: Some(food),
            next_direction: Some(next_direction),
            game: None,
        };
    }
    writes.game = Some(Game { state: GameState::Running, ..game });
    Ok(writes)
}

/// The close request of `sender` at `now_micros` (microseconds since the
/// Unix epoch) can be carried out without overflow.
pub open spec fn close_fits(sender: Identity, now_micros: i64, game: Option<Game>) -> bool {
    game is Some && game->0.owner == sender ==> now_micros + CLEANUP_DELAY_MICROS <= i64::MAX
}

/// A close request of `sender` at `now_micros` (microseconds since the Unix
/// epoch), given the game as read: the owner's game is closed and no longer
/// joinable, and its removal is scheduled `CLEANUP_DELAY_MICROS` later.
pub fn close_game(sender: Identity, now_micros: i64, game: Option<Game>) -> (r: Option<
    (Game, GameCleanup),
>)
    requires
        close_fits(sender, now_micros, game),
    ensures
        game is Some && game->0.owner == sender ==> r == Some(
            (
                Game { state: GameState::Closed, joinable: false, ..game->0 },
                GameCleanup {
                    scheduled_id: 0,
                    scheduled_at: Schedule::Time { micros: (now_micros + CLEANUP_DELAY_MICROS) as i64 },
                    game_id: game->0.game_id,
                },
            ),
        ),
        !(game is Some && game->0.owner == sender) ==> r is None,
{
    match game {
        Some(game) => {
            if same_identity(&game.owner, &sender) {
                let game_id = game.game_id;
                Some(
                    (
                        Game { state: GameState::Closed, joinable: false, ..game },
                        GameCleanup {
                            scheduled_id: 0,
                            scheduled_at: Schedule::Time { micros: now_micros + CLEANUP_DELAY_MICROS },
                            game_id: game_id,
                        },
                    ),
                )
            } else {
                None
            }
        },
        None => None,
    }
}

/// First part of leaving a game: given the game as read and the user of
/// `sender`, the user row to write. The owner cannot leave.
pub fn exit_game(sender: Identity, game: Option<Game>, user: Option<User>) -> (r: Result<
    User,
    String,
>)
    ensures
        game is None ==> fails_with(r, "no game"@),
        game is Some && game->0.owner == sender ==> fails_with(
            r,
            "cannot exit the game as the owner of the game"@,
        ),
        game is Some && game->0.owner != sender && user is None ==> fails_with(r, "no user"@),
        game is Some && game->0.owner != sender && user is Some ==> r == Ok::<User, String>(
            User { game_id: 0, ..user->0 },
        ),
{
    let game = match game {
        Some(g) => g,
        None => return Err(message("no game")),
    };
    if same_identity(&game.owner, &sender) {
        return Err(message("cannot exit the game as the owner of the game"));
    }
    match user {
        Some(user) => Ok(User { game_id: 0, ..user }),
        None => Err(message("no user")),
    }
}

/// Second part of leaving a game, once the user row is written: when
/// `sender` had the turn, it is handed on (see `pick_next_active_player`),
/// given the game's active player row, the game and the online users still
/// in it.
pub fn exit_game_handover(
    rng: &mut StdRng,
    sender: Identity,
    active_player: Option<ActivePlayer>,
    game: Option<Game>,
    players: &Vec<User>,
) -> (r: Result<Option<ActivePlayer>, String>)
    requires
        active_player is Some && active_player->0.active_player == sender ==> handover_possible(
            active_player->0,
            game,
            players@,
        ),
    ensures
        active_player is Some && active_player->0.active_player == sender ==> handover_allows(
            active_player->0,
            game,
            players@,
            r,
        ),
        !(active_player is Some && active_player->0.active_player == sender) ==> r == Ok::<
            Option<ActivePlayer>,
            String,
        >(None),
{
    match active_player {
        Some(ap) => {
            if same_identity(&ap.active_player, &sender) {
                pick_next_active_player(rng, ap, game, players)
            } else {
                Ok(None)
            }
        },
        None => Ok(None),
    }
}

/// The user `u` outside any game.
pub open spec fn without_game(u: User) -> User {
    User { game_id: 0, ..u }
}

/// The user rows that the removal of a closed game writes, given the users
/// in the game: each leaves the game. The game's other rows are deleted.
pub fn remove_closed_games(game_cleanup: &GameCleanup, players: Vec<User>) -> (r: Vec<User>)
    requires
        forall|i: int| 0 <= i < players@.len() ==> (#[trigger] players@[i]).game_id == game_cleanup.game_id,
    ensures
        r@ == players@.map_values(|u: User| without_game(u)),
{
    let ghost all = players@;
    let mut rest = players;
    let mut r: Vec<User> = Vec::new();
    while rest.len() > 0
        invariant
            rest@ == all.skip(r@.len() as int),
            r@ == all.take(r@.len() as int).map_values(|u: User| without_game(u)),
            r@.len() <= all.len(),
        decreases rest.len(),
    {
        let player = rest.remove(0);
        let ghost k = r@.len() as int;
        r.push(User { game_id: 0u64, ..player });
        proof {
            assert(all.take(k + 1) =~= all.take(k).push(all[k]));
            assert(rest@ =~= all.skip(k + 1));
            assert(r@ =~= all.take(k + 1).map_values(|u: User| without_game(u)));
        }
    }
    proof {
        assert(all.take(all.len() as int) =~= all);
    }
    r
}

/// A speed change of a game to a tick every `interval_ms` milliseconds can
/// be carried out: the interval fits in `i64` microseconds.
pub open spec fn speed_fits(interval_ms: u64) -> bool {
    interval_ms * 1000 <= i64::MAX
}

/// The game `g` ticking every `interval_ms` milliseconds.
pub open spec fn with_speed(g: Game, interval_ms: u64) -> Game {
    Game { scheduled_at: Schedule::Interval { micros: (interval_ms * 1000) as i64 }, ..g }
}

/// A speed change of a game, given the game as read: it ticks every
/// `interval_ms` milliseconds from then on.
pub fn update_game_speed(game: Option<Game>, interval_ms: u64) -> (r: Option<Game>)
    requires
        speed_fits(interval_ms),
    ensures
        game is Some ==> r == Some(with_speed(game->0, interval_ms)),
        game is None ==> r is None,
{
    match game {
        Some(game) => {
            let micros: i64 = (interval_ms * 1000) as i64;
            Some(Game { scheduled_at: Schedule::Interval { micros: micros }, ..game })
        },
        None => None,
    }
}

} // verus!
