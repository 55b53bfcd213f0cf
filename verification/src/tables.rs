//! The rows that the game keeps: users, games, the scheduled cleanup of a
//! closed game, the player whose turn it is, the food, the snake and the
//! direction it moves in; and the rows that a new or restarted game starts
//! with.

use vstd::prelude::*;

use spacetimedb::rand::rngs::StdRng;
use spacetimedb::Identity;

use crate::direction::Direction;
use crate::position::{free_cells, on_board, Position};
use crate::{BOARD_HEIGHT, BOARD_WIDTH};

verus! {

/// The identity of a client: SpacetimeDB's `Identity`, a 256-bit value.
/// Nothing is known of its contents here; it is compared with
/// `same_identity`.
#[verifier::external_type_specification]
#[verifier::external_body]
pub struct ExIdentity(Identity);

/// Whether `a` and `b` are the same identity. This is `Identity`'s `==`,
/// which compares the identities' 256-bit values; the contract claims that
/// it holds exactly when the two values are equal.
#[verifier::external_body]
pub(crate) fn same_identity(a: &Identity, b: &Identity) -> (r: bool)
    ensures
        r == (*a == *b),
{
    *a == *b
}

/// Time between two ticks of a game, in microseconds.
pub const TICK_INTERVAL_MICROS: i64 = 250_000;

/// Time a player keeps the turn, in microseconds.
pub const PLAYER_TURN_DURATION_MICROS: i64 = 2_000_000;

/// Time from closing a game to removing its rows, in microseconds.
pub const CLEANUP_DELAY_MICROS: i64 = 60_000_000;

/// The phase of a game.
#[derive(PartialEq, Eq, Structural, Clone, Copy, Debug)]
pub enum GameState {
    Idle,
    Running,
    GameOver,
    Win,
    Closed,
}

/// When a scheduled row is due: every `micros` microseconds, or once at
/// `micros` microseconds after the Unix epoch.
#[derive(PartialEq, Eq, Structural, Clone, Copy, Debug)]
pub enum Schedule {
    Interval { micros: i64 },
    Time { micros: i64 },
}

/// A client that has connected at least once.
#[derive(Debug, PartialEq)]
pub struct User {
    pub identity: Identity,
    pub name: Option<String>,
    pub online: bool,
    /// The game the user is in; zero for none.
    pub game_id: u64,
}

/// A game, ticked on its schedule while it runs.
#[derive(Debug, PartialEq)]
pub struct Game {
    pub game_id: u64,
    pub scheduled_at: Schedule,
    pub owner: Identity,
    pub name: String,
    pub state: GameState,
    pub joinable: bool,
}

/// The scheduled removal of a closed game.
#[derive(Clone, Copy, Debug, PartialEq, Eq)]
pub struct GameCleanup {
    pub scheduled_id: u64,
    pub scheduled_at: Schedule,
    pub game_id: u64,
}

/// The player who steers the snake of a game, handed on on its schedule.
#[derive(Debug, PartialEq)]
pub struct ActivePlayer {
    pub game_id: u64,
    pub scheduled_at: Schedule,
    pub active_player: Identity,
}

/// The food of a game.
#[derive(Clone, Copy, Debug, PartialEq, Eq)]
pub struct Food {
    pub game_id: u64,
    pub position: Position,
}

/// The snake of a game; its head comes first.
#[derive(Clone, Debug, PartialEq, Eq)]
pub struct Snake {
    pub game_id: u64,
    pub body: Vec<Position>,
}

/// The direction of the last step of a game's snake and the one of its next.
#[derive(Clone, Copy, Debug, PartialEq, Eq)]
pub struct NextDirection {
    pub game_id: u64,
    pub previous: Direction,
    pub next: Direction,
}

/// The body that a new or restarted snake has: three cells in the middle
/// row, the head to the right.
pub open spec fn initial_body() -> Seq<Position> {
    seq![
        Position { x: (BOARD_WIDTH / 2) as u8, y: (BOARD_HEIGHT / 2) as u8 },
        Position { x: (BOARD_WIDTH / 2 - 1) as u8, y: (BOARD_HEIGHT / 2) as u8 },
        Position { x: (BOARD_WIDTH / 2 - 2) as u8, y: (BOARD_HEIGHT / 2) as u8 },
    ]
}

impl Game {
    /// A new idle, joinable game of `owner`, ticked every
    /// `TICK_INTERVAL_MICROS`. Its id is zero until the table assigns one.
    pub fn new(owner: Identity, name: String) -> (r: Game)
        ensures
            r.game_id == 0,
            r.scheduled_at == (Schedule::Interval { micros: TICK_INTERVAL_MICROS }),
            r.owner == owner,
            r.name == name,
            r.state == GameState::Idle,
            r.joinable,
    {
        Game {
            game_id: 0,
            scheduled_at: Schedule::Interval { micros: TICK_INTERVAL_MICROS },
            owner: owner,
            name: name,
            state: GameState::Idle,
            joinable: true,
        }
    }

    /// The first active player of this game: its owner, with a turn of
    /// `PLAYER_TURN_DURATION_MICROS`.
    pub fn provide_active_player(&self) -> (r: ActivePlayer)
        ensures
            r.game_id == self.game_id,
            r.scheduled_at == (Schedule::Interval { micros: PLAYER_TURN_DURATION_MICROS }),
            r.active_player == self.owner,
    {
        ActivePlayer {
            game_id: self.game_id,
            scheduled_at: Schedule::Interval { micros: PLAYER_TURN_DURATION_MICROS },
            active_player: self.owner,
        }
    }

    /// Food for this game on a random free cell of the board, away from
    /// `snake`.
    pub fn provide_food(&self, rng: &mut StdRng, snake: &Snake) -> (r: Food)
        requires
            free_cells(snake.body@).len() > 0,
        ensures
            r.game_id == self.game_id,
            on_board(r.position),
            !snake.body@.contains(r.position),
    {
        let picked = Position::pick_random(rng, &snake.body);
        match picked {
            Some(position) => Food { game_id: self.game_id, position: position },
            None => {
                proof {
                    assert(false);
                }
                Food { game_id: self.game_id, position: Position { x: 0, y: 0 } }
            },
        }
    }

    /// The snake a game starts with: `initial_body()`.
    pub fn provide_snake(&self) -> (r: Snake)
        ensures
            r.game_id == self.game_id,
            r.body@ == initial_body(),
    {
        let mut body: Vec<Position> = Vec::new();
        body.push(Position { x: BOARD_WIDTH / 2, y: BOARD_HEIGHT / 2 });
        body.push(Position { x: BOARD_WIDTH / 2 - 1, y: BOARD_HEIGHT / 2 });
        body.push(Position { x: BOARD_WIDTH / 2 - 2, y: BOARD_HEIGHT / 2 });
        Snake { game_id: self.game_id, body: body }
    }

    /// The directions a game starts with: right, after right.
    pub fn provide_next_direction(&self) -> (r: NextDirection)
        ensures
            r.game_id == self.game_id,
            r.previous == Direction::Right,
            r.next == Direction::Right,
    {
        NextDirection { game_id: self.game_id, previous: Direction::Right, next: Direction::Right }
    }
}

} // verus!
