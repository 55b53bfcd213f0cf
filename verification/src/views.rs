//! The read models that players subscribe to: the games they can join, and
//! the game they are in with its players and its board.

use vstd::prelude::*;

use spacetimedb::Identity;

use crate::position::{contains_position, Position};
use crate::tables::{same_identity, ActivePlayer, Food, Game, GameState, Snake, User};
use crate::{BOARD_HEIGHT, BOARD_WIDTH};

verus! {

/// The name shown for a user who has not set one.
pub open spec fn anonymous_name() -> Seq<char> {
    "Annonymous"@
}

fn anonymous() -> (r: String)
    ensures
        r@ == anonymous_name(),
{
    "Annonymous".to_owned()
}

/// The name shown for a user with name `name`.
pub open spec fn shown_name(name: Option<String>) -> Seq<char> {
    match name {
        Some(n) => n@,
        None => anonymous_name(),
    }
}

fn name_or_anonymous(name: &Option<String>) -> (r: String)
    ensures
        r@ == shown_name(*name),
{
    match name {
        Some(n) => n.clone(),
        None => anonymous(),
    }
}

/// What a cell of the board shows.
#[derive(PartialEq, Eq, Structural, Clone, Copy, Debug)]
pub enum BoardCellContent {
    Empty,
    Snake,
    Food,
}

/// A player of the game a user is in.
#[derive(Debug, PartialEq)]
pub struct PlayerDto {
    pub identity: Identity,
    pub name: String,
    pub is_owner: bool,
    pub is_active: bool,
}

/// A game that can be joined.
#[derive(Debug, PartialEq)]
pub struct JoinableGameDto {
    pub game_id: u64,
    pub name: String,
    pub owner_name: String,
    pub player_count: u8,
}

/// The game a user is in.
#[derive(Debug, PartialEq)]
pub struct ActiveGameDto {
    pub game_id: u64,
    pub name: String,
    pub score: u32,
    pub state: GameState,
    pub players: Vec<PlayerDto>,
    pub board: Vec<Vec<BoardCellContent>>,
}

/// A joinable game as read: the game, its owner's user and the number of
/// users in it.
pub struct JoinableCandidate {
    pub game: Game,
    pub owner: Option<User>,
    pub player_count: usize,
}

/// The candidate `c` has an owner.
pub open spec fn has_owner(c: JoinableCandidate) -> bool {
    c.owner is Some
}

/// `d` shows the candidate `c`: its id, name, owner's name and player count
/// (which wraps at 256).
pub open spec fn shows_joinable(c: JoinableCandidate, d: JoinableGameDto) -> bool {
    &&& d.game_id == c.game.game_id
    &&& d.name == c.game.name
    &&& d.owner_name@ == shown_name(c.owner->0.name)
    &&& d.player_count == c.player_count % 256
}

/// The candidates that are listed as joinable, in order.
pub open spec fn owned_candidates(candidates: Seq<JoinableCandidate>) -> Seq<JoinableCandidate> {
    candidates.filter(|c: JoinableCandidate| has_owner(c))
}

/// `r` lists the candidates `candidates`: one entry per listed candidate, in
/// order, each showing it.
pub open spec fn joinable_listing(candidates: Seq<JoinableCandidate>, r: Seq<JoinableGameDto>) -> bool {
    &&& r.len() == owned_candidates(candidates).len()
    &&& forall|j: int|
        0 <= j < r.len() ==> shows_joinable(owned_candidates(candidates)[j], #[trigger] r[j])
}

/// The joinable games, given each joinable game with its owner's user and
/// its number of users: one entry per game whose owner has a user, in order.
pub fn joinable_game(candidates: Vec<JoinableCandidate>) -> (r: Vec<JoinableGameDto>)
    ensures
        joinable_listing(candidates@, r@),
{
    let ghost all = candidates@;
    let mut rest = candidates;
    let mut r: Vec<JoinableGameDto> = Vec::new();
    let ghost mut k: int = 0;
    while rest.len() > 0
        invariant
            0 <= k <= all.len(),
            rest@ == all.skip(k),
            joinable_listing(all.take(k), r@),
        decreases rest.len(),
    {
        let c = rest.remove(0);
        proof {
            reveal(Seq::filter);
            assert(all.take(k + 1).drop_last() =~= all.take(k));
            assert(all.take(k + 1).last() == all[k]);
            assert(all[k] == c);
            assert(rest@ =~= all.skip(k + 1));
        }
        let JoinableCandidate { game, owner, player_count } = c;
        match owner {
            Some(owner) => {
                let count: u8 = (player_count % 256) as u8;
                r.push(
                    JoinableGameDto {
                        game_id: game.game_id,
                        name: game.name,
                        owner_name: name_or_anonymous(&owner.name),
                        player_count: count,
                    },
                );
            },
            None => {},
        }
        proof {
            k = k + 1;
        }
    }
    proof {
        assert(all.take(all.len() as int) =~= all);
    }
    r
}

/// What the board shows at column `x`, row `y`: the snake over the food
/// over nothing.
pub open spec fn cell_content(body: Seq<Position>, food: Position, x: int, y: int) -> BoardCellContent {
    let p = Position { x: x as u8, y: y as u8 };
    if body.contains(p) {
        BoardCellContent::Snake
    } else if food == p {
        BoardCellContent::Food
    } else {
        BoardCellContent::Empty
    }
}

/// `board` is the board of snake body `body` and food at `food`: one row per
/// `y`, one cell per `x` in each row.
pub open spec fn shows_board(board: Seq<Vec<BoardCellContent>>, body: Seq<Position>, food: Position) -> bool {
    &&& board.len() == BOARD_HEIGHT
    &&& forall|y: int|
        0 <= y < BOARD_HEIGHT ==> {
            &&& (#[trigger] board[y])@.len() == BOARD_WIDTH
            &&& forall|x: int| 0 <= x < BOARD_WIDTH ==> board[y]@[x] == cell_content(body, food, x, y)
        }
}

fn board_row(body: &Vec<Position>, food: &Position, y: u8) -> (r: Vec<BoardCellContent>)
    ensures
        r@.len() == BOARD_WIDTH,
        forall|x: int| 0 <= x < BOARD_WIDTH ==> r@[x] == cell_content(body@, *food, x, y as int),
{
    let mut r: Vec<BoardCellContent> = Vec::new();
    let mut x: u8 = 0;
    while x < BOARD_WIDTH
        invariant
            x <= BOARD_WIDTH,
            r@.len() == x,
            forall|i: int| 0 <= i < x ==> r@[i] == cell_content(body@, *food, i, y as int),
        decreases BOARD_WIDTH - x,
    {
        let pos = Position { x, y };
        let cell = if contains_position(body, &pos) {
            BoardCellContent::Snake
        } else if *food == pos {
            BoardCellContent::Food
        } else {
            BoardCellContent::Empty
        };
        r.push(cell);
        x = x + 1;
    }
    r
}

fn board_of(body: &Vec<Position>, food: &Position) -> (r: Vec<Vec<BoardCellContent>>)
    ensures
        shows_board(r@, body@, *food),
{
    let mut r: Vec<Vec<BoardCellContent>> = Vec::new();
    let mut y: u8 = 0;
    while y < BOARD_HEIGHT
        invariant
            y <= BOARD_HEIGHT,
            r@.len() == y,
            forall|j: int|
                0 <= j < y ==> {
                    &&& (#[trigger] r@[j])@.len() == BOARD_WIDTH
                    &&& forall|x: int|
                        0 <= x < BOARD_WIDTH ==> r@[j]@[x] == cell_content(body@, *food, x, j)
                },
        decreases BOARD_HEIGHT - y,
    {
        let row = board_row(body, food, y);
        r.push(row);
        y = y + 1;
    }
    r
}

/// `d` shows the user `p` as a player of game `g` whose turn belongs to
/// `active`.
pub open spec fn shows_player(p: User, g: Game, active: Identity, d: PlayerDto) -> bool {
    &&& d.identity == p.identity
    &&& d.name@ == shown_name(p.name)
    &&& d.is_active == (active == p.identity)
    &&& d.is_owner == (g.owner == p.identity)
}

fn players_of(players: &Vec<User>, game: &Game, active: &Identity) -> (r: Vec<PlayerDto>)
    ensures
        r@.len() == players@.len(),
        forall|i: int| 0 <= i < players@.len() ==> shows_player(players@[i], *game, *active, #[trigger] r@[i]),
{
    let mut r: Vec<PlayerDto> = Vec::new();
    let mut i: usize = 0;
    while i < players.len()
        invariant
            i <= players.len(),
            r@.len() == i,
            forall|j: int| 0 <= j < i ==> shows_player(players@[j], *game, *active, #[trigger] r@[j]),
        decreases players.len() - i,
    {
        let p = &players[i];
        r.push(
            PlayerDto {
                identity: p.identity,
                name: name_or_anonymous(&p.name),
                is_active: same_identity(active, &p.identity),
                is_owner: same_identity(&game.owner, &p.identity),
            },
        );
        i = i + 1;
    }
    r
}

/// The rows read for the game view are such that its score can be computed:
/// when every row is there, the snake's length, taken modulo 2^32, is at
/// least three.
pub open spec fn score_fits(
    user: Option<User>,
    game: Option<Game>,
    snake: Option<Snake>,
    food: Option<Food>,
    active_player: Option<ActivePlayer>,
) -> bool {
    (user is Some && game is Some && snake is Some && food is Some && active_player is Some)
        ==> snake->0.body@.len() % 0x1_0000_0000 >= 3
}

/// The game the requesting user is in, given the rows read for it: the
/// user, the game, the users in it, its snake, its food and its active
/// player. Nothing when any of these rows is missing.
pub fn active_game(
    user: Option<User>,
    game: Option<Game>,
    players: &Vec<User>,
    snake: Option<Snake>,
    food: Option<Food>,
    active_player: Option<ActivePlayer>,
) -> (r: Option<ActiveGameDto>)
    requires
        score_fits(user, game, snake, food, active_player),
    ensures
        (user is None || game is None || snake is None || food is None || active_player is None)
            <==> r is None,
        r matches Some(d) ==> {
            let g = game->0;
            let s = snake->0;
            &&& d.game_id == g.game_id
            &&& d.name == g.name
            &&& d.score == s.body@.len() % 0x1_0000_0000 - 3
            &&& d.state == g.state
            &&& d.players@.len() == players@.len()
            &&& forall|i: int|
                0 <= i < players@.len() ==> shows_player(
                    players@[i],
                    g,
                    active_player->0.active_player,
                    #[trigger] d.players@[i],
                )
            &&& shows_board(d.board@, s.body@, food->0.position)
        },
{
    if user.is_none() {
        return None;
    }
    let game = match game {
        Some(g) => g,
        None => return None,
    };
    let snake = match snake {
        Some(s) => s,
        None => return None,
    };
    let food = match food {
        Some(f) => f,
        None => return None,
    };
    let active_player = match active_player {
        Some(a) => a,
        None => return None,
    };
    let len = snake.body.len();
    let len64: u64 = len as u64;
    let len32: u32 = (len64 % 0x1_0000_0000u64) as u32;
    let player_dtos = players_of(players, &game, &active_player.active_player);
    let board = board_of(&snake.body, &food.position);
    Some(
        ActiveGameDto {
            game_id: game.game_id,
            name: game.name,
            score: len32 - 3,
            state: game.state,
            players: player_dtos,
            board: board,
        },
    )
}

} // verus!
