use snake_online::direction::Direction;
use snake_online::position::{board_positions, Position};
use snake_online::reducers::{
    close_game, create_game, create_game_records, exit_game, exit_game_handover, game_tick,
    identity_connected, identity_disconnected, join_game, pick_next_active_player,
    remove_closed_games, restart_game, set_next_direction, set_user_name, update_game_speed,
    Upsert,
};
use snake_online::tables::{
    ActivePlayer, Food, Game, GameCleanup, GameState, NextDirection, Schedule, Snake, User,
};
use spacetimedb::rand::rngs::StdRng;
use spacetimedb::rand::SeedableRng;
use spacetimedb::Identity;

fn id(n: u8) -> Identity {
    Identity::from_byte_array([n; 32])
}

fn pos(x: u8, y: u8) -> Position {
    Position { x, y }
}

fn rng() -> StdRng {
    StdRng::seed_from_u64(42)
}

fn user(n: u8, game_id: u64, online: bool) -> User {
    User { identity: id(n), name: None, online, game_id }
}

fn game(game_id: u64, owner: u8, state: GameState) -> Game {
    Game {
        game_id,
        scheduled_at: Schedule::Interval { micros: 250_000 },
        owner: id(owner),
        name: "g".to_string(),
        state,
        joinable: true,
    }
}

fn snake(game_id: u64, body: Vec<Position>) -> Snake {
    Snake { game_id, body }
}

fn dirs(game_id: u64, previous: Direction, next: Direction) -> NextDirection {
    NextDirection { game_id, previous, next }
}

fn food(game_id: u64, p: Position) -> Food {
    Food { game_id, position: p }
}

fn err<T>(r: Result<T, String>) -> String {
    match r {
        Ok(_) => panic!("expected an error"),
        Err(e) => e,
    }
}

#[test]
fn set_user_name_cases() {
    assert_eq!(err(set_user_name(Some(user(1, 0, true)), String::new())), "Name must not be empty");
    assert_eq!(err(set_user_name(None, "ann".to_string())), "Cannot set name for unknown user");
    let u = set_user_name(Some(user(1, 7, true)), "ann".to_string()).unwrap();
    assert_eq!(u, User { identity: id(1), name: Some("ann".to_string()), online: true, game_id: 7 });
}

#[test]
fn connect_and_disconnect() {
    assert_eq!(
        identity_connected(id(2), None),
        Upsert::Insert(User { identity: id(2), name: None, online: true, game_id: 0 })
    );
    assert_eq!(
        identity_connected(id(2), Some(user(2, 5, false))),
        Upsert::Update(user(2, 5, true))
    );
    assert_eq!(identity_disconnected(Some(user(2, 5, true))), Some(user(2, 5, false)));
    assert_eq!(identity_disconnected(None), None);
}

#[test]
fn create_game_cases() {
    assert_eq!(err(create_game(id(1), String::new())), "Name must not be empty");
    let g = create_game(id(1), "arena".to_string()).unwrap();
    assert_eq!(g.owner, id(1));
    assert_eq!(g.state, GameState::Idle);
    assert_eq!(g.name, "arena");
}

#[test]
fn create_game_records_cases() {
    let mut g = create_game(id(1), "arena".to_string()).unwrap();
    g.game_id = 9;
    assert_eq!(err(create_game_records(&mut rng(), &g, None)), "No user");
    let rec = create_game_records(&mut rng(), &g, Some(user(1, 0, true))).unwrap();
    assert_eq!(rec.active_player.active_player, id(1));
    assert_eq!(rec.active_player.game_id, 9);
    assert_eq!(rec.snake.body, vec![pos(5, 5), pos(4, 5), pos(3, 5)]);
    assert_eq!(rec.food.game_id, 9);
    assert!(!rec.snake.body.contains(&rec.food.position));
    assert_eq!(rec.next_direction, dirs(9, Direction::Right, Direction::Right));
    assert_eq!(rec.user, user(1, 9, true));
}

#[test]
fn join_game_moves_the_user() {
    assert_eq!(join_game(4, Some(user(1, 0, true))), Some(user(1, 4, true)));
    assert_eq!(join_game(4, None), None);
}

#[test]
fn tick_errors() {
    let body = vec![pos(5, 5), pos(4, 5), pos(3, 5)];
    let running = || Some(game(1, 1, GameState::Running));
    let d = Some(dirs(1, Direction::Right, Direction::Right));
    let f = Some(food(1, pos(0, 0)));
    assert_eq!(err(game_tick(&mut rng(), 1, None, Some(snake(1, body.clone())), d, f)), "no game");
    assert_eq!(err(game_tick(&mut rng(), 1, running(), None, d, f)), "No snake for game");
    assert_eq!(
        err(game_tick(&mut rng(), 1, running(), Some(snake(1, vec![])), d, f)),
        "Snake body must not be empty"
    );
    assert_eq!(
        err(game_tick(&mut rng(), 1, running(), Some(snake(1, body.clone())), None, f)),
        "No next direction for game"
    );
    assert_eq!(
        err(game_tick(&mut rng(), 1, running(), Some(snake(1, body.clone())), d, None)),
        "No food for game"
    );
}

#[test]
fn tick_leaves_a_stopped_game_alone() {
    let body = vec![pos(5, 5), pos(4, 5), pos(3, 5)];
    let w = game_tick(
        &mut rng(),
        1,
        Some(game(1, 1, GameState::Idle)),
        Some(snake(1, body)),
        Some(dirs(1, Direction::Right, Direction::Up)),
        Some(food(1, pos(0, 0))),
    )
    .unwrap();
    assert_eq!(w.next_direction, None);
    assert_eq!(w.game, None);
    assert_eq!(w.food, None);
    assert_eq!(w.snake, None);
}

#[test]
fn tick_moves_the_snake() {
    let body = vec![pos(5, 5), pos(4, 5), pos(3, 5)];
    let w = game_tick(
        &mut rng(),
        1,
        Some(game(1, 1, GameState::Running)),
        Some(snake(1, body)),
        Some(dirs(1, Direction::Right, Direction::Up)),
        Some(food(1, pos(0, 0))),
    )
    .unwrap();
    assert_eq!(w.next_direction, Some(dirs(1, Direction::Up, Direction::Up)));
    assert_eq!(w.game, None);
    assert_eq!(w.food, None);
    assert_eq!(w.snake, Some(snake(1, vec![pos(5, 4), pos(5, 5), pos(4, 5)])));
}

#[test]
fn tick_into_the_body_ends_the_game() {
    // A square: the head at (5,5) moving down into (5,6), which the body holds.
    let body = vec![pos(5, 5), pos(4, 5), pos(4, 6), pos(5, 6), pos(6, 6)];
    let w = game_tick(
        &mut rng(),
        1,
        Some(game(1, 1, GameState::Running)),
        Some(snake(1, body)),
        Some(dirs(1, Direction::Left, Direction::Down)),
        None,
    )
    .unwrap();
    assert_eq!(w.next_direction, Some(dirs(1, Direction::Down, Direction::Down)));
    assert_eq!(w.game.unwrap().state, GameState::GameOver);
    assert_eq!(w.food, None);
    assert_eq!(w.snake, None);
}

#[test]
fn tick_into_the_tail_ends_the_game() {
    // The tail would move away, but the head is checked against the whole body.
    let body = vec![pos(5, 5), pos(4, 5), pos(4, 6), pos(5, 6)];
    let w = game_tick(
        &mut rng(),
        1,
        Some(game(1, 1, GameState::Running)),
        Some(snake(1, body)),
        Some(dirs(1, Direction::Right, Direction::Down)),
        Some(food(1, pos(0, 0))),
    )
    .unwrap();
    assert_eq!(w.game.unwrap().state, GameState::GameOver);
}

#[test]
fn tick_onto_food_grows_the_snake() {
    let body = vec![pos(5, 5), pos(4, 5), pos(3, 5)];
    let w = game_tick(
        &mut rng(),
        7,
        Some(game(7, 1, GameState::Running)),
        Some(snake(7, body)),
        Some(dirs(7, Direction::Right, Direction::Right)),
        Some(food(7, pos(6, 5))),
    )
    .unwrap();
    let s = w.snake.unwrap();
    assert_eq!(s.body, vec![pos(6, 5), pos(5, 5), pos(4, 5), pos(3, 5)]);
    let f = w.food.unwrap();
    assert_eq!(f.game_id, 7);
    assert!(f.position.x < 10 && f.position.y < 10);
    assert!(!s.body.contains(&f.position));
    assert_eq!(w.game, None);
}

/// The cells of the board along a path that goes down the even columns and up the odd ones.
fn serpentine() -> Vec<Position> {
    let mut path = Vec::new();
    for x in 0..10u8 {
        for k in 0..10u8 {
            let y = if x % 2 == 0 { k } else { 9 - k };
            path.push(pos(x, y));
        }
    }
    path
}

#[test]
fn tick_onto_the_last_free_cell_wins() {
    let path = serpentine();
    let last = path[99];
    let body: Vec<Position> = path[..99].iter().rev().cloned().collect();
    assert_eq!(body[0], pos(9, 1));
    assert_eq!(last, pos(9, 0));
    let w = game_tick(
        &mut rng(),
        1,
        Some(game(1, 1, GameState::Running)),
        Some(snake(1, body)),
        Some(dirs(1, Direction::Up, Direction::Up)),
        Some(food(1, last)),
    )
    .unwrap();
    assert_eq!(w.game.unwrap().state, GameState::Win);
    assert_eq!(w.snake, None);
    assert_eq!(w.food, None);
    assert_eq!(w.next_direction, Some(dirs(1, Direction::Up, Direction::Up)));
}

#[test]
fn ticks_keep_food_off_the_snake() {
    let mut body = vec![pos(5, 5), pos(4, 5), pos(3, 5)];
    let mut f = food(1, pos(7, 5));
    let mut d = dirs(1, Direction::Right, Direction::Right);
    let mut r = StdRng::seed_from_u64(5);
    for step in 0..30 {
        let next = match step % 4 {
            0 | 1 => Direction::Right,
            _ => Direction::Down,
        };
        if !d.previous.is_opposite(next) {
            d.next = next;
        }
        let w = game_tick(
            &mut r,
            1,
            Some(game(1, 1, GameState::Running)),
            Some(snake(1, body.clone())),
            Some(d),
            Some(f),
        )
        .unwrap();
        if w.game.is_some() {
            break;
        }
        d = w.next_direction.unwrap();
        if let Some(s) = w.snake {
            body = s.body;
        }
        if let Some(nf) = w.food {
            f = nf;
        }
        assert!(!body.contains(&f.position));
        assert!(body.len() >= 3);
    }
}

fn players(ids: &[u8]) -> Vec<User> {
    ids.iter().map(|n| user(*n, 1, true)).collect()
}

fn active(n: u8) -> ActivePlayer {
    ActivePlayer { game_id: 1, scheduled_at: Schedule::Interval { micros: 2_000_000 }, active_player: id(n) }
}

#[test]
fn handover_cases() {
    assert_eq!(err(pick_next_active_player(&mut rng(), active(1), None, &players(&[1, 2]))), "no game");
    assert_eq!(
        pick_next_active_player(&mut rng(), active(1), Some(game(1, 1, GameState::Idle)), &players(&[1, 2])),
        Ok(None)
    );
    assert_eq!(
        pick_next_active_player(&mut rng(), active(1), Some(game(1, 1, GameState::Running)), &players(&[1])),
        Ok(None)
    );
    let next = pick_next_active_player(
        &mut rng(),
        active(1),
        Some(game(1, 1, GameState::Running)),
        &players(&[1, 2]),
    )
    .unwrap()
    .unwrap();
    assert_eq!(next.active_player, id(2));
    assert_eq!(next.game_id, 1);
    // A single player who does not have the turn gets it.
    let next = pick_next_active_player(
        &mut rng(),
        active(1),
        Some(game(1, 1, GameState::Running)),
        &players(&[3]),
    )
    .unwrap()
    .unwrap();
    assert_eq!(next.active_player, id(3));
}

#[test]
fn handover_picks_among_the_others() {
    let mut r = StdRng::seed_from_u64(9);
    for _ in 0..30 {
        let next = pick_next_active_player(
            &mut r,
            active(2),
            Some(game(1, 1, GameState::Running)),
            &players(&[1, 2, 3]),
        )
        .unwrap()
        .unwrap();
        assert!(next.active_player == id(1) || next.active_player == id(3));
    }
}

#[test]
fn handover_can_reach_every_other_player() {
    let mut seen = std::collections::HashSet::new();
    for seed in 0..64 {
        let mut r = StdRng::seed_from_u64(seed);
        let next = pick_next_active_player(
            &mut r,
            active(2),
            Some(game(1, 1, GameState::Running)),
            &players(&[1, 2, 3, 4]),
        )
        .unwrap()
        .unwrap();
        assert!(next.active_player != id(2));
        seen.insert(next.active_player);
    }
    assert_eq!(seen.len(), 3);
}

#[test]
fn steering_cases() {
    let d = Some(dirs(1, Direction::Right, Direction::Right));
    assert_eq!(err(set_next_direction(id(1), Direction::Up, None, d)), "no active player");
    assert_eq!(err(set_next_direction(id(2), Direction::Up, Some(active(1)), d)), "Not active player");
    assert_eq!(err(set_next_direction(id(1), Direction::Up, Some(active(1)), None)), "No next direction");
    assert_eq!(set_next_direction(id(1), Direction::Left, Some(active(1)), d), Ok(None));
    assert_eq!(
        set_next_direction(id(1), Direction::Up, Some(active(1)), d),
        Ok(Some(dirs(1, Direction::Right, Direction::Up)))
    );
}

#[test]
fn restart_cases() {
    let nothing = |r: &snake_online::reducers::RestartWrites| {
        r.snake.is_none() && r.food.is_none() && r.next_direction.is_none() && r.game.is_none()
    };
    assert!(nothing(&restart_game(&mut rng(), id(1), None).unwrap()));
    assert_eq!(
        err(restart_game(&mut rng(), id(1), Some(game(1, 1, GameState::Running)))),
        "Game cannot be started right now!"
    );
    assert_eq!(
        err(restart_game(&mut rng(), id(1), Some(game(1, 1, GameState::Closed)))),
        "Game cannot be started right now!"
    );
    assert!(nothing(&restart_game(&mut rng(), id(2), Some(game(1, 1, GameState::GameOver))).unwrap()));
    let w = restart_game(&mut rng(), id(1), Some(game(1, 1, GameState::Idle))).unwrap();
    assert_eq!(w.game.unwrap().state, GameState::Running);
    assert!(w.snake.is_none() && w.food.is_none() && w.next_direction.is_none());
    let w = restart_game(&mut rng(), id(1), Some(game(3, 1, GameState::Win))).unwrap();
    assert_eq!(w.game.unwrap().state, GameState::Running);
    let s = w.snake.unwrap();
    assert_eq!(s, snake(3, vec![pos(5, 5), pos(4, 5), pos(3, 5)]));
    let f = w.food.unwrap();
    assert_eq!(f.game_id, 3);
    assert!(!s.body.contains(&f.position));
    assert_eq!(w.next_direction, Some(dirs(3, Direction::Right, Direction::Right)));
}

#[test]
fn close_cases() {
    assert_eq!(close_game(id(1), 1_000, None), None);
    assert_eq!(close_game(id(2), 1_000, Some(game(4, 1, GameState::Running))), None);
    let (g, c) = close_game(id(1), 1_000, Some(game(4, 1, GameState::Running))).unwrap();
    assert_eq!(g.state, GameState::Closed);
    assert!(!g.joinable);
    assert_eq!(c, GameCleanup { scheduled_id: 0, scheduled_at: Schedule::Time { micros: 60_001_000 }, game_id: 4 });
}

#[test]
fn exit_cases() {
    assert_eq!(err(exit_game(id(2), None, Some(user(2, 1, true)))), "no game");
    assert_eq!(
        err(exit_game(id(1), Some(game(1, 1, GameState::Running)), Some(user(1, 1, true)))),
        "cannot exit the game as the owner of the game"
    );
    assert_eq!(err(exit_game(id(2), Some(game(1, 1, GameState::Running)), None)), "no user");
    assert_eq!(
        exit_game(id(2), Some(game(1, 1, GameState::Running)), Some(user(2, 1, true))),
        Ok(user(2, 0, true))
    );
}

#[test]
fn exit_hands_the_turn_on() {
    let g = || Some(game(1, 1, GameState::Running));
    assert_eq!(exit_game_handover(&mut rng(), id(2), None, g(), &players(&[1])), Ok(None));
    assert_eq!(exit_game_handover(&mut rng(), id(2), Some(active(1)), g(), &players(&[1])), Ok(None));
    let next = exit_game_handover(&mut rng(), id(2), Some(active(2)), g(), &players(&[1]))
        .unwrap()
        .unwrap();
    assert_eq!(next.active_player, id(1));
    assert_eq!(err(exit_game_handover(&mut rng(), id(2), Some(active(2)), None, &players(&[1]))), "no game");
}

#[test]
fn removal_takes_everyone_out() {
    let cleanup = GameCleanup { scheduled_id: 3, scheduled_at: Schedule::Time { micros: 5 }, game_id: 6 };
    let users = vec![user(1, 6, true), user(2, 6, false)];
    assert_eq!(remove_closed_games(&cleanup, users), vec![user(1, 0, true), user(2, 0, false)]);
    assert_eq!(remove_closed_games(&cleanup, vec![]), vec![]);
}

#[test]
fn speed_change() {
    let g = update_game_speed(Some(game(1, 1, GameState::Running)), 100).unwrap();
    assert_eq!(g.scheduled_at, Schedule::Interval { micros: 100_000 });
    assert_eq!(g.state, GameState::Running);
    assert_eq!(update_game_speed(None, 100), None);
}

#[test]
fn closed_game_stays_closed() {
    let closed = || Some(game(1, 1, GameState::Closed));
    let w = game_tick(
        &mut rng(),
        1,
        closed(),
        Some(snake(1, vec![pos(1, 1), pos(1, 2), pos(1, 3)])),
        Some(dirs(1, Direction::Up, Direction::Up)),
        Some(food(1, pos(5, 5))),
    )
    .unwrap();
    assert!(w.game.is_none() && w.snake.is_none());
    assert!(restart_game(&mut rng(), id(1), closed()).is_err());
    assert_eq!(update_game_speed(closed(), 5).unwrap().state, GameState::Closed);
}

#[test]
fn full_board_has_no_room() {
    assert_eq!(board_positions().len(), 100);
}
