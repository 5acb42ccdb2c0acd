use snake_core::chain::SnakeChain;
use snake_core::components::{AppleComponent, Position};
use snake_core::session::Session;
use snake_core::snake::{
    AppleWasEaten, Direction, GameState, NextDirection, SnakeGame, SnakeSpritesKeys, Transition,
};
use snake_core::systems::input::ActionsDown;
use snake_core::systems::snake_render::{RenderError, Rotation};
use snake_core::systems::SnakeRenderSystem;

const NO_ACTION: ActionsDown = ActionsDown { up: false, down: false, right: false, left: false };

const RIGHT: ActionsDown = ActionsDown { up: false, down: false, right: true, left: false };

fn cells(list: &[(i32, i32)]) -> Vec<Position> {
    list.iter().map(|&(x, y)| Position { x, y }).collect()
}

fn game_with(snake: &[(i32, i32)], direction: Direction, apple: (i32, i32)) -> SnakeGame {
    SnakeGame {
        snake: SnakeChain::from_positions(&cells(snake)).expect("a chain needs a head"),
        apple: AppleComponent { position: Position { x: apple.0, y: apple.1 } },
        next_direction: NextDirection { direction, time_since_last_action: 0 },
        apple_was_eaten: AppleWasEaten { was_eaten: false },
        game_state: GameState::Playing,
    }
}

#[test]
fn session_starts_as_seeded() {
    let game = SnakeGame::on_start();
    assert_eq!(game.snake.positions(), cells(&[(12, 10), (11, 10), (10, 10)]));
    assert_eq!(game.apple.position, Position { x: 5, y: 5 });
    assert_eq!(
        game.next_direction,
        NextDirection { direction: Direction::Right, time_since_last_action: 0 }
    );
    assert!(!game.apple_was_eaten.was_eaten);
    assert_eq!(game.game_state, GameState::Playing);
}

#[test]
fn one_interval_to_the_right_moves_the_seeded_snake_one_cell() {
    let mut game = SnakeGame::on_start();
    assert_eq!(game.tick(&RIGHT, 201), Transition::Continue);
    assert_eq!(game.snake.positions(), cells(&[(13, 10), (12, 10), (11, 10)]));
    assert_eq!(game.snake.len(), 3);
    assert_eq!(game.game_state, GameState::Playing);
    assert_eq!(game.apple.position, Position { x: 5, y: 5 });
    assert!(!game.apple_was_eaten.was_eaten);
    assert_eq!(game.next_direction.direction, Direction::Right);
    assert_eq!(game.next_direction.time_since_last_action, 0);
}

#[test]
fn tick_before_the_interval_only_advances_the_clock() {
    let mut game = SnakeGame::on_start();
    assert_eq!(game.tick(&NO_ACTION, 16), Transition::Continue);
    assert_eq!(game.tick(&NO_ACTION, 16), Transition::Continue);
    assert_eq!(game.snake.positions(), cells(&[(12, 10), (11, 10), (10, 10)]));
    assert_eq!(game.next_direction.time_since_last_action, 32);
    assert_eq!(game.game_state, GameState::Playing);
}

#[test]
fn direction_is_read_when_the_snake_moves() {
    let mut game = SnakeGame::on_start();
    let up = ActionsDown { up: true, ..NO_ACTION };
    let down = ActionsDown { down: true, ..NO_ACTION };
    // asked for and overwritten between two moves
    game.tick(&up, 50);
    game.tick(&down, 50);
    game.tick(&NO_ACTION, 50);
    assert_eq!(game.snake.head_position(), Position { x: 12, y: 10 });
    game.tick(&NO_ACTION, 51);
    assert_eq!(game.snake.positions(), cells(&[(12, 9), (12, 10), (11, 10)]));
}

#[test]
fn head_at_the_edge_moving_outward_ends_the_game() {
    let cases = [
        ((50, 7), (49, 7), Direction::Right),
        ((1, 7), (2, 7), Direction::Left),
        ((7, 30), (7, 29), Direction::Up),
        ((7, 1), (7, 2), Direction::Down),
    ];
    for (head, neck, outward) in cases {
        let mut game = game_with(&[head, neck], outward, (40, 25));
        assert_eq!(game.tick(&NO_ACTION, 201), Transition::ReplaceWithGameOver);
        assert_eq!(game.game_state, GameState::GameOver);
    }
}

#[test]
fn head_at_the_edge_moving_along_it_plays_on() {
    let mut game = game_with(&[(50, 7), (49, 7)], Direction::Up, (40, 25));
    assert_eq!(game.tick(&NO_ACTION, 201), Transition::Continue);
    assert_eq!(game.game_state, GameState::Playing);
    assert_eq!(game.snake.head_position(), Position { x: 50, y: 8 });
}

#[test]
fn folding_back_onto_the_body_ends_the_game_that_tick() {
    // a hook: the head turns down into a cell that the body still holds
    let mut game = game_with(
        &[(5, 6), (4, 6), (4, 5), (5, 5), (6, 5), (7, 5)],
        Direction::Down,
        (40, 25),
    );
    assert_eq!(game.tick(&NO_ACTION, 100), Transition::Continue);
    assert_eq!(game.game_state, GameState::Playing);
    assert_eq!(game.tick(&NO_ACTION, 101), Transition::ReplaceWithGameOver);
    assert_eq!(game.game_state, GameState::GameOver);
    assert_eq!(game.snake.head_position(), Position { x: 5, y: 5 });
}

#[test]
fn reversing_onto_the_neck_ends_the_game() {
    let mut game = game_with(&[(5, 5), (4, 5), (3, 5)], Direction::Right, (40, 25));
    let left = ActionsDown { left: true, ..NO_ACTION };
    assert_eq!(game.tick(&left, 201), Transition::ReplaceWithGameOver);
    assert_eq!(game.snake.positions(), cells(&[(4, 5), (5, 5), (4, 5)]));
}

#[test]
fn moving_onto_the_cell_the_tail_leaves_is_no_collision() {
    // a closed square: the head follows its own tail
    let mut game = game_with(&[(5, 5), (5, 6), (6, 6), (6, 5)], Direction::Right, (40, 25));
    assert_eq!(game.tick(&NO_ACTION, 201), Transition::Continue);
    assert_eq!(game.snake.positions(), cells(&[(6, 5), (5, 5), (5, 6), (6, 6)]));
}

#[test]
fn moving_onto_the_cell_of_a_tail_that_grows_there_is_a_collision() {
    let mut game = game_with(&[(5, 5), (5, 6), (6, 6), (6, 5)], Direction::Right, (40, 25));
    game.apple_was_eaten.was_eaten = true;
    assert_eq!(game.tick(&NO_ACTION, 201), Transition::ReplaceWithGameOver);
    assert_eq!(game.snake.positions(), cells(&[(6, 5), (5, 5), (5, 6), (6, 6), (6, 5)]));
}

#[test]
fn eating_then_growing_on_the_next_move() {
    let mut game = SnakeGame::on_start();
    game.apple.position = Position { x: 13, y: 10 };

    // the move onto the food: eaten, not yet grown
    assert_eq!(game.tick(&RIGHT, 201), Transition::Continue);
    assert_eq!(game.snake.positions(), cells(&[(13, 10), (12, 10), (11, 10)]));
    assert!(game.apple_was_eaten.was_eaten);
    let food = game.apple.position;
    assert!(1 <= food.x && food.x <= 50 && 1 <= food.y && food.y <= 30);
    assert!(!game.snake.occupies(food));

    // ticks without a move change neither the length nor the flag nor the food
    game.apple.position = Position { x: 40, y: 25 };
    game.tick(&NO_ACTION, 100);
    assert_eq!(game.snake.len(), 3);
    assert!(game.apple_was_eaten.was_eaten);
    assert_eq!(game.apple.position, Position { x: 40, y: 25 });

    // the next move grows by one, on the cell that the tail left
    game.tick(&NO_ACTION, 101);
    assert_eq!(game.snake.positions(), cells(&[(14, 10), (13, 10), (12, 10), (11, 10)]));
    assert!(!game.apple_was_eaten.was_eaten);

    // and later moves keep the length
    game.tick(&NO_ACTION, 201);
    game.tick(&NO_ACTION, 201);
    assert_eq!(game.snake.len(), 4);
    assert_eq!(game.snake.entities(), vec![2, 1, 0, 3]);
}

#[test]
fn lost_game_is_left_as_it_is() {
    let mut game = game_with(&[(50, 7), (49, 7)], Direction::Right, (40, 25));
    game.tick(&NO_ACTION, 201);
    assert_eq!(game.game_state, GameState::GameOver);
    let cells_then = game.snake.positions();
    let up = ActionsDown { up: true, ..NO_ACTION };
    for _ in 0..5usize {
        assert_eq!(game.tick(&up, 500), Transition::ReplaceWithGameOver);
    }
    assert_eq!(game.snake.positions(), cells_then);
    assert_eq!(game.next_direction.direction, Direction::Right);
    assert_eq!(game.next_direction.time_since_last_action, 0);
    assert_eq!(game.game_state, GameState::GameOver);
}

#[test]
fn snake_can_be_drawn_all_through_a_game() {
    let mut game = SnakeGame::on_start();
    let route = [
        ActionsDown { up: true, ..NO_ACTION },
        NO_ACTION,
        ActionsDown { left: true, ..NO_ACTION },
        NO_ACTION,
        NO_ACTION,
        ActionsDown { down: true, ..NO_ACTION },
        ActionsDown { right: true, ..NO_ACTION },
        ActionsDown { up: true, ..NO_ACTION },
    ];
    let mut moves: usize = 0;
    while game.game_state == GameState::Playing && moves < 400 {
        if moves % 9 == 0 {
            game.apple_was_eaten.was_eaten = true;
        }
        game.tick(&route[moves % route.len()], 201);
        moves += 1;
        if game.game_state == GameState::Playing {
            let parts = SnakeRenderSystem.run(&game).expect("a snake in play can be drawn");
            assert_eq!(parts.len(), game.snake.len());
            let head = game.snake.head_position();
            assert!(1 <= head.x && head.x <= 50 && 1 <= head.y && head.y <= 30);
        }
    }
    assert!(moves > 1);
}

#[test]
fn food_and_snake_keep_apart_all_through_a_game() {
    let mut game = SnakeGame::on_start();
    // a staircase up and to the right, over the food wherever it is put in the way
    let mut moves: usize = 0;
    while game.game_state == GameState::Playing && moves < 60 {
        let head = game.snake.head_position();
        let actions = if moves % 2 == 0 {
            ActionsDown { up: true, ..NO_ACTION }
        } else {
            ActionsDown { right: true, ..NO_ACTION }
        };
        let ahead = if moves % 2 == 0 {
            Position { x: head.x, y: head.y + 1 }
        } else {
            Position { x: head.x + 1, y: head.y }
        };
        if moves % 3 == 0 && !game.snake.occupies(ahead) && ahead.x <= 50 && ahead.y <= 30 {
            game.apple.position = ahead;
        }
        let length = game.snake.len();
        let pending = game.apple_was_eaten.was_eaten;
        game.tick(&actions, 201);
        moves += 1;

        assert_eq!(game.snake.len(), length + usize::from(pending));
        if game.game_state == GameState::Playing {
            let cells = game.snake.positions();
            let mut distinct = cells.clone();
            distinct.sort_by_key(|cell| (cell.x, cell.y));
            distinct.dedup();
            assert_eq!(distinct.len(), cells.len());
            assert!(!cells.contains(&game.apple.position));
            let food = game.apple.position;
            assert!(1 <= food.x && food.x <= 50 && 1 <= food.y && food.y <= 30);
        }
    }
    assert_eq!(game.game_state, GameState::GameOver);
    assert!(game.snake.len() > 3);
}

#[test]
fn lost_game_that_doubles_back_reports_the_fault() {
    // the head has turned back onto its neck: a collision, and a chain that doubles back
    let mut game = game_with(&[(5, 5), (4, 5), (3, 5)], Direction::Right, (40, 25));
    let left = ActionsDown { left: true, ..NO_ACTION };
    game.tick(&left, 201);
    assert_eq!(game.game_state, GameState::GameOver);
    assert_eq!(SnakeRenderSystem.run(&game), Err(RenderError::UTurn { index: 1 }));
}

#[test]
fn lost_game_with_a_snake_that_never_doubles_back_is_still_drawn() {
    // lost against the wall: the chain is as good as before
    let mut game = game_with(&[(50, 7), (49, 7), (49, 8)], Direction::Right, (40, 25));
    game.tick(&NO_ACTION, 201);
    assert_eq!(game.game_state, GameState::GameOver);
    let lost = SnakeRenderSystem.run(&game).expect("the chain can be drawn");

    game.game_state = GameState::Playing;
    let running = SnakeRenderSystem.run(&game).expect("the chain can be drawn");
    assert_eq!(lost, running);

    assert_eq!(lost.len(), 3);
    assert_eq!(lost[0].sprite, SnakeSpritesKeys::SnakeHead);
    assert_eq!(lost[0].rotation, Rotation::NegativeQuarter);
    assert_eq!(lost[1].sprite, SnakeSpritesKeys::SnakeBody);
    assert_eq!(lost[1].rotation, Rotation::Quarter);
    assert_eq!(lost[2].sprite, SnakeSpritesKeys::SnakeTail);
    assert_eq!(lost[2].rotation, Rotation::NegativeQuarter);
}

#[test]
fn drawing_does_not_depend_on_the_state_of_the_game() {
    for state in [GameState::Playing, GameState::GameOver] {
        let mut game = SnakeGame::on_start();
        game.game_state = state;
        let parts = SnakeRenderSystem.run(&game).expect("the seeded snake can be drawn");
        let entities: Vec<usize> = parts.iter().map(|part| part.entity).collect();
        assert_eq!(entities, vec![2, 1, 0]);
        assert_eq!(parts[1].sprite, SnakeSpritesKeys::SnakeBody);
        assert_eq!(parts[1].rotation, Rotation::Quarter);

        let mut broken = game_with(&[(5, 5), (4, 5), (5, 5)], Direction::Right, (40, 25));
        broken.game_state = state;
        assert_eq!(SnakeRenderSystem.run(&broken), Err(RenderError::UTurn { index: 1 }));
    }
}

#[test]
fn running_game_is_drawn_segment_by_segment() {
    let game = SnakeGame::on_start();
    let parts = SnakeRenderSystem.run(&game).expect("the seeded snake can be drawn");
    let entities: Vec<usize> = parts.iter().map(|part| part.entity).collect();
    assert_eq!(entities, vec![2, 1, 0]);
}

#[test]
fn running_game_with_a_broken_snake_reports_the_fault() {
    let game = game_with(&[(5, 5), (9, 5)], Direction::Right, (40, 25));
    assert!(SnakeRenderSystem.run(&game).is_err());
}

fn game_of(session: &Session) -> &SnakeGame {
    match session {
        Session::Playing(game) => game,
        Session::GameOver(_) => panic!("the game-over screen is up"),
    }
}

fn screen_time(session: &Session) -> u64 {
    match session {
        Session::Playing(_) => panic!("a game is running"),
        Session::GameOver(screen) => screen.time,
    }
}

#[test]
fn session_starts_with_a_fresh_game() {
    let session = Session::on_start();
    let game = game_of(&session);
    assert_eq!(game.snake.positions(), cells(&[(12, 10), (11, 10), (10, 10)]));
    assert_eq!(game.apple.position, Position { x: 5, y: 5 });
    assert_eq!(game.game_state, GameState::Playing);
}

#[test]
fn session_goes_from_game_to_screen_to_fresh_game() {
    let mut session = Session::on_start();

    // 38 moves to the right take the head from x = 12 to x = 50
    for step in 0..38i32 {
        session.tick(&RIGHT, 201);
        assert_eq!(game_of(&session).snake.head_position(), Position { x: 13 + step, y: 10 });
    }
    // ticks before the interval keep it there
    session.tick(&NO_ACTION, 100);
    session.tick(&NO_ACTION, 100);
    assert_eq!(game_of(&session).snake.head_position(), Position { x: 50, y: 10 });

    // the next move runs into the wall: the screen comes up, its clock at zero
    session.tick(&NO_ACTION, 1);
    assert_eq!(screen_time(&session), 0);

    // the screen stays for its dwell time, whatever is pressed
    session.tick(&RIGHT, 1200);
    assert_eq!(screen_time(&session), 1200);
    session.tick(&RIGHT, 800);
    assert_eq!(screen_time(&session), 2000);

    // and is followed by a fresh game
    session.tick(&NO_ACTION, 1);
    let game = game_of(&session);
    assert_eq!(game.snake.positions(), cells(&[(12, 10), (11, 10), (10, 10)]));
    assert_eq!(game.snake.entities(), vec![2, 1, 0]);
    assert_eq!(game.apple.position, Position { x: 5, y: 5 });
    assert_eq!(
        game.next_direction,
        NextDirection { direction: Direction::Right, time_since_last_action: 0 }
    );
    assert!(!game.apple_was_eaten.was_eaten);
    assert_eq!(game.game_state, GameState::Playing);
}

#[test]
fn session_never_stops_however_long_it_runs() {
    let mut session = Session::on_start();
    let route = [
        ActionsDown { up: true, ..NO_ACTION },
        ActionsDown { left: true, ..NO_ACTION },
        NO_ACTION,
        ActionsDown { down: true, ..NO_ACTION },
        NO_ACTION,
        ActionsDown { right: true, ..NO_ACTION },
        NO_ACTION,
        NO_ACTION,
    ];
    let mut games: usize = 0;
    let mut was_playing = true;
    for step in 0..5000usize {
        session.tick(&route[(step / 3) % route.len()], 150);
        let playing = matches!(session, Session::Playing(_));
        if playing && !was_playing {
            games += 1;
        }
        was_playing = playing;
        if let Session::Playing(game) = &session {
            assert_eq!(game.game_state, GameState::Playing);
            let head = game.snake.head_position();
            assert!(1 <= head.x && head.x <= 50 && 1 <= head.y && head.y <= 30);
        }
    }
    assert!(games >= 1);
}
