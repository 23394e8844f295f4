use snake_game::constants::{
    HARD_MOVE_TIME, MIN_MOVE_TIME, NORMAL_MOVE_TIME, SPECIAL_START_MOVE_TIME,
};
use snake_game::event_handler::speed_up;
use snake_game::game_state::{find_food_position, occupied, GameState};
use snake_game::types::{
    Difficulty, Direction, Food, GameMode, Key, Music, PixelRect, Position, SnakeSegment,
};

fn seg(x: i32, y: i32) -> SnakeSegment {
    SnakeSegment { pos: Position { x, y } }
}

fn in_grid(p: Position) -> bool {
    p.x >= 0 && p.x < 28 && p.y >= 0 && p.y < 21
}

/// A run in progress at the reference window size, with the given body,
/// heading and food.
fn playing(body: Vec<SnakeSegment>, velocity: Direction, food: Position) -> GameState {
    let mut s = GameState::new(1400, 1050);
    s.mode = GameMode::Playing;
    s.snake_body = body;
    s.velocity = velocity;
    s.next_velocity = None;
    s.food = Food { pos: food };
    s
}

#[test]
fn new_game_starts_in_menu_on_start_cell() {
    let s = GameState::new(1400, 1050);
    assert_eq!(s.mode, GameMode::Menu);
    assert_eq!(s.snake_body, vec![seg(7, 5)]);
    assert!(in_grid(s.food.pos));
    assert_ne!(s.food.pos, Position { x: 7, y: 5 });
    assert_eq!(s.velocity, Direction::Right);
    assert_eq!(s.score, 0);
    assert_eq!(s.high_score, 0);
    assert_eq!(s.difficulty, Difficulty::Normal);
    assert_eq!(s.move_time, NORMAL_MOVE_TIME);
    assert_eq!(s.music_volume, 8);
    assert_eq!(s.music_speed, 100);
}

#[test]
fn layout_of_reference_window() {
    let s = GameState::new(1400, 1050);
    assert_eq!((s.boundary_width, s.boundary_height), (1400, 1050));
    assert_eq!(s.scaled_snake_size, 50);
    assert_eq!((s.offset_x, s.offset_y), (0, 0));
}

#[test]
fn wide_window_locks_height() {
    assert_eq!(GameState::calculate_locked_boundary(2000, 1050), (1400, 1050));
    let s = GameState::new(2000, 1050);
    assert_eq!((s.offset_x, s.offset_y), (300, 0));
    assert_eq!(s.scaled_snake_size, 50);
}

#[test]
fn tall_window_locks_width() {
    assert_eq!(GameState::calculate_locked_boundary(800, 1000), (800, 600));
    let s = GameState::new(800, 1000);
    assert_eq!((s.offset_x, s.offset_y), (0, 200));
    assert_eq!(s.scaled_snake_size, 28);
}

#[test]
fn exact_aspect_window_keeps_both() {
    assert_eq!(GameState::calculate_locked_boundary(800, 600), (800, 600));
}

#[test]
fn resize_refits_board() {
    let mut s = GameState::new(1400, 1050);
    s.handle_resize(1000, 600);
    assert_eq!((s.window_width, s.window_height), (1000, 600));
    assert_eq!((s.boundary_width, s.boundary_height), (800, 600));
    assert_eq!((s.offset_x, s.offset_y), (100, 0));
    assert_eq!(s.snake_body, vec![seg(7, 5)]);
}

#[test]
fn scaled_rect_places_cell_in_window() {
    let s = GameState::new(2000, 1050);
    let r = s.scaled_rect(Position { x: 2, y: 3 });
    assert_eq!(r, PixelRect { x: 400, y: 150, w: 50, h: 50 });
    let b = s.border_rect();
    assert_eq!(b, PixelRect { x: 300, y: 0, w: 1400, h: 1050 });
}

#[test]
fn tick_moves_single_segment_one_cell() {
    let mut s = playing(vec![seg(3, 4)], Direction::Right, Position { x: 10, y: 10 });
    let ev = s.tick();
    assert_eq!(s.snake_body, vec![seg(4, 4)]);
    assert!(!ev.ate);
    assert!(!ev.game_over);
    assert_eq!(s.mode, GameMode::Playing);
}

#[test]
fn tick_left_from_edge_ends_run() {
    let mut s = playing(
        vec![seg(0, 0), seg(1, 0), seg(2, 0)],
        Direction::Left,
        Position { x: 10, y: 10 },
    );
    let ev = s.tick();
    assert_eq!(s.snake_body[0].pos, Position { x: -1, y: 0 });
    assert_eq!(s.snake_body, vec![seg(-1, 0), seg(0, 0), seg(1, 0)]);
    assert!(s.check_border_collisions());
    assert!(ev.game_over);
    assert_eq!(s.mode, GameMode::Menu);
}

#[test]
fn tick_eats_and_grows_by_old_tail() {
    let mut s = playing(vec![seg(3, 4), seg(2, 4)], Direction::Right, Position { x: 4, y: 4 });
    let ev = s.tick();
    assert!(ev.ate);
    assert!(!ev.game_over);
    assert_eq!(s.snake_body, vec![seg(4, 4), seg(3, 4), seg(2, 4)]);
    assert_eq!(s.score, 1);
    assert!(in_grid(s.food.pos));
    assert!(!s.snake_body.iter().any(|g| g.pos == s.food.pos));
    assert_eq!(s.move_time, NORMAL_MOVE_TIME);
}

#[test]
fn tick_length_never_drops() {
    let mut s = playing(vec![seg(5, 5), seg(4, 5), seg(3, 5)], Direction::Right, Position { x: 20, y: 20 });
    for _ in 0..10 {
        let before = s.snake_body.len();
        let ev = s.tick();
        let after = s.snake_body.len();
        assert!(after == before || (ev.ate && after == before + 1));
        if s.mode == GameMode::Menu {
            break;
        }
    }
}

#[test]
fn tick_into_own_body_ends_run() {
    let mut s = playing(
        vec![seg(5, 5), seg(6, 5), seg(6, 6), seg(5, 6), seg(4, 6)],
        Direction::Down,
        Position { x: 20, y: 20 },
    );
    let ev = s.tick();
    assert!(s.check_self_collision());
    assert!(ev.game_over);
    assert_eq!(s.mode, GameMode::Menu);
}

#[test]
fn pending_turn_applies_on_tick() {
    let mut s = playing(vec![seg(5, 5)], Direction::Right, Position { x: 20, y: 20 });
    s.key_down_event(Key::Up);
    assert_eq!(s.next_velocity, Some(Direction::Up));
    s.tick();
    assert_eq!(s.snake_body, vec![seg(5, 4)]);
    assert_eq!(s.velocity, Direction::Up);
    assert_eq!(s.next_velocity, None);
}

#[test]
fn direction_buffer_refuses_only_reversal() {
    for (key, want) in [
        (Key::Left, None),
        (Key::Up, Some(Direction::Up)),
        (Key::Down, Some(Direction::Down)),
        (Key::Right, Some(Direction::Right)),
    ] {
        let mut s = playing(vec![seg(5, 5)], Direction::Right, Position { x: 20, y: 20 });
        let r = s.key_down_event(key);
        assert_eq!(s.next_velocity, want);
        assert!(!r.quit && !r.menu_sound && !r.volume_changed && !r.left_game);
    }
}

#[test]
fn direction_buffer_checks_pending_turn() {
    let mut s = playing(vec![seg(5, 5)], Direction::Right, Position { x: 20, y: 20 });
    s.key_down_event(Key::Up);
    s.key_down_event(Key::Down);
    assert_eq!(s.next_velocity, Some(Direction::Up));
    s.key_down_event(Key::Left);
    assert_eq!(s.next_velocity, Some(Direction::Left));
}

#[test]
fn escape_in_run_returns_to_menu() {
    let mut s = playing(vec![seg(5, 5)], Direction::Right, Position { x: 20, y: 20 });
    let r = s.key_down_event(Key::Escape);
    assert!(r.left_game);
    assert_eq!(s.mode, GameMode::Menu);
}

#[test]
fn other_keys_ignored_in_run() {
    let mut s = playing(vec![seg(5, 5)], Direction::Right, Position { x: 20, y: 20 });
    s.key_down_event(Key::Digit3);
    s.key_down_event(Key::Other);
    assert_eq!(s.difficulty, Difficulty::Normal);
    assert_eq!(s.next_velocity, None);
    assert_eq!(s.mode, GameMode::Playing);
}

#[test]
fn score_rises_by_one_per_meal() {
    let mut s = playing(vec![seg(1, 1)], Direction::Right, Position { x: 2, y: 1 });
    s.score = 0;
    s.tick();
    assert_eq!(s.score, 1);
    s.food = Food { pos: Position { x: 3, y: 1 } };
    s.tick();
    assert_eq!(s.score, 2);
    s.food = Food { pos: Position { x: 20, y: 20 } };
    s.tick();
    assert_eq!(s.score, 2);
}

#[test]
fn menu_frame_promotes_high_score() {
    let mut s = GameState::new(1400, 1050);
    s.snake_body = vec![seg(1, 1), seg(2, 1), seg(3, 1), seg(4, 1), seg(5, 1), seg(6, 1)];
    s.score = 5;
    s.high_score = 3;
    let r = s.update(16_000);
    assert!(!r.ticked);
    assert_eq!(s.high_score, 5);
    s.score = 2;
    s.update(16_000);
    assert_eq!(s.high_score, 5);
}

#[test]
fn frames_gather_time_until_tick() {
    let mut s = playing(vec![seg(5, 5)], Direction::Right, Position { x: 20, y: 20 });
    s.last_update = 0;
    let r = s.update(50_000);
    assert!(!r.ticked);
    assert_eq!(s.last_update, 50_000);
    assert_eq!(s.snake_body, vec![seg(5, 5)]);
    let r = s.update(30_000);
    assert!(r.ticked);
    assert_eq!(s.last_update, 0);
    assert_eq!(s.snake_body, vec![seg(6, 5)]);
}

#[test]
fn special_interval_shrinks_per_meal() {
    assert_eq!(speed_up(SPECIAL_START_MOVE_TIME), 142_500);
    assert_eq!(speed_up(142_500), 135_375);
    assert_eq!(speed_up(135_375), 128_606);
    assert_eq!(speed_up(31_000), MIN_MOVE_TIME);
    assert_eq!(speed_up(MIN_MOVE_TIME), MIN_MOVE_TIME);
}

#[test]
fn special_run_speeds_up_on_meals() {
    let mut s = GameState::new(1400, 1050);
    s.key_down_event(Key::Digit4);
    s.key_down_event(Key::Enter);
    assert_eq!(s.move_time, SPECIAL_START_MOVE_TIME);
    let mut want = SPECIAL_START_MOVE_TIME;
    s.snake_body = vec![seg(0, 10)];
    s.velocity = Direction::Right;
    for x in 1..20 {
        s.food = Food { pos: Position { x, y: 10 } };
        let ev = s.tick();
        assert!(ev.ate);
        want = ((want * 95 / 100).max(MIN_MOVE_TIME)) as u64;
        assert_eq!(s.move_time, want);
    }
    assert_eq!(s.score, 19);
}

#[test]
fn special_interval_reaches_floor() {
    let mut t = SPECIAL_START_MOVE_TIME;
    let mut n = 0;
    while t > MIN_MOVE_TIME {
        t = speed_up(t);
        n += 1;
    }
    assert_eq!(t, MIN_MOVE_TIME);
    assert!(n > 20 && n < 40);
    let exact = 150_000.0_f64 * 0.95_f64.powi(n);
    assert!(exact < 31_000.0);
}

#[test]
fn new_run_after_game_over_resets_snake_and_score() {
    let mut s = GameState::new(1400, 1050);
    s.key_down_event(Key::Enter);
    s.snake_body = vec![seg(0, 0), seg(1, 0), seg(2, 0), seg(3, 0)];
    s.velocity = Direction::Left;
    s.score = 3;
    s.food = Food { pos: Position { x: 20, y: 20 } };
    let ev = s.tick();
    assert!(ev.game_over);
    assert_eq!(s.mode, GameMode::Menu);
    s.update(16_000);
    assert_eq!(s.high_score, 3);
    let r = s.key_down_event(Key::Enter);
    assert!(r.menu_sound);
    assert_eq!(s.mode, GameMode::Playing);
    assert_eq!(s.snake_body, vec![seg(7, 5)]);
    assert_eq!(s.score, 0);
    assert_eq!(s.high_score, 3);
    assert_eq!(s.velocity, Direction::Right);
}

#[test]
fn difficulty_sets_interval_and_music_speed() {
    let mut s = GameState::new(1400, 1050);
    s.key_down_event(Key::Digit3);
    s.key_down_event(Key::Enter);
    assert_eq!(s.move_time, HARD_MOVE_TIME);
    assert_eq!(s.music_speed, 120);
    let mut s = GameState::new(1400, 1050);
    s.key_down_event(Key::Digit1);
    s.key_down_event(Key::Enter);
    assert_eq!(s.move_time, 120_000);
    assert_eq!(s.music_speed, 80);
}

#[test]
fn menu_difficulty_keys_sound_only_on_change() {
    let mut s = GameState::new(1400, 1050);
    let r = s.key_down_event(Key::Digit4);
    assert!(r.menu_sound);
    assert_eq!(s.difficulty, Difficulty::Special);
    let r = s.key_down_event(Key::Digit4);
    assert!(!r.menu_sound);
    let r = s.key_down_event(Key::Digit2);
    assert!(r.menu_sound);
    assert_eq!(s.difficulty, Difficulty::Normal);
    assert_eq!(s.mode, GameMode::Menu);
}

#[test]
fn menu_volume_steps_within_bounds() {
    let mut s = GameState::new(1400, 1050);
    let r = s.key_down_event(Key::VolumeUp);
    assert!(r.volume_changed);
    assert_eq!(s.music_volume, 9);
    s.key_down_event(Key::VolumeUp);
    s.key_down_event(Key::VolumeUp);
    assert_eq!(s.music_volume, 10);
    for _ in 0..12 {
        s.key_down_event(Key::VolumeDown);
    }
    assert_eq!(s.music_volume, 0);
}

#[test]
fn menu_escape_asks_to_quit() {
    let mut s = GameState::new(1400, 1050);
    let r = s.key_down_event(Key::Escape);
    assert!(r.quit);
    assert!(r.menu_sound);
    assert_eq!(s.mode, GameMode::Menu);
    let r = s.key_down_event(Key::Left);
    assert!(!r.quit && !r.menu_sound && !r.volume_changed && !r.left_game);
}

#[test]
fn music_follows_mode_and_difficulty() {
    let mut s = GameState::new(1400, 1050);
    assert_eq!(s.desired_music(), Music::MenuTrack);
    s.key_down_event(Key::Enter);
    assert_eq!(s.desired_music(), Music::GameTrack);
    s.key_down_event(Key::Escape);
    s.key_down_event(Key::Digit4);
    s.key_down_event(Key::Enter);
    assert_eq!(s.desired_music(), Music::SpecialTrack);
}

#[test]
fn random_food_position_stays_on_board() {
    let mut seen_nonzero = false;
    for _ in 0..500 {
        let p = GameState::get_random_food_position();
        assert!(in_grid(p));
        if p.x != 0 || p.y != 0 {
            seen_nonzero = true;
        }
    }
    assert!(seen_nonzero);
}

fn all_cells_but(skip: Option<Position>) -> Vec<SnakeSegment> {
    let mut body = Vec::new();
    for y in 0..21 {
        for x in 0..28 {
            let p = Position { x, y };
            if Some(p) != skip {
                body.push(SnakeSegment { pos: p });
            }
        }
    }
    body
}

#[test]
fn food_finds_last_free_cell() {
    let hole = Position { x: 17, y: 13 };
    let body = all_cells_but(Some(hole));
    assert_eq!(body.len(), 587);
    assert_eq!(find_food_position(&body), Some(hole));
}

#[test]
fn food_has_no_place_on_full_board() {
    let body = all_cells_but(None);
    assert_eq!(body.len(), 588);
    assert_eq!(find_food_position(&body), None);
    let body = vec![seg(1, 1); 587];
    let p = find_food_position(&body).unwrap();
    assert!(in_grid(p));
    assert_ne!(p, Position { x: 1, y: 1 });
}

#[test]
fn meal_that_fills_board_ends_run() {
    let mut body = Vec::new();
    for i in 0..587 {
        body.push(seg(i % 28, i / 28));
    }
    body.reverse();
    let head = body[0].pos;
    assert_eq!(head, Position { x: 26, y: 20 });
    let mut s = playing(body, Direction::Right, Position { x: 27, y: 20 });
    let ev = s.tick();
    assert!(ev.ate);
    assert!(ev.game_over);
    assert_eq!(s.snake_body.len(), 588);
    assert_eq!(s.mode, GameMode::Menu);
}

#[test]
fn occupied_tells_body_cells() {
    let body = vec![seg(1, 2), seg(3, 4)];
    assert!(occupied(&body, Position { x: 3, y: 4 }));
    assert!(!occupied(&body, Position { x: 4, y: 3 }));
}

#[test]
fn direction_and_key_mappings() {
    assert_eq!(Direction::Up.opposite(), Direction::Down);
    assert_eq!(Direction::Left.opposite(), Direction::Right);
    assert_eq!(Position { x: 3, y: 3 }.step(Direction::Up), Position { x: 3, y: 2 });
    assert_eq!(Key::Digit1.difficulty(), Some(Difficulty::Easy));
    assert_eq!(Key::Enter.direction(), None);
}
