use game::input::{KeyEvent, KeyState, KEY_I, NAMED_ESCAPE};
use game::pacer::{Config, PacerAction, StateApplication};
use game::state::GameState;

const MS: u64 = 1_000_000;

fn drain(app: &mut StateApplication, game: &mut GameState) -> (u32, bool) {
    let mut ticks = 0;
    loop {
        match app.step(game) {
            PacerAction::Render => ticks += 1,
            PacerAction::Exit => return (ticks, true),
            PacerAction::Idle => return (ticks, false),
        }
    }
}

#[test]
fn sixty_ticks_per_second() {
    let c = Config::new(60, 17 * MS);
    assert_eq!(c.target_frame_time(), 16_666_666);
    assert_eq!(c.max_frame_time(), 17 * MS);
}

#[test]
fn ticks_drained_match_whole_ticks_accumulated() {
    let mut app = StateApplication::new(Config::new(60, 100 * MS));
    let mut game = GameState::new();
    let mut total = 0;
    app.add_elapsed(20 * MS);
    total += drain(&mut app, &mut game).0;
    app.add_elapsed(3 * MS);
    total += drain(&mut app, &mut game).0;
    assert_eq!(total, 1);
    assert_eq!(app.accumulated_time(), 23 * MS - 16_666_666);
}

#[test]
fn elapsed_time_is_clamped() {
    let mut app = StateApplication::new(Config::new(60, 17 * MS));
    app.add_elapsed(500 * MS);
    assert_eq!(app.accumulated_time(), 17 * MS);
    let mut game = GameState::new();
    assert_eq!(drain(&mut app, &mut game), (1, false));
    assert_eq!(app.accumulated_time(), 17 * MS - 16_666_666);
}

#[test]
fn exact_tick_is_drained() {
    let mut app = StateApplication::new(Config::new(60, 100 * MS));
    let mut game = GameState::new();
    app.add_elapsed(16_666_666);
    assert_eq!(drain(&mut app, &mut game), (1, false));
    assert_eq!(app.accumulated_time(), 0);
}

#[test]
fn held_key_is_one_press_across_a_catch_up_drain() {
    let mut app = StateApplication::new(Config::new(60, 100 * MS));
    let mut game = GameState::new();
    game.input(&KeyEvent {
        physical_key: Some(KEY_I),
        logical_key: None,
        state: KeyState::Pressed,
        repeat: false,
    });
    app.add_elapsed(3 * 16_666_666);
    assert_eq!(drain(&mut app, &mut game), (3, false));
    assert!(game.inverted());
}

#[test]
fn escape_ends_the_drain() {
    let mut game = GameState::new();
    assert!(!game.exit());
    game.input(&KeyEvent {
        physical_key: Some(0x29),
        logical_key: Some(NAMED_ESCAPE),
        state: KeyState::Pressed,
        repeat: false,
    });
    let mut app = StateApplication::new(Config::new(60, 100 * MS));
    app.add_elapsed(50 * MS);
    assert_eq!(app.step(&mut game), PacerAction::Exit);
    assert!(game.exit());
    assert_eq!(app.accumulated_time(), 0);
    assert_eq!(app.step(&mut game), PacerAction::Idle);
}

#[test]
fn escape_tick_sets_exit_only() {
    let mut game = GameState::new();
    game.input(&KeyEvent {
        physical_key: Some(KEY_I),
        logical_key: Some(NAMED_ESCAPE),
        state: KeyState::Pressed,
        repeat: false,
    });
    game.update();
    assert!(game.exit());
    assert!(!game.inverted());
}

#[test]
fn toggles_flip_once_per_press() {
    let mut game = GameState::new();
    let press = |code: u32| KeyEvent {
        physical_key: Some(code),
        logical_key: None,
        state: KeyState::Pressed,
        repeat: false,
    };
    game.input(&press(0x14));
    game.update();
    assert!(game.render_quad());
    game.update_keys();
    game.update();
    assert!(game.render_quad());
    game.input(&press(0x14));
    game.update();
    assert!(!game.render_quad());
    assert!(!game.exit());
}
