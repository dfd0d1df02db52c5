use game_of_life::app::{App, Key, KeyInput, Mode};
use game_of_life::game_of_life::GameOfLifeIterator;
use game_of_life::grid::Grid;
use game_of_life::modify_mode::ModifyMode;

fn dead_grid(height: usize, width: usize) -> Grid {
    let mut grid = Grid::new(height, width);
    for y in 0..height {
        for x in 0..width {
            grid.set(x, y, Some(false));
        }
    }
    grid
}

fn paused_app(height: usize, width: usize) -> App {
    App {
        running: true,
        grid: dead_grid(height, width),
        game_running: false,
        show_help: false,
        mod_mode: ModifyMode::new(1, 1),
        game: GameOfLifeIterator {
            iteration: 0,
            grid: dead_grid(height, width),
        },
    }
}

fn chr(c: char) -> KeyInput {
    KeyInput {
        code: Key::Char(c),
        ctrl: false,
    }
}

#[test]
fn new_app_defaults() {
    let app = App::new();
    assert!(!app.running);
    assert!(!app.game_running);
    assert!(!app.show_help);
    assert_eq!(app.mod_mode.cursor_coord, (1, 1));
    assert_eq!(app.grid.height(), 0);
    assert_eq!(app.game.iteration, 0);
}

#[test]
fn modify_mode_new_keeps_coords() {
    let mm = ModifyMode::new(4, 5);
    assert_eq!(mm.cursor_coord, (4, 5));
}

#[test]
fn mode_precedence_help_over_edit() {
    let mut app = paused_app(3, 3);
    app.show_help = true;
    // both show_help and paused: help wins over editing
    assert!(matches!(app.mode(), Mode::Help));
}

#[test]
fn mode_derivation() {
    let mut app = paused_app(3, 3);
    assert!(matches!(app.mode(), Mode::Mod));
    app.game_running = true;
    assert!(matches!(app.mode(), Mode::Run));
    app.show_help = true;
    assert!(matches!(app.mode(), Mode::Help));
}

#[test]
fn toggle_flips_dead_and_alive() {
    let mut app = paused_app(3, 3);
    app.on_key_modal(chr('t'));
    assert_eq!(app.grid.get(1, 1), Some(true));
    app.on_key_modal(chr('t'));
    assert_eq!(app.grid.get(1, 1), Some(false));
}

#[test]
fn toggle_uninitialized_becomes_dead() {
    let mut app = paused_app(3, 3);
    app.grid = Grid::new(3, 3);
    app.on_key_modal(chr('t'));
    // one toggle from an unseeded cell gives dead, never alive
    assert_eq!(app.grid.get(1, 1), Some(false));
}

#[test]
fn toggle_propagates_to_engine_grid() {
    let mut app = paused_app(3, 3);
    app.on_key_modal(chr('t'));
    assert_eq!(app.game.grid.get(1, 1), Some(true));
}

#[test]
fn cursor_stays_inside_clamp_bounds() {
    let mut app = paused_app(2, 3);
    for _ in 0..10 {
        app.on_key_modal(chr('h'));
    }
    assert_eq!(app.mod_mode.cursor_coord.0, 0);
    for _ in 0..10 {
        app.on_key_modal(chr('l'));
    }
    assert_eq!(app.mod_mode.cursor_coord.0, 3);
    for _ in 0..10 {
        app.on_key_modal(chr('j'));
    }
    assert_eq!(app.mod_mode.cursor_coord.1, 0);
    for _ in 0..10 {
        app.on_key_modal(chr('k'));
    }
    assert_eq!(app.mod_mode.cursor_coord.1, 2);
}

#[test]
fn vertical_keys_match_source_sense() {
    // 'k' raises the row coordinate, 'j' lowers it
    let mut app = paused_app(3, 3);
    app.on_key_modal(chr('k'));
    assert_eq!(app.mod_mode.cursor_coord, (1, 2));
    app.on_key_modal(chr('j'));
    assert_eq!(app.mod_mode.cursor_coord, (1, 1));
}

#[test]
fn space_toggles_pause_in_any_mode() {
    let mut app = paused_app(3, 3);
    app.on_key_modal(chr(' '));
    assert!(app.game_running);
    app.on_key_modal(chr(' '));
    assert!(!app.game_running);
    app.show_help = true;
    app.on_key_modal(chr(' '));
    assert!(app.game_running);
}

#[test]
fn question_mark_toggles_help() {
    let mut app = paused_app(3, 3);
    app.on_key_modal(chr('?'));
    assert!(app.show_help);
    app.on_key_modal(chr('?'));
    assert!(!app.show_help);
}

#[test]
fn help_toggle_keeps_pause_state() {
    let mut app = paused_app(3, 3);
    app.on_key_modal(chr('?'));
    assert!(app.show_help);
    assert!(!app.game_running);
}

#[test]
fn ctrl_c_quits_everywhere() {
    let ctrl_c = KeyInput {
        code: Key::Char('c'),
        ctrl: true,
    };
    let mut app = paused_app(3, 3);
    app.on_key_modal(ctrl_c);
    assert!(!app.running);

    let mut app = paused_app(3, 3);
    app.game_running = true;
    app.on_key_modal(KeyInput {
        code: Key::Char('C'),
        ctrl: true,
    });
    assert!(!app.running);

    // without the control modifier nothing happens
    let mut app = paused_app(3, 3);
    app.on_key_modal(chr('c'));
    assert!(app.running);
}

#[test]
fn esc_quits_while_running() {
    let mut app = paused_app(3, 3);
    app.game_running = true;
    app.on_key_modal(KeyInput {
        code: Key::Esc,
        ctrl: false,
    });
    assert!(!app.running);
    assert!(app.game_running);
}

#[test]
fn q_quits_while_running() {
    let mut app = paused_app(3, 3);
    app.game_running = true;
    app.on_key_modal(chr('q'));
    assert!(!app.running);
}

#[test]
fn esc_resumes_from_edit_mode() {
    let mut app = paused_app(3, 3);
    app.on_key_modal(KeyInput {
        code: Key::Esc,
        ctrl: false,
    });
    assert!(app.game_running);
}

#[test]
fn q_dismisses_help() {
    let mut app = paused_app(3, 3);
    app.show_help = true;
    app.on_key_modal(chr('q'));
    assert!(!app.show_help);
    // dismissing help does not resume the game
    assert!(!app.game_running);
}

#[test]
fn enter_reseeds_while_running() {
    let mut app = paused_app(3, 3);
    app.game_running = true;
    app.game.iteration = 7;
    app.grid.set(0, 0, Some(true));
    app.on_key_modal(KeyInput {
        code: Key::Enter,
        ctrl: false,
    });
    assert_eq!(app.game.iteration, 0);
    assert_eq!(app.game.grid.height(), 3);
    assert_eq!(app.game.grid.width(), 3);
    for y in 0..3 {
        for x in 0..3 {
            assert!(app.game.grid.get(x, y).is_some());
        }
    }
    // the displayed grid is untouched by the reset itself
    assert_eq!(app.grid.get(0, 0), Some(true));
}

#[test]
fn quit_stops_the_loop() {
    let mut app = paused_app(2, 2);
    app.quit();
    assert!(!app.running);
}

#[test]
fn tick_advances_only_while_running() {
    let mut app = paused_app(3, 3);
    app.tick();
    assert_eq!(app.game.iteration, 0);

    app.game_running = true;
    app.tick();
    assert_eq!(app.game.iteration, 1);
    // a dead engine grid steps to a dead grid, and is adopted for display
    for y in 0..3 {
        for x in 0..3 {
            assert_eq!(app.grid.get(x, y), Some(false));
        }
    }
}

#[test]
fn start_seeds_and_runs() {
    let mut app = App::new();
    app.start(4, 6);
    assert!(app.running);
    assert!(app.game_running);
    assert_eq!(app.grid.height(), 4);
    assert_eq!(app.grid.width(), 6);
    assert_eq!(app.game.iteration, 0);
    for y in 0..4 {
        for x in 0..6 {
            assert!(app.grid.get(x, y).is_some());
        }
    }
}
