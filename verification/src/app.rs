use vstd::prelude::*;

verus! {

use crate::game_of_life::{GameOfLifeIterator, fully_defined, is_next_gen};
use crate::grid::{Grid, grid_wf, width_of};
use crate::modify_mode::ModifyMode;

/// The top-level interaction mode, derived from the two state flags.
pub enum Mode {
    Run,
    Mod,
    Help,
}

/// The identity of a pressed key, reduced to what the state machine reads.
pub enum Key {
    Esc,
    Enter,
    Char(char),
    Other,
}

/// One key press: the key identity, plus whether the control modifier (and
/// only it) was held.
pub struct KeyInput {
    pub code: Key,
    pub ctrl: bool,
}

/// Mode precedence: the help overlay overrides editing, which overrides
/// running.
pub open spec fn mode_spec(show_help: bool, game_running: bool) -> Mode {
    if show_help {
        Mode::Help
    } else if !game_running {
        Mode::Mod
    } else {
        Mode::Run
    }
}

/// The mathematical shadow of an [`App`], which the key transitions are
/// specified over.
#[verifier::ext_equal]
pub ghost struct AppState {
    pub running: bool,
    pub game_running: bool,
    pub show_help: bool,
    pub cursor: (int, int),
    pub grid: Seq<Seq<Option<bool>>>,
    pub game_grid: Seq<Seq<Option<bool>>>,
    pub iteration: nat,
}

/// Toggling flips a seeded cell and turns an unseeded cell dead.
pub open spec fn toggle_cell(c: Option<bool>) -> Option<bool> {
    match c {
        Some(b) => Some(!b),
        None => Some(false),
    }
}

/// The grid after toggling the cell under `(cx, cy)`.
pub open spec fn grid_after_toggle(g: Seq<Seq<Option<bool>>>, cx: int, cy: int) -> Seq<
    Seq<Option<bool>>,
> {
    g.update(cy, g[cy].update(cx, toggle_cell(g[cy][cx])))
}

/// The keys every mode answers: quit on control-c, toggle the help overlay
/// on '?', toggle the pause flag on space.
pub open spec fn any_key_step(s: AppState, k: KeyInput) -> AppState {
    if k.ctrl && (k.code == Key::Char('c') || k.code == Key::Char('C')) {
        AppState { running: false, ..s }
    } else if k.code == Key::Char('?') {
        AppState { show_help: !s.show_help, ..s }
    } else if k.code == Key::Char(' ') {
        AppState { game_running: !s.game_running, ..s }
    } else {
        s
    }
}

/// One key press routed through the mode precedence: the transition of
/// every key except Enter while running, which re-seeds the engine (see
/// [`reseeded`]).  While running, Esc and 'q' quit; in edit mode they
/// resume, and under the help overlay they dismiss it.  Edit-mode movement
/// clamps the cursor to `[0, width]` × `[0, height]`, and a toggle only
/// lands on a cursor that stands strictly inside the grid.
pub open spec fn key_step(s: AppState, k: KeyInput) -> AppState {
    match mode_spec(s.show_help, s.game_running) {
        Mode::Help => if k.code == Key::Esc || k.code == Key::Char('q') {
            AppState { show_help: false, ..s }
        } else {
            any_key_step(s, k)
        },
        Mode::Mod => if k.code == Key::Esc || k.code == Key::Char('q') {
            AppState { game_running: true, ..s }
        } else if k.code == Key::Char('k') {
            if s.cursor.1 < s.grid.len() {
                AppState { cursor: (s.cursor.0, s.cursor.1 + 1), ..s }
            } else {
                s
            }
        } else if k.code == Key::Char('j') {
            if s.cursor.1 > 0 {
                AppState { cursor: (s.cursor.0, s.cursor.1 - 1), ..s }
            } else {
                s
            }
        } else if k.code == Key::Char('l') {
            if s.cursor.0 < width_of(s.grid) {
                AppState { cursor: (s.cursor.0 + 1, s.cursor.1), ..s }
            } else {
                s
            }
        } else if k.code == Key::Char('h') {
            if s.cursor.0 > 0 {
                AppState { cursor: (s.cursor.0 - 1, s.cursor.1), ..s }
            } else {
                s
            }
        } else if k.code == Key::Char('t') {
            if 0 <= s.cursor.0 < width_of(s.grid) && 0 <= s.cursor.1 < s.grid.len() {
                let g2 = grid_after_toggle(s.grid, s.cursor.0, s.cursor.1);
                AppState { grid: g2, game_grid: g2, ..s }
            } else {
                s
            }
        } else {
            any_key_step(s, k)
        },
        Mode::Run => if k.code == Key::Esc || k.code == Key::Char('q') {
            AppState { running: false, ..s }
        } else {
            any_key_step(s, k)
        },
    }
}

/// The engine was re-seeded from a blank grid of the current dimensions:
/// the displayed grid and every flag stay, the generation count restarts at
/// 0, and the working grid is a fully seeded grid of the displayed shape.
pub open spec fn reseeded(pre: AppState, post: AppState) -> bool {
    &&& post.running == pre.running
    &&& post.game_running == pre.game_running
    &&& post.show_help == pre.show_help
    &&& post.cursor == pre.cursor
    &&& post.grid == pre.grid
    &&& post.iteration == 0
    &&& post.game_grid.len() == pre.grid.len()
    &&& forall|j: int|
        0 <= j < post.game_grid.len() ==> (#[trigger] post.game_grid[j]).len() == width_of(
            pre.grid,
        )
    &&& fully_defined(post.game_grid)
}

/// The application: sole owner of the grid, the engine state, the mode
/// flags, and the edit cursor.
pub struct App {
    pub running: bool,
    pub grid: Grid,
    pub game_running: bool,
    pub show_help: bool,
    pub mod_mode: ModifyMode,
    pub game: GameOfLifeIterator,
}

impl App {
    /// The abstract state of the application.
    pub open spec fn abs(self) -> AppState {
        AppState {
            running: self.running,
            game_running: self.game_running,
            show_help: self.show_help,
            cursor: (self.mod_mode.cursor_coord.0 as int, self.mod_mode.cursor_coord.1 as int),
            grid: self.grid@,
            game_grid: self.game.grid@,
            iteration: self.game.iteration as nat,
        }
    }

    /// A fresh application: not running, paused, no help overlay, an empty
    /// grid, the cursor at (1, 1).
    pub fn new() -> (r: Self)
        ensures
            r.running == false,
            r.game_running == false,
            r.show_help == false,
            r.mod_mode.cursor_coord == (1usize, 1usize),
            r.grid@.len() == 0,
            r.game.iteration == 0,
            r.game.grid@.len() == 0,
    {
        Default::default()
    }

    /// The current mode, derived from the flags with help first.
    pub fn mode(&self) -> (r: Mode)
        ensures
            r == mode_spec(self.show_help, self.game_running),
    {
        if self.show_help {
            Mode::Help
        } else if !self.game_running {
            Mode::Mod
        } else {
            Mode::Run
        }
    }

    /// Begin a run: mark the loop live and the simulation running, size a
    /// fresh grid, seed it, and adopt the seeded grid for display.
    pub fn start(&mut self, height: usize, width: usize)
        ensures
            final(self).running == true,
            final(self).game_running == true,
            final(self).show_help == old(self).show_help,
            final(self).mod_mode == old(self).mod_mode,
            final(self).game.iteration == 0,
            final(self).grid@ == final(self).game.grid@,
            final(self).grid@.len() == height,
            forall|j: int| 0 <= j < height ==> (#[trigger] final(self).grid@[j]).len() == width,
            fully_defined(final(self).grid@),
            grid_wf(final(self).grid@),
    {
        self.running = true;
        self.game_running = true;
        self.grid = Grid::new(height, width);
        self.game = GameOfLifeIterator::init_with_grid(&self.grid);
        self.grid = self.game.grid.clone();
    }

    /// One pass of the control loop's compute step: while the simulation
    /// runs, advance one generation and adopt it as the displayed grid;
    /// otherwise change nothing.
    pub fn tick(&mut self)
        requires
            old(self).game_running ==> grid_wf(old(self).game.grid@) && fully_defined(
                old(self).game.grid@,
            ) && old(self).game.iteration < usize::MAX,
        ensures
            !old(self).game_running ==> final(self).abs() == old(self).abs(),
            old(self).game_running ==> ({
                &&& is_next_gen(old(self).game.grid@, final(self).game.grid@)
                &&& final(self).grid@ == final(self).game.grid@
                &&& final(self).game.iteration == old(self).game.iteration + 1
                &&& final(self).running == old(self).running
                &&& final(self).game_running == old(self).game_running
                &&& final(self).show_help == old(self).show_help
                &&& final(self).mod_mode == old(self).mod_mode
            }),
    {
        if self.game_running {
            match self.game.next() {
                Some(next_grid) => {
                    self.grid = next_grid;
                },
                None => unreached(),
            }
        }
    }

    /// Route one key press through the current mode.
    pub fn on_key_modal(&mut self, key: KeyInput)
        requires
            grid_wf(old(self).grid@),
        ensures
            (mode_spec(old(self).show_help, old(self).game_running) is Run && key.code
                == Key::Enter) ==> reseeded(old(self).abs(), final(self).abs()),
            !(mode_spec(old(self).show_help, old(self).game_running) is Run && key.code
                == Key::Enter) ==> final(self).abs() == key_step(old(self).abs(), key),
    {
        match self.mode() {
            Mode::Run => {
                match key.code {
                    Key::Enter => self.on_enter_press(),
                    Key::Esc => self.quit(),
                    Key::Char(c) => {
                        if c == 'q' {
                            self.quit();
                        } else {
                            self.handle_any_mode_key(key);
                        }
                    },
                    _ => self.handle_any_mode_key(key),
                }
            },
            Mode::Mod => {
                match key.code {
                    Key::Esc => {
                        self.game_running = true;
                    },
                    Key::Char(c) => {
                        if c == 'q' {
                            self.game_running = true;
                        } else if c == 'k' {
                            if self.mod_mode.cursor_coord.1 < self.grid.height() {
                                self.mod_mode.cursor_coord.1 = self.mod_mode.cursor_coord.1 + 1;
                            }
                        } else if c == 'j' {
                            if self.mod_mode.cursor_coord.1 > 0 {
                                self.mod_mode.cursor_coord.1 = self.mod_mode.cursor_coord.1 - 1;
                            }
                        } else if c == 'l' {
                            if self.mod_mode.cursor_coord.0 < self.grid.width() {
                                self.mod_mode.cursor_coord.0 = self.mod_mode.cursor_coord.0 + 1;
                            }
                        } else if c == 'h' {
                            if self.mod_mode.cursor_coord.0 > 0 {
                                self.mod_mode.cursor_coord.0 = self.mod_mode.cursor_coord.0 - 1;
                            }
                        } else if c == 't' {
                            let (cx, cy) = self.mod_mode.cursor_coord;
                            if cx < self.grid.width() && cy < self.grid.height() {
                                let cur = self.grid.get(cx, cy);
                                let toggled = match cur {
                                    Some(b) => Some(!b),
                                    None => Some(false),
                                };
                                self.grid.set(cx, cy, toggled);
                                self.game.grid = self.grid.clone();
                            }
                        } else {
                            self.handle_any_mode_key(key);
                        }
                    },
                    _ => self.handle_any_mode_key(key),
                }
            },
            Mode::Help => {
                match key.code {
                    Key::Esc => {
                        self.show_help = false;
                    },
                    Key::Char(c) => {
                        if c == 'q' {
                            self.show_help = false;
                        } else {
                            self.handle_any_mode_key(key);
                        }
                    },
                    _ => self.handle_any_mode_key(key),
                }
            },
        }
    }

    /// The fallthrough handler shared by every mode.
    pub fn handle_any_mode_key(&mut self, key: KeyInput)
        ensures
            final(self).abs() == any_key_step(old(self).abs(), key),
    {
        match key.code {
            Key::Char(c) => {
                if (c == 'c' || c == 'C') && key.ctrl {
                    self.quit();
                } else if c == '?' {
                    self.show_help = !self.show_help;
                } else if c == ' ' {
                    self.game_running = !self.game_running;
                }
            },
            _ => {},
        }
    }

    /// The reset key: re-seed the engine from a blank grid of the current
    /// dimensions, restarting the generation count.
    pub fn on_enter_press(&mut self)
        ensures
            reseeded(old(self).abs(), final(self).abs()),
    {
        let blank = Grid::new(self.grid.height(), self.grid.width());
        self.game = GameOfLifeIterator::init_with_grid(&blank);
    }

    /// Mark the control loop stopped.
    pub fn quit(&mut self)
        ensures
            final(self).abs() == (AppState { running: false, ..old(self).abs() }),
    {
        self.running = false;
    }
}

impl Default for Mode {
    /// The starting mode.
    fn default() -> (r: Self)
        ensures
            r is Run,
    {
        Mode::Run
    }
}

impl Default for App {
    /// The same state as [`App::new`].
    fn default() -> (r: Self)
        ensures
            r.running == false,
            r.game_running == false,
            r.show_help == false,
            r.mod_mode.cursor_coord == (1usize, 1usize),
            r.grid@.len() == 0,
            r.game.iteration == 0,
            r.game.grid@.len() == 0,
    {
        App {
            running: false,
            grid: Default::default(),
            game_running: false,
            show_help: false,
            mod_mode: Default::default(),
            game: Default::default(),
        }
    }
}

/// One toggle flips a seeded cell and turns an unseeded cell dead — never
/// live.
pub proof fn lemma_toggle_cell(c: Option<bool>)
    ensures
        c matches Some(b) ==> toggle_cell(c) == Some(!b),
        c is None ==> toggle_cell(c) == Some(false),
        toggle_cell(c) is Some,
        c is None ==> toggle_cell(c) != Some(true),
{
}

/// Precedence of the derived mode: help first, then pause, then running.
pub proof fn lemma_mode_precedence(show_help: bool, game_running: bool)
    ensures
        show_help ==> mode_spec(show_help, game_running) is Help,
        !show_help && !game_running ==> mode_spec(show_help, game_running) is Mod,
        !show_help && game_running ==> mode_spec(show_help, game_running) is Run,
{
}

/// Cursor movement never leaves the clamp bounds: a cursor inside
/// `[0, width]` × `[0, height]` stays inside them after any key, and no key
/// changes the grid's shape.
pub proof fn lemma_cursor_stays_clamped(s: AppState, k: KeyInput)
    requires
        grid_wf(s.grid),
        0 <= s.cursor.0 <= width_of(s.grid),
        0 <= s.cursor.1 <= s.grid.len(),
    ensures
        key_step(s, k).grid.len() == s.grid.len(),
        width_of(key_step(s, k).grid) == width_of(s.grid),
        0 <= key_step(s, k).cursor.0 <= width_of(key_step(s, k).grid),
        0 <= key_step(s, k).cursor.1 <= key_step(s, k).grid.len(),
{
    if mode_spec(s.show_help, s.game_running) is Mod && k.code == Key::Char('t') && 0 <= s.cursor.0
        < width_of(s.grid) && 0 <= s.cursor.1 < s.grid.len() {
        let g2 = grid_after_toggle(s.grid, s.cursor.0, s.cursor.1);
        assert(g2.len() == s.grid.len());
        assert(g2[0].len() == s.grid[0].len());
        assert(width_of(g2) == width_of(s.grid));
    }
}

} // verus!
