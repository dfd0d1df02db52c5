pub mod app;
pub mod game_of_life;
pub mod grid;
pub mod modify_mode;
