pub mod game;
pub mod game_laws;
pub mod grid;
pub mod grid_laws;
pub mod input;
pub mod pieces;
pub mod random;
