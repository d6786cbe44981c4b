//! A falling-block puzzle simulation with machine-checked contracts.

pub mod board;
pub mod components;
pub mod config;
pub mod controller;
pub mod game;
pub mod layout;
pub mod menu_types;
pub mod model;
pub mod piece;
pub mod score;
pub mod simulation;
pub mod systems;
pub mod time;
pub mod title;

pub use board::Board;
pub use components::{ActivePiece, CoyoteTime, GameEvent, GhostPiece, Input, StepReport};
pub use menu_types::{Menu, MenuAction, MenuOption, MenuState, OptionsOption};
pub use piece::{PieceColor, Position, Tetromino, TetrominoType};
pub use score::GameState;
pub use simulation::GameSimulation;
pub use systems::{
    checked_game_tick_system, checked_input_system, game_tick_system, input_system, spawn_tetromino,
};
pub use time::Time;
