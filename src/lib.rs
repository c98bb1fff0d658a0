//! The rules of a two-player chess match: move legality with check,
//! castling, en passant and promotion, checkmate search, draw offers, clocks,
//! and the actions that drive a game from waiting for players to its result.

pub mod board;
pub mod castling_right;
pub mod color;
pub mod contexts;
pub mod draw_state;
pub mod error;
pub mod game;
pub mod game_config;
pub mod game_state;
pub mod key;
pub mod piece;
pub mod square;
pub mod time_control;
pub mod user;
