//! The rules of a small auto-battler tavern game: the minion pool, the shop,
//! the board, the battle, and the selection cursor, with their contracts.

pub mod battle;
pub mod board;
pub mod card_art;
pub mod chance;
pub mod cursor;
pub mod draw;
pub mod game;
pub mod minion;
pub mod pool;
