pub mod board;
pub mod events;
pub mod piece;
pub mod tiles;
