//! Party-select menu state and a creature texture cache for a game client.
pub mod select;
pub mod texture;
