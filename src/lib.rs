//! Logic core of a grid-based snake game: a segmented snake moves on a fixed
//! arena, grows when it eats food and starts over when it hits a wall or itself.

pub mod arena;
pub mod clock;
pub mod direction;
pub mod snake;
pub mod laws;
