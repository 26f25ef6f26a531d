//! The concrete entity kinds.

pub mod player;
pub mod wall;
