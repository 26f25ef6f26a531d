//! Entity pool, scene director and collision core of a small tile-based
//! action game, with every operation stated as a contract and proved.

pub mod actor;
pub mod actors;
pub mod frame;
pub mod game_obj;
pub mod game_state;
pub mod geometry;
pub mod global_data;
pub mod input;
pub mod maps;
pub mod scene;
