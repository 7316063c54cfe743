//! The parts that run a game: the unit factory, the bank and the barrack, the
//! play ground and the game itself.

pub mod building;
pub mod displayer;
pub mod game;
pub mod play_ground;
pub mod turn_strategy;
pub mod unit_factory;
