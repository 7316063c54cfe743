//! What a game is made of: players, units, skills, actions and their outcomes.

pub mod game_actions;
pub mod player;
pub mod skill;
pub mod unit;
