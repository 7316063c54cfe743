//! Turn-execution engine of a strategy game: players with wallets, units on a
//! shared play ground, and a log of the moves that were carried out.

pub mod components;
pub mod entity;
pub mod exceptions;
pub mod hooks;
pub mod text;
