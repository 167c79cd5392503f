pub mod address;
pub mod board;
pub mod client;
pub mod dice;
pub mod effects;
pub mod error;
pub mod game;
pub mod laws;
pub mod monopoly_program;
pub mod play;
pub mod property;
pub mod trade;
pub mod turn;
