//! Game rules of a street-trading game: a player buys and sells goods in
//! six districts over thirty days, pays a loan shark, visits the hospital and
//! survives random events on the road.  The graphical front end lives in the
//! application crate; this library holds the state and every rule.
pub mod catalog;
pub mod rng;
pub mod rounding;
pub mod interest;
pub mod player;
pub mod market;
pub mod analysis;
pub mod input;
pub mod game;
pub mod laws;
pub mod rules;
