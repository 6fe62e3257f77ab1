//! A heads-up postflop game front end: the actions, statuses and cards that
//! the solver's game tree exchanges with its callers, and the game resource
//! that drives a solver engine through them.
pub mod action;
pub mod tree;
pub mod wit;
pub mod listing;
pub mod convert;
pub mod card;
pub mod game;
