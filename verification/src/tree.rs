//! The values that the solver's game tree reports about a node and its past:
//! actions, whose turn it is, the street, and the history of valid actions.
use vstd::prelude::*;

verus! {

/// An action in the game tree: amounts are chips, a chance action carries the
/// dealt card's index.
#[derive(Clone, Copy, Debug, PartialEq, Eq, Structural, Hash)]
pub enum Action {
    NoAction,
    Fold,
    Check,
    Call,
    Bet(i32),
    Raise(i32),
    AllIn(i32),
    Chance(u8),
}

/// Whose move a node waits for.
#[derive(Clone, Copy, Debug, PartialEq, Eq, Structural)]
pub enum GameStatus {
    Chance,
    Ip,
    Oop,
    Terminal,
    Unknown,
}

/// The street a node belongs to.
#[derive(Clone, Copy, Debug, PartialEq, Eq, Structural)]
pub enum BoardState {
    Flop,
    Turn,
    River,
}

/// One step of the played line: the actions that were valid there, each with
/// the ratio the solved strategy gives it (of type `R`), whose move it was,
/// the pot before the current bet, and the street.
pub struct ActionHistoryDetail<R> {
    pub actions: Vec<(Action, R)>,
    pub game_status: GameStatus,
    pub pot_without_current_bet: i32,
    pub street: BoardState,
}

} // verus!
