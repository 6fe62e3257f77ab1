//! The values handed across the component interface.
use vstd::prelude::*;
use crate::action::WitAction;

verus! {

/// Whose move the current node waits for, as callers see it.
#[derive(Clone, Copy, Debug, PartialEq, Eq, Structural)]
pub enum WitGameStatus {
    Chance,
    OopAction,
    IpAction,
    Terminal,
}

/// The street of a node, as callers see it.
#[derive(Clone, Copy, Debug, PartialEq, Eq, Structural)]
pub enum Street {
    Flop,
    Turn,
    River,
}

/// An action together with the ratio (of type `R`) that the strategy gives it.
pub struct WitActionRatio<R> {
    pub action: WitAction,
    pub ratio: R,
}

/// One step of the played line as callers see it: its actions listed in the
/// action order, whose move it was, the pot and the street.
pub struct WitActionHistoryDetail<R> {
    pub action_ratio_list: Vec<WitActionRatio<R>>,
    pub game_status: WitGameStatus,
    pub pot: u32,
    pub street: Street,
}

/// How often an action is taken with a hand (`action_ratio`) and the hand's
/// weight, both of type `R`.
#[derive(Debug)]
pub struct Strategy<R> {
    pub weight: R,
    pub action_ratio: R,
}

/// One entry of the strategy at a node: a hand, an action and its strategy.
pub struct StrategyMap<R> {
    pub hand: String,
    pub action: WitAction,
    pub strategy: Strategy<R>,
}

} // verus!
