//! Turning what the game tree reports into what callers are handed.
use vstd::prelude::*;
use crate::action::WitAction;
use crate::tree::{Action, ActionHistoryDetail, BoardState, GameStatus};
use crate::wit::{Strategy, StrategyMap, Street, WitActionHistoryDetail, WitActionRatio, WitGameStatus};
use crate::listing::{is_stable_action_listing, sort_by_action};

verus! {

/// The caller's form of a tree action: amounts are reinterpreted as unsigned
/// 32-bit values, a dealt card keeps its index.
pub open spec fn wit_action_of(a: Action) -> WitAction {
    match a {
        Action::NoAction => WitAction::NoAction,
        Action::Fold => WitAction::Fold,
        Action::Check => WitAction::Check,
        Action::Call => WitAction::Call,
        Action::Bet(x) => WitAction::Bet(x as u32),
        Action::Raise(x) => WitAction::Raise(x as u32),
        Action::AllIn(x) => WitAction::AllIn(x as u32),
        Action::Chance(c) => WitAction::Chance(c as u32),
    }
}

/// The caller's form of a node's status; `Unknown` has none.
pub open spec fn wit_status_of(s: GameStatus) -> WitGameStatus
    recommends
        s != GameStatus::Unknown,
{
    match s {
        GameStatus::Chance => WitGameStatus::Chance,
        GameStatus::Ip => WitGameStatus::IpAction,
        GameStatus::Oop => WitGameStatus::OopAction,
        _ => WitGameStatus::Terminal,
    }
}

/// The caller's form of a street.
pub open spec fn street_of(b: BoardState) -> Street {
    match b {
        BoardState::Flop => Street::Flop,
        BoardState::Turn => Street::Turn,
        BoardState::River => Street::River,
    }
}

/// An action paired with its ratio, in the caller's form.
pub open spec fn wit_ratio_of<R>(p: (Action, R)) -> WitActionRatio<R> {
    WitActionRatio { action: wit_action_of(p.0), ratio: p.1 }
}

/// The pairs of `s`, each in the caller's form, in the same order.
pub open spec fn wit_ratios_of<R>(s: Seq<(Action, R)>) -> Seq<WitActionRatio<R>> {
    s.map_values(|p: (Action, R)| wit_ratio_of(p))
}

impl From<Action> for WitAction {
    fn from(action: Action) -> (r: Self) {
        match action {
            Action::NoAction => WitAction::NoAction,
            Action::Fold => WitAction::Fold,
            Action::Check => WitAction::Check,
            Action::Call => WitAction::Call,
            Action::Bet(x) => WitAction::Bet(x as u32),
            Action::Raise(x) => WitAction::Raise(x as u32),
            Action::AllIn(x) => WitAction::AllIn(x as u32),
            Action::Chance(card) => WitAction::Chance(card as u32),
        }
    }
}

impl vstd::std_specs::convert::FromSpecImpl<Action> for WitAction {
    open spec fn obeys_from_spec() -> bool {
        true
    }

    open spec fn from_spec(v: Action) -> Self {
        wit_action_of(v)
    }
}

impl<R> From<(Action, R)> for WitActionRatio<R> {
    fn from(value: (Action, R)) -> (r: Self) {
        let (action, ratio) = value;
        let action_converted = WitAction::from(action);
        WitActionRatio { action: action_converted, ratio: ratio }
    }
}

impl<R> vstd::std_specs::convert::FromSpecImpl<(Action, R)> for WitActionRatio<R> {
    open spec fn obeys_from_spec() -> bool {
        true
    }

    open spec fn from_spec(v: (Action, R)) -> Self {
        wit_ratio_of(v)
    }
}

impl WitGameStatus {
    /// The caller's form of a node's status. A node of unknown status has
    /// none, so it is not accepted.
    pub fn from(status: GameStatus) -> (r: WitGameStatus)
        requires
            status != GameStatus::Unknown,
        ensures
            r == wit_status_of(status),
    {
        match status {
            GameStatus::Chance => WitGameStatus::Chance,
            GameStatus::Ip => WitGameStatus::IpAction,
            GameStatus::Oop => WitGameStatus::OopAction,
            GameStatus::Terminal => WitGameStatus::Terminal,
            GameStatus::Unknown => {
                proof {
                    assert(false);
                }
                WitGameStatus::Terminal
            },
        }
    }
}

impl Street {
    /// The caller's form of a street.
    pub fn from(street: BoardState) -> (r: Street)
        ensures
            r == street_of(street),
    {
        match street {
            BoardState::Flop => Street::Flop,
            BoardState::Turn => Street::Turn,
            BoardState::River => Street::River,
        }
    }
}

/// `w` is the caller's form of the step `d`: its actions in the caller's form,
/// listed stably in the action order; its status, pot (reinterpreted as
/// unsigned) and street.
pub open spec fn is_wit_detail_of<R>(d: ActionHistoryDetail<R>, w: WitActionHistoryDetail<R>) -> bool {
    &&& is_stable_action_listing(wit_ratios_of(d.actions@), w.action_ratio_list@)
    &&& w.game_status == wit_status_of(d.game_status)
    &&& w.pot == d.pot_without_current_bet as u32
    &&& w.street == street_of(d.street)
}

impl<R> WitActionHistoryDetail<R> {
    /// The caller's form of a step of the played line: its actions in the
    /// caller's form, listed stably in the action order; its status, pot
    /// (reinterpreted as unsigned) and street. A step of unknown status is not
    /// accepted.
    pub fn from(detail: ActionHistoryDetail<R>) -> (r: WitActionHistoryDetail<R>)
        requires
            detail.game_status != GameStatus::Unknown,
        ensures
            is_wit_detail_of(detail, r),
    {
        let ActionHistoryDetail { actions, game_status, pot_without_current_bet, street } = detail;
        let ghost orig = actions@;
        let n = actions.len();
        let mut rest = actions;
        let mut tmp_list: Vec<WitActionRatio<R>> = Vec::new();
        let mut k: usize = 0;
        while k < n
            invariant
                n == orig.len(),
                k <= n,
                rest@ == orig.subrange(k as int, n as int),
                tmp_list@ == wit_ratios_of(orig.take(k as int)),
            decreases n - k,
        {
            let pair = rest.remove(0);
            assert(pair == orig[k as int]);
            tmp_list.push(WitActionRatio::from(pair));
            assert(orig.take(k + 1) =~= orig.take(k as int).push(pair));
            assert(tmp_list@ =~= wit_ratios_of(orig.take(k + 1)));
            k = k + 1;
        }
        assert(orig.take(n as int) =~= orig);
        let sorted = sort_by_action(tmp_list);
        WitActionHistoryDetail {
            action_ratio_list: sorted,
            game_status: WitGameStatus::from(game_status),
            pot: pot_without_current_bet as u32,
            street: Street::from(street),
        }
    }
}

/// The strategy entry of `hand` for one action with its (weight, ratio), in
/// the caller's form.
pub open spec fn strategy_entry<R>(hand: String, e: (Action, (R, R))) -> StrategyMap<R> {
    StrategyMap {
        hand,
        action: wit_action_of(e.0),
        strategy: Strategy { weight: e.1.0, action_ratio: e.1.1 },
    }
}

/// The strategy entries of one hand, in the order of its actions.
pub open spec fn hand_entries<R>(row: (String, Vec<(Action, (R, R))>)) -> Seq<StrategyMap<R>> {
    row.1@.map_values(|e: (Action, (R, R))| strategy_entry(row.0, e))
}

/// The strategy entries of every hand, hand after hand.
pub open spec fn strategy_entries<R>(per_hand: Seq<(String, Vec<(Action, (R, R))>)>) -> Seq<StrategyMap<R>>
    decreases per_hand.len(),
{
    if per_hand.len() == 0 {
        Seq::empty()
    } else {
        strategy_entries(per_hand.drop_last()) + hand_entries(per_hand.last())
    }
}

/// The number of (hand, action) pairs given: the sum over the hands of how
/// many actions each has.
pub open spec fn total_pairs<R>(per_hand: Seq<(String, Vec<(Action, (R, R))>)>) -> nat
    decreases per_hand.len(),
{
    if per_hand.len() == 0 {
        0
    } else {
        total_pairs(per_hand.drop_last()) + per_hand.last().1@.len()
    }
}

proof fn lemma_total_pairs_prefix<R>(per_hand: Seq<(String, Vec<(Action, (R, R))>)>, h: int)
    requires
        0 <= h < per_hand.len(),
    ensures
        total_pairs(per_hand.take(h)) + per_hand[h].1@.len() <= total_pairs(per_hand),
    decreases per_hand.len(),
{
    let last = per_hand.len() - 1;
    assert(per_hand.take(per_hand.len() as int) =~= per_hand);
    if h < last {
        assert(per_hand.drop_last().take(h) =~= per_hand.take(h));
        lemma_total_pairs_prefix(per_hand.drop_last(), h);
    } else {
        assert(per_hand.take(h) =~= per_hand.drop_last());
    }
}

/// The strategy list has exactly one entry for each (hand, action) pair
/// given, whatever the action: as many entries as pairs, and the `k`-th
/// action of the `h`-th hand, after the pairs of the hands before it, is that
/// hand with that action (in the caller's form), its weight and its ratio.
pub proof fn lemma_strategy_entries_one_per_pair<R>(per_hand: Seq<(String, Vec<(Action, (R, R))>)>)
    ensures
        strategy_entries(per_hand).len() == total_pairs(per_hand),
        forall|h: int, k: int|
            0 <= h < per_hand.len() && 0 <= k < per_hand[h].1@.len() ==> {
                let entry = #[trigger] strategy_entries(per_hand)[total_pairs(per_hand.take(h)) + k];
                let pair = per_hand[h].1@[k];
                &&& entry.hand == per_hand[h].0
                &&& entry.action == wit_action_of(pair.0)
                &&& entry.strategy.weight == pair.1.0
                &&& entry.strategy.action_ratio == pair.1.1
            },
    decreases per_hand.len(),
{
    if per_hand.len() > 0 {
        let init = per_hand.drop_last();
        let last = per_hand.len() - 1;
        lemma_strategy_entries_one_per_pair(init);
        assert forall|h: int, k: int|
            0 <= h < per_hand.len() && 0 <= k < per_hand[h].1@.len() implies {
                let entry = #[trigger] strategy_entries(per_hand)[total_pairs(per_hand.take(h)) + k];
                let pair = per_hand[h].1@[k];
                &&& entry.hand == per_hand[h].0
                &&& entry.action == wit_action_of(pair.0)
                &&& entry.strategy.weight == pair.1.0
                &&& entry.strategy.action_ratio == pair.1.1
            } by {
            if h < last {
                assert(init.take(h) =~= per_hand.take(h));
                assert(init[h] == per_hand[h]);
                lemma_total_pairs_prefix(init, h);
                let idx = total_pairs(init.take(h)) + k;
                assert(strategy_entries(init)[idx] == strategy_entries(init)[total_pairs(init.take(h)) + k]);
            } else {
                assert(per_hand.take(h) =~= init);
            }
        }
    }
}

/// The strategy at a node as one list: for each hand, in order, an entry for
/// each of its actions, in order, with the action in the caller's form.
pub fn strategy_list<R: Copy>(per_hand: &[(String, Vec<(Action, (R, R))>)]) -> (r: Vec<StrategyMap<R>>)
    ensures
        r@ == strategy_entries(per_hand@),
{
    let mut out: Vec<StrategyMap<R>> = Vec::new();
    for i in 0..per_hand.len()
        invariant
            out@ == strategy_entries(per_hand@.take(i as int)),
    {
        let ghost before = out@;
        let row = &per_hand[i];
        for j in 0..row.1.len()
            invariant
                row == &per_hand@[i as int],
                out@ == before + row.1@.take(j as int).map_values(|e: (Action, (R, R))| strategy_entry(row.0, e)),
        {
            let (action, (weight, action_ratio)) = row.1[j];
            out.push(StrategyMap {
                hand: row.0.clone(),
                action: WitAction::from(action),
                strategy: Strategy { weight, action_ratio },
            });
            assert(row.1@.take(j + 1) =~= row.1@.take(j as int).push(row.1@[j as int]));
            assert(out@ =~= before + row.1@.take(j + 1).map_values(|e: (Action, (R, R))| strategy_entry(row.0, e)));
        }
        assert(row.1@.take(row.1@.len() as int) =~= row.1@);
        assert(per_hand@.take(i + 1).drop_last() =~= per_hand@.take(i as int));
    }
    assert(per_hand@.take(per_hand@.len() as int) =~= per_hand@);
    out
}

} // verus!
