//! The actions offered at a node of the game tree, as handed to callers,
//! and the order in which callers list them.
use vstd::prelude::*;
use core::cmp::Ordering;

verus! {

/// An action at a node: a fixed move, a sized bet or raise, or a dealt card.
#[derive(Clone, Copy, Debug, PartialEq, Eq, Structural, Ord)]
pub enum WitAction {
    NoAction,
    Fold,
    Check,
    Call,
    Bet(u32),
    Raise(u32),
    AllIn(u32),
    Chance(u32),
}

impl WitAction {
    /// The rank of the action's kind in the listing order.
    pub open spec fn spec_sort_order(&self) -> u8 {
        match self {
            WitAction::NoAction => 0,
            WitAction::Fold => 1,
            WitAction::Check => 2,
            WitAction::Call => 3,
            WitAction::Bet(_) => 4,
            WitAction::Raise(_) => 5,
            WitAction::AllIn(_) => 6,
            WitAction::Chance(_) => 7,
        }
    }

    /// The amount or card the action carries, 0 for the fixed moves.
    pub open spec fn spec_inner_value(&self) -> u32 {
        match self {
            WitAction::Bet(x) | WitAction::Raise(x) | WitAction::AllIn(x) | WitAction::Chance(x) => *x,
            _ => 0,
        }
    }

    #[verifier::when_used_as_spec(spec_sort_order)]
    pub fn sort_order(&self) -> (r: u8)
        ensures
            r == self.spec_sort_order(),
    {
        match self {
            WitAction::NoAction => 0,
            WitAction::Fold => 1,
            WitAction::Check => 2,
            WitAction::Call => 3,
            WitAction::Bet(_) => 4,
            WitAction::Raise(_) => 5,
            WitAction::AllIn(_) => 6,
            WitAction::Chance(_) => 7,
        }
    }

    #[verifier::when_used_as_spec(spec_inner_value)]
    pub fn inner_value(&self) -> (r: u32)
        ensures
            r == self.spec_inner_value(),
    {
        match self {
            WitAction::Bet(x) | WitAction::Raise(x) | WitAction::AllIn(x) | WitAction::Chance(x) => *x,
            _ => 0,
        }
    }

    /// Compares two actions by kind, then by the value they carry.
    pub fn cmp(&self, other: &Self) -> (r: Ordering)
        ensures
            r == action_ordering(*self, *other),
    {
        let (a, b) = (self.sort_order(), other.sort_order());
        if a < b {
            Ordering::Less
        } else if b < a {
            Ordering::Greater
        } else {
            let (x, y) = (self.inner_value(), other.inner_value());
            if x < y {
                Ordering::Less
            } else if y < x {
                Ordering::Greater
            } else {
                Ordering::Equal
            }
        }
    }
}

/// `a` is listed strictly before `b`.
pub open spec fn action_lt(a: WitAction, b: WitAction) -> bool {
    ||| a.sort_order() < b.sort_order()
    ||| a.sort_order() == b.sort_order() && a.inner_value() < b.inner_value()
}

/// `a` is listed before `b`, or in the same place.
pub open spec fn action_le(a: WitAction, b: WitAction) -> bool {
    !action_lt(b, a)
}

/// The three-way comparison of two actions in the listing order.
pub open spec fn action_ordering(a: WitAction, b: WitAction) -> Ordering {
    if action_lt(a, b) {
        Ordering::Less
    } else if action_lt(b, a) {
        Ordering::Greater
    } else {
        Ordering::Equal
    }
}

impl PartialOrd for WitAction {
    fn partial_cmp(&self, other: &Self) -> (r: Option<Ordering>) {
        Some(self.cmp(other))
    }
}

impl vstd::std_specs::cmp::PartialOrdSpecImpl for WitAction {
    open spec fn obeys_partial_cmp_spec() -> bool {
        true
    }

    open spec fn partial_cmp_spec(&self, other: &Self) -> Option<Ordering> {
        Some(action_ordering(*self, *other))
    }
}

/// Two actions hold the same place in the listing order exactly when they are
/// equal: the kind and the carried value together determine the action.
pub proof fn lemma_same_key_same_action(a: WitAction, b: WitAction)
    ensures
        (a.sort_order() == b.sort_order() && a.inner_value() == b.inner_value()) <==> a == b,
        (action_ordering(a, b) == Ordering::Equal) <==> a == b,
{
}

/// The listing order is a total order: reflexive, antisymmetric, transitive
/// and total.
pub proof fn lemma_action_order_is_total(a: WitAction, b: WitAction, c: WitAction)
    ensures
        action_le(a, a),
        action_le(a, b) && action_le(b, a) ==> a == b,
        action_le(a, b) && action_le(b, c) ==> action_le(a, c),
        action_lt(a, b) && action_lt(b, c) ==> action_lt(a, c),
        action_le(a, b) || action_le(b, a),
        action_lt(a, b) ==> !action_lt(b, a),
{
}

/// Comparing the other way round reverses the outcome.
pub proof fn lemma_action_ordering_flips(a: WitAction, b: WitAction)
    ensures
        action_ordering(a, b) == Ordering::Less <==> action_ordering(b, a) == Ordering::Greater,
        action_ordering(a, b) == Ordering::Equal <==> action_ordering(b, a) == Ordering::Equal,
{
}

} // verus!
