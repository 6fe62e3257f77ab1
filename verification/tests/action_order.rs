use postflop_solver::action::WitAction;
use std::cmp::Ordering;

fn all_kinds(x: u32) -> Vec<WitAction> {
    vec![
        WitAction::NoAction,
        WitAction::Fold,
        WitAction::Check,
        WitAction::Call,
        WitAction::Bet(x),
        WitAction::Raise(x),
        WitAction::AllIn(x),
        WitAction::Chance(x),
    ]
}

#[test]
fn sort_order_follows_the_kinds() {
    let orders: Vec<u8> = all_kinds(7).iter().map(|a| a.sort_order()).collect();
    assert_eq!(orders, vec![0, 1, 2, 3, 4, 5, 6, 7]);
}

#[test]
fn inner_value_is_the_carried_value() {
    let values: Vec<u32> = all_kinds(42).iter().map(|a| a.inner_value()).collect();
    assert_eq!(values, vec![0, 0, 0, 0, 42, 42, 42, 42]);
}

#[test]
fn cmp_orders_by_kind_then_value() {
    assert_eq!(WitAction::Check.cmp(&WitAction::Bet(0)), Ordering::Less);
    assert_eq!(WitAction::Bet(100).cmp(&WitAction::Raise(1)), Ordering::Less);
    assert_eq!(WitAction::Bet(10).cmp(&WitAction::Bet(5)), Ordering::Greater);
    assert_eq!(WitAction::AllIn(3).cmp(&WitAction::AllIn(3)), Ordering::Equal);
    assert_eq!(WitAction::Chance(0).cmp(&WitAction::AllIn(9)), Ordering::Greater);
}

#[test]
fn partial_cmp_agrees_with_cmp() {
    for a in all_kinds(3).into_iter().chain(all_kinds(9)) {
        for b in all_kinds(3).into_iter().chain(all_kinds(9)) {
            assert_eq!(a.partial_cmp(&b), Some(WitAction::cmp(&a, &b)));
            assert_eq!(Ord::cmp(&a, &b), WitAction::cmp(&a, &b));
            assert_eq!(a == b, WitAction::cmp(&a, &b) == Ordering::Equal);
            assert_eq!(a < b, WitAction::cmp(&a, &b) == Ordering::Less);
        }
    }
}

#[test]
fn equality_is_same_kind_and_value() {
    assert_eq!(WitAction::Bet(5), WitAction::Bet(5));
    assert_ne!(WitAction::Bet(5), WitAction::Raise(5));
    assert_ne!(WitAction::Bet(5), WitAction::Bet(6));
    assert_eq!(WitAction::Fold, WitAction::Fold);
}
