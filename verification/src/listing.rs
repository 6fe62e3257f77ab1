//! Listing actions in the action order, stably.
use vstd::prelude::*;
use crate::action::{WitAction, action_le, action_lt};
use crate::wit::WitActionRatio;

verus! {

/// The entries of `s` whose action is `a`, in the order they come in `s`.
pub open spec fn entries_with<R>(s: Seq<WitActionRatio<R>>, a: WitAction) -> Seq<WitActionRatio<R>> {
    s.filter(|e: WitActionRatio<R>| e.action == a)
}

/// The entries of `s` come in the action order.
pub open spec fn listed_in_action_order<R>(s: Seq<WitActionRatio<R>>) -> bool {
    forall|i: int, j: int|
        0 <= i < j < s.len() ==> action_le(#[trigger] s[i].action, #[trigger] s[j].action)
}

/// `out` lists the entries of `input` in the action order, and entries with
/// the same action keep the order they had in `input`.
pub open spec fn is_stable_action_listing<R>(
    input: Seq<WitActionRatio<R>>,
    out: Seq<WitActionRatio<R>>,
) -> bool {
    &&& out.len() == input.len()
    &&& listed_in_action_order(out)
    &&& forall|a: WitAction| #[trigger] entries_with(out, a) == entries_with(input, a)
}

proof fn lemma_entries_single<R>(x: WitActionRatio<R>, a: WitAction)
    ensures
        entries_with(seq![x], a) == (if x.action == a { seq![x] } else { Seq::<WitActionRatio<R>>::empty() }),
{
    reveal_with_fuel(Seq::filter, 2);
    assert(seq![x].drop_last() =~= Seq::<WitActionRatio<R>>::empty());
}

proof fn lemma_entries_split<R>(s: Seq<WitActionRatio<R>>, t: Seq<WitActionRatio<R>>, a: WitAction)
    ensures
        entries_with(s + t, a) == entries_with(s, a) + entries_with(t, a),
{
    Seq::filter_distributes_over_add(s, t, |e: WitActionRatio<R>| e.action == a);
}

proof fn lemma_entries_push<R>(s: Seq<WitActionRatio<R>>, x: WitActionRatio<R>, a: WitAction)
    ensures
        entries_with(s.push(x), a) == (if x.action == a { entries_with(s, a).push(x) } else { entries_with(s, a) }),
{
    reveal(Seq::filter);
    assert(s.push(x).drop_last() =~= s);
}

proof fn lemma_entries_nonempty_has<R>(s: Seq<WitActionRatio<R>>, a: WitAction) -> (j: int)
    requires
        entries_with(s, a).len() > 0,
    ensures
        0 <= j < s.len(),
        s[j].action == a,
{
    if forall|i: int| 0 <= i < s.len() ==> !(#[trigger] s[i].action == a) {
        s.lemma_all_neg_filter_empty(|e: WitActionRatio<R>| e.action == a);
        assert(false);
        0
    } else {
        choose|i: int| 0 <= i < s.len() && #[trigger] s[i].action == a
    }
}

proof fn lemma_same_listing<R>(s: Seq<WitActionRatio<R>>, t: Seq<WitActionRatio<R>>)
    requires
        s.len() == t.len(),
        listed_in_action_order(s),
        listed_in_action_order(t),
        forall|a: WitAction| #[trigger] entries_with(s, a) == entries_with(t, a),
    ensures
        s == t,
    decreases s.len(),
{
    if s.len() == 0 {
        assert(s =~= t);
    } else {
        let n = s.len() - 1;
        let (x, y) = (s[n], t[n]);
        let (s0, t0) = (s.drop_last(), t.drop_last());
        assert(s =~= s0.push(x));
        assert(t =~= t0.push(y));
        lemma_entries_push(s0, x, x.action);
        lemma_entries_push(t0, y, y.action);
        lemma_entries_push(s0, x, y.action);
        lemma_entries_push(t0, y, x.action);
        let j = lemma_entries_nonempty_has(t, x.action);
        let i = lemma_entries_nonempty_has(s, y.action);
        assert(action_le(x.action, y.action)) by {
            if j < n {
                assert(action_le(t[j].action, t[n].action));
            }
        }
        assert(action_le(y.action, x.action)) by {
            if i < n {
                assert(action_le(s[i].action, s[n].action));
            }
        }
        crate::action::lemma_action_order_is_total(x.action, y.action, y.action);
        assert(x.action == y.action);
        assert(entries_with(s, x.action) == entries_with(t, x.action));
        assert(entries_with(s0, x.action).push(x) == entries_with(t0, x.action).push(y));
        assert(x == entries_with(s0, x.action).push(x).last());
        assert(x == y);
        assert forall|a: WitAction| #[trigger] entries_with(s0, a) == entries_with(t0, a) by {
            lemma_entries_push(s0, x, a);
            lemma_entries_push(t0, y, a);
            if x.action == a {
                assert(entries_with(s0, a) =~= entries_with(s0, a).push(x).drop_last());
                assert(entries_with(t0, a) =~= entries_with(t0, a).push(y).drop_last());
            }
        }
        assert forall|p: int, q: int| 0 <= p < q < s0.len() implies action_le(
            #[trigger] s0[p].action,
            #[trigger] s0[q].action,
        ) by {
            assert(s0[p] == s[p] && s0[q] == s[q]);
        }
        assert forall|p: int, q: int| 0 <= p < q < t0.len() implies action_le(
            #[trigger] t0[p].action,
            #[trigger] t0[q].action,
        ) by {
            assert(t0[p] == t[p] && t0[q] == t[q]);
        }
        lemma_same_listing(s0, t0);
    }
}

/// The stable listing is unique: two sequences that both list the same
/// entries in the action order, keeping the order within each action, are
/// the same sequence.
pub proof fn lemma_stable_listing_is_unique<R>(
    input: Seq<WitActionRatio<R>>,
    out1: Seq<WitActionRatio<R>>,
    out2: Seq<WitActionRatio<R>>,
)
    requires
        is_stable_action_listing(input, out1),
        is_stable_action_listing(input, out2),
    ensures
        out1 == out2,
{
    lemma_same_listing(out1, out2);
}

proof fn lemma_count_in_entries<R>(s: Seq<WitActionRatio<R>>, e: WitActionRatio<R>)
    ensures
        s.to_multiset().count(e) == entries_with(s, e.action).to_multiset().count(e),
    decreases s.len(),
{
    broadcast use vstd::seq_lib::group_to_multiset_ensures;
    if s.len() == 0 {
        reveal(Seq::filter);
        assert(entries_with(s, e.action) =~= s);
    } else {
        let s0 = s.drop_last();
        let x = s.last();
        assert(s =~= s0.push(x));
        lemma_count_in_entries(s0, e);
        lemma_entries_push(s0, x, e.action);
    }
}

/// A stable listing loses and adds nothing: it holds each entry as many
/// times as the input does.
pub proof fn lemma_stable_listing_permutes<R>(input: Seq<WitActionRatio<R>>, out: Seq<WitActionRatio<R>>)
    requires
        is_stable_action_listing(input, out),
    ensures
        out.to_multiset() == input.to_multiset(),
{
    assert forall|e: WitActionRatio<R>| out.to_multiset().count(e) == input.to_multiset().count(e) by {
        lemma_count_in_entries(out, e);
        lemma_count_in_entries(input, e);
    }
    assert(out.to_multiset() =~= input.to_multiset());
}

/// Lists the entries in the action order; entries with the same action keep
/// their relative order.
pub fn sort_by_action<R>(list: Vec<WitActionRatio<R>>) -> (out: Vec<WitActionRatio<R>>)
    ensures
        is_stable_action_listing(list@, out@),
{
    let ghost orig = list@;
    let n = list.len();
    let mut rest = list;
    let mut out: Vec<WitActionRatio<R>> = Vec::new();
    let mut k: usize = 0;
    while k < n
        invariant
            n == orig.len(),
            k <= n,
            rest@ == orig.subrange(k as int, n as int),
            out@.len() == k,
            listed_in_action_order(out@),
            forall|a: WitAction| #[trigger] entries_with(out@, a) == entries_with(orig.take(k as int), a),
        decreases n - k,
    {
        let x = rest.remove(0);
        assert(x == orig[k as int]);
        let mut j = out.len();
        while j > 0 && x.action < out[j - 1].action
            invariant
                j <= out@.len(),
                forall|i: int| j <= i < out@.len() ==> action_lt(x.action, #[trigger] out@[i].action),
            decreases j,
        {
            j = j - 1;
        }
        let ghost old_out = out@;
        proof {
            assert(j > 0 ==> action_le(old_out[j - 1].action, x.action));
        }
        out.insert(j, x);
        proof {
            let new_out = out@;
            assert(new_out =~= old_out.take(j as int) + seq![x] + old_out.skip(j as int));
            assert(old_out =~= old_out.take(j as int) + old_out.skip(j as int));
            assert forall|p: int, q: int| 0 <= p < q < new_out.len() implies action_le(
                #[trigger] new_out[p].action,
                #[trigger] new_out[q].action,
            ) by {
                if q < j {
                    assert(new_out[p] == old_out[p] && new_out[q] == old_out[q]);
                } else if q == j {
                    assert(new_out[p] == old_out[p]);
                    assert(action_le(old_out[p].action, old_out[j - 1].action));
                } else if p == j {
                    assert(new_out[q] == old_out[q - 1]);
                } else if p < j {
                    assert(new_out[p] == old_out[p] && new_out[q] == old_out[q - 1]);
                } else {
                    assert(new_out[p] == old_out[p - 1] && new_out[q] == old_out[q - 1]);
                }
            }
            assert(orig.take(k + 1) =~= orig.take(k as int) + seq![x]);
            assert forall|a: WitAction| #[trigger] entries_with(new_out, a) == entries_with(
                orig.take(k + 1),
                a,
            ) by {
                let pre = old_out.take(j as int);
                let post = old_out.skip(j as int);
                lemma_entries_split(pre + seq![x], post, a);
                lemma_entries_split(pre, seq![x], a);
                lemma_entries_split(pre, post, a);
                lemma_entries_split(orig.take(k as int), seq![x], a);
                lemma_entries_single(x, a);
                if x.action == a {
                    assert forall|i: int| 0 <= i < post.len() implies !(#[trigger] post[i].action == a) by {
                        assert(post[i] == old_out[j + i]);
                    }
                    post.lemma_all_neg_filter_empty(|e: WitActionRatio<R>| e.action == a);
                    assert(entries_with(post, a) =~= Seq::<WitActionRatio<R>>::empty());
                    assert(entries_with(pre, a) + seq![x] + Seq::<WitActionRatio<R>>::empty() =~= entries_with(pre, a) + seq![x]);
                    assert(entries_with(pre, a) + entries_with(post, a) =~= entries_with(pre, a));
                } else {
                    assert(entries_with(pre, a) + Seq::<WitActionRatio<R>>::empty() =~= entries_with(pre, a));
                    assert(entries_with(orig.take(k as int), a) + Seq::<WitActionRatio<R>>::empty() =~= entries_with(orig.take(k as int), a));
                }
            }
        }
        k = k + 1;
    }
    assert(orig.take(n as int) =~= orig);
    out
}

} // verus!
