use vstd::laws_eq::obeys_concrete_eq;
use vstd::prelude::*;
use vstd::std_specs::cmp::PartialEqSpec;

use crate::filter::{is_member, MessageFilterPlugin};

verus! {

/// A freshly created accumulator that drains one tick unconditionally holds
/// exactly that tick's messages, in emission order.
pub proof fn fresh_collector_holds_the_tick<E>(tick: Seq<E>)
    ensures
        Seq::<E>::empty() + tick == tick,
{
    assert(Seq::<E>::empty() + tick =~= tick);
}

/// Draining tick after tick accumulates: two unconditional drains leave the
/// same contents as one drain of both ticks' messages in order.
pub proof fn collector_accumulates_across_ticks<E>(before: Seq<E>, first: Seq<E>, second: Seq<E>)
    ensures
        (before + first) + second == before + (first + second),
{
    assert((before + first) + second =~= before + (first + second));
}

/// Draining tick after tick through a filter accumulates the same way: two
/// filtered drains keep what one filtered drain of both ticks keeps.
pub proof fn filter_accumulates_across_ticks<E: PartialEq>(
    filter: MessageFilterPlugin<E>,
    before: Seq<E>,
    first: Seq<E>,
    second: Seq<E>,
)
    ensures
        (before + filter.retained(first)) + filter.retained(second) == before + filter.retained(
            first + second,
        ),
{
    let pred = |m: E| filter.admits(m);
    Seq::filter_distributes_over_add(first, second, pred);
    assert((before + first.filter(pred)) + second.filter(pred) =~= before + (first.filter(pred)
        + second.filter(pred)));
}

/// Where `==` on `E` is equality of values, `Only(v)` keeps exactly the
/// messages equal to `v`, in emission order.
pub proof fn only_keeps_the_equal_messages<E: PartialEq>(v: E, tick: Seq<E>)
    requires
        obeys_concrete_eq::<E>(),
    ensures
        MessageFilterPlugin::Only(v).retained(tick) == tick.filter(|m: E| m == v),
{
    reveal(obeys_concrete_eq);
    let filter = MessageFilterPlugin::Only(v);
    assert((|m: E| filter.admits(m)) =~= (|m: E| m == v));
}

/// Where `==` on `E` is equality of values, `AnyOf(values)` keeps exactly the
/// messages that occur in `values`, in emission order.
pub proof fn any_of_keeps_the_listed_messages<E: PartialEq>(values: Vec<E>, tick: Seq<E>)
    requires
        obeys_concrete_eq::<E>(),
    ensures
        MessageFilterPlugin::AnyOf(values).retained(tick) == tick.filter(
            |m: E| values@.contains(m),
        ),
{
    reveal(obeys_concrete_eq);
    let filter = MessageFilterPlugin::AnyOf(values);
    assert forall|m: E| filter.admits(m) == values@.contains(m) by {
        if values@.contains(m) {
            let i = choose|i: int| 0 <= i < values@.len() && values@[i] == m;
            assert(values@[i].eq_spec(&m));
        }
    }
    assert((|m: E| filter.admits(m)) =~= (|m: E| values@.contains(m)));
}

/// `AnyOf` with no values keeps nothing, whatever the tick holds.
pub proof fn any_of_nothing_keeps_nothing<E: PartialEq>(values: Vec<E>, tick: Seq<E>)
    requires
        values@.len() == 0,
    ensures
        MessageFilterPlugin::AnyOf(values).retained(tick) == Seq::<E>::empty(),
{
    let filter = MessageFilterPlugin::AnyOf(values);
    let pred = |m: E| filter.admits(m);
    tick.lemma_filter_len(pred);
    if tick.filter(pred).len() > 0 {
        tick.lemma_filter_pred(pred, 0);
    }
}

/// `AnyOf` tests membership and does not count: two lists of values with the
/// same members, duplicates or order aside, keep the same messages.
pub proof fn any_of_depends_on_members_only<E: PartialEq>(
    values: Vec<E>,
    others: Vec<E>,
    tick: Seq<E>,
)
    requires
        forall|m: E| is_member(values@, m) == is_member(others@, m),
    ensures
        MessageFilterPlugin::AnyOf(values).retained(tick) == MessageFilterPlugin::AnyOf(
            others,
        ).retained(tick),
{
    let a = MessageFilterPlugin::AnyOf(values);
    let b = MessageFilterPlugin::AnyOf(others);
    assert((|m: E| a.admits(m)) =~= (|m: E| b.admits(m)));
}

} // verus!
