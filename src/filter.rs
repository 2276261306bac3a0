use vstd::prelude::*;
use vstd::std_specs::cmp::PartialEqSpec;

use crate::messages::CollectedMessages;

verus! {

/// Whether `values` holds an element equal to `m`, the way `[E]::contains`
/// compares: each element against `m`.
pub open spec fn is_member<E: PartialEq>(values: Seq<E>, m: E) -> bool {
    exists|i: int| 0 <= i < values.len() && #[trigger] values[i].eq_spec(&m)
}

/// Tests whether `values` holds an element equal to `m`.
pub fn contains_message<E: PartialEq>(values: &[E], m: &E) -> (r: bool)
    requires
        E::obeys_eq_spec(),
    ensures
        r == is_member(values@, *m),
{
    let mut i: usize = 0;
    while i < values.len()
        invariant
            E::obeys_eq_spec(),
            i <= values@.len(),
            forall|j: int| 0 <= j < i ==> !(#[trigger] values@[j].eq_spec(m)),
        decreases values@.len() - i,
    {
        if values[i] == *m {
            return true;
        }
        i = i + 1;
    }
    false
}

/// A filtering collector for messages of type `E`, fixed when it is built.
#[derive(Clone, Debug)]
pub enum MessageFilterPlugin<E> {
    /// Keeps the messages equal to this one.
    Only(E),
    /// Keeps the messages equal to any of these.
    AnyOf(Vec<E>),
}

impl<E: PartialEq> MessageFilterPlugin<E> {
    /// Whether the drain step keeps message `m`.
    pub open spec fn admits(&self, m: E) -> bool {
        match self {
            MessageFilterPlugin::Only(v) => m.eq_spec(v),
            MessageFilterPlugin::AnyOf(vs) => is_member(vs@, m),
        }
    }

    /// The part of `tick` that the drain step keeps, in emission order.
    pub open spec fn retained(&self, tick: Seq<E>) -> Seq<E> {
        tick.filter(|m: E| self.admits(m))
    }

    /// Tests whether the drain step keeps `m`.
    pub fn accepts(&self, m: &E) -> (r: bool)
        requires
            E::obeys_eq_spec(),
        ensures
            r == self.admits(*m),
    {
        match self {
            MessageFilterPlugin::Only(v) => *m == *v,
            MessageFilterPlugin::AnyOf(vs) => contains_message(vs.as_slice(), m),
        }
    }

    /// The messages of `tick` that the filter admits, in emission order.
    pub fn keep(&self, tick: Vec<E>) -> (kept: Vec<E>)
        requires
            E::obeys_eq_spec(),
        ensures
            kept@ == self.retained(tick@),
    {
        let mut kept: Vec<E> = Vec::new();
        let ghost all = tick@;
        for m in it: tick.into_iter()
            invariant
                E::obeys_eq_spec(),
                it.seq() == all,
                kept@ == self.retained(all.take(it.index() as int)),
        {
            let ghost k = it.index() as int;
            proof {
                assert(all.take(k + 1).drop_last() == all.take(k));
                assert(all.take(k + 1).last() == m);
                reveal(Seq::filter);
            }
            if self.accepts(&m) {
                kept.push(m);
            }
        }
        proof {
            assert(all.take(all.len() as int) == all);
        }
        kept
    }

    /// The drain step: appends to `collected` the messages of `tick` that
    /// the filter admits, in order.
    pub fn drain(&self, collected: &mut CollectedMessages<E>, tick: Vec<E>)
        requires
            E::obeys_eq_spec(),
        ensures
            final(collected)@ == old(collected)@ + self.retained(tick@),
    {
        let kept = self.keep(tick);
        collected.extend(kept);
    }
}

} // verus!
