use vstd::prelude::*;

use crate::collector::MessageCollectorPlugin;
use crate::filter::MessageFilterPlugin;
use crate::messages::CollectedMessages;

verus! {

/// The accumulator under the name that the event-based interface gives it.
/// It holds a [`CollectedMessages`] and behaves as one.
#[derive(Debug)]
pub struct CollectedEvents<E>(CollectedMessages<E>);

impl<E> View for CollectedEvents<E> {
    type V = Seq<E>;

    closed spec fn view(&self) -> Seq<E> {
        self.0@
    }
}

impl<E> CollectedEvents<E> {
    /// An accumulator that holds nothing yet.
    pub fn new() -> (r: Self)
        ensures
            r@ == Seq::<E>::empty(),
    {
        CollectedEvents(CollectedMessages::new())
    }

    /// The captured events, oldest first.
    pub fn get(&self) -> (r: &Vec<E>)
        ensures
            r@ == self@,
    {
        self.0.get()
    }

    /// Appends `batch` after the events already captured, keeping its order.
    pub fn extend(&mut self, batch: Vec<E>)
        ensures
            final(self)@ == old(self)@ + batch@,
    {
        self.0.extend(batch);
    }
}

impl<E> Default for CollectedEvents<E> {
    fn default() -> (r: Self)
        ensures
            r@ == Seq::<E>::empty(),
    {
        CollectedEvents::new()
    }
}

/// The unconditional collector under its event-based name.
pub type EventCollectorPlugin<E> = MessageCollectorPlugin<E>;

/// The filtering collector under its event-based name.
pub type EventFilterPlugin<E> = MessageFilterPlugin<E>;

} // verus!
