use std::marker::PhantomData;

use vstd::prelude::*;

use crate::messages::CollectedMessages;

verus! {

/// An unconditional collector for messages of type `E`: its drain step keeps
/// every message of a tick, in emission order.
#[derive(Debug)]
pub struct MessageCollectorPlugin<E>(PhantomData<E>);

impl<E> MessageCollectorPlugin<E> {
    /// The collector; it carries no configuration.
    pub fn new() -> (r: Self) {
        MessageCollectorPlugin(PhantomData)
    }

    /// The drain step: appends all of `tick` to `collected`, in order.
    pub fn drain(&self, collected: &mut CollectedMessages<E>, tick: Vec<E>)
        ensures
            final(collected)@ == old(collected)@ + tick@,
    {
        collected.extend(tick);
    }
}

impl<E> Default for MessageCollectorPlugin<E> {
    fn default() -> (r: Self) {
        MessageCollectorPlugin::new()
    }
}

} // verus!
