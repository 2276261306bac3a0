use vstd::prelude::*;

verus! {

/// The messages of one type that a collector has captured, in arrival order.
///
/// The buffer only grows: a drain step appends, nothing removes.
#[derive(Debug)]
pub struct CollectedMessages<E>(Vec<E>);

impl<E> View for CollectedMessages<E> {
    type V = Seq<E>;

    closed spec fn view(&self) -> Seq<E> {
        self.0@
    }
}

impl<E> CollectedMessages<E> {
    /// An accumulator that holds nothing yet.
    pub fn new() -> (r: Self)
        ensures
            r@ == Seq::<E>::empty(),
    {
        CollectedMessages(Vec::new())
    }

    /// The captured messages, oldest first.
    pub fn get(&self) -> (r: &Vec<E>)
        ensures
            r@ == self@,
    {
        &self.0
    }

    /// Appends one message after those already captured.
    pub fn push(&mut self, message: E)
        ensures
            final(self)@ == old(self)@.push(message),
    {
        self.0.push(message);
    }

    /// Appends `batch` after the messages already captured, keeping its order.
    pub fn extend(&mut self, batch: Vec<E>)
        ensures
            final(self)@ == old(self)@ + batch@,
    {
        let ghost start = self@;
        for m in it: batch.into_iter()
            invariant
                self@ == start + it.seq().take(it.index() as int),
        {
            self.push(m);
        }
    }
}

impl<E> Default for CollectedMessages<E> {
    fn default() -> (r: Self)
        ensures
            r@ == Seq::<E>::empty(),
    {
        CollectedMessages::new()
    }
}

/// The retrieval accessor: given the accumulator that an application holds
/// for one message type, if any, a point-in-time copy of its contents, or
/// `None` where no collector was ever installed for that type.
pub fn collected_snapshot<E: Clone>(collected: Option<&CollectedMessages<E>>) -> (r: Option<
    Vec<E>,
>)
    ensures
        r is None <==> collected is None,
        r is Some ==> {
            let (c, v) = (collected.unwrap()@, r.unwrap()@);
            &&& v.len() == c.len()
            &&& forall|i: int| 0 <= i < c.len() ==> cloned(c[i], #[trigger] v[i])
        },
{
    match collected {
        Some(c) => Some(c.get().clone()),
        None => None,
    }
}

} // verus!
