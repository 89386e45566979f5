use vstd::prelude::*;

verus! {

/// A single-slot handoff between one producer and one consumer. It holds at most
/// one item: never a queue, and never a reason to block.
pub struct Slot<T> {
    item: Option<T>,
}

/// The slot's contents after a publish that replaces whatever was there.
pub open spec fn published<T>(held: Option<T>, v: T) -> Option<T> {
    Some(v)
}

/// The slot's contents after publishing each of `vals` in turn, with no consume
/// in between, starting from `held`.
pub open spec fn published_all<T>(held: Option<T>, vals: Seq<T>) -> Option<T>
    decreases vals.len(),
{
    if vals.len() == 0 {
        held
    } else {
        published(published_all(held, vals.drop_last()), vals.last())
    }
}

impl<T> View for Slot<T> {
    type V = Option<T>;

    closed spec fn view(&self) -> Option<T> {
        self.item
    }
}

impl<T> Slot<T> {
    pub fn new() -> (r: Self)
        ensures
            r@ is None,
    {
        Slot { item: None }
    }

    /// Puts `v` in the slot, dropping an unconsumed item that was there.
    pub fn publish(&mut self, v: T)
        ensures
            final(self)@ == published(old(self)@, v),
    {
        self.item = Some(v);
    }

    /// Puts `v` in the slot only if it is empty; otherwise hands `v` back and
    /// leaves the slot as it was.
    pub fn try_publish(&mut self, v: T) -> (r: Result<(), T>)
        ensures
            old(self)@ is None ==> r is Ok && final(self)@ == Some(v),
            old(self)@ is Some ==> r == Err::<(), T>(v) && final(self)@ == old(self)@,
    {
        if self.item.is_some() {
            Err(v)
        } else {
            self.item = Some(v);
            Ok(())
        }
    }

    /// Takes the item out, leaving the slot empty.
    pub fn take(&mut self) -> (r: Option<T>)
        ensures
            r == old(self)@,
            final(self)@ is None,
    {
        self.item.take()
    }

    pub fn is_occupied(&self) -> (r: bool)
        ensures
            r == self@ is Some,
    {
        self.item.is_some()
    }
}

/// Last value wins: after one or more publishes with no consume in between, the
/// consumer finds exactly the last value published.
pub proof fn lemma_last_value_wins<T>(held: Option<T>, vals: Seq<T>)
    requires
        vals.len() > 0,
    ensures
        published_all(held, vals) == Some(vals.last()),
{
}

} // verus!
