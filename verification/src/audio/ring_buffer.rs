//! A queue that forgets its oldest item when full.

use vstd::prelude::*;
use std::collections::VecDeque;

verus! {

/// The queue contents after `item` is pushed onto contents `items` of a
/// buffer made for `max_len` items: when exactly `max_len` items are held,
/// the oldest leaves first.
pub open spec fn pushed<T>(items: Seq<T>, max_len: nat, item: T) -> Seq<T> {
    if items.len() == max_len && items.len() > 0 {
        items.subrange(1, items.len() as int).push(item)
    } else {
        items.push(item)
    }
}

/// First-in-first-out queue that overwrites its oldest item once it holds
/// `max_len` of them. A buffer made for zero items is never full and grows
/// without bound.
#[derive(Debug)]
pub struct RingBuffer<T> {
    data: VecDeque<T>,
    max_len: usize,
}

impl<T> View for RingBuffer<T> {
    type V = Seq<T>;

    /// The queued items, oldest first.
    closed spec fn view(&self) -> Seq<T> {
        self.data@
    }
}

impl<T> Default for RingBuffer<T> {
    /// An empty buffer made for zero items.
    fn default() -> (buffer: Self)
        ensures
            buffer@ == Seq::<T>::empty(),
            buffer.spec_max_len() == 0,
    {
        RingBuffer { data: VecDeque::new(), max_len: 0 }
    }
}

impl<T> RingBuffer<T> {
    #[verifier::type_invariant]
    spec fn bounded(self) -> bool {
        self.max_len > 0 ==> self.data@.len() <= self.max_len
    }

    /// Number of items the buffer was made for.
    pub closed spec fn spec_max_len(&self) -> nat {
        self.max_len as nat
    }

    /// An empty buffer for at most `max_len` items, with room reserved for
    /// all of them.
    pub fn new(max_len: usize) -> (buffer: Self)
        ensures
            buffer@ == Seq::<T>::empty(),
            buffer.spec_max_len() == max_len,
    {
        RingBuffer { data: VecDeque::with_capacity(max_len), max_len }
    }

    /// Queues `item`; a full buffer drops its oldest item to make room.
    pub fn push(&mut self, item: T)
        ensures
            final(self).spec_max_len() == old(self).spec_max_len(),
            final(self)@ == pushed(old(self)@, old(self).spec_max_len(), item),
            old(self).spec_max_len() > 0 ==> final(self)@.len() <= old(self).spec_max_len(),
    {
        proof {
            use_type_invariant(&*self);
        }
        let mut data: VecDeque<T> = VecDeque::new();
        std::mem::swap(&mut data, &mut self.data);
        if data.len() == self.max_len {
            let _ = data.pop_front();
        }
        data.push_back(item);
        self.data = data;
    }

    /// Takes the oldest item out, if there is one.
    pub fn pop(&mut self) -> (item: Option<T>)
        ensures
            final(self).spec_max_len() == old(self).spec_max_len(),
            match item {
                Some(oldest) => {
                    &&& old(self)@.len() > 0
                    &&& oldest == old(self)@[0]
                    &&& final(self)@ == old(self)@.subrange(1, old(self)@.len() as int)
                },
                None => {
                    &&& old(self)@.len() == 0
                    &&& final(self)@ == old(self)@
                },
            },
    {
        proof {
            use_type_invariant(&*self);
        }
        let mut data: VecDeque<T> = VecDeque::new();
        std::mem::swap(&mut data, &mut self.data);
        let item = data.pop_front();
        self.data = data;
        item
    }
}

} // verus!
