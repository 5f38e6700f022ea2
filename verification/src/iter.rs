//! Cursors over a `VecArray`: two that borrow the container, one of them
//! mutably, and one that owns what it drains, from the embedded slots or
//! from the heap store. Each yields the items in index order, one per call
//! of `next`, and then nothing.

use crate::model::{first_of, rest_of, MAX_ARRAY_SIZE};
use crate::vec_array::VecArray;
use vstd::prelude::*;

verus! {

/// A cursor that has taken over the embedded slots of a `VecArray` and hands
/// out their values front to back, emptying each slot as it goes.
pub struct FixedStorageIterator<T> {
    data: [Option<T>; MAX_ARRAY_SIZE],
    index: usize,
    limit: usize,
}

impl<T> FixedStorageIterator<T> {
    /// The slots from `index` up to `limit` are live; nothing else is ever
    /// read.
    pub closed spec fn well_formed(&self) -> bool {
        &&& self.index <= self.limit <= MAX_ARRAY_SIZE
        &&& forall|i: int| self.index <= i < self.limit ==> self.data@[i] is Some
    }

    /// The values still to be handed out, in order.
    pub closed spec fn remaining(&self) -> Seq<T> {
        Seq::new((self.limit - self.index) as nat, |i: int| self.data@[self.index + i]->0)
    }

    /// Take over `data`, whose first `limit` slots are live.
    pub fn new(data: [Option<T>; MAX_ARRAY_SIZE], limit: usize) -> (it: Self)
        requires
            limit <= MAX_ARRAY_SIZE,
            forall|i: int| 0 <= i < limit ==> data@[i] is Some,
        ensures
            it.well_formed(),
            it.remaining() == Seq::new(limit as nat, |i: int| data@[i]->0),
    {
        FixedStorageIterator { data, index: 0, limit }
    }

    /// Hand out the next value, if there is one.
    pub fn next(&mut self) -> (r: Option<T>)
        requires
            old(self).well_formed(),
        ensures
            final(self).well_formed(),
            r == first_of(old(self).remaining()),
            final(self).remaining() == rest_of(old(self).remaining()),
    {
        if self.index >= self.limit {
            None
        } else {
            self.index += 1;
            let value = self.data[self.index - 1].take();
            value
        }
    }
}

/// A cursor that owns what was the heap store of a `VecArray` and hands out
/// its values front to back.
pub struct HeapStorageIterator<T> {
    /// The values still to be handed out, the next one last.
    stack: Vec<T>,
}

impl<T> HeapStorageIterator<T> {
    /// The values still to be handed out, in order.
    pub closed spec fn remaining(&self) -> Seq<T> {
        self.stack@.reverse()
    }

    /// Take over the values of `store`.
    pub fn new(store: Vec<T>) -> (it: Self)
        ensures
            it.remaining() == store@,
    {
        let mut store = store;
        let ghost items = store@;
        let mut stack: Vec<T> = Vec::new();
        while store.len() > 0
            invariant
                store@.len() <= items.len(),
                store@ == items.subrange(0, store@.len() as int),
                stack@.len() == items.len() - store@.len(),
                forall|i: int|
                    0 <= i < stack@.len() ==> stack@[i] == items[items.len() - 1 - i],
            decreases store@.len(),
        {
            let item = store.pop().unwrap();
            stack.push(item);
        }
        HeapStorageIterator { stack }
    }

    /// Hand out the next value, if there is one.
    pub fn next(&mut self) -> (r: Option<T>)
        ensures
            r == first_of(old(self).remaining()),
            final(self).remaining() == rest_of(old(self).remaining()),
    {
        self.stack.pop()
    }
}

/// The consuming cursor of a `VecArray`: it drains whichever store was
/// active when the container was given up.
pub enum IntoIter<T> {
    Fixed(FixedStorageIterator<T>),
    Heap(HeapStorageIterator<T>),
}

impl<T> IntoIter<T> {
    pub open spec fn well_formed(&self) -> bool {
        match self {
            IntoIter::Fixed(it) => it.well_formed(),
            IntoIter::Heap(_) => true,
        }
    }

    /// The values still to be handed out, in order.
    pub open spec fn remaining(&self) -> Seq<T> {
        match self {
            IntoIter::Fixed(it) => it.remaining(),
            IntoIter::Heap(it) => it.remaining(),
        }
    }

    /// Hand out the next value, if there is one.
    pub fn next(&mut self) -> (r: Option<T>)
        requires
            old(self).well_formed(),
        ensures
            final(self).well_formed(),
            r == first_of(old(self).remaining()),
            final(self).remaining() == rest_of(old(self).remaining()),
    {
        match self {
            IntoIter::Fixed(it) => it.next(),
            IntoIter::Heap(it) => it.next(),
        }
    }
}

/// The borrowing cursor of a `VecArray`.
pub struct Iter<'a, T> {
    source: &'a VecArray<T>,
    index: usize,
}

impl<'a, T> Iter<'a, T> {
    pub closed spec fn well_formed(&self) -> bool {
        &&& self.source.well_formed()
        &&& self.index <= self.source@.len()
    }

    /// The items still to be visited, in order.
    pub closed spec fn remaining(&self) -> Seq<T> {
        self.source@.subrange(self.index as int, self.source@.len() as int)
    }

    /// A cursor at the first item of `source`.
    pub fn new(source: &'a VecArray<T>) -> (it: Self)
        requires
            source.well_formed(),
        ensures
            it.well_formed(),
            it.remaining() == source@,
    {
        Iter { source, index: 0 }
    }

    /// Visit the next item, if there is one.
    pub fn next(&mut self) -> (r: Option<&'a T>)
        requires
            old(self).well_formed(),
        ensures
            final(self).well_formed(),
            r is Some <==> old(self).remaining().len() > 0,
            r is Some ==> *r->0 == old(self).remaining()[0],
            final(self).remaining() == rest_of(old(self).remaining()),
    {
        let item = self.source.get(self.index);
        if item.is_some() {
            self.index += 1;
        }
        item
    }
}

/// The mutably borrowing cursor of a `VecArray`. Each call of `next` lends
/// out the item at `index` and moves on; what the caller writes through the
/// reference is the container's item from then on. The reference must be
/// given back before the next call.
pub struct IterMut<'a, T> {
    pub source: &'a mut VecArray<T>,
    pub index: usize,
}

impl<'a, T> IterMut<'a, T> {
    pub open spec fn well_formed(&self) -> bool {
        &&& self.source.well_formed()
        &&& self.index <= self.source@.len()
    }

    /// The items of the container as they are now.
    pub open spec fn items(&self) -> Seq<T> {
        self.source@
    }

    /// The index of the item that `next` lends out.
    pub open spec fn position(&self) -> nat {
        self.index as nat
    }

    /// A cursor at the first item of `source`. When the cursor is given up,
    /// `source` is what the cursor has made of it.
    pub fn new(source: &'a mut VecArray<T>) -> (it: Self)
        requires
            old(source).well_formed(),
        ensures
            it.well_formed(),
            it.items() == old(source)@,
            it.position() == 0,
            *final(it.source) == *final(source),
    {
        IterMut { source, index: 0 }
    }

    /// Lend out the next item, if there is one.
    pub fn next(&mut self) -> (r: Option<&mut T>)
        requires
            old(self).well_formed(),
        ensures
            final(self).well_formed(),
            *final(final(self).source) == *final(old(self).source),
            r is Some <==> old(self).position() < old(self).items().len(),
            r is None ==> {
                &&& final(self).items() == old(self).items()
                &&& final(self).position() == old(self).position()
            },
            r is Some ==> {
                &&& *r->0 == old(self).items()[old(self).position() as int]
                &&& final(self).items() == old(self).items().update(
                    old(self).position() as int,
                    *final(r->0),
                )
                &&& final(self).position() == old(self).position() + 1
            },
    {
        let r = self.source.get_mut(self.index);
        if r.is_some() {
            self.index += 1;
        }
        r
    }
}

} // verus!
