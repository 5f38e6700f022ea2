//! The container itself: its two stores, the invariant that ties them to the
//! element count, and the operations that keep it.

use crate::iter::{FixedStorageIterator, HeapStorageIterator, IntoIter, Iter, IterMut};
use crate::model::{
    clamp_index, elementwise_eq, insert_at, pop_back, popped, remove_at, removed, MAX_ARRAY_SIZE,
};
use vstd::prelude::*;
use vstd::std_specs::cmp::PartialEqSpec;
use vstd::std_specs::convert::FromSpecImpl;

verus! {

/// An array-like type that holds its first few values in embedded storage
/// and spills into a `Vec` when it grows beyond [`MAX_ARRAY_SIZE`].
pub struct VecArray<T> {
    /// Total number of values held.
    len: usize,
    /// Embedded storage. A slot is `Some` exactly when it holds a live value.
    array_store: [Option<T>; MAX_ARRAY_SIZE],
    /// Heap storage, used only while `len` exceeds the embedded capacity.
    vec_store: Vec<T>,
}

/// `From<T> for T` of std, the conversion of a type into itself, which
/// `Into<T> for T` goes through: it returns its argument unchanged.
pub assume_specification<Same>[ <Same as std::convert::From<Same>>::from ](t: Same) -> (r: Same)
    ensures
        r == t,
;

impl<T> View for VecArray<T> {
    type V = Seq<T>;

    /// The live elements, in order, taken from whichever store is active.
    open spec fn view(&self) -> Seq<T> {
        if self.spec_len() <= MAX_ARRAY_SIZE {
            Seq::new(self.spec_len() as nat, |i: int| self.inline_store()[i]->0)
        } else {
            self.heap_store()
        }
    }
}

impl<T> VecArray<T> {
    /// The element count that the container records.
    pub closed spec fn spec_len(&self) -> usize {
        self.len
    }

    /// The embedded slots: `Some` for a live slot, `None` for an empty one.
    pub closed spec fn inline_store(&self) -> Seq<Option<T>> {
        self.array_store@
    }

    /// The contents of the heap store.
    pub closed spec fn heap_store(&self) -> Seq<T> {
        self.vec_store@
    }

    /// Data is in the embedded storage exactly when the count fits there.
    pub open spec fn spec_is_fixed_storage(&self) -> bool {
        self.spec_len() <= MAX_ARRAY_SIZE
    }

    /// The storage invariant. Exactly one store is active: with a count of
    /// at most `MAX_ARRAY_SIZE` the first `spec_len()` slots are live, the
    /// others are empty and the heap store holds nothing; with a larger
    /// count every slot is empty and the heap store holds every element.
    pub open spec fn well_formed(&self) -> bool {
        &&& self.inline_store().len() == MAX_ARRAY_SIZE
        &&& if self.spec_is_fixed_storage() {
            &&& self.heap_store().len() == 0
            &&& forall|i: int|
                0 <= i < MAX_ARRAY_SIZE ==> (#[trigger] self.inline_store()[i] is Some <==> i
                    < self.spec_len())
        } else {
            &&& self.heap_store().len() == self.spec_len()
            &&& forall|i: int|
                0 <= i < MAX_ARRAY_SIZE ==> #[trigger] self.inline_store()[i] is None
        }
    }

    /// Create a new, empty `VecArray`.
    pub fn new() -> (r: Self)
        ensures
            r.well_formed(),
            r@ == Seq::<T>::empty(),
            r.spec_len() == 0,
    {
        VecArray { len: 0, array_store: [None, None, None, None], vec_store: Vec::new() }
    }

    /// Take the value out of a live embedded slot, leaving the slot empty.
    fn extract_from_array_store(&mut self, index: usize) -> (value: T)
        requires
            old(self).len <= MAX_ARRAY_SIZE,
            index < MAX_ARRAY_SIZE,
            old(self).array_store@[index as int] is Some,
        ensures
            value == old(self).array_store@[index as int]->0,
            final(self).array_store@ == old(self).array_store@.update(index as int, None),
            final(self).len == old(self).len,
            final(self).vec_store == old(self).vec_store,
    {
        let slot = self.array_store[index].take();
        slot.unwrap()
    }

    /// Put a value into an empty embedded slot.
    fn set_into_array_store(&mut self, index: usize, value: T)
        requires
            old(self).len <= MAX_ARRAY_SIZE,
            index < MAX_ARRAY_SIZE,
            old(self).array_store@[index as int] is None,
        ensures
            final(self).array_store@ == old(self).array_store@.update(index as int, Some(value)),
            final(self).len == old(self).len,
            final(self).vec_store == old(self).vec_store,
    {
        self.array_store[index] = Some(value);
    }

    /// Spill: move the `num` live embedded values, in order, into the empty
    /// heap store. The count is left for the caller to adjust.
    fn move_fixed_into_vec(&mut self, num: usize)
        requires
            old(self).well_formed(),
            old(self).len == num,
            num <= MAX_ARRAY_SIZE,
        ensures
            final(self).len == old(self).len,
            final(self).vec_store@ == old(self)@,
            final(self).array_store@.len() == MAX_ARRAY_SIZE,
            forall|i: int| 0 <= i < MAX_ARRAY_SIZE ==> final(self).array_store@[i] is None,
    {
        let mut x: usize = 0;
        while x < num
            invariant
                x <= num,
                num <= MAX_ARRAY_SIZE,
                self.len == num,
                self.array_store@.len() == MAX_ARRAY_SIZE,
                self.vec_store@ == old(self)@.subrange(0, x as int),
                forall|i: int| 0 <= i < x ==> self.array_store@[i] is None,
                forall|i: int| x <= i < MAX_ARRAY_SIZE ==> self.array_store@[i] == old(self).array_store@[i],
                old(self).well_formed(),
                old(self).len == num,
            decreases num - x,
        {
            let value = self.extract_from_array_store(x);
            self.vec_store.push(value);
            x += 1;
        }
    }

    /// Absorb: move the `MAX_ARRAY_SIZE` values of the heap store, in order,
    /// into the empty embedded slots, and leave the heap store empty.
    fn move_vec_into_fixed(&mut self)
        requires
            old(self).len == MAX_ARRAY_SIZE,
            old(self).array_store@.len() == MAX_ARRAY_SIZE,
            old(self).vec_store@.len() == MAX_ARRAY_SIZE,
            forall|i: int| 0 <= i < MAX_ARRAY_SIZE ==> old(self).array_store@[i] is None,
        ensures
            final(self).well_formed(),
            final(self).len == MAX_ARRAY_SIZE,
            final(self)@ == old(self).vec_store@,
    {
        let mut index: usize = MAX_ARRAY_SIZE;
        while index > 0
            invariant
                index <= MAX_ARRAY_SIZE,
                self.len == MAX_ARRAY_SIZE,
                self.array_store@.len() == MAX_ARRAY_SIZE,
                self.vec_store@ == old(self).vec_store@.subrange(0, index as int),
                old(self).vec_store@.len() == MAX_ARRAY_SIZE,
                forall|i: int| 0 <= i < index ==> self.array_store@[i] is None,
                forall|i: int|
                    index <= i < MAX_ARRAY_SIZE ==> self.array_store@[i] == Some(
                        old(self).vec_store@[i],
                    ),
            decreases index,
        {
            index -= 1;
            let item = self.vec_store.pop().unwrap();
            self.set_into_array_store(index, item);
        }
    }

    /// Check the storage invariant at run time.
    #[verifier::when_used_as_spec(well_formed)]
    pub fn is_well_formed(&self) -> (r: bool)
        ensures
            r == self.well_formed(),
    {
        let fixed = self.len <= MAX_ARRAY_SIZE;
        if fixed && self.vec_store.len() != 0 {
            return false;
        }
        if !fixed && self.vec_store.len() != self.len {
            return false;
        }
        let mut x: usize = 0;
        while x < MAX_ARRAY_SIZE
            invariant
                x <= MAX_ARRAY_SIZE,
                fixed == (self.len <= MAX_ARRAY_SIZE),
                self.array_store@.len() == MAX_ARRAY_SIZE,
                forall|i: int|
                    0 <= i < x ==> (self.array_store@[i] is Some <==> fixed && i < self.len),
            decreases MAX_ARRAY_SIZE - x,
        {
            let live = self.array_store[x].is_some();
            if live != (fixed && x < self.len) {
                return false;
            }
            x += 1;
        }
        true
    }

    /// Is data stored in the embedded storage?
    #[verifier::when_used_as_spec(spec_is_fixed_storage)]
    pub fn is_fixed_storage(&self) -> (r: bool)
        ensures
            r == self.spec_is_fixed_storage(),
    {
        self.len <= MAX_ARRAY_SIZE
    }

    /// Push a new value to the end of this `VecArray`. The value is
    /// converted into an item first; what is appended is what the conversion
    /// gives.
    pub fn push<X: Into<T>>(&mut self, value: X)
        requires
            old(self).well_formed(),
        ensures
            final(self).well_formed(),
            final(self)@ == old(self)@.push(final(self)@.last()),
            call_ensures(<X as Into<T>>::into, (value,), final(self)@.last()),
            final(self).spec_len() == old(self).spec_len() + 1,
    {
        let item: T = value.into();
        if self.len == MAX_ARRAY_SIZE {
            self.move_fixed_into_vec(MAX_ARRAY_SIZE);
            self.vec_store.push(item);
        } else if self.is_fixed_storage() {
            self.set_into_array_store(self.len, item);
        } else {
            self.vec_store.push(item);
        }
        assert(self.len < usize::MAX) by {
            // In heap mode the heap store has just grown to `len + 1` items,
            // and the length of a `Vec` is a `usize`.
            assert(self.vec_store@.len() == self.vec_store.len());
        }
        self.len += 1;
        assert(self@ =~= old(self)@.push(item));
    }

    /// Insert a new value at a particular position. An index beyond the end
    /// appends the value. The value is converted into an item first; what is
    /// inserted is what the conversion gives.
    pub fn insert<X: Into<T>>(&mut self, index: usize, value: X)
        requires
            old(self).well_formed(),
        ensures
            final(self).well_formed(),
            final(self)@ == insert_at(
                old(self)@,
                index as nat,
                final(self)@[clamp_index(old(self)@.len(), index as nat) as int],
            ),
            call_ensures(
                <X as Into<T>>::into,
                (value,),
                final(self)@[clamp_index(old(self)@.len(), index as nat) as int],
            ),
            final(self).spec_len() == old(self).spec_len() + 1,
    {
        let item: T = value.into();
        let index = if index > self.len {
            self.len
        } else {
            index
        };

        if self.len == MAX_ARRAY_SIZE {
            self.move_fixed_into_vec(MAX_ARRAY_SIZE);
            self.vec_store.insert(index, item);
        } else if self.is_fixed_storage() {
            // Move all items from `index` on one slot to the right.
            let mut x: usize = self.len;
            while x > index
                invariant
                    index <= x <= self.len,
                    self.len < MAX_ARRAY_SIZE,
                    self.len == old(self).len,
                    self.vec_store == old(self).vec_store,
                    old(self).well_formed(),
                    self.array_store@.len() == MAX_ARRAY_SIZE,
                    forall|i: int| 0 <= i < x ==> self.array_store@[i] == old(self).array_store@[i],
                    self.array_store@[x as int] is None,
                    forall|i: int|
                        x < i <= self.len ==> self.array_store@[i] == old(self).array_store@[i - 1],
                    forall|i: int|
                        self.len < i < MAX_ARRAY_SIZE ==> self.array_store@[i] is None,
                decreases x,
            {
                x -= 1;
                let orig_value = self.extract_from_array_store(x);
                self.set_into_array_store(x + 1, orig_value);
            }
            self.set_into_array_store(index, item);
        } else {
            self.vec_store.insert(index, item);
        }
        assert(self.len < usize::MAX) by {
            // In heap mode the heap store has just grown to `len + 1` items,
            // and the length of a `Vec` is a `usize`.
            assert(self.vec_store@.len() == self.vec_store.len());
        }
        self.len += 1;
        assert(self@ =~= old(self)@.insert(index as int, item));
    }

    /// Pop a value from the end of this `VecArray`.
    pub fn pop(&mut self) -> (r: Option<T>)
        requires
            old(self).well_formed(),
        ensures
            final(self).well_formed(),
            r == popped(old(self)@),
            final(self)@ == pop_back(old(self)@),
            r is None ==> *final(self) == *old(self),
            r is Some ==> final(self).spec_len() == old(self).spec_len() - 1,
    {
        if self.is_empty() {
            return None;
        }
        Some(
            if self.is_fixed_storage() {
                let value = self.extract_from_array_store(self.len - 1);
                self.len -= 1;
                value
            } else {
                let value = self.vec_store.pop().unwrap();
                self.len -= 1;

                // Move back to the embedded storage.
                if self.vec_store.len() == MAX_ARRAY_SIZE {
                    self.move_vec_into_fixed();
                }
                value
            },
        )
    }

    /// Remove the value at a particular position.
    pub fn remove(&mut self, index: usize) -> (r: Option<T>)
        requires
            old(self).well_formed(),
        ensures
            final(self).well_formed(),
            r == removed(old(self)@, index as nat),
            final(self)@ == remove_at(old(self)@, index as nat),
            r is None ==> *final(self) == *old(self),
            r is Some ==> final(self).spec_len() == old(self).spec_len() - 1,
    {
        if index >= self.len {
            return None;
        }
        Some(
            if self.is_fixed_storage() {
                let value = self.extract_from_array_store(index);

                // Move all items behind `index` one slot to the left.
                let mut x: usize = index + 1;
                while x < self.len
                    invariant
                        index < x <= self.len,
                        self.len <= MAX_ARRAY_SIZE,
                        self.len == old(self).len,
                        self.vec_store == old(self).vec_store,
                        old(self).well_formed(),
                        self.array_store@.len() == MAX_ARRAY_SIZE,
                        forall|i: int|
                            0 <= i < index ==> self.array_store@[i] == old(self).array_store@[i],
                        forall|i: int|
                            index <= i < x - 1 ==> self.array_store@[i] == old(
                                self,
                            ).array_store@[i + 1],
                        self.array_store@[x - 1] is None,
                        forall|i: int|
                            x <= i < MAX_ARRAY_SIZE ==> self.array_store@[i] == old(
                                self,
                            ).array_store@[i],
                    decreases self.len - x,
                {
                    let orig_value = self.extract_from_array_store(x);
                    self.set_into_array_store(x - 1, orig_value);
                    x += 1;
                }
                self.len -= 1;
                value
            } else {
                let value = self.vec_store.remove(index);
                self.len -= 1;

                // Move back to the embedded storage.
                if self.vec_store.len() == MAX_ARRAY_SIZE {
                    self.move_vec_into_fixed();
                }
                value
            },
        )
    }

    /// Empty the `VecArray`. Afterwards it uses the embedded storage again.
    pub fn clear(&mut self)
        requires
            old(self).well_formed(),
        ensures
            final(self).well_formed(),
            final(self)@ == Seq::<T>::empty(),
            final(self).spec_len() == 0,
    {
        if self.is_fixed_storage() {
            let mut x: usize = 0;
            while x < self.len
                invariant
                    x <= self.len <= MAX_ARRAY_SIZE,
                    self.len == old(self).len,
                    self.vec_store@.len() == 0,
                    self.array_store@.len() == MAX_ARRAY_SIZE,
                    forall|i: int| 0 <= i < x ==> self.array_store@[i] is None,
                    forall|i: int| x <= i < self.len ==> self.array_store@[i] is Some,
                    forall|i: int| self.len <= i < MAX_ARRAY_SIZE ==> self.array_store@[i] is None,
                decreases self.len - x,
            {
                self.extract_from_array_store(x);
                x += 1;
            }
        } else {
            self.vec_store.clear();
        }
        self.len = 0;
    }

    /// Move all data into another `VecArray`, overwriting any data there.
    /// This `VecArray` is empty after the operation.
    pub fn transfer(&mut self, other: &mut Self)
        requires
            old(self).well_formed(),
            old(other).well_formed(),
        ensures
            final(other).well_formed(),
            final(other)@ == old(self)@,
            final(other).spec_len() == old(self).spec_len(),
            final(self).well_formed(),
            final(self)@ == Seq::<T>::empty(),
            final(self).spec_len() == 0,
    {
        other.clear();

        if self.is_fixed_storage() {
            let mut x: usize = 0;
            while x < self.len
                invariant
                    x <= self.len <= MAX_ARRAY_SIZE,
                    self.len == old(self).len,
                    old(self).well_formed(),
                    self.vec_store@.len() == 0,
                    other.vec_store@.len() == 0,
                    other.len == 0,
                    self.array_store@.len() == MAX_ARRAY_SIZE,
                    other.array_store@.len() == MAX_ARRAY_SIZE,
                    forall|i: int| 0 <= i < x ==> self.array_store@[i] is None,
                    forall|i: int|
                        x <= i < MAX_ARRAY_SIZE ==> self.array_store@[i] == old(
                            self,
                        ).array_store@[i],
                    forall|i: int|
                        0 <= i < x ==> other.array_store@[i] == old(self).array_store@[i],
                    forall|i: int| x <= i < MAX_ARRAY_SIZE ==> other.array_store@[i] is None,
                decreases self.len - x,
            {
                let value = self.extract_from_array_store(x);
                other.set_into_array_store(x, value);
                x += 1;
            }
        } else {
            core::mem::swap(&mut other.vec_store, &mut self.vec_store);
        }

        other.len = self.len;
        self.len = 0;
    }

    /// Get a reference to the item at a particular index.
    pub fn get(&self, index: usize) -> (r: Option<&T>)
        requires
            self.well_formed(),
        ensures
            index < self@.len() ==> r == Some(&self@[index as int]),
            index >= self@.len() ==> r is None,
    {
        if index >= self.len {
            return None;
        }
        if self.is_fixed_storage() {
            self.array_store[index].as_ref()
        } else {
            Some(&self.vec_store[index])
        }
    }

    /// Get a mutable reference to the item at a particular index. Whatever
    /// the caller writes through it becomes the item at that index; nothing
    /// else changes.
    pub fn get_mut(&mut self, index: usize) -> (r: Option<&mut T>)
        requires
            old(self).well_formed(),
        ensures
            index >= old(self)@.len() ==> r is None && *final(self) == *old(self),
            index < old(self)@.len() ==> {
                &&& r is Some
                &&& *r->0 == old(self)@[index as int]
                &&& final(self)@ == old(self)@.update(index as int, *final(r->0))
                &&& final(self).spec_len() == old(self).spec_len()
                &&& final(self).well_formed()
            },
    {
        if index >= self.len {
            return None;
        }
        if self.is_fixed_storage() {
            self.array_store[index].as_mut()
        } else {
            Some(&mut self.vec_store[index])
        }
    }

    /// A cursor over references to the items, in order.
    pub fn iter(&self) -> (it: Iter<'_, T>)
        requires
            self.well_formed(),
        ensures
            it.well_formed(),
            it.remaining() == self@,
    {
        Iter::new(self)
    }

    /// A cursor that lends out mutable references to the items, in order.
    /// Once the cursor is given up, the container holds what was written
    /// through them.
    pub fn iter_mut(&mut self) -> (it: IterMut<'_, T>)
        requires
            old(self).well_formed(),
        ensures
            it.well_formed(),
            it.items() == old(self)@,
            it.position() == 0,
            *final(it.source) == *final(self),
    {
        IterMut::new(self)
    }

    /// Give up the container for a cursor that hands out its items, in
    /// order. The cursor drains whichever store is active.
    pub fn into_iter(self) -> (it: IntoIter<T>)
        requires
            self.well_formed(),
        ensures
            it.well_formed(),
            it.remaining() == self@,
            it is Fixed <==> self.spec_is_fixed_storage(),
    {
        if self.is_fixed_storage() {
            IntoIter::Fixed(FixedStorageIterator::new(self.array_store, self.len))
        } else {
            IntoIter::Heap(HeapStorageIterator::new(self.vec_store))
        }
    }

    /// The content of one embedded slot: the value if the slot is live,
    /// nothing if it is empty or if `index` is not a slot at all.
    pub fn inline_slot(&self, index: usize) -> (r: Option<&T>)
        ensures
            index < MAX_ARRAY_SIZE ==> (r is Some <==> self.inline_store()[index as int] is Some),
            index < MAX_ARRAY_SIZE && r is Some ==> *r->0 == self.inline_store()[index as int]->0,
            index >= MAX_ARRAY_SIZE ==> r is None,
    {
        if index >= MAX_ARRAY_SIZE {
            return None;
        }
        self.array_store[index].as_ref()
    }

    /// The content of the heap store.
    pub fn heap_slice(&self) -> (r: &[T])
        ensures
            r@ == self.heap_store(),
    {
        self.vec_store.as_slice()
    }

    /// Get the number of items in this `VecArray`.
    #[verifier::when_used_as_spec(spec_len)]
    pub fn len(&self) -> (r: usize)
        ensures
            r == self.spec_len(),
            self.well_formed() ==> r == self@.len(),
    {
        self.len
    }

    /// Is this `VecArray` empty?
    pub fn is_empty(&self) -> (r: bool)
        ensures
            r == (self.spec_len() == 0),
            self.well_formed() ==> r == (self@.len() == 0),
    {
        self.len == 0
    }
}

impl<T: Default> VecArray<T> {
    /// Get the item at a particular index, replacing it with the default.
    pub fn take(&mut self, index: usize) -> (r: Option<T>)
        requires
            old(self).well_formed(),
        ensures
            final(self).well_formed(),
            r == removed(old(self)@, index as nat),
            r is None ==> *final(self) == *old(self),
            final(self)@.len() == old(self)@.len(),
            final(self).spec_len() == old(self).spec_len(),
            forall|j: int|
                0 <= j < old(self)@.len() && j != index ==> final(self)@[j] == old(self)@[j],
            r is Some ==> call_ensures(T::default, (), final(self)@[index as int]),
    {
        if index >= self.len {
            return None;
        }
        let mut value = T::default();
        if self.is_fixed_storage() {
            let taken = self.extract_from_array_store(index);
            self.set_into_array_store(index, value);
            Some(taken)
        } else {
            core::mem::swap(&mut self.vec_store[index], &mut value);
            Some(value)
        }
    }
}

impl<T> Default for VecArray<T> {
    /// An empty `VecArray`.
    fn default() -> (r: Self)
        ensures
            r.well_formed(),
            r@ == Seq::<T>::empty(),
            r.spec_len() == 0,
    {
        Self::new()
    }
}

impl<T: PartialEq> PartialEq for VecArray<T> {
    /// Two containers are equal when they hold equally many items and the
    /// items are pairwise equal, in order.
    fn eq(&self, other: &Self) -> (r: bool) {
        if self.len != other.len {
            return false;
        }
        if self.len > MAX_ARRAY_SIZE {
            return self.vec_store == other.vec_store;
        }
        let mut x: usize = 0;
        while x < self.len
            invariant
                x <= self.len <= MAX_ARRAY_SIZE,
                self.len == other.len,
                T::obeys_eq_spec() ==> forall|i: int|
                    0 <= i < x ==> self.array_store@[i].eq_spec(&other.array_store@[i]),
            decreases self.len - x,
        {
            if self.array_store[x] != other.array_store[x] {
                return false;
            }
            x += 1;
        }
        true
    }
}

impl<T: PartialEq> vstd::std_specs::cmp::PartialEqSpecImpl for VecArray<T> {
    open spec fn obeys_eq_spec() -> bool {
        T::obeys_eq_spec()
    }

    /// What `==` computes, read off the stores. On well-formed containers
    /// this is the pairwise equality of the items, as
    /// `lemma_eq_is_elementwise` shows.
    closed spec fn eq_spec(&self, other: &Self) -> bool {
        &&& self.len == other.len
        &&& if self.len <= MAX_ARRAY_SIZE {
            forall|i: int|
                0 <= i < self.len ==> PartialEqSpec::eq_spec(
                    &self.array_store@[i],
                    &other.array_store@[i],
                )
        } else {
            PartialEqSpec::eq_spec(&self.vec_store, &other.vec_store)
        }
    }
}

/// On well-formed containers `==` is the pairwise equality of the items:
/// the two are equal exactly when they hold equally many items and the
/// items at each index are equal. Which store holds them plays no part.
pub proof fn lemma_eq_is_elementwise<T: PartialEq>(a: VecArray<T>, b: VecArray<T>)
    requires
        a.well_formed(),
        b.well_formed(),
    ensures
        a.eq_spec(&b) <==> elementwise_eq(a@, b@),
{
    assert(a@.len() == a.len && b@.len() == b.len);
    if a.len == b.len {
        if a.len <= MAX_ARRAY_SIZE {
            // Every slot below the count is live on both sides, so the two
            // slots are equal exactly when the items in them are.
            if a.eq_spec(&b) {
                assert forall|i: int| 0 <= i < a@.len() implies PartialEqSpec::eq_spec(
                    &#[trigger] a@[i],
                    &b@[i],
                ) by {
                    assert(a.inline_store()[i] is Some && b.inline_store()[i] is Some);
                    assert(PartialEqSpec::eq_spec(&a.array_store@[i], &b.array_store@[i]));
                }
            }
            if elementwise_eq(a@, b@) {
                assert forall|i: int| 0 <= i < a.len implies PartialEqSpec::eq_spec(
                    &a.array_store@[i],
                    &b.array_store@[i],
                ) by {
                    assert(a.inline_store()[i] is Some && b.inline_store()[i] is Some);
                    assert(PartialEqSpec::eq_spec(&a@[i], &b@[i]));
                }
            }
        } else {
            if a.eq_spec(&b) {
                assert forall|i: int| 0 <= i < a@.len() implies PartialEqSpec::eq_spec(
                    &#[trigger] a@[i],
                    &b@[i],
                ) by {
                    assert(PartialEqSpec::eq_spec(&a.vec_store[i], &b.vec_store[i]));
                }
            }
            if elementwise_eq(a@, b@) {
                assert forall|i: int| 0 <= i < a.vec_store.len() implies PartialEqSpec::eq_spec(
                    &#[trigger] a.vec_store[i],
                    &b.vec_store[i],
                ) by {
                    assert(PartialEqSpec::eq_spec(&a@[i], &b@[i]));
                }
            }
        }
    }
}

impl<T: Eq> Eq for VecArray<T> {

}

impl<T: Clone> Clone for VecArray<T> {
    /// A copy with a clone of every item, in the same storage mode.
    fn clone(&self) -> (res: Self)
        ensures
            res.spec_len() == self.spec_len(),
            self.well_formed() ==> {
                &&& res.well_formed()
                &&& res@.len() == self@.len()
                &&& forall|i: int| 0 <= i < self@.len() ==> cloned::<T>(self@[i], #[trigger] res@[i])
            },
    {
        let mut value = Self::new();
        if self.is_fixed_storage() {
            let mut x: usize = 0;
            while x < self.len
                invariant
                    x <= self.len <= MAX_ARRAY_SIZE,
                    value.len == 0,
                    value.vec_store@.len() == 0,
                    value.array_store@.len() == MAX_ARRAY_SIZE,
                    forall|i: int| x <= i < MAX_ARRAY_SIZE ==> value.array_store@[i] is None,
                    forall|i: int|
                        0 <= i < x ==> (value.array_store@[i] is Some
                            <==> self.array_store@[i] is Some),
                    forall|i: int|
                        0 <= i < x && self.array_store@[i] is Some ==> cloned::<T>(
                            self.array_store@[i]->0,
                            value.array_store@[i]->0,
                        ),
                decreases self.len - x,
            {
                let item = self.array_store[x].clone();
                value.array_store[x] = item;
                x += 1;
            }
        } else {
            value.vec_store = self.vec_store.clone();
        }
        value.len = self.len;
        value
    }
}

impl<T> core::ops::Index<usize> for VecArray<T> {
    type Output = T;

    /// The item at `index`, which must exist.
    fn index(&self, index: usize) -> (r: &T)
        ensures
            *r == self@[index as int],
    {
        if self.is_fixed_storage() {
            self.array_store[index].as_ref().unwrap()
        } else {
            &self.vec_store[index]
        }
    }
}

impl<T> vstd::std_specs::core::IndexSpecImpl<usize> for VecArray<T> {
    open spec fn index_req(&self, index: &usize) -> bool {
        self.well_formed() && *index < self@.len()
    }
}

impl<T> From<Vec<T>> for VecArray<T> {
    /// A `VecArray` with the items of `value`, in order: in the embedded
    /// storage if they fit, else with `value` itself as the heap store.
    fn from(value: Vec<T>) -> (arr: Self)
        ensures
            arr.well_formed(),
            arr@ == value@,
            arr.spec_len() == value@.len(),
    {
        let mut value = value;
        let mut arr = Self::new();
        let len = value.len();

        if len <= MAX_ARRAY_SIZE {
            let ghost items = value@;
            let mut x: usize = len;
            while x > 0
                invariant
                    x <= len <= MAX_ARRAY_SIZE,
                    items.len() == len,
                    value@ == items.subrange(0, x as int),
                    arr.len == 0,
                    arr.vec_store@.len() == 0,
                    arr.array_store@.len() == MAX_ARRAY_SIZE,
                    forall|i: int| 0 <= i < x ==> arr.array_store@[i] is None,
                    forall|i: int| x <= i < len ==> arr.array_store@[i] == Some(items[i]),
                    forall|i: int| len <= i < MAX_ARRAY_SIZE ==> arr.array_store@[i] is None,
                decreases x,
            {
                x -= 1;
                let item = value.pop().unwrap();
                arr.set_into_array_store(x, item);
            }
        } else {
            arr.vec_store = value;
        }
        arr.len = len;
        arr
    }
}

impl<T> FromSpecImpl<Vec<T>> for VecArray<T> {
    /// The conversion is specified by the postcondition of `from`, not by a
    /// spec function.
    open spec fn obeys_from_spec() -> bool {
        false
    }

    open spec fn from_spec(v: Vec<T>) -> Self {
        arbitrary()
    }
}

impl<T> From<VecArray<T>> for Vec<T> {
    /// The items of `value`, in order, as a plain `Vec`.
    fn from(value: VecArray<T>) -> (arr: Self)
        ensures
            value.well_formed() ==> arr@ == value@,
    {
        let mut source = value;
        if source.len <= MAX_ARRAY_SIZE {
            // Move the live embedded values, in order, into the heap store.
            let mut x: usize = 0;
            while x < source.len
                invariant
                    x <= source.len <= MAX_ARRAY_SIZE,
                    source.len == value.len,
                    source.array_store@.len() == MAX_ARRAY_SIZE,
                    forall|i: int|
                        x <= i < MAX_ARRAY_SIZE ==> source.array_store@[i]
                            == value.array_store@[i],
                    value.well_formed() ==> source.vec_store@ == value@.subrange(0, x as int),
                decreases source.len - x,
            {
                match source.array_store[x].take() {
                    Some(item) => {
                        source.vec_store.push(item);
                    },
                    None => {},
                }
                x += 1;
            }
        }
        source.vec_store
    }
}

impl<T> FromSpecImpl<VecArray<T>> for Vec<T> {
    /// The conversion is specified by the postcondition of `from`, not by a
    /// spec function.
    open spec fn obeys_from_spec() -> bool {
        false
    }

    open spec fn from_spec(v: VecArray<T>) -> Self {
        arbitrary()
    }
}

/// Calls `Hash::hash` of std on one item: feeds the item to the hasher.
/// Nothing is claimed of the hasher's state afterwards.
#[verifier::external_body]
fn hash_item<T: core::hash::Hash, H: core::hash::Hasher>(item: &T, state: &mut H) {
    item.hash(state);
}

impl<T: core::hash::Hash> core::hash::Hash for VecArray<T> {
    /// Feeds the items to the hasher, in order, and nothing else.
    fn hash<H: core::hash::Hasher>(&self, state: &mut H) {
        let mut x: usize = 0;
        if self.len <= MAX_ARRAY_SIZE {
            while x < self.len
                invariant
                    x <= self.len <= MAX_ARRAY_SIZE,
                decreases self.len - x,
            {
                match self.array_store[x].as_ref() {
                    Some(item) => {
                        hash_item(item, state);
                    },
                    None => {},
                }
                x += 1;
            }
        } else {
            while x < self.vec_store.len()
                invariant
                    x <= self.vec_store.len(),
                decreases self.vec_store.len() - x,
            {
                hash_item(&self.vec_store[x], state);
                x += 1;
            }
        }
    }
}

impl<T> core::ops::IndexMut<usize> for VecArray<T> {
    /// A mutable reference to the item at `index`, which must exist. What
    /// the caller writes through it becomes the item at that index.
    fn index_mut(&mut self, index: usize) -> (r: &mut T)
        requires
            old(self).well_formed(),
            index < old(self)@.len(),
        ensures
            *r == old(self)@[index as int],
            final(self)@ == old(self)@.update(index as int, *final(r)),
            final(self).spec_len() == old(self).spec_len(),
            final(self).well_formed(),
    {
        if self.is_fixed_storage() {
            self.array_store[index].as_mut().unwrap()
        } else {
            &mut self.vec_store[index]
        }
    }
}

/// `core::fmt::Formatter` of std, as an opaque type: it is only handed on.
#[verifier::external_type_specification]
#[verifier::external_body]
pub struct ExFormatter<'a>(core::fmt::Formatter<'a>);

/// `core::fmt::Error` of std, as an opaque type: it is only handed back.
#[verifier::external_type_specification]
#[verifier::external_body]
pub struct ExFmtError(core::fmt::Error);

/// Calls `Debug::fmt` of std on a list of references: writes the list to
/// the formatter, each item by its own `Debug`. Nothing is claimed of what
/// is written or of the result.
#[verifier::external_body]
fn format_items<T: core::fmt::Debug>(
    items: &Vec<&T>,
    f: &mut core::fmt::Formatter<'_>,
) -> Result<(), core::fmt::Error> {
    core::fmt::Debug::fmt(items, f)
}

impl<T> VecArray<T> {
    /// References to the items, in order.
    fn item_refs(&self) -> (items: Vec<&T>)
        ensures
            self.well_formed() ==> {
                &&& items@.len() == self@.len()
                &&& forall|i: int| 0 <= i < self@.len() ==> *items@[i] == self@[i]
            },
    {
        let mut items: Vec<&T> = Vec::new();
        let mut x: usize = 0;
        if self.len <= MAX_ARRAY_SIZE {
            while x < self.len
                invariant
                    x <= self.len <= MAX_ARRAY_SIZE,
                    self.well_formed() ==> {
                        &&& items@.len() == x
                        &&& forall|i: int| 0 <= i < x ==> *items@[i] == self@[i]
                    },
                decreases self.len - x,
            {
                match self.array_store[x].as_ref() {
                    Some(item) => {
                        items.push(item);
                    },
                    None => {},
                }
                x += 1;
            }
        } else {
            while x < self.vec_store.len()
                invariant
                    x <= self.vec_store.len(),
                    items@.len() == x,
                    forall|i: int| 0 <= i < x ==> *items@[i] == self.vec_store@[i],
                decreases self.vec_store.len() - x,
            {
                items.push(&self.vec_store[x]);
                x += 1;
            }
        }
        items
    }
}

impl<T: core::fmt::Debug> core::fmt::Debug for VecArray<T> {
    /// Renders the items, in order, as a list.
    fn fmt(&self, f: &mut core::fmt::Formatter<'_>) -> (r: Result<(), core::fmt::Error>) {
        let items = self.item_refs();
        format_items(&items, f)
    }
}

} // verus!
