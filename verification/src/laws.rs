//! What holds of the container as a whole: facts that relate several
//! operations, or that hold of every well-formed value.

use crate::model::{
    apply, heap_layout, inline_layout, insertions, pushes, removals, returned, run, Operation,
    MAX_ARRAY_SIZE,
};
use crate::vec_array::{lemma_eq_is_elementwise, VecArray};
use vstd::prelude::*;
use vstd::std_specs::cmp::PartialEqSpec;

verus! {

/// The items determine the storage: a well-formed container records the
/// number of its items, keeps them in the embedded slots exactly when they
/// fit, and keeps them in the heap store exactly when they do not.
pub proof fn lemma_layout_follows_items<T>(a: VecArray<T>)
    requires
        a.well_formed(),
    ensures
        a.spec_len() == a@.len(),
        a.inline_store() == inline_layout(a@),
        a.heap_store() == heap_layout(a@),
{
    assert(a.inline_store() =~= inline_layout(a@));
    assert(a.heap_store() =~= heap_layout(a@));
}

/// Two well-formed containers with the same items have the same count and
/// the same content in both stores, however each of them was built.
pub proof fn lemma_same_items_same_storage<T>(a: VecArray<T>, b: VecArray<T>)
    requires
        a.well_formed(),
        b.well_formed(),
        a@ == b@,
    ensures
        a.spec_len() == b.spec_len(),
        a.inline_store() == b.inline_store(),
        a.heap_store() == b.heap_store(),
{
    lemma_layout_follows_items(a);
    lemma_layout_follows_items(b);
}

/// The heap store is empty exactly when the items fit in the embedded
/// storage.
pub proof fn lemma_heap_empty_iff_fixed<T>(a: VecArray<T>)
    requires
        a.well_formed(),
    ensures
        a@.len() <= MAX_ARRAY_SIZE <==> a.heap_store().len() == 0,
{
}

/// In a container that holds anything, every embedded slot is empty exactly
/// when the items do not fit in the embedded storage. (An empty container
/// has all its slots empty too, and is in the embedded mode.)
pub proof fn lemma_slots_empty_iff_spilled<T>(a: VecArray<T>)
    requires
        a.well_formed(),
        a@.len() > 0,
    ensures
        a@.len() > MAX_ARRAY_SIZE <==> forall|i: int|
            0 <= i < MAX_ARRAY_SIZE ==> a.inline_store()[i] is None,
{
    if a@.len() <= MAX_ARRAY_SIZE {
        assert(a.inline_store()[0] is Some);
    }
}

/// After any sequence of `push`, `insert`, `pop` and `remove`, the number of
/// items is the number there was, plus the insertions, minus the removals
/// that found an item.
pub proof fn lemma_len_counts_operations<T>(s: Seq<T>, ops: Seq<Operation<T>>)
    ensures
        run(s, ops).len() == s.len() + insertions(ops) - removals(s, ops),
    decreases ops.len(),
{
    if ops.len() > 0 {
        lemma_len_counts_operations(apply(s, ops.first()), ops.drop_first());
    }
}

/// Started on an empty container, a sequence of operations leaves as many
/// items as it had insertions, minus its removals that found an item.
pub proof fn lemma_len_from_empty<T>(ops: Seq<Operation<T>>)
    ensures
        run(Seq::<T>::empty(), ops).len() == insertions(ops) - removals(Seq::<T>::empty(), ops),
{
    lemma_len_counts_operations(Seq::<T>::empty(), ops);
}

/// Pushing the items of `items` one by one onto `s` appends `items` to `s`.
pub proof fn lemma_pushes_append<T>(s: Seq<T>, items: Seq<T>)
    ensures
        run(s, pushes(items)) == s + items,
    decreases items.len(),
{
    if items.len() == 0 {
        assert(s + items =~= s);
    } else {
        let ops = pushes(items);
        assert(ops.drop_first() =~= pushes(items.drop_first()));
        lemma_pushes_append(s.push(items.first()), items.drop_first());
        assert(s.push(items.first()) + items.drop_first() =~= s + items);
    }
}

/// A container made from a plain `Vec` is the one that pushing the items of
/// the `Vec`, in order, onto a new container gives.
pub proof fn lemma_from_vec_is_pushing<T>(v: Vec<T>, arr: VecArray<T>, built: VecArray<T>)
    requires
        call_ensures(<VecArray<T> as From<Vec<T>>>::from, (v,), arr),
        built.well_formed(),
        built@ == run(Seq::<T>::empty(), pushes(v@)),
    ensures
        arr@ == built@,
        arr.spec_len() == built.spec_len(),
        arr.inline_store() == built.inline_store(),
        arr.heap_store() == built.heap_store(),
{
    lemma_pushes_append(Seq::<T>::empty(), v@);
    assert(Seq::<T>::empty() + v@ =~= v@);
    lemma_same_items_same_storage(arr, built);
}

/// Converting a container to a plain `Vec` and that `Vec` back to a
/// container gives the same items in the same order, stored the same way.
pub proof fn lemma_vec_round_trip<T>(a: VecArray<T>, v: Vec<T>, b: VecArray<T>)
    requires
        a.well_formed(),
        call_ensures(<Vec<T> as From<VecArray<T>>>::from, (a,), v),
        call_ensures(<VecArray<T> as From<Vec<T>>>::from, (v,), b),
    ensures
        b.well_formed(),
        b@ == a@,
        b.spec_len() == a.spec_len(),
        b.inline_store() == a.inline_store(),
        b.heap_store() == a.heap_store(),
{
    lemma_same_items_same_storage(a, b);
}

/// A container that was cleared cannot be told from a new one: it has the
/// same count and the same stores, so every operation leaves the same items
/// behind and hands out the same value on both.
pub proof fn lemma_cleared_is_like_new<T>(
    cleared: VecArray<T>,
    fresh: VecArray<T>,
    op: Operation<T>,
)
    requires
        cleared.well_formed(),
        cleared@ == Seq::<T>::empty(),
        call_ensures(VecArray::<T>::new, (), fresh),
    ensures
        cleared@ == fresh@,
        cleared.spec_len() == fresh.spec_len(),
        cleared.inline_store() == fresh.inline_store(),
        cleared.heap_store() == fresh.heap_store(),
        apply(cleared@, op) == apply(fresh@, op),
        returned(cleared@, op) == returned(fresh@, op),
{
    lemma_same_items_same_storage(cleared, fresh);
}

/// Whether two containers compare equal depends on their items alone, not
/// on how either of them came to hold them.
pub proof fn lemma_eq_ignores_history<T: PartialEq>(
    a: VecArray<T>,
    b: VecArray<T>,
    c: VecArray<T>,
    d: VecArray<T>,
)
    requires
        a.well_formed(),
        b.well_formed(),
        c.well_formed(),
        d.well_formed(),
        a@ == c@,
        b@ == d@,
    ensures
        a.eq_spec(&b) == c.eq_spec(&d),
{
    lemma_eq_is_elementwise(a, b);
    lemma_eq_is_elementwise(c, d);
}

/// Two containers that end with the same items in the same order compare
/// equal, provided each item equals itself.
pub proof fn lemma_same_items_compare_equal<T: PartialEq>(a: VecArray<T>, b: VecArray<T>)
    requires
        a.well_formed(),
        b.well_formed(),
        a@ == b@,
        forall|i: int| 0 <= i < a@.len() ==> PartialEqSpec::eq_spec(&#[trigger] a@[i], &a@[i]),
    ensures
        a.eq_spec(&b),
{
    lemma_eq_is_elementwise(a, b);
}

} // verus!
