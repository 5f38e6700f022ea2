//! The mathematical model of the container: a plain sequence of elements,
//! the effect of every mutating operation on that sequence, and the one
//! storage layout that a sequence of a given length is allowed to have.

use vstd::prelude::*;
use vstd::std_specs::cmp::PartialEqSpec;

verus! {

/// Number of elements that fit in the embedded storage.
pub const MAX_ARRAY_SIZE: usize = 4;

/// The position at which `insert` really places its value: an index past
/// the end is treated as "append".
pub open spec fn clamp_index(len: nat, index: nat) -> nat {
    if index > len {
        len
    } else {
        index
    }
}

/// The sequence after inserting `value` at `index`, clamped to the length.
pub open spec fn insert_at<T>(s: Seq<T>, index: nat, value: T) -> Seq<T> {
    s.insert(clamp_index(s.len(), index) as int, value)
}

/// The value that `pop` hands out: the last element, if there is one.
pub open spec fn popped<T>(s: Seq<T>) -> Option<T> {
    if s.len() == 0 {
        None
    } else {
        Some(s.last())
    }
}

/// The sequence that `pop` leaves behind.
pub open spec fn pop_back<T>(s: Seq<T>) -> Seq<T> {
    if s.len() == 0 {
        s
    } else {
        s.drop_last()
    }
}

/// The value that `remove` hands out: the element at `index`, if it exists.
pub open spec fn removed<T>(s: Seq<T>, index: nat) -> Option<T> {
    if index < s.len() {
        Some(s[index as int])
    } else {
        None
    }
}

/// The sequence that `remove` leaves behind.
pub open spec fn remove_at<T>(s: Seq<T>, index: nat) -> Seq<T> {
    if index < s.len() {
        s.remove(index as int)
    } else {
        s
    }
}

/// The value that a cursor over `s` yields next: the first element, if any.
pub open spec fn first_of<T>(s: Seq<T>) -> Option<T> {
    if s.len() == 0 {
        None
    } else {
        Some(s.first())
    }
}

/// What a cursor over `s` still has to yield after one step.
pub open spec fn rest_of<T>(s: Seq<T>) -> Seq<T> {
    if s.len() == 0 {
        s
    } else {
        s.drop_first()
    }
}

/// The embedded slots that hold the sequence `s`: if `s` fits, its elements
/// occupy the first slots in order and the rest are empty; if it does not
/// fit, every slot is empty.
pub open spec fn inline_layout<T>(s: Seq<T>) -> Seq<Option<T>> {
    Seq::new(
        MAX_ARRAY_SIZE as nat,
        |i: int|
            if s.len() <= MAX_ARRAY_SIZE && i < s.len() {
                Some(s[i])
            } else {
                None
            },
    )
}

/// The heap store that holds the sequence `s`: all of `s` if it does not fit
/// in the embedded slots, nothing otherwise.
pub open spec fn heap_layout<T>(s: Seq<T>) -> Seq<T> {
    if s.len() > MAX_ARRAY_SIZE {
        s
    } else {
        Seq::empty()
    }
}

/// Pairwise equality of two sequences, by the items' own `==`.
pub open spec fn elementwise_eq<T: PartialEq>(s: Seq<T>, t: Seq<T>) -> bool {
    &&& s.len() == t.len()
    &&& forall|i: int| 0 <= i < s.len() ==> PartialEqSpec::eq_spec(&#[trigger] s[i], &t[i])
}

/// One call of a mutating operation, with its arguments.
pub enum Operation<T> {
    Push(T),
    Insert(nat, T),
    Pop,
    Remove(nat),
}

/// The sequence that `op` leaves behind when it is applied to `s`.
pub open spec fn apply<T>(s: Seq<T>, op: Operation<T>) -> Seq<T> {
    match op {
        Operation::Push(value) => s.push(value),
        Operation::Insert(index, value) => insert_at(s, index, value),
        Operation::Pop => pop_back(s),
        Operation::Remove(index) => remove_at(s, index),
    }
}

/// The value that `op` hands out when it is applied to `s`.
pub open spec fn returned<T>(s: Seq<T>, op: Operation<T>) -> Option<T> {
    match op {
        Operation::Push(_) => None,
        Operation::Insert(_, _) => None,
        Operation::Pop => popped(s),
        Operation::Remove(index) => removed(s, index),
    }
}

/// `push` and `insert` always add an item.
pub open spec fn is_insertion<T>(op: Operation<T>) -> bool {
    op is Push || op is Insert
}

/// `pop` and `remove` take an item away only if they find one.
pub open spec fn is_successful_removal<T>(s: Seq<T>, op: Operation<T>) -> bool {
    match op {
        Operation::Pop => s.len() > 0,
        Operation::Remove(index) => index < s.len(),
        _ => false,
    }
}

/// The sequence left after applying `ops`, first to last, starting from `s`.
pub open spec fn run<T>(s: Seq<T>, ops: Seq<Operation<T>>) -> Seq<T>
    decreases ops.len(),
{
    if ops.len() == 0 {
        s
    } else {
        run(apply(s, ops.first()), ops.drop_first())
    }
}

/// One `push` for every item of `items`, in order.
pub open spec fn pushes<T>(items: Seq<T>) -> Seq<Operation<T>> {
    Seq::new(items.len(), |i: int| Operation::Push(items[i]))
}

/// How many of `ops` are insertions.
pub open spec fn insertions<T>(ops: Seq<Operation<T>>) -> nat
    decreases ops.len(),
{
    if ops.len() == 0 {
        0
    } else {
        (if is_insertion(ops.first()) {
            1nat
        } else {
            0nat
        }) + insertions(ops.drop_first())
    }
}

/// How many of `ops` take an item away when they are applied, first to
/// last, starting from `s`.
pub open spec fn removals<T>(s: Seq<T>, ops: Seq<Operation<T>>) -> nat
    decreases ops.len(),
{
    if ops.len() == 0 {
        0
    } else {
        (if is_successful_removal(s, ops.first()) {
            1nat
        } else {
            0nat
        }) + removals(apply(s, ops.first()), ops.drop_first())
    }
}

} // verus!
