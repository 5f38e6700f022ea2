use std::collections::hash_map::DefaultHasher;
use std::hash::{Hash, Hasher};
use vecarray::iter::IntoIter;
use vecarray::VecArray;

fn make(values: &[i32]) -> VecArray<i32> {
    let mut v = VecArray::new();
    for x in values {
        v.push(*x);
    }
    v
}

fn hash_of<T: Hash>(value: &T) -> u64 {
    let mut hasher = DefaultHasher::new();
    value.hash(&mut hasher);
    hasher.finish()
}

#[test]
fn default_is_empty() {
    let v: VecArray<i32> = Default::default();
    assert_eq!(v.len(), 0);
    assert!(v.is_fixed_storage());
    assert!(v == VecArray::new());
}

#[test]
fn equality_compares_items_in_order() {
    assert!(make(&[1, 2, 3]) == make(&[1, 2, 3]));
    assert!(make(&[1, 2, 3]) != make(&[1, 2, 4]));
    assert!(make(&[1, 2, 3]) != make(&[1, 2]));
    assert!(make(&[1, 2, 3]) != make(&[3, 2, 1]));
    assert!(make(&[1, 2, 3, 4, 5, 6]) == make(&[1, 2, 3, 4, 5, 6]));
    assert!(make(&[1, 2, 3, 4, 5, 6]) != make(&[1, 2, 3, 4, 5, 7]));
    assert!(make(&[1, 2, 3, 4, 5]) != make(&[1, 2, 3, 4]));
    assert!(make(&[]) == make(&[]));
}

#[test]
fn equality_ignores_how_the_items_got_there() {
    let direct = make(&[1, 2, 3]);
    let mut winding = make(&[9, 1, 8, 2, 7, 3, 6]);
    assert_eq!(winding.pop(), Some(6));
    assert_eq!(winding.remove(0), Some(9));
    assert_eq!(winding.remove(1), Some(8));
    assert_eq!(winding.remove(2), Some(7));
    assert!(winding.is_fixed_storage());
    assert!(direct == winding);
    assert!(winding == direct);

    let long = make(&[1, 2, 3, 4, 5]);
    let mut other = make(&[2, 3, 5]);
    other.insert(0, 1);
    other.insert(3, 4);
    assert!(long == other);
    let from_vec = VecArray::from(vec![1, 2, 3, 4, 5]);
    assert!(long == from_vec);
}

#[test]
fn hash_agrees_with_equality_and_feeds_items_only() {
    let direct = make(&[1, 2, 3]);
    let mut winding = make(&[1, 2, 3, 4, 5, 6]);
    winding.pop();
    winding.pop();
    winding.pop();
    assert_eq!(hash_of(&direct), hash_of(&winding));
    assert_ne!(hash_of(&direct), hash_of(&make(&[1, 2, 4])));

    let mut by_hand = DefaultHasher::new();
    1i32.hash(&mut by_hand);
    2i32.hash(&mut by_hand);
    3i32.hash(&mut by_hand);
    assert_eq!(hash_of(&direct), by_hand.finish());

    let mut long_by_hand = DefaultHasher::new();
    for i in 0..7i32 {
        i.hash(&mut long_by_hand);
    }
    assert_eq!(hash_of(&make(&[0, 1, 2, 3, 4, 5, 6])), long_by_hand.finish());
}

#[test]
fn clone_copies_items_and_storage_mode() {
    let small = make(&[1, 2, 3]);
    let mut copy = small.clone();
    assert!(copy == small);
    assert!(copy.is_fixed_storage());
    assert!(copy.heap_slice().is_empty());
    copy.push(4);
    assert_eq!(small.len(), 3);
    assert_eq!(copy.len(), 4);

    let large = make(&[1, 2, 3, 4, 5, 6]);
    let mut copy = large.clone();
    assert!(copy == large);
    assert!(!copy.is_fixed_storage());
    assert_eq!(copy.heap_slice(), &[1, 2, 3, 4, 5, 6]);
    assert_eq!(copy.inline_slot(0), None);
    *copy.get_mut(0).unwrap() = 10;
    assert_eq!(large.get(0), Some(&1));
}

#[test]
fn debug_renders_the_items_as_a_list() {
    assert_eq!(format!("{:?}", make(&[])), "[]");
    assert_eq!(format!("{:?}", make(&[1, 2, 3])), "[1, 2, 3]");
    assert_eq!(format!("{:?}", make(&[1, 2, 3, 4, 5])), "[1, 2, 3, 4, 5]");
    let mut names: VecArray<&str> = VecArray::new();
    names.push("a");
    assert_eq!(format!("{:?}", names), "[\"a\"]");
}

#[test]
fn vec_round_trip_keeps_the_items() {
    for n in 0..10 {
        let values: Vec<i32> = (0..n).map(|i| i * 3).collect();
        let v = make(&values);
        let fixed = v.is_fixed_storage();
        let plain: Vec<i32> = Vec::from(v);
        assert_eq!(plain, values);
        let back = VecArray::from(plain);
        assert_eq!(back.len(), values.len());
        assert_eq!(back.is_fixed_storage(), fixed);
        assert!(back == make(&values));
        for (i, x) in values.iter().enumerate() {
            assert_eq!(back.get(i), Some(x));
        }
    }
}

#[test]
fn from_vec_picks_the_store_by_length() {
    let small = VecArray::from(vec![1, 2, 3, 4]);
    assert!(small.is_fixed_storage());
    assert!(small.heap_slice().is_empty());
    assert_eq!(small.inline_slot(0), Some(&1));
    assert_eq!(small.inline_slot(3), Some(&4));
    assert_eq!(small.inline_slot(4), None);

    let large = VecArray::from(vec![1, 2, 3, 4, 5]);
    assert!(!large.is_fixed_storage());
    assert_eq!(large.heap_slice(), &[1, 2, 3, 4, 5]);
    assert_eq!(large.inline_slot(0), None);

    let empty: VecArray<i32> = VecArray::from(Vec::new());
    assert!(empty.is_empty());
}

#[test]
fn into_vec_of_both_modes() {
    let v: Vec<i32> = make(&[1, 2]).into();
    assert_eq!(v, vec![1, 2]);
    let w: Vec<i32> = make(&[1, 2, 3, 4, 5, 6]).into();
    assert_eq!(w, vec![1, 2, 3, 4, 5, 6]);
    let e: Vec<i32> = make(&[]).into();
    assert!(e.is_empty());
}

#[test]
fn iter_visits_items_in_order() {
    for n in [0, 1, 4, 5, 8] {
        let values: Vec<i32> = (0..n).collect();
        let v = make(&values);
        let mut it = v.iter();
        for x in &values {
            assert_eq!(it.next(), Some(x));
        }
        assert_eq!(it.next(), None);
        assert_eq!(it.next(), None);
        let mut again = v.iter();
        assert_eq!(again.next(), values.first());
    }
}

#[test]
fn into_iter_drains_inline_storage() {
    let mut it = make(&[1, 2, 3]).into_iter();
    assert!(matches!(it, IntoIter::Fixed(_)));
    assert_eq!(it.next(), Some(1));
    assert_eq!(it.next(), Some(2));
    assert_eq!(it.next(), Some(3));
    assert_eq!(it.next(), None);
    assert_eq!(it.next(), None);
}

#[test]
fn into_iter_drains_heap_storage() {
    let mut it = make(&[1, 2, 3, 4, 5, 6]).into_iter();
    assert!(matches!(it, IntoIter::Heap(_)));
    for i in 1..=6 {
        assert_eq!(it.next(), Some(i));
    }
    assert_eq!(it.next(), None);
    assert_eq!(it.next(), None);
}

#[test]
fn into_iter_of_empty_yields_nothing() {
    let mut it = make(&[]).into_iter();
    assert_eq!(it.next(), None);
}

#[test]
fn into_iter_hands_out_owned_values_once() {
    let mut v: VecArray<String> = VecArray::new();
    v.push(String::from("a"));
    v.push(String::from("b"));
    let mut it = v.into_iter();
    let a = it.next();
    let b = it.next();
    assert_eq!(a, Some(String::from("a")));
    assert_eq!(b, Some(String::from("b")));
    assert_eq!(it.next(), None);
}

#[test]
fn iter_mut_lends_each_item_once_in_order() {
    for n in [0, 2, 4, 5, 7] {
        let values: Vec<i32> = (0..n).collect();
        let mut v = make(&values);
        let mut seen = Vec::new();
        {
            let mut it = v.iter_mut();
            while let Some(x) = it.next() {
                seen.push(*x);
                *x = *x * 10 + 1;
            }
            assert!(it.next().is_none());
        }
        assert_eq!(seen, values);
        assert_eq!(v.len(), values.len());
        assert!(v.is_well_formed());
        for (i, x) in values.iter().enumerate() {
            assert_eq!(v.get(i), Some(&(x * 10 + 1)));
        }
    }
}

#[test]
fn iter_mut_can_stop_early() {
    let mut v = make(&[1, 2, 3]);
    {
        let mut it = v.iter_mut();
        *it.next().unwrap() = 7;
    }
    assert_eq!(Vec::from(v), vec![7, 2, 3]);
}

#[test]
fn invariant_check_passes_on_built_values() {
    let mut v: VecArray<i32> = VecArray::new();
    assert!(v.is_well_formed());
    for i in 0..12 {
        v.push(i);
        assert!(v.is_well_formed());
    }
    v.insert(3, 1);
    assert!(v.is_well_formed());
    while v.pop().is_some() {
        assert!(v.is_well_formed());
    }
    assert!(VecArray::from(vec![1, 2, 3, 4, 5]).is_well_formed());
    assert!(VecArray::from(vec![1]).is_well_formed());
    assert!(make(&[1, 2, 3, 4, 5, 6]).clone().is_well_formed());
    let mut a = make(&[1, 2, 3, 4, 5, 6]);
    let mut b = make(&[1]);
    a.transfer(&mut b);
    assert!(a.is_well_formed());
    assert!(b.is_well_formed());
}
