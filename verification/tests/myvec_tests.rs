use std::cell::Cell;
use std::rc::Rc;

use vector::MyVec;

/// The amortized growth target, as the contracts state it: at least double,
/// at least what is required, never below the floor of 8.
fn amortized_target(len: usize, cap: usize, additional: usize) -> usize {
    8usize.max((2 * cap).max(len + additional))
}

#[test]
fn new_is_empty_and_unallocated() {
    let v: MyVec<u8> = MyVec::new();
    assert_eq!(v.len(), 0);
    assert_eq!(v.capacity(), 0);
    assert_eq!(v.as_slice(), &[] as &[u8]);
}

#[test]
fn with_capacity_gives_exactly_that_capacity() {
    let v: MyVec<u64> = MyVec::with_capacity(5);
    assert_eq!(v.len(), 0);
    assert_eq!(v.capacity(), 5);
    let w: MyVec<u64> = MyVec::with_capacity(0);
    assert_eq!(w.capacity(), 0);
}

#[test]
fn push_appends_in_order() {
    let mut v: MyVec<u8> = MyVec::new();
    v.push(1);
    v.push(2);
    v.push(3);
    assert_eq!(v.as_slice(), &[1, 2, 3]);
    assert_eq!(v.len(), 3);
}

#[test]
fn push_many_survives_reallocations() {
    let mut v: MyVec<usize> = MyVec::new();
    let mut expected: Vec<usize> = Vec::new();
    for i in 0..1024 {
        v.push(i * 7);
        expected.push(i * 7);
        assert!(v.len() <= v.capacity());
    }
    assert_eq!(v.as_slice(), expected.as_slice());
    assert_eq!(v.len(), 1024);
    assert_eq!(v.capacity(), 1024);
}

#[test]
fn push_grows_by_the_amortized_policy() {
    let mut v: MyVec<u8> = MyVec::new();
    for i in 0..100u8 {
        let (len, cap) = (v.len(), v.capacity());
        let expected_cap = if len == cap {
            amortized_target(len, cap, 1)
        } else {
            cap
        };
        v.push(i);
        assert_eq!(v.capacity(), expected_cap);
        assert_eq!(v.len(), len + 1);
    }
    // From empty: floor of 8, then doubling.
    let mut w: MyVec<u8> = MyVec::new();
    w.push(0);
    assert_eq!(w.capacity(), 8);
    for i in 0..8u8 {
        w.push(i);
    }
    assert_eq!(w.capacity(), 16);
}

#[test]
fn reserve_is_a_noop_when_room_suffices() {
    let mut v: MyVec<u8> = MyVec::with_capacity(10);
    v.push(1);
    v.push(2);
    v.reserve(8);
    assert_eq!(v.capacity(), 10);
    v.reserve(0);
    assert_eq!(v.capacity(), 10);
    assert_eq!(v.as_slice(), &[1, 2]);
}

#[test]
fn reserve_grows_to_the_amortized_target() {
    let mut v: MyVec<u8> = MyVec::with_capacity(10);
    v.push(1);
    v.push(2);
    v.reserve(20);
    // max(2 * 10, 2 + 20, 8) = 22
    assert_eq!(v.capacity(), 22);
    assert_eq!(v.as_slice(), &[1, 2]);
    let mut w: MyVec<u8> = MyVec::new();
    w.reserve(3);
    // max(0, 3, 8) = 8
    assert_eq!(w.capacity(), 8);
}

#[test]
fn reserve_exact_grows_to_exactly_what_is_required() {
    let mut v: MyVec<u8> = MyVec::new();
    v.push(1);
    assert_eq!(v.capacity(), 8);
    v.reserve_exact(10);
    assert_eq!(v.capacity(), 11);
    assert_eq!(v.as_slice(), &[1]);
    v.reserve_exact(5);
    assert_eq!(v.capacity(), 11);
}

#[test]
fn growth_keeps_data_across_capacity_transitions() {
    // 0 -> 8 -> 16 by pushes, then 16 -> 17 by an exact reserve.
    let mut v: MyVec<u8> = MyVec::new();
    let mut expected: Vec<u8> = Vec::new();
    for i in 0..9u8 {
        v.push(i);
        expected.push(i);
    }
    assert_eq!(v.capacity(), 16);
    assert_eq!(v.as_slice(), expected.as_slice());
    for i in 9..16u8 {
        v.push(i);
        expected.push(i);
    }
    assert_eq!(v.capacity(), 16);
    v.reserve_exact(1);
    assert_eq!(v.capacity(), 17);
    assert_eq!(v.as_slice(), expected.as_slice());
}

#[test]
fn shrink_to_fit_matches_capacity_to_length() {
    let mut v: MyVec<u16> = MyVec::with_capacity(10);
    v.push(7);
    v.push(8);
    v.push(9);
    v.shrink_to_fit();
    assert_eq!(v.capacity(), 3);
    assert_eq!(v.as_slice(), &[7, 8, 9]);
    let mut w: MyVec<u16> = MyVec::with_capacity(10);
    w.shrink_to_fit();
    assert_eq!(w.capacity(), 0);
}

#[test]
fn shrink_to_never_goes_below_length_or_bound() {
    let mut v: MyVec<u8> = MyVec::with_capacity(10);
    v.push(1);
    v.push(2);
    v.push(3);
    v.shrink_to(5);
    assert_eq!(v.capacity(), 5);
    v.shrink_to(1);
    assert_eq!(v.capacity(), 3);
    v.shrink_to(50);
    assert_eq!(v.capacity(), 3);
    assert_eq!(v.as_slice(), &[1, 2, 3]);
}

#[test]
fn truncate_only_ever_shortens() {
    let mut v: MyVec<u8> = MyVec::new();
    for i in 0..5u8 {
        v.push(i);
    }
    let cap = v.capacity();
    v.truncate(9);
    assert_eq!(v.as_slice(), &[0, 1, 2, 3, 4]);
    assert_eq!(v.capacity(), cap);
    v.truncate(5);
    assert_eq!(v.as_slice(), &[0, 1, 2, 3, 4]);
    v.truncate(2);
    assert_eq!(v.as_slice(), &[0, 1]);
    assert_eq!(v.capacity(), cap);
    v.truncate(0);
    assert_eq!(v.as_slice(), &[] as &[u8]);
    assert_eq!(v.capacity(), cap);
}

/// An element that counts how many times it is dropped.
struct Counted {
    drops: Rc<Cell<usize>>,
}

impl Drop for Counted {
    fn drop(&mut self) {
        self.drops.set(self.drops.get() + 1);
    }
}

#[test]
fn destructors_run_exactly_once() {
    let drops: Rc<Cell<usize>> = Rc::new(Cell::new(0));
    let mut v: MyVec<Counted> = MyVec::new();
    for _ in 0..5 {
        v.push(Counted { drops: Rc::clone(&drops) });
    }
    assert_eq!(drops.get(), 0);
    v.truncate(2);
    assert_eq!(drops.get(), 3);
    v.shrink_to_fit();
    assert_eq!(drops.get(), 3);
    v.reserve(4);
    assert_eq!(drops.get(), 3);
    drop(v);
    assert_eq!(drops.get(), 5);
}

#[test]
fn concrete_scenario() {
    let mut v: MyVec<u8> = MyVec::with_capacity(0);
    assert_eq!(v.capacity(), 0);
    v.push(1);
    assert!(v.capacity() >= 1);
    assert_eq!(v.capacity(), 8);
    assert_eq!(v.len(), 1);
    assert_eq!(v.as_slice(), &[1]);
    v.reserve_exact(10);
    assert_eq!(v.capacity(), v.len() + 10);
    v.truncate(0);
    assert_eq!(v.len(), 0);
    assert_eq!(v.capacity(), 11);
    assert_eq!(v.as_slice(), &[] as &[u8]);
    v.shrink_to_fit();
    assert_eq!(v.capacity(), 0);
}

#[test]
fn behaves_like_std_vec() {
    // The same mixed run of operations against std's Vec, which for
    // one-byte elements uses the same floor of 8 and the same policies.
    let mut ours: MyVec<u8> = MyVec::new();
    let mut std_vec: Vec<u8> = Vec::new();
    let mut check = |ours: &MyVec<u8>, std_vec: &Vec<u8>| {
        assert_eq!(ours.len(), std_vec.len());
        assert_eq!(ours.capacity(), std_vec.capacity());
        assert_eq!(ours.as_slice(), std_vec.as_slice());
    };
    for i in 0..40u8 {
        ours.push(i);
        std_vec.push(i);
        check(&ours, &std_vec);
    }
    ours.reserve(100);
    std_vec.reserve(100);
    check(&ours, &std_vec);
    ours.truncate(10);
    std_vec.truncate(10);
    check(&ours, &std_vec);
    ours.shrink_to(16);
    std_vec.shrink_to(16);
    check(&ours, &std_vec);
    ours.reserve_exact(33);
    std_vec.reserve_exact(33);
    check(&ours, &std_vec);
    ours.shrink_to_fit();
    std_vec.shrink_to_fit();
    check(&ours, &std_vec);
    ours.truncate(0);
    std_vec.truncate(0);
    check(&ours, &std_vec);
}
