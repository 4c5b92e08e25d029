use empty_vec::layout::can_hold;
use empty_vec::uninit_slice::EqSizeAlign;
use empty_vec::{Clear, EmptyVec};

#[test]
fn lib_test_vec() {
    let mut a: EmptyVec<&i32> = EmptyVec::new();
    for _ in 0..2 {
        let mut b = a.to_vec();
        let c = &8;
        b.push(c);
        a = b.clear();
    }
}

#[test]
fn new_owns_no_storage() {
    let e: EmptyVec<&u8> = EmptyVec::new();
    let v = e.to_vec();
    assert_eq!(v.len(), 0);
    assert_eq!(v.capacity(), 0);
}

#[test]
fn default_is_new() {
    let e: EmptyVec<&u8> = Default::default();
    let v = e.to_vec();
    assert_eq!(v.len(), 0);
    assert_eq!(v.capacity(), 0);
}

#[test]
fn with_capacity_has_room() {
    assert!(can_hold::<&u64>(12));
    let e: EmptyVec<&u64> = EmptyVec::with_capacity(12);
    let v = e.to_vec();
    assert_eq!(v.len(), 0);
    assert!(v.capacity() >= 12);
}

#[test]
fn with_capacity_zero() {
    let e: EmptyVec<&u64> = EmptyVec::with_capacity(0);
    let v = e.to_vec();
    assert_eq!(v.len(), 0);
    assert_eq!(v.capacity(), 0);
}

#[test]
fn with_capacity_of_elements_without_size() {
    assert!(can_hold::<()>(usize::MAX));
    let e: EmptyVec<()> = EmptyVec::with_capacity(usize::MAX);
    let v = e.to_vec();
    assert_eq!(v.len(), 0);
    assert!(v.capacity() >= isize::MAX as usize);
}

#[test]
fn round_trip_keeps_the_storage() {
    let one = 1u32;
    let mut v: Vec<&u32> = Vec::with_capacity(9);
    v.push(&one);
    let capacity = v.capacity();
    let address = v.as_ptr() as usize;
    let e: EmptyVec<&u32> = v.clear();
    let w = e.to_vec();
    assert_eq!(w.len(), 0);
    assert_eq!(w.capacity(), capacity);
    assert_eq!(w.as_ptr() as usize, address);
}

#[test]
fn another_type_gets_the_storage() {
    let text = String::from("kept");
    let mut v: Vec<&String> = Vec::with_capacity(17);
    v.push(&text);
    let capacity = v.capacity();
    let address = v.as_ptr() as usize;
    let e: EmptyVec<&[u8; 3]> = v.clear();
    let w = e.to_vec();
    assert_eq!(w.len(), 0);
    assert_eq!(w.capacity(), capacity);
    assert_eq!(w.as_ptr() as usize, address);
}

#[test]
fn clear_drops_every_element() {
    let a = 1u8;
    let b = 2u8;
    let c = 3u8;
    let v: Vec<&u8> = vec![&a, &b, &c];
    let e: EmptyVec<&u16> = v.clear();
    assert_eq!(e.to_vec().len(), 0);
}

#[test]
fn reference_types_end_to_end() {
    let first = String::from("first");
    let mut names: Vec<&String> = Vec::new();
    names.push(&first);
    let capacity = names.capacity();
    let address = names.as_ptr() as usize;
    assert!(capacity >= 1);
    let kept: EmptyVec<&std::path::PathBuf> = names.clear();
    let second = std::path::PathBuf::from("second");
    let mut paths = kept.to_vec();
    paths.push(&second);
    assert_eq!(paths.len(), 1);
    assert_eq!(paths[0], &second);
    assert_eq!(paths.capacity(), capacity);
    assert_eq!(paths.as_ptr() as usize, address);
}

#[test]
fn lifetimes_do_not_outlive_the_handle() {
    let mut kept: EmptyVec<&str> = EmptyVec::new();
    let mut capacity = 0;
    for round in 0..3 {
        let word = format!("round {}", round);
        let mut v: Vec<&str> = kept.to_vec();
        assert_eq!(v.len(), 0);
        assert_eq!(v.capacity(), capacity);
        v.push(word.as_str());
        capacity = v.capacity();
        kept = v.clear();
    }
}

struct Metres(u32);

struct Feet(u32);

impl EqSizeAlign<Metres> for Feet {
    fn same_layout() {}
}

#[test]
fn a_declared_pair_shares_storage() {
    let mut v: Vec<Metres> = Vec::with_capacity(5);
    v.push(Metres(3));
    let capacity = v.capacity();
    let address = v.as_ptr() as usize;
    let e: EmptyVec<Feet> = v.clear();
    let mut w = e.to_vec();
    assert_eq!(w.len(), 0);
    assert_eq!(w.capacity(), capacity);
    assert_eq!(w.as_ptr() as usize, address);
    w.push(Feet(9));
    assert_eq!(w[0].0, 9);
}

struct Bag(Vec<u8>);

impl Clear<usize> for Bag {
    fn clear(self) -> usize {
        self.0.capacity()
    }
}

#[test]
fn clear_of_another_collection() {
    assert!(Bag(Vec::with_capacity(3)).clear() >= 3);
}

#[test]
fn exclusive_references_across_lifetimes() {
    let mut kept: EmptyVec<&mut u32> = EmptyVec::with_capacity(4);
    for round in 0..3u32 {
        let mut counter = round;
        let mut v: Vec<&mut u32> = kept.to_vec();
        assert!(v.capacity() >= 4);
        let capacity = v.capacity();
        let address = v.as_ptr() as usize;
        v.push(&mut counter);
        *v[0] += 1;
        kept = v.clear();
        assert_eq!(counter, round + 1);
        let w: Vec<&mut u32> = kept.to_vec();
        assert_eq!(w.capacity(), capacity);
        assert_eq!(w.as_ptr() as usize, address);
        kept = w.clear();
    }
}
