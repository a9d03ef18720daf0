use growvec::Vec;
use growvec::VecError;

#[test]
fn push_read_round_trip() {
    let mut v = Vec::new();
    for i in 0..100u64 {
        v.push(i * 3).unwrap();
        assert!(v.len() <= v.capacity());
    }
    assert_eq!(v.len(), 100);
    for i in 0..100usize {
        assert_eq!(*v.index(i), (i as u64) * 3);
    }
}

#[test]
fn capacity_grows_in_powers_of_two() {
    let mut v = Vec::new();
    assert_eq!(v.capacity(), 0);
    v.push(0u64).unwrap();
    assert_eq!(v.capacity(), 64);
    for i in 1..64u64 {
        v.push(i).unwrap();
    }
    assert_eq!(v.capacity(), 64);
    v.push(64).unwrap();
    assert_eq!(v.capacity(), 128);
    for i in 65..128u64 {
        v.push(i).unwrap();
    }
    v.push(128).unwrap();
    assert_eq!(v.capacity(), 256);
    assert!(v.len() <= v.capacity());
}

#[test]
fn with_capacity_is_exact_until_growth() {
    let mut v = Vec::with_capacity(10).unwrap();
    assert_eq!(v.capacity(), 10);
    assert_eq!(v.len(), 0);
    for i in 0..10u64 {
        v.push(i).unwrap();
    }
    assert_eq!(v.capacity(), 10);
    v.push(10).unwrap();
    assert_eq!(v.capacity(), 64);
    assert_eq!(v.len(), 11);
}

#[test]
fn truncate_past_length_fails_and_preserves() {
    let mut v = Vec::new();
    v.push(1u64).unwrap();
    v.push(2).unwrap();
    v.push(3).unwrap();
    let r = v.truncate(5);
    assert_eq!(r, Err(VecError::IllegalArgument));
    assert_eq!(v.len(), 3);
    assert_eq!(*v.index(0), 1);
    assert_eq!(*v.index(1), 2);
    assert_eq!(*v.index(2), 3);
    let before = v.capacity();
    v.truncate(1).unwrap();
    assert_eq!(v.len(), 1);
    assert_eq!(*v.index(0), 1);
    assert_eq!(v.capacity(), before);
}

#[test]
fn clear_then_push_matches_fresh() {
    let mut cleared = Vec::new();
    cleared.push(1u64).unwrap();
    cleared.push(2).unwrap();
    cleared.push(3).unwrap();
    cleared.clear();
    assert_eq!(cleared.len(), 0);
    assert_eq!(cleared.capacity(), 0);
    cleared.push(9).unwrap();

    let mut fresh = Vec::new();
    fresh.push(9u64).unwrap();

    assert_eq!(cleared.len(), fresh.len());
    assert_eq!(cleared.capacity(), fresh.capacity());
    assert_eq!(*cleared.index(0), *fresh.index(0));
    assert!(cleared == fresh);
}

#[test]
fn example_scenario() {
    let mut v = Vec::with_capacity(0).unwrap();
    v.push(1u64).unwrap();
    v.push(2).unwrap();
    v.push(3).unwrap();
    assert_eq!(v.len(), 3);
    assert_eq!(v.capacity(), 64);
    let s = v.slice(0, 3);
    assert_eq!(s.len(), 3);
    assert_eq!(s[0], 1);
    assert_eq!(s[1], 2);
    assert_eq!(s[2], 3);
    v.truncate(1).unwrap();
    assert_eq!(v.len(), 1);
    assert_eq!(*v.index(0), 1);
    v.clear();
    assert_eq!(v.len(), 0);
}

#[test]
fn equality_by_contents() {
    let mut a = Vec::new();
    let mut b = Vec::with_capacity(7).unwrap();
    let mut c = Vec::new();
    for i in [1u64, 2, 3] {
        a.push(i).unwrap();
        b.push(i).unwrap();
    }
    c.push(1u64).unwrap();
    c.push(2).unwrap();
    assert!(a == b);
    assert!(a != c);
    c.push(4).unwrap();
    assert!(a != c);
}

#[test]
fn with_capacity_overflow_reports_alloc() {
    let r = Vec::<u64>::with_capacity(usize::MAX);
    assert_eq!(r.err(), Some(VecError::Alloc));
}

#[test]
fn zero_alloc_mode_honours_zero_request() {
    let mut flagged = Vec::new();
    flagged.allow_zero_alloc(true);
    flagged.resize(0, 0u64).unwrap();
    assert_eq!(flagged.capacity(), 0);

    let mut plain = Vec::new();
    plain.resize(0, 0u64).unwrap();
    assert_eq!(plain.capacity(), 64);
}

#[test]
fn resize_grows_fills_and_shrinks() {
    let mut v = Vec::new();
    v.resize(5, 7u64).unwrap();
    assert_eq!(v.len(), 5);
    assert_eq!(v.capacity(), 64);
    for i in 0..5usize {
        assert_eq!(*v.index(i), 7);
    }
    v.resize(130, 1).unwrap();
    assert_eq!(v.len(), 130);
    assert_eq!(v.capacity(), 256);
    assert_eq!(*v.index(4), 7);
    assert_eq!(*v.index(5), 1);
    assert_eq!(*v.index(129), 1);
    v.resize(2, 0).unwrap();
    assert_eq!(v.len(), 2);
    assert_eq!(v.capacity(), 64);
    assert_eq!(*v.index(0), 7);
    assert_eq!(*v.index(1), 7);
}

#[test]
fn extend_from_slice_appends() {
    let mut v = Vec::new();
    v.push(1u64).unwrap();
    v.push(2).unwrap();
    v.extend_from_slice(&[3, 4, 5]).unwrap();
    assert_eq!(v.len(), 5);
    for i in 0..5usize {
        assert_eq!(*v.index(i), (i as u64) + 1);
    }
}

#[test]
fn extend_appends_another_array() {
    let mut v = Vec::new();
    v.push(1u64).unwrap();
    let mut w = Vec::new();
    w.push(2u64).unwrap();
    w.push(3).unwrap();
    v.extend(&w).unwrap();
    assert_eq!(v.len(), 3);
    assert_eq!(*v.index(0), 1);
    assert_eq!(*v.index(1), 2);
    assert_eq!(*v.index(2), 3);
    assert_eq!(w.len(), 2);
}

#[test]
fn slice_variants_window_the_live_range() {
    let mut v = Vec::new();
    for i in 0..6u64 {
        v.push(i).unwrap();
    }
    assert_eq!(v.slice(2, 4), &[2, 3][..]);
    assert_eq!(v.slice_all(), &[0, 1, 2, 3, 4, 5][..]);
    assert_eq!(v.slice_to(2), &[0, 1][..]);
    assert_eq!(v.slice_from(4), &[4, 5][..]);
    assert_eq!(v.slice(3, 3), &[][..]);
    let empty = Vec::<u64>::new();
    assert_eq!(empty.slice(0, 0), &[][..]);
}

#[test]
fn slice_mut_writes_land_in_the_window() {
    let mut v = Vec::new();
    for i in 0..5u64 {
        v.push(i).unwrap();
    }
    {
        let w = v.slice_mut(1, 3);
        w[0] = 10;
        w[1] = 20;
    }
    assert_eq!(v.slice_all(), &[0, 10, 20, 3, 4][..]);
    {
        let w = v.slice_mut_to(1);
        w[0] = 9;
    }
    {
        let w = v.slice_mut_from(4);
        w[0] = 40;
    }
    {
        let w = v.slice_mut_all();
        w[2] = 2;
    }
    assert_eq!(v.slice_all(), &[9, 10, 2, 3, 40][..]);
}

#[test]
fn index_mut_writes_in_place() {
    let mut v = Vec::new();
    v.push(5u64).unwrap();
    v.push(6).unwrap();
    *v.index_mut(1) = 60;
    assert_eq!(*v.index(0), 5);
    assert_eq!(*v.index(1), 60);
}
