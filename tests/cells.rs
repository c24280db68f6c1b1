use shared_cell::{
    AlreadyBorrowed, AlreadyMutBorrowed, BorrowError, BorrowMutError, Fst, Link, Owned, PtrCompare,
    Ref, RefMut, Snd, Store, Then,
};

#[test]
fn new_then_borrow_sees_value() {
    let mut st = Store::new();
    let o = Owned::new(5u64, &mut st);
    let g = Owned::try_borrow(&o, &mut st).unwrap();
    assert_eq!(*g.get(&st), 5);
    assert_eq!(st.reader_count(o.cell_id()), 1);
    assert_eq!(st.strong_count(o.cell_id()), 2);
}

#[test]
fn new_then_borrow_sees_string() {
    let mut st = Store::new();
    let o = Owned::new(String::from("abc"), &mut st);
    let g = Owned::try_borrow(&o, &mut st).unwrap();
    assert_eq!(g.get(&st).as_str(), "abc");
}

#[test]
fn two_shared_borrows_coexist() {
    let mut st = Store::new();
    let o = Owned::new(1i32, &mut st);
    let a = Owned::try_borrow(&o, &mut st).unwrap();
    let b = Owned::try_borrow(&o, &mut st).unwrap();
    assert_eq!(*a.get(&st), 1);
    assert_eq!(*b.get(&st), 1);
    assert_eq!(st.reader_count(o.cell_id()), 2);
}

#[test]
fn exclusive_refused_while_shared() {
    let mut st = Store::new();
    let o = Owned::new(1i32, &mut st);
    let a = Owned::try_borrow(&o, &mut st).unwrap();
    assert!(matches!(Owned::try_borrow_mut(&o, &mut st), Err(AlreadyBorrowed)));
    a.release(&mut st);
    assert!(Owned::try_borrow_mut(&o, &mut st).is_ok());
}

#[test]
fn shared_refused_while_exclusive() {
    let mut st = Store::new();
    let o = Owned::new(1i32, &mut st);
    let w = Owned::try_borrow_mut(&o, &mut st).unwrap();
    assert!(matches!(Owned::try_borrow(&o, &mut st), Err(AlreadyMutBorrowed)));
    assert!(matches!(Owned::try_borrow_mut(&o, &mut st), Err(AlreadyBorrowed)));
    let l = o.share();
    assert!(matches!(l.try_borrow(&mut st), Err(BorrowError::Busy(AlreadyMutBorrowed))));
    assert!(matches!(l.try_borrow_mut(&mut st), Err(BorrowMutError::Busy(AlreadyBorrowed))));
    w.release(&mut st);
    assert!(Owned::try_borrow(&o, &mut st).is_ok());
}

#[test]
fn link_missing_after_owner_released() {
    let mut st = Store::new();
    let o = Owned::new(3u8, &mut st);
    let l = o.share();
    let id = o.cell_id();
    o.release(&mut st);
    assert!(!st.is_live(id));
    assert!(matches!(l.try_borrow(&mut st), Err(BorrowError::Missing)));
    assert!(matches!(l.try_borrow_mut(&mut st), Err(BorrowMutError::Missing)));
}

#[test]
fn empty_link_is_missing() {
    let mut st: Store<u8> = Store::new();
    let l: Link<u8> = Link::new();
    assert_eq!(l.target_id(), None);
    assert!(matches!(l.try_borrow(&mut st), Err(BorrowError::Missing)));
    assert!(matches!(l.try_borrow_mut(&mut st), Err(BorrowMutError::Missing)));
}

#[test]
fn link_clone_names_same_cell() {
    let mut st = Store::new();
    let o = Owned::new(9u8, &mut st);
    let l = o.share();
    let l2 = l.clone();
    assert_eq!(l2.target_id(), Some(o.cell_id()));
    let g = l2.try_borrow(&mut st).unwrap();
    assert_eq!(*g.get(&st), 9);
}

#[test]
fn mapped_guard_releases_once() {
    let mut st = Store::new();
    let o = Owned::new((10u32, 20u32), &mut st);
    let g = Owned::try_borrow(&o, &mut st).unwrap();
    let m = Ref::map(g, Snd);
    assert_eq!(*m.get(&st), 20);
    assert_eq!(st.reader_count(o.cell_id()), 1);
    m.release(&mut st);
    assert_eq!(st.reader_count(o.cell_id()), 0);
    assert_eq!(st.strong_count(o.cell_id()), 1);
    assert!(Owned::try_borrow_mut(&o, &mut st).is_ok());
}

#[test]
fn mapped_twice_sees_nested_part() {
    let mut st = Store::new();
    let o = Owned::new(((1u8, 2u8), 3u8), &mut st);
    let g = Owned::try_borrow(&o, &mut st).unwrap();
    let m = Ref::map(Ref::map(g, Fst), Snd);
    assert_eq!(*m.get(&st), 2);
    let lens = Then { first: Fst, second: Fst };
    let g2 = Owned::try_borrow(&o, &mut st).unwrap();
    let m2 = Ref::map(g2, lens);
    assert_eq!(*m2.get(&st), 3 - 2);
}

#[test]
fn clone_survives_other_release() {
    let mut st = Store::new();
    let o = Owned::new(77u16, &mut st);
    let a = Owned::try_borrow(&o, &mut st).unwrap();
    let b = Ref::clone(&a, &mut st);
    assert_eq!(st.reader_count(o.cell_id()), 2);
    a.release(&mut st);
    assert_eq!(*b.get(&st), 77);
    assert!(Owned::try_borrow_mut(&o, &mut st).is_err());
    b.release(&mut st);
    assert_eq!(st.reader_count(o.cell_id()), 0);
    assert!(Owned::try_borrow_mut(&o, &mut st).is_ok());
}

#[test]
fn refmut_writes_through() {
    let mut st = Store::new();
    let o = Owned::new(4i64, &mut st);
    let w = Owned::try_borrow_mut(&o, &mut st).unwrap();
    *w.get_mut(&mut st) = 11;
    assert_eq!(*w.get(&st), 11);
    w.release(&mut st);
    let g = Owned::try_borrow(&o, &mut st).unwrap();
    assert_eq!(*g.get(&st), 11);
}

#[test]
fn refmut_map_writes_part() {
    let mut st = Store::new();
    let o = Owned::new((1u8, 2u8), &mut st);
    let w = Owned::try_borrow_mut(&o, &mut st).unwrap();
    let m: RefMut<(u8, u8), Then<_, Fst>> = RefMut::map(w, Fst);
    *m.get_mut(&mut st) = 100;
    assert!(st.has_writer(o.cell_id()));
    m.release(&mut st);
    assert!(!st.has_writer(o.cell_id()));
    let g = Owned::try_borrow(&o, &mut st).unwrap();
    assert_eq!(*g.get(&st), (100, 2));
}

#[test]
fn identity_distinct_cells_equal_contents() {
    let mut st = Store::new();
    let a = Owned::new(1i32, &mut st);
    let b = Owned::new(1i32, &mut st);
    assert!(PtrCompare::from_rc(&a) != PtrCompare::from_rc(&b));
    assert!(PtrCompare::<i32>::from_raw(a.cell_id()) != PtrCompare::from_rc(&b));
}

#[test]
fn identity_raw_and_borrowed_same_cell() {
    let mut st = Store::new();
    let a = Owned::new(1i32, &mut st);
    let raw = PtrCompare::<i32>::from_raw(a.cell_id());
    let borrowed = PtrCompare::from_rc(&a);
    assert!(raw == borrowed);
    assert!(borrowed == raw);
    assert!(PtrCompare::from_rc(&a) == PtrCompare::from_rc(&a));
    assert_eq!(st.strong_count(a.cell_id()), 1);
}

#[test]
fn guard_keeps_cell_after_owner_released() {
    let mut st = Store::new();
    let o = Owned::new(42i32, &mut st);
    let l = o.share();
    let g = l.try_borrow(&mut st).unwrap();
    assert_eq!(*g.get(&st), 42);
    let id = o.cell_id();
    o.release(&mut st);
    assert!(st.is_live(id));
    assert_eq!(*g.get(&st), 42);
    g.release(&mut st);
    assert!(!st.is_live(id));
    assert!(matches!(l.try_borrow(&mut st), Err(BorrowError::Missing)));
}

#[test]
fn busy_error_from_conflict() {
    assert_eq!(BorrowError::from(AlreadyMutBorrowed), BorrowError::Busy(AlreadyMutBorrowed));
    assert_eq!(BorrowMutError::from(AlreadyBorrowed), BorrowMutError::Busy(AlreadyBorrowed));
}

#[test]
fn store_counts_cells() {
    let mut st = Store::new();
    assert_eq!(st.len(), 0);
    let a = Owned::new('x', &mut st);
    let b = Owned::new('y', &mut st);
    assert_eq!(st.len(), 2);
    assert_eq!(a.cell_id(), 0);
    assert_eq!(b.cell_id(), 1);
    assert!(!st.is_live(2));
    b.release(&mut st);
    assert_eq!(st.len(), 2);
    assert!(st.is_live(0));
    assert!(!st.is_live(1));
}
