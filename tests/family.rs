use beef::{reported_capacity, Beef, BeefEq};

#[test]
fn text_capacity_reports_reserved_bytes() {
    let mut s = String::with_capacity(10);
    s.push_str("hello");
    assert_eq!(<str as Beef>::capacity(&s), Some(10));
}

#[test]
fn text_capacity_of_unreserved_buffer_is_none() {
    let s = String::new();
    assert_eq!(<str as Beef>::capacity(&s), None);
}

#[test]
fn array_capacity_reports_reserved_elements() {
    let v: Vec<u32> = Vec::with_capacity(7);
    assert_eq!(<[u32] as Beef>::capacity(&v), Some(7));

    let e: Vec<u32> = Vec::new();
    assert_eq!(<[u32] as Beef>::capacity(&e), None);
}

#[test]
fn borrow_owned_reads_without_copying() {
    let s = String::from("view");
    let r = <str as Beef>::borrow_owned(&s);
    assert!(std::ptr::eq(r, s.as_str()));

    let v = vec![1i8, 2];
    let r = <[i8] as Beef>::borrow_owned(&v);
    assert!(std::ptr::eq(r, v.as_slice()));
}

#[test]
fn to_owned_copy_copies_the_data() {
    let s = "copy me";
    let owned = s.to_owned_copy();
    assert_eq!(owned, "copy me");
    assert!(!std::ptr::eq(owned.as_ptr(), s.as_ptr()));

    let xs: &[i32] = &[3, -4, 5];
    let v = xs.to_owned_copy();
    assert_eq!(v, vec![3, -4, 5]);
}

#[test]
fn same_data_compares_contents() {
    assert!("abc".same_data("abc"));
    assert!(!"abc".same_data("abd"));
    assert!(!"abc".same_data("ab"));
    assert!("".same_data(""));

    let a: &[u8] = &[1, 2, 3];
    let b: &[u8] = &[1, 2, 3];
    let c: &[u8] = &[1, 2, 4];
    assert!(a.same_data(b));
    assert!(!a.same_data(c));
    assert!(!a.same_data(&a[..2]));
}

#[test]
fn reported_capacity_maps_zero_to_none() {
    assert_eq!(reported_capacity(0), None);
    assert_eq!(reported_capacity(1), Some(1));
    assert_eq!(reported_capacity(10), Some(10));
    assert_eq!(reported_capacity(usize::MAX), Some(usize::MAX));
}

#[test]
fn text_capacity_covers_the_bytes() {
    let s = String::from("héllo wörld");
    let c = <str as Beef>::capacity(&s).unwrap();
    assert!(c >= s.len());
    assert_eq!(s.len(), 13);
}
