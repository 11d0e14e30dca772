use intercomm::UntypedBox;

#[test]
fn untyped_box() {
    let mut b = UntypedBox::new(0i32);
    assert_eq!(*b.get_ref::<i32>().unwrap(), 0);

    *b.get_mut::<i32>().unwrap() = 1;
    assert_eq!(*b.get_ref::<i32>().unwrap(), 1);

    let b = match b.consume::<i32>() {
        Ok(b) => b,
        Err(_) => panic!("the box holds an i32"),
    };
    assert_eq!(*b, 1);
}

#[test]
fn untyped_box_rejects_other_types() {
    let mut b = UntypedBox::new(7u8);
    assert!(b.get_ref::<i32>().is_none());
    assert!(b.get_mut::<u16>().is_none());
    let b = match b.consume::<String>() {
        Ok(_) => panic!("the box holds a u8"),
        Err(back) => back,
    };
    assert_eq!(*b.get_ref::<u8>().unwrap(), 7);
}
