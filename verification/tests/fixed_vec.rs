use rusterizer::fixed_vec::FixedVec;

#[test]
fn basic_ops() {
    let mut v = FixedVec::<i32, 3>::new();
    assert_eq!(v.len(), 0);
    v.push(10);
    assert_eq!(v.len(), 1);
    v.push(11);
    assert_eq!(v.len(), 2);
    v.push(12);
    assert_eq!(v.len(), 3);
    assert_eq!(*v.get(0).unwrap(), 10);
    assert_eq!(*v.get(1).unwrap(), 11);
    assert_eq!(*v.get(2).unwrap(), 12);
}

#[test]
fn get_past_len() {
    let mut v = FixedVec::<u8, 4>::new();
    assert!(v.get(0).is_none());
    v.push(7);
    assert_eq!(*v.get(0).unwrap(), 7);
    assert!(v.get(1).is_none());
    assert!(v.get(4).is_none());
}

#[test]
fn default_is_empty() {
    let v: FixedVec<u32, 2> = FixedVec::default();
    assert_eq!(v.len(), 0);
}
