use rug_pull_chronicles_program::identity::Identity;

#[test]
fn from_bytes_accepts_exactly_thirty_two_bytes() {
    assert!(Identity::from_bytes(vec![1; 32]).is_some());
    assert!(Identity::from_bytes(vec![1; 31]).is_none());
    assert!(Identity::from_bytes(vec![1; 33]).is_none());
    assert!(Identity::from_bytes(vec![]).is_none());
}

#[test]
fn equality_is_byte_for_byte() {
    let a = Identity::from_bytes(vec![7; 32]).unwrap();
    let b = Identity::from_bytes(vec![7; 32]).unwrap();
    let mut other_bytes = vec![7; 32];
    other_bytes[31] = 8;
    let c = Identity::from_bytes(other_bytes).unwrap();
    assert!(a.equals(&b));
    assert!(!a.equals(&c));
}

#[test]
fn zero_identity_is_all_zero_bytes() {
    let z = Identity::zero();
    assert_eq!(z.as_bytes().len(), 32);
    assert!(z.as_bytes().iter().all(|b| *b == 0));
    assert!(z.equals(&Identity::from_bytes(vec![0; 32]).unwrap()));
}

#[test]
fn duplicate_preserves_the_bytes() {
    let a = Identity::from_bytes((0u8..32).collect()).unwrap();
    let b = a.duplicate();
    assert!(a.equals(&b));
}
