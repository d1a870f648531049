use curve_launchpad::identity::Identity;

#[test]
fn identities_compare_byte_by_byte() {
    let a = Identity::new([7; 32]);
    let b = Identity::new([7; 32]);
    let mut bytes = [7u8; 32];
    bytes[31] = 8;
    let c = Identity::new(bytes);
    let mut first = [7u8; 32];
    first[0] = 0;
    let d = Identity::new(first);
    assert!(a.same(&b));
    assert!(a == b);
    assert!(!a.same(&c));
    assert!(a != c);
    assert!(!a.same(&d));
    assert!(!c.same(&d));
}

#[test]
fn identity_keeps_its_bytes() {
    let mut bytes = [0u8; 32];
    for i in 0..32 {
        bytes[i] = i as u8;
    }
    let id = Identity::new(bytes);
    assert_eq!(id.to_bytes(), bytes);
    assert_eq!(id.bytes, bytes);
}
