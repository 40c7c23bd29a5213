use routing::dht_id::{closer_to_target, DhtId};

fn to_hex(bytes: &[u8]) -> String {
    let mut s = String::new();
    for b in bytes {
        s.push_str(&format!("{:02x}", b));
    }
    s
}

fn id(bytes: &[u8]) -> DhtId {
    DhtId(bytes.to_vec())
}

#[test]
fn dhtid_from_data() {
    let data = "this is a known string".to_string().into_bytes();
    let expected_name = "8758b09d420bdb901d68fdd6888b38ce9ede06aad7f\
                         e1e0ea81feffc76260554b9d46fb6ea3b169ff8bb02\
                         ef14a03a122da52f3063bcb1bfb22cffc614def522"
        .to_string();
    assert_eq!(&expected_name, &to_hex(&DhtId::from_data(&data).0));
}

#[test]
fn new_keeps_the_array() {
    let mut arr = [0u8; 64];
    for i in 0..64 {
        arr[i] = i as u8;
    }
    let d = DhtId::new(&arr);
    assert_eq!(d.0, arr.to_vec());
}

#[test]
fn generate_random_has_64_bytes() {
    assert_eq!(DhtId::generate_random().0.len(), 64);
}

#[test]
fn is_valid_cases() {
    assert!(!id(&[0u8; 64]).is_valid());
    let mut arr = [0u8; 64];
    arr[63] = 1;
    assert!(id(&arr).is_valid());
    assert!(!id(&[1u8; 63]).is_valid());
    assert!(!id(&[1u8; 65]).is_valid());
    assert!(!id(&[]).is_valid());
}

#[test]
fn closer_to_target_first_differing_byte_decides() {
    let target = id(&[0x00, 0x00, 0x00]);
    let a = id(&[0x00, 0x01, 0xff]);
    let b = id(&[0x00, 0x02, 0x00]);
    assert!(closer_to_target(&a, &b, &target));
    assert!(!closer_to_target(&b, &a, &target));
}

#[test]
fn closer_to_target_uses_xor() {
    let target = id(&[0xf0]);
    let a = id(&[0xf1]); // distance 0x01
    let b = id(&[0x00]); // distance 0xf0
    assert!(closer_to_target(&a, &b, &target));
    assert!(!closer_to_target(&b, &a, &target));
}

#[test]
fn closer_to_target_irreflexive_and_equal_distances() {
    let target = id(&[0x12, 0x34]);
    let a = id(&[0x56, 0x78]);
    assert!(!closer_to_target(&a, &a, &target));
    // lhs shorter than rhs: only lhs's length is compared
    let b = id(&[0x56, 0x78, 0x00]);
    let t3 = id(&[0x12, 0x34, 0x00]);
    assert!(!closer_to_target(&a, &b, &t3));
}

#[test]
fn closer_to_target_target_is_closest() {
    let target = id(&[9, 8, 7, 6]);
    let x = id(&[9, 8, 7, 7]);
    assert!(closer_to_target(&target, &x, &target));
    assert!(!closer_to_target(&x, &target, &target));
}

#[test]
fn closer_to_target_transitive_example() {
    let target = id(&[0, 0]);
    let a = id(&[0, 1]);
    let b = id(&[0, 2]);
    let c = id(&[1, 0]);
    assert!(closer_to_target(&a, &b, &target));
    assert!(closer_to_target(&b, &c, &target));
    assert!(closer_to_target(&a, &c, &target));
}

#[test]
fn debug_string_shows_first_two_bytes() {
    assert_eq!(id(&[0x87, 0x58, 0xb0]).debug_string(), "DhtId(8758)");
    assert_eq!(id(&[0x05, 0xab]).debug_string(), "DhtId(5ab)");
    assert_eq!(id(&[0x00, 0x0f]).debug_string(), "DhtId(0f)");
}

#[test]
fn same_as_and_copy() {
    let a = id(&[1, 2, 3]);
    let b = a.copy();
    assert!(a.same_as(&b));
    assert!(!a.same_as(&id(&[1, 2])));
    assert!(!a.same_as(&id(&[1, 2, 4])));
}
