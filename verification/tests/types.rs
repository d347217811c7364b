use erdsea::store::Store;
use erdsea::types::{bytes_eq, is_valid_esdt_identifier, Address};

#[test]
fn esdt_identifier_form() {
    assert!(is_valid_esdt_identifier(&b"ERDSEA-a1b2c3".to_vec()));
    assert!(is_valid_esdt_identifier(&b"ABC-000000".to_vec()));
    assert!(!is_valid_esdt_identifier(&b"AB-000000".to_vec()));
    assert!(!is_valid_esdt_identifier(&b"ERDSEA-A1B2C3".to_vec()));
    assert!(!is_valid_esdt_identifier(&b"erdsea-a1b2c3".to_vec()));
    assert!(!is_valid_esdt_identifier(&b"ERDSEA_a1b2c3".to_vec()));
    assert!(!is_valid_esdt_identifier(&b"ABCDEFGHIJK-a1b2c3".to_vec()));
    assert!(!is_valid_esdt_identifier(&b"EGLD".to_vec()));
}

#[test]
fn store_reads_back_what_was_written() {
    let mut s: Store<Address, u128> = Store::new();
    let a = Address { hi: 0, lo: 1 };
    let b = Address { hi: 0, lo: 2 };
    assert!(!s.contains(&a));
    s.set(a, 5);
    s.set(b, 6);
    s.set(a, 7);
    assert_eq!(s.get(&a), Some(&7));
    assert_eq!(s.get(&b), Some(&6));
    assert_eq!(s.remove(&a), Some(7));
    assert!(!s.contains(&a));
    assert_eq!(s.remove(&a), None);
}

#[test]
fn addresses_and_bytes() {
    assert!(Address::zero().is_zero());
    assert!(!Address { hi: 1, lo: 0 }.is_zero());
    assert!(bytes_eq(&b"abc".to_vec(), &b"abc".to_vec()));
    assert!(!bytes_eq(&b"abc".to_vec(), &b"abd".to_vec()));
}
