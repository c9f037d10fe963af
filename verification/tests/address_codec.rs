use base64::Engine;
use tron_index::codec::tron_address_to_base58;

#[test]
fn test_tron_address_to_base58() {
    // Example: QVeYR7tyCAZ4qm6OjPuRnxjT105C (base64) => THxNDMy3y9NP7Bfat9CTKmZ4PFfj1v4gWa
    let base64 = "QVeYR7tyCAZ4qm6OjPuRnxjT105C";
    let expected = "THxNDMy3y9NP7Bfat9CTKmZ4PFfj1v4gWa";
    let bytes = base64::engine::general_purpose::STANDARD
        .decode(base64)
        .unwrap();
    let addr = tron_address_to_base58(&bytes);
    assert_eq!(addr, expected);
}

#[test]
fn encode_is_deterministic() {
    let bytes = vec![0x41, 1, 2, 3, 4, 5, 6, 7, 8, 9, 10, 11, 12, 13, 14, 15, 16, 17, 18, 19, 20];
    let first = tron_address_to_base58(&bytes);
    let second = tron_address_to_base58(&bytes);
    assert_eq!(first, second);
}

#[test]
fn encode_keeps_leading_zero_bytes() {
    // A leading zero byte must come out as a leading '1' digit.
    let bytes = vec![0u8, 255u8];
    let addr = tron_address_to_base58(&bytes);
    assert!(addr.starts_with('1'));
    let no_zero = vec![255u8];
    let other = tron_address_to_base58(&no_zero);
    assert_ne!(addr, other);
}
