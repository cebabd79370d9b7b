use zeta2::client::ClientError;
use zeta2::identity::{
    derive_peer_id, identity_from_fresh, identity_of_key, key_from_stored, key_to_stored,
    load_or_generate_identity, peer_id_from_public_key,
};
use zeta2::text::decimal_string;

const SECRET_HEX: &str = "9d61b19deffd5a60ba844af492ec2cc44449c5697b326919703bac031cae7f60";

fn secret() -> [u8; 32] {
    key_from_stored(SECRET_HEX).unwrap()
}

#[test]
fn stored_key_text_is_lower_case_hex() {
    let mut key = [0u8; 32];
    key[0] = 0x01;
    key[1] = 0xab;
    key[31] = 0xff;
    let text = key_to_stored(&key);
    assert_eq!(text.len(), 64);
    assert!(text.starts_with("01ab00"));
    assert!(text.ends_with("00ff"));
    assert_eq!(key_from_stored(&text), Some(key));
}

#[test]
fn stored_key_is_read_in_either_case() {
    let lower = key_from_stored(SECRET_HEX).unwrap();
    let upper = key_from_stored(&SECRET_HEX.to_uppercase()).unwrap();
    assert_eq!(lower, upper);
    assert_eq!(lower[0], 0x9d);
    assert_eq!(lower[1], 0x61);
    assert_eq!(lower[31], 0x60);
}

#[test]
fn what_is_no_key_is_not_read() {
    assert_eq!(key_from_stored(""), None);
    assert_eq!(key_from_stored("abc"), None);
    assert_eq!(key_from_stored("zz"), None);
    assert_eq!(key_from_stored(&SECRET_HEX[..62]), None);
    assert_eq!(key_from_stored(&format!("{}00", SECRET_HEX)), None);
    assert_eq!(key_from_stored(&format!("{}g0", &SECRET_HEX[..62])), None);
    assert_eq!(key_from_stored(&"é".repeat(32)), None);
}

#[test]
fn peer_id_is_prefix_and_half_of_the_public_key() {
    let id = derive_peer_id(&secret());
    assert_eq!(id, "12D3KooWd75a980182b10ab7d54bfed3c964073a");
    assert_eq!(id.len(), 40);
}

#[test]
fn peer_id_from_public_key_takes_the_first_sixteen_bytes() {
    let mut public = [0u8; 32];
    for (i, b) in public.iter_mut().enumerate() {
        *b = i as u8;
    }
    assert_eq!(peer_id_from_public_key(&public), "12D3KooW000102030405060708090a0b0c0d0e0f");
}

#[test]
fn identity_of_key_keeps_the_key() {
    let identity = identity_of_key(secret());
    assert_eq!(identity.private_key, secret());
    assert_eq!(identity.peer_id, "12D3KooWd75a980182b10ab7d54bfed3c964073a");
}

#[test]
fn stored_key_is_loaded_and_not_stored_again() {
    let (identity, save) = load_or_generate_identity(Some(SECRET_HEX)).unwrap();
    assert_eq!(identity.private_key, secret());
    assert_eq!(identity.peer_id, "12D3KooWd75a980182b10ab7d54bfed3c964073a");
    assert!(save.is_none());
}

#[test]
fn first_start_makes_a_key_to_store() {
    let (a, save_a) = load_or_generate_identity(None).unwrap();
    let (b, save_b) = load_or_generate_identity(None).unwrap();
    let text = save_a.unwrap();
    assert_eq!(text.len(), 64);
    assert_eq!(key_from_stored(&text), Some(a.private_key));
    assert_ne!(a.private_key, b.private_key);
    assert_ne!(text, save_b.unwrap());
    assert_ne!(a.private_key, [0u8; 32]);
    let (again, none) = load_or_generate_identity(Some(&text)).unwrap();
    assert_eq!(again.peer_id, a.peer_id);
    assert!(none.is_none());
}

#[test]
fn corrupt_stored_key_counts_as_first_start() {
    let (identity, save) = load_or_generate_identity(Some("corrupt")).unwrap();
    let text = save.unwrap();
    assert_eq!(key_from_stored(&text), Some(identity.private_key));
    assert_eq!(identity.peer_id, derive_peer_id(&identity.private_key));
}

#[test]
fn without_random_bytes_the_start_fails() {
    assert_eq!(identity_from_fresh(None).unwrap_err(), ClientError::Random);
    let (identity, text) = identity_from_fresh(Some(secret())).unwrap();
    assert_eq!(text, SECRET_HEX);
    assert_eq!(identity.peer_id, "12D3KooWd75a980182b10ab7d54bfed3c964073a");
}

#[test]
fn decimal_numerals() {
    assert_eq!(decimal_string(0), "0");
    assert_eq!(decimal_string(7), "7");
    assert_eq!(decimal_string(10), "10");
    assert_eq!(decimal_string(1234567890), "1234567890");
    assert_eq!(decimal_string(u64::MAX), "18446744073709551615");
}
