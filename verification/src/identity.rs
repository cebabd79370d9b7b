//! The identity of a browser node: a private key kept as hexadecimal text,
//! and the peer identity derived from its public key.

use crate::client::ClientError;
use vstd::prelude::*;

verus! {

/// The hexadecimal digit, in lower case, of a number below sixteen.
pub open spec fn hex_digit(n: int) -> char {
    if n < 10 {
        (n + 48) as char
    } else {
        (n + 87) as char
    }
}

/// The hexadecimal text of bytes: two digits for each byte, the high half
/// first, letters in lower case.
pub open spec fn hex_text(bytes: Seq<u8>) -> Seq<char> {
    Seq::new(
        2 * bytes.len(),
        |i: int|
            if i % 2 == 0 {
                hex_digit(bytes[i / 2] as int / 16)
            } else {
                hex_digit(bytes[i / 2] as int % 16)
            },
    )
}

/// The number that a hexadecimal digit of either case stands for.
pub open spec fn hex_value(c: char) -> Option<int> {
    let n = c as int;
    if 48 <= n <= 57 {
        Some(n - 48)
    } else if 97 <= n <= 102 {
        Some(n - 87)
    } else if 65 <= n <= 70 {
        Some(n - 55)
    } else {
        None
    }
}

/// Whether a text is made of an even number of hexadecimal digits.
pub open spec fn is_hex(text: Seq<char>) -> bool {
    text.len() % 2 == 0 && forall|i: int|
        0 <= i < text.len() ==> hex_value(#[trigger] text[i]) is Some
}

/// The bytes that a hexadecimal text stands for, if it is one.
pub open spec fn hex_bytes(text: Seq<char>) -> Option<Seq<u8>> {
    if is_hex(text) {
        Some(
            Seq::new(
                text.len() / 2,
                |i: int| (16 * hex_value(text[2 * i])->0 + hex_value(text[2 * i + 1])->0) as u8,
            ),
        )
    } else {
        None
    }
}

/// The public key that belongs to an Ed25519 private key, as
/// `ed25519_dalek` computes it.
pub uninterp spec fn ed25519_public_key(private_key: Seq<u8>) -> Seq<u8>;

/// Writes bytes as hexadecimal text.
///
/// Trusted: calls `hex::encode`, which writes two lower-case digits for
/// each byte, the high half first.
#[verifier::external_body]
fn hex_encode(bytes: &[u8]) -> (r: String)
    ensures
        r@ == hex_text(bytes@),
{
    hex::encode(bytes)
}

/// Reads hexadecimal text as bytes.
///
/// Trusted: calls `hex::decode` and drops the error. It gives the bytes
/// where the text is an even number of digits of either case, and an error
/// on any other text.
#[verifier::external_body]
fn hex_decode(text: &str) -> (r: Option<Vec<u8>>)
    ensures
        match r {
            Some(bytes) => hex_bytes(text@) == Some(bytes@),
            None => hex_bytes(text@) is None,
        },
{
    hex::decode(text).ok()
}

/// The public key of a private key.
///
/// Trusted: calls `ed25519_dalek::SigningKey::from_bytes`, then
/// `verifying_key` and `to_bytes`; the result is named, nothing else is
/// claimed of it.
#[verifier::external_body]
fn public_key_of(private_key: &[u8; 32]) -> (r: [u8; 32])
    ensures
        r@ == ed25519_public_key(private_key@),
{
    ed25519_dalek::SigningKey::from_bytes(private_key).verifying_key().to_bytes()
}

/// Thirty-two random bytes, or nothing where the system hands out none.
///
/// Trusted: calls `getrandom::getrandom` on a buffer of 32 bytes. Which
/// bytes come out is left open.
#[verifier::external_body]
fn random_key() -> (r: Option<[u8; 32]>) {
    let mut key = [0u8; 32];
    match getrandom::getrandom(&mut key) {
        Ok(()) => Some(key),
        Err(_) => None,
    }
}

/// The identity of a node.
#[derive(Debug)]
pub struct Identity {
    pub peer_id: String,
    pub private_key: [u8; 32],
}

/// The peer identity that belongs to a public key: `12D3KooW`, followed by
/// the first 32 hexadecimal digits of the key.
pub open spec fn peer_id_of(public_key: Seq<u8>) -> Seq<char> {
    "12D3KooW"@ + hex_text(public_key).take(32)
}

/// The key that a stored text stands for: its bytes, where it is
/// hexadecimal text of 32 bytes.
pub open spec fn stored_key(stored: Seq<char>) -> Option<Seq<u8>> {
    match hex_bytes(stored) {
        Some(bytes) => if bytes.len() == 32 {
            Some(bytes)
        } else {
            None
        },
        None => None,
    }
}

/// The peer identity that belongs to the public key `public_key`.
pub fn peer_id_from_public_key(public_key: &[u8; 32]) -> (r: String)
    ensures
        r@ == peer_id_of(public_key@),
{
    let digits = hex_encode(public_key.as_slice());
    let head = digits.as_str().substring_char(0, 32);
    let id = String::from_str("12D3KooW").concat(head);
    assert(id@ =~= peer_id_of(public_key@));
    id
}

/// The peer identity that belongs to the private key `private_key`.
pub fn derive_peer_id(private_key: &[u8; 32]) -> (r: String)
    ensures
        r@ == peer_id_of(ed25519_public_key(private_key@)),
{
    let public_key = public_key_of(private_key);
    peer_id_from_public_key(&public_key)
}

/// Reads a stored key: `None` where the text is no hexadecimal text of 32
/// bytes.
pub fn key_from_stored(stored: &str) -> (r: Option<[u8; 32]>)
    ensures
        match r {
            Some(key) => stored_key(stored@) == Some(key@),
            None => stored_key(stored@) is None,
        },
{
    match hex_decode(stored) {
        Some(bytes) => {
            if bytes.len() != 32 {
                return None;
            }
            let mut key: [u8; 32] = [0u8; 32];
            let mut i: usize = 0;
            while i < 32
                invariant
                    i <= 32,
                    bytes@.len() == 32,
                    forall|k: int| 0 <= k < i ==> key@[k] == bytes@[k],
                decreases 32 - i,
            {
                key[i] = bytes[i];
                i += 1;
            }
            assert(key@ =~= bytes@);
            Some(key)
        },
        None => None,
    }
}

/// The text under which a key is stored.
pub fn key_to_stored(private_key: &[u8; 32]) -> (r: String)
    ensures
        r@ == hex_text(private_key@),
{
    hex_encode(private_key.as_slice())
}

/// The identity that belongs to the private key `private_key`.
pub open spec fn is_identity_of(identity: Identity, private_key: Seq<u8>) -> bool {
    &&& identity.private_key@ == private_key
    &&& identity.peer_id@ == peer_id_of(ed25519_public_key(private_key))
}

/// The identity that belongs to the private key `private_key`.
pub fn identity_of_key(private_key: [u8; 32]) -> (r: Identity)
    ensures
        is_identity_of(r, private_key@),
{
    Identity { peer_id: derive_peer_id(&private_key), private_key }
}

/// The identity of a first start, from the random bytes that were had: the
/// identity of that key together with the text to store, or the error where
/// there were none.
pub fn identity_from_fresh(fresh: Option<[u8; 32]>) -> (r: Result<(Identity, String), ClientError>)
    ensures
        match fresh {
            Some(key) => r is Ok && is_identity_of(r->Ok_0.0, key@) && r->Ok_0.1@ == hex_text(key@),
            None => r == Err::<(Identity, String), ClientError>(ClientError::Random),
        },
{
    match fresh {
        Some(key) => {
            let stored = key_to_stored(&key);
            Ok((identity_of_key(key), stored))
        },
        None => Err(ClientError::Random),
    }
}

/// The key that the text found at start stands for, if one was found and it
/// is a key.
pub open spec fn found_key(stored: Option<&str>) -> Option<Seq<u8>> {
    match stored {
        Some(text) => stored_key(text@),
        None => None,
    }
}

/// The identity of a node at start. Where a stored key is found, the
/// identity is that of the key and nothing is to be stored. Where none is
/// found, or what is found is no key, a new key is made from random bytes:
/// the identity is that of the new key, whose text is to be stored; the
/// start fails where no random bytes can be had.
pub fn load_or_generate_identity(stored: Option<&str>) -> (r: Result<
    (Identity, Option<String>),
    ClientError,
>)
    ensures
        match found_key(stored) {
            Some(key) => r is Ok && is_identity_of(r->Ok_0.0, key) && r->Ok_0.1 is None,
            None => match r {
                Ok((identity, save)) => is_identity_of(identity, identity.private_key@) && save
                    is Some && save->0@ == hex_text(identity.private_key@),
                Err(e) => e == ClientError::Random,
            },
        },
{
    match stored {
        Some(text) => match key_from_stored(text) {
            Some(key) => {
                return Ok((identity_of_key(key), None));
            },
            None => {},
        },
        None => {},
    }
    match identity_from_fresh(random_key()) {
        Ok((identity, text)) => Ok((identity, Some(text))),
        Err(e) => Err(e),
    }
}

/// The digit of a number below sixteen stands for that number.
pub proof fn lemma_hex_digit_value(n: int)
    requires
        0 <= n < 16,
    ensures
        hex_value(hex_digit(n)) == Some(n),
{
}

/// Hexadecimal text reads back as the bytes it was written from.
pub proof fn lemma_hex_round_trip(bytes: Seq<u8>)
    ensures
        hex_bytes(hex_text(bytes)) == Some(bytes),
{
    let text = hex_text(bytes);
    assert forall|i: int| 0 <= i < text.len() implies hex_value(#[trigger] text[i]) is Some by {
        let b = bytes[i / 2] as int;
        lemma_hex_digit_value(b / 16);
        lemma_hex_digit_value(b % 16);
    }
    assert(is_hex(text));
    let back = hex_bytes(text)->0;
    assert forall|k: int| 0 <= k < bytes.len() implies back[k] == bytes[k] by {
        let b = bytes[k] as int;
        lemma_hex_digit_value(b / 16);
        lemma_hex_digit_value(b % 16);
        assert((2 * k) / 2 == k && (2 * k) % 2 == 0);
        assert((2 * k + 1) / 2 == k && (2 * k + 1) % 2 == 1);
        assert(text[2 * k] == hex_digit(b / 16));
        assert(text[2 * k + 1] == hex_digit(b % 16));
    }
    assert(back =~= bytes);
}

/// A key that was stored is found again: the text under which a key of 32
/// bytes is stored reads back as that key, so the identity of a node stays
/// the same from one start to the next.
pub proof fn lemma_stored_key_is_found(private_key: Seq<u8>)
    requires
        private_key.len() == 32,
    ensures
        stored_key(hex_text(private_key)) == Some(private_key),
{
    lemma_hex_round_trip(private_key);
}

} // verus!
