use ethers_core::types::{Signature as Recoverable, H160, H256, U256};
use ferrite::signature::{accept_signature, sign_digest};
use ferrite::{sign_hash, Argument, KeyInput, PrivateKey, SignError, Signature};

const COW: &str = "c85ef7d79691fe79573b1a7064c19c1a9819ebdbd1faaab1a8ec92344438aaf4";
const MAIL_DIGEST: &str = "be609aee343fb3c4b28e1df9e632fca64fcfaede20f02e86244efddf30957bd2";
const MAIL_R: &str = "4355c47d63924e8a72e509b65029052eb6c299d53a04e167c5775fd466751c9d";
const MAIL_S: &str = "07299936d304c153f6443dfa05f40ff007d72911b6f72307f996231605b91562";

fn cow() -> KeyInput {
    KeyInput::Hex(COW.to_string())
}

fn digest() -> [u8; 32] {
    hex::decode(MAIL_DIGEST).unwrap().try_into().unwrap()
}

#[test]
fn sign_hash_reproduces_the_reference_signature() {
    let signature = sign_hash(&digest(), &cow()).unwrap();
    assert_eq!(hex::encode(signature.r), MAIL_R);
    assert_eq!(hex::encode(signature.s), MAIL_S);
    assert_eq!(signature.v, 28);
    assert_eq!(hex::encode(signature.signature), format!("{}{}1c", MAIL_R, MAIL_S));
}

#[test]
fn sign_hash_of_zeros_with_key_one() {
    let mut one = vec![0u8; 32];
    one[31] = 1;
    let signature = sign_hash(&[0u8; 32], &KeyInput::Bytes(one)).unwrap();
    assert_eq!(
        hex::encode(signature.r),
        "a0b37f8fba683cc68f6574cd43b39f0343a50008bf6ccea9d13231d9e7e2e1e4"
    );
    assert_eq!(
        hex::encode(signature.s),
        "11edc8d307254296264aebfc3dc76cd8b668373a072fd64665b50000e9fcce52"
    );
    assert_eq!(signature.v, 28);
}

#[test]
fn sign_hash_is_deterministic() {
    let first = sign_hash(&digest(), &cow()).unwrap();
    let second = sign_hash(&digest(), &cow()).unwrap();
    assert_eq!(first.r, second.r);
    assert_eq!(first.s, second.s);
    assert_eq!(first.v, second.v);
    assert_eq!(first, second);
}

#[test]
fn sign_hash_depends_on_the_hash_and_on_the_key() {
    let base = sign_hash(&digest(), &cow()).unwrap();
    let mut other = digest();
    other[0] ^= 1;
    assert_ne!(sign_hash(&other, &cow()).unwrap(), base);
    let key = KeyInput::Hex("4c0883a69102937d6231471b5dbb6204fe5129617082792ae468d01a3f362318".to_string());
    assert_ne!(sign_hash(&digest(), &key).unwrap(), base);
}

#[test]
fn sign_hash_signature_recovers_to_the_signer() {
    let hashes: [[u8; 32]; 4] = [[0u8; 32], [0xff; 32], digest(), [0x5a; 32]];
    let key = PrivateKey::from_hex(COW).ok().unwrap();
    for hash in hashes {
        let signature = sign_hash(&hash, &cow()).unwrap();
        let recoverable = Recoverable {
            r: U256::from_big_endian(&signature.r),
            s: U256::from_big_endian(&signature.s),
            v: signature.v as u64,
        };
        let recovered = recoverable.recover(H256(hash)).unwrap();
        assert_eq!(recovered, H160(key.address()));
        assert_eq!(hex::encode(recovered.0), "cd2a3d9f938e13cd947ec05abc7fe734df8dd826");
        assert!(recoverable.verify(H256(hash), H160(key.address())).is_ok());
    }
}

#[test]
fn sign_hash_refuses_a_hash_of_31_bytes() {
    let error = SignError::InvalidArgument(Argument::Hash);
    assert_eq!(sign_hash(&[1u8; 31], &cow()), Err(error));
}

#[test]
fn sign_hash_refuses_a_hash_of_33_bytes() {
    let error = SignError::InvalidArgument(Argument::Hash);
    assert_eq!(sign_hash(&[1u8; 33], &cow()), Err(error));
}

#[test]
fn sign_hash_refuses_other_lengths() {
    let error = SignError::InvalidArgument(Argument::Hash);
    assert_eq!(sign_hash(&[], &cow()), Err(error));
    assert_eq!(sign_hash(&[0u8; 64], &cow()), Err(error));
    assert_eq!(sign_hash(&[0u8; 1], &cow()), Err(error));
}

#[test]
fn sign_hash_checks_the_hash_before_the_key() {
    let bad = KeyInput::Hex("zz".to_string());
    assert_eq!(sign_hash(&[1u8; 31], &bad), Err(SignError::InvalidArgument(Argument::Hash)));
    assert_eq!(sign_hash(&[1u8; 32], &bad), Err(SignError::InvalidKey));
}

#[test]
fn sign_hash_refuses_a_bad_key() {
    for key in ["", "0x", "12", "0x12345", "hello"] {
        let key = KeyInput::Hex(key.to_string());
        assert_eq!(sign_hash(&digest(), &key), Err(SignError::InvalidKey));
    }
    assert_eq!(sign_hash(&digest(), &KeyInput::Bytes(vec![1u8; 31])), Err(SignError::InvalidKey));
}

#[test]
fn sign_hash_takes_the_key_in_either_form() {
    let raw = KeyInput::Bytes(hex::decode(COW).unwrap());
    let prefixed = KeyInput::Hex(format!("0x{}", COW));
    let expected = sign_hash(&digest(), &cow()).unwrap();
    assert_eq!(sign_hash(&digest(), &raw).unwrap(), expected);
    assert_eq!(sign_hash(&digest(), &prefixed).unwrap(), expected);
}

#[test]
fn signature_is_its_parts_in_a_row() {
    let signature = sign_hash(&[0x33; 32], &cow()).unwrap();
    assert_eq!(signature.signature.len(), 65);
    assert_eq!(&signature.signature[..32], &signature.r[..]);
    assert_eq!(&signature.signature[32..64], &signature.s[..]);
    assert_eq!(signature.signature[64], signature.v);
    assert!(signature.v == 27 || signature.v == 28);
}

#[test]
fn signature_from_parts_puts_them_in_a_row() {
    let mut r = [0u8; 32];
    let mut s = [0u8; 32];
    for i in 0..32 {
        r[i] = i as u8;
        s[i] = 0x80 + i as u8;
    }
    let signature = Signature::from_parts(r, s, 27);
    assert_eq!(signature.r, r);
    assert_eq!(signature.s, s);
    assert_eq!(signature.v, 27);
    let mut expected = r.to_vec();
    expected.extend_from_slice(&s);
    expected.push(27);
    assert_eq!(signature.signature.to_vec(), expected);
}

#[test]
fn sign_digest_agrees_with_sign_hash() {
    let key = PrivateKey::from_hex(COW).ok().unwrap();
    assert_eq!(sign_digest(&key, &digest()), sign_hash(&digest(), &cow()));
}

#[test]
fn accept_signature_takes_the_signature_of_the_key() {
    let key = PrivateKey::from_hex(COW).ok().unwrap();
    let signed = sign_hash(&digest(), &cow()).unwrap();
    let accepted = accept_signature(&key, &digest(), Some((signed.r, signed.s, 28)));
    assert_eq!(accepted, Ok(signed));
}

#[test]
fn accept_signature_refuses_what_the_primitive_did_not_return() {
    let key = PrivateKey::from_hex(COW).ok().unwrap();
    assert_eq!(accept_signature(&key, &digest(), None), Err(SignError::SignFailure));
}

#[test]
fn accept_signature_refuses_a_signature_of_another_key() {
    let key = PrivateKey::from_hex(COW).ok().unwrap();
    let other = KeyInput::Hex("4c0883a69102937d6231471b5dbb6204fe5129617082792ae468d01a3f362318".to_string());
    let signed = sign_hash(&digest(), &other).unwrap();
    let parts = Some((signed.r, signed.s, signed.v as u64));
    assert_eq!(accept_signature(&key, &digest(), parts), Err(SignError::SignFailure));
}

#[test]
fn accept_signature_refuses_altered_parts() {
    let key = PrivateKey::from_hex(COW).ok().unwrap();
    let signed = sign_hash(&digest(), &cow()).unwrap();
    let mut s = signed.s;
    s[31] ^= 1;
    assert_eq!(accept_signature(&key, &digest(), Some((signed.r, s, 28))), Err(SignError::SignFailure));
    assert_eq!(
        accept_signature(&key, &digest(), Some((signed.r, signed.s, 27))),
        Err(SignError::SignFailure)
    );
    assert_eq!(
        accept_signature(&key, &digest(), Some(([0u8; 32], signed.s, 28))),
        Err(SignError::SignFailure)
    );
    let mut other = digest();
    other[5] ^= 0x10;
    assert_eq!(
        accept_signature(&key, &other, Some((signed.r, signed.s, 28))),
        Err(SignError::SignFailure)
    );
}

#[test]
fn accept_signature_refuses_a_v_beyond_a_byte() {
    let key = PrivateKey::from_hex(COW).ok().unwrap();
    let signed = sign_hash(&digest(), &cow()).unwrap();
    // 2 * 111 + 36 recovers like 28 and does not fit a byte.
    assert_eq!(
        accept_signature(&key, &digest(), Some((signed.r, signed.s, 258))),
        Err(SignError::SignFailure)
    );
    // 2 * 1 + 36 recovers like 28 and fits.
    let accepted = accept_signature(&key, &digest(), Some((signed.r, signed.s, 38))).unwrap();
    assert_eq!(accepted.v, 38);
    assert_eq!(accepted.signature[64], 38);
}
