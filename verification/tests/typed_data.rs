use ethers_core::types::transaction::eip712::{Eip712, TypedData as Document};
use ferrite::{
    begin_typed_data, finish_typed_data, sign_hash, sign_typed_data, Argument, KeyInput, SignError,
    TypedData,
};

const COW: &str = "c85ef7d79691fe79573b1a7064c19c1a9819ebdbd1faaab1a8ec92344438aaf4";

const MAIL: &str = r#"{
  "types": {
    "EIP712Domain": [
      {"name": "name", "type": "string"},
      {"name": "version", "type": "string"},
      {"name": "chainId", "type": "uint256"},
      {"name": "verifyingContract", "type": "address"}
    ],
    "Person": [
      {"name": "name", "type": "string"},
      {"name": "wallet", "type": "address"}
    ],
    "Mail": [
      {"name": "from", "type": "Person"},
      {"name": "to", "type": "Person"},
      {"name": "contents", "type": "string"}
    ]
  },
  "primaryType": "Mail",
  "domain": {
    "name": "Ether Mail",
    "version": "1",
    "chainId": 1,
    "verifyingContract": "0xCcCCccccCCCCcCCCCCCcCcCccCcCCCcCcccccccC"
  },
  "message": {
    "from": {"name": "Cow", "wallet": "0xCD2a3d9F938E13CD947Ec05AbC7FE734Df8DD826"},
    "to": {"name": "Bob", "wallet": "0xbBbBBBBbbBBBbbbBbbBbbbbBBbBbbbbBbBbbBBbB"},
    "contents": "Hello, Bob!"
  }
}"#;

/// Reads and hashes a payload as the binding does before it calls the library.
fn read(payload: &str) -> TypedData {
    match serde_json::from_str::<Document>(payload) {
        Err(_) => TypedData::Malformed,
        Ok(document) => match document.encode_eip712() {
            Ok(digest) => TypedData::Digest(digest),
            Err(_) => TypedData::Unresolved,
        },
    }
}

fn cow() -> KeyInput {
    KeyInput::Hex(COW.to_string())
}

#[test]
fn typed_data_reproduces_the_reference_signature() {
    let payload = read(MAIL);
    let digest = hex::decode("be609aee343fb3c4b28e1df9e632fca64fcfaede20f02e86244efddf30957bd2").unwrap();
    assert_eq!(payload, TypedData::Digest(digest.try_into().unwrap()));
    let signature = sign_typed_data(&payload, &cow()).unwrap();
    assert_eq!(
        hex::encode(signature.r),
        "4355c47d63924e8a72e509b65029052eb6c299d53a04e167c5775fd466751c9d"
    );
    assert_eq!(
        hex::encode(signature.s),
        "07299936d304c153f6443dfa05f40ff007d72911b6f72307f996231605b91562"
    );
    assert_eq!(signature.v, 28);
    assert_eq!(
        hex::encode(signature.signature),
        "4355c47d63924e8a72e509b65029052eb6c299d53a04e167c5775fd466751c9d\
         07299936d304c153f6443dfa05f40ff007d72911b6f72307f996231605b915621c"
    );
}

#[test]
fn typed_data_digest_is_signed_as_a_hash_is() {
    let digest = [0x42u8; 32];
    assert_eq!(sign_typed_data(&TypedData::Digest(digest), &cow()), sign_hash(&digest, &cow()));
}

#[test]
fn typed_data_that_is_no_json_is_an_invalid_argument() {
    let payload = read("{ not json");
    assert_eq!(payload, TypedData::Malformed);
    assert_eq!(
        sign_typed_data(&payload, &cow()),
        Err(SignError::InvalidArgument(Argument::TypedData))
    );
}

#[test]
fn typed_data_without_its_parts_is_an_invalid_argument() {
    let payload = read(r#"{"types": {}, "primaryType": "Mail"}"#);
    assert_eq!(payload, TypedData::Malformed);
    assert_eq!(
        sign_typed_data(&payload, &cow()),
        Err(SignError::InvalidArgument(Argument::TypedData))
    );
}

#[test]
fn typed_data_with_an_unknown_type_is_an_encoding_error() {
    let payload = read(
        r#"{"types": {"EIP712Domain": [{"name": "name", "type": "string"}],
                      "Mail": [{"name": "from", "type": "Person"}]},
            "primaryType": "Mail",
            "domain": {"name": "Ether Mail"},
            "message": {"from": {"name": "Cow"}}}"#,
    );
    assert_eq!(payload, TypedData::Unresolved);
    assert_eq!(sign_typed_data(&payload, &cow()), Err(SignError::EncodingError));
}

#[test]
fn typed_data_is_checked_before_the_key_and_the_key_before_the_encoding() {
    let bad = KeyInput::Hex("00".to_string());
    assert_eq!(
        sign_typed_data(&TypedData::Malformed, &bad),
        Err(SignError::InvalidArgument(Argument::TypedData))
    );
    assert_eq!(sign_typed_data(&TypedData::Unresolved, &bad), Err(SignError::InvalidKey));
    assert_eq!(sign_typed_data(&TypedData::Digest([1u8; 32]), &bad), Err(SignError::InvalidKey));
    assert_eq!(sign_typed_data(&TypedData::Unresolved, &cow()), Err(SignError::EncodingError));
}

#[test]
fn typed_data_signing_is_deterministic() {
    let payload = read(MAIL);
    assert_eq!(sign_typed_data(&payload, &cow()), sign_typed_data(&payload, &cow()));
}

#[test]
fn typed_data_steps_agree_with_the_whole() {
    let digest = [0x42u8; 32];
    let key = begin_typed_data(true, &cow()).ok().unwrap();
    assert_eq!(
        finish_typed_data(&key, Some(digest)),
        sign_typed_data(&TypedData::Digest(digest), &cow())
    );
    assert_eq!(finish_typed_data(&key, None), sign_typed_data(&TypedData::Unresolved, &cow()));
    assert_eq!(finish_typed_data(&key, None), Err(SignError::EncodingError));
}

#[test]
fn typed_data_first_step_checks_the_payload_and_then_the_key() {
    let bad = KeyInput::Hex("00".to_string());
    assert_eq!(
        begin_typed_data(false, &bad).err(),
        Some(SignError::InvalidArgument(Argument::TypedData))
    );
    assert_eq!(
        begin_typed_data(false, &cow()).err(),
        Some(SignError::InvalidArgument(Argument::TypedData))
    );
    assert_eq!(begin_typed_data(true, &bad).err(), Some(SignError::InvalidKey));
    let key = begin_typed_data(true, &cow()).ok().unwrap();
    assert_eq!(hex::encode(key.to_bytes()), COW);
}
