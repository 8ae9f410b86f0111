//! The three signing operations, and what holds of them.

use crate::error::{Argument, SignError};
use crate::key::{key_address, KeyInput, PrivateKey};
use crate::signature::{recovered_address, sign_digest, sign_digest_spec, Signature};
use crate::text::array_of_32;
use crate::transaction::{
    chain_id_of, fees_conflict, is_chain_v, prepare_transaction, prepared, sign_prepared,
    sign_prepared_spec, signing_hash, SignedTransaction, TransactionFields,
};
use vstd::prelude::*;

verus! {

/// What reading a typed-data payload and hashing it by EIP-712 came to.
#[derive(Debug, Clone, Copy, PartialEq, Eq)]
pub enum TypedData {
    /// The payload is no well-formed EIP-712 document.
    Malformed,
    /// The document is well-formed and cannot be canonicalized.
    Unresolved,
    /// The digest of the document.
    Digest([u8; 32]),
}

/// What [`sign_hash`] returns for a hash and a key.
pub open spec fn sign_hash_spec(
    hash: Seq<u8>,
    key: KeyInput,
    result: Result<Signature, SignError>,
) -> bool {
    if hash.len() != 32 {
        result == Err::<Signature, SignError>(SignError::InvalidArgument(Argument::Hash))
    } else {
        match key.scalar() {
            Some(scalar) => sign_digest_spec(scalar, hash, result),
            None => result == Err::<Signature, SignError>(SignError::InvalidKey),
        }
    }
}

/// What [`sign_typed_data`] returns for a payload and a key.
pub open spec fn sign_typed_data_spec(
    payload: TypedData,
    key: KeyInput,
    result: Result<Signature, SignError>,
) -> bool {
    match (payload, key.scalar()) {
        (TypedData::Malformed, _) => result == Err::<Signature, SignError>(
            SignError::InvalidArgument(Argument::TypedData),
        ),
        (_, None) => result == Err::<Signature, SignError>(SignError::InvalidKey),
        (TypedData::Unresolved, Some(_)) => result == Err::<Signature, SignError>(
            SignError::EncodingError,
        ),
        (TypedData::Digest(digest), Some(scalar)) => sign_digest_spec(scalar, digest@, result),
    }
}

/// What [`sign_transaction`] returns for the fields of a transaction and a key.
pub open spec fn sign_transaction_spec(
    fields: TransactionFields,
    key: KeyInput,
    result: Result<SignedTransaction, SignError>,
) -> bool {
    match key.scalar() {
        Some(scalar) => match prepared(fields) {
            Ok(request) => sign_prepared_spec(scalar, request, result),
            Err(fault) => result == Err::<SignedTransaction, SignError>(fault),
        },
        None => result == Err::<SignedTransaction, SignError>(SignError::InvalidKey),
    }
}

/// Signs a 32-byte hash.
///
/// A hash of another length is an invalid argument, whatever the key; then a key
/// that is none is an invalid key. The signature is the deterministic one of
/// the signing crate, handed out only where it recovers to the key's address.
pub fn sign_hash(hash: &[u8], key: &KeyInput) -> (result: Result<Signature, SignError>)
    ensures
        sign_hash_spec(hash@, *key, result),
{
    if hash.len() != 32 {
        return Err(SignError::InvalidArgument(Argument::Hash));
    }
    let key = PrivateKey::parse(key)?;
    let digest = array_of_32(hash);
    sign_digest(&key, &digest)
}

/// The first step of signing typed data, taken once the payload is read and
/// before it is hashed: a payload that could not be read is an invalid
/// argument, whatever the key; then a key that is none is an invalid key.
pub fn begin_typed_data(read: bool, key: &KeyInput) -> (result: Result<PrivateKey, SignError>)
    ensures
        match result {
            Ok(k) => read && key.scalar() == Some(k@),
            Err(e) => if read {
                key.scalar() is None && e == SignError::InvalidKey
            } else {
                e == SignError::InvalidArgument(Argument::TypedData)
            },
        },
{
    if !read {
        return Err(SignError::InvalidArgument(Argument::TypedData));
    }
    PrivateKey::parse(key)
}

/// The last step of signing typed data, taken once the document is hashed: a
/// document without a digest is an encoding error; a digest is signed as
/// [`sign_hash`] signs a hash.
pub fn finish_typed_data(key: &PrivateKey, digest: Option<[u8; 32]>) -> (result: Result<
    Signature,
    SignError,
>)
    ensures
        match digest {
            Some(d) => sign_digest_spec(key@, d@, result),
            None => result == Err::<Signature, SignError>(SignError::EncodingError),
        },
{
    match digest {
        Some(digest) => sign_digest(key, &digest),
        None => Err(SignError::EncodingError),
    }
}

/// Signs typed data, given what reading and hashing the payload came to: the
/// two steps, [`begin_typed_data`] and [`finish_typed_data`], in one.
///
/// A malformed payload is an invalid argument, whatever the key; then a key that
/// is none is an invalid key; then a document without a digest is an encoding
/// error. A digest is signed as [`sign_hash`] signs a hash.
pub fn sign_typed_data(payload: &TypedData, key: &KeyInput) -> (result: Result<
    Signature,
    SignError,
>)
    ensures
        sign_typed_data_spec(*payload, *key, result),
{
    let read = match payload {
        TypedData::Malformed => false,
        _ => true,
    };
    let key = begin_typed_data(read, key)?;
    let digest = match payload {
        TypedData::Digest(digest) => Some(*digest),
        _ => None,
    };
    finish_typed_data(&key, digest)
}

/// Signs a transaction.
///
/// A key that is none is an invalid key, whatever the fields; then fees that
/// contradict each other or the first field that cannot be read are an invalid
/// argument, and a chain id too large for a replay-protected signature an
/// encoding error. The fee cap or the priority fee makes the transaction a
/// fee-market one; the chain is mainnet where the fields name none.
pub fn sign_transaction(fields: &TransactionFields, key: &KeyInput) -> (result: Result<
    SignedTransaction,
    SignError,
>)
    ensures
        sign_transaction_spec(*fields, *key, result),
{
    let key = PrivateKey::parse(key)?;
    let request = prepare_transaction(fields)?;
    sign_prepared(&request, &key)
}

/// What a signed transaction is, as contracts speak of it.
pub struct SignedView {
    pub r: Seq<u8>,
    pub s: Seq<u8>,
    pub v: u64,
    pub raw_transaction: Seq<u8>,
    pub hash: Seq<u8>,
}

impl View for SignedTransaction {
    type V = SignedView;

    open spec fn view(&self) -> SignedView {
        SignedView {
            r: self.r@,
            s: self.s@,
            v: self.v,
            raw_transaction: self.raw_transaction@,
            hash: self.hash@,
        }
    }
}

/// The outcome of signing a transaction, as contracts speak of it.
pub open spec fn outcome_view(result: Result<SignedTransaction, SignError>) -> Result<
    SignedView,
    SignError,
> {
    match result {
        Ok(signed) => Ok(signed@),
        Err(fault) => Err(fault),
    }
}

/// Signing a hash is deterministic: for a hash and a key the contract of
/// [`sign_hash`] admits one result, so two calls return the same `r`, `s`, `v`
/// and 65-byte form, or the same error.
pub proof fn lemma_sign_hash_deterministic(
    hash: Seq<u8>,
    key: KeyInput,
    first: Result<Signature, SignError>,
    second: Result<Signature, SignError>,
)
    requires
        sign_hash_spec(hash, key, first),
        sign_hash_spec(hash, key, second),
    ensures
        first == second,
{
    if let (Ok(a), Ok(b)) = (first, second) {
        assert(a.r@ =~= b.r@);
        assert(a.s@ =~= b.s@);
        assert(a.signature@ =~= b.signature@);
        assert(a.r == b.r);
        assert(a.s == b.s);
        assert(a.signature == b.signature);
    }
}

/// A signature that [`sign_hash`] returns verifies against the hash and the key:
/// the address recovered from the hash and `(r, s, v)` is the address of the key.
pub proof fn lemma_signature_recovers_to_signer(
    hash: Seq<u8>,
    key: KeyInput,
    result: Result<Signature, SignError>,
)
    requires
        sign_hash_spec(hash, key, result),
        result is Ok,
    ensures
        key.scalar() is Some,
        key_address(key.scalar()->0) is Some,
        recovered_address(hash, result->Ok_0.r@, result->Ok_0.s@, result->Ok_0.v as u64)
            == key_address(key.scalar()->0),
{
}

/// A hash that is not 32 bytes long is refused as an invalid argument, whatever
/// the key, and nothing is signed.
pub proof fn lemma_hash_length_is_checked(
    hash: Seq<u8>,
    key: KeyInput,
    result: Result<Signature, SignError>,
)
    requires
        sign_hash_spec(hash, key, result),
        hash.len() != 32,
    ensures
        result == Err::<Signature, SignError>(SignError::InvalidArgument(Argument::Hash)),
{
}

/// The fee-market keys select the encoding. Fields with a fee cap or a priority
/// fee are prepared as a fee-market transaction that carries the priority fee,
/// fields with neither as a legacy transaction. A signed encoding begins with
/// the type byte 2 in the first case and with the head of an RLP list in the
/// second.
pub proof fn lemma_fee_keys_select_encoding(
    fields: TransactionFields,
    key: KeyInput,
    result: Result<SignedTransaction, SignError>,
)
    requires
        sign_transaction_spec(fields, key, result),
    ensures
        prepared(fields) matches Ok(request) ==> {
            &&& request.fee_market == (fields.max_fee_per_gas is Some
                || fields.max_priority_fee_per_gas is Some)
            &&& request.max_priority_fee_per_gas is Some == fields.max_priority_fee_per_gas is Some
            &&& request.max_fee_per_gas is Some == fields.max_fee_per_gas is Some
        },
        result matches Ok(signed) ==> signed.raw_transaction@.len() > 0 && if fields.max_fee_per_gas
            is Some || fields.max_priority_fee_per_gas is Some {
            signed.raw_transaction@[0] == 2
        } else {
            signed.raw_transaction@[0] >= 0xc0
        },
{
}

/// A gas price beside a priority fee without a fee cap is refused as an invalid
/// argument, whatever the other fields hold: nothing is signed as a legacy
/// transaction that would drop the priority fee.
pub proof fn lemma_conflicting_fees_are_refused(
    fields: TransactionFields,
    key: KeyInput,
    result: Result<SignedTransaction, SignError>,
)
    requires
        sign_transaction_spec(fields, key, result),
        key.scalar() is Some,
        fees_conflict(fields),
    ensures
        result == Err::<SignedTransaction, SignError>(SignError::InvalidArgument(Argument::Fees)),
{
}

/// A signed transaction that [`sign_transaction`] returns verifies against the
/// request and the key: its `v` is `2 * chain_id + 35` plus a recovery id, the
/// chain id that of the fields or mainnet, and the address recovered from the
/// signing hash of the request and `(r, s, v)` is the address of the key.
pub proof fn lemma_transaction_recovers_to_signer(
    fields: TransactionFields,
    key: KeyInput,
    result: Result<SignedTransaction, SignError>,
)
    requires
        sign_transaction_spec(fields, key, result),
        result is Ok,
    ensures
        key.scalar() is Some,
        prepared(fields) is Ok,
        key_address(key.scalar()->0) is Some,
        is_chain_v(chain_id_of(fields), result->Ok_0.v),
        recovered_address(
            signing_hash(prepared(fields)->Ok_0),
            result->Ok_0.r@,
            result->Ok_0.s@,
            result->Ok_0.v,
        ) == key_address(key.scalar()->0),
{
}

/// Signing a transaction is deterministic: for the fields and a key the contract
/// of [`sign_transaction`] admits one outcome, so two calls return the same
/// signature, the same bytes of the signed encoding and the same hash, or the
/// same error.
pub proof fn lemma_sign_transaction_deterministic(
    fields: TransactionFields,
    key: KeyInput,
    first: Result<SignedTransaction, SignError>,
    second: Result<SignedTransaction, SignError>,
)
    requires
        sign_transaction_spec(fields, key, first),
        sign_transaction_spec(fields, key, second),
    ensures
        outcome_view(first) == outcome_view(second),
{
    if let (Ok(a), Ok(b)) = (first, second) {
        assert(a@.r =~= b@.r);
        assert(a@.s =~= b@.s);
        assert(a@.raw_transaction =~= b@.raw_transaction);
        assert(a@.hash =~= b@.hash);
    }
}

} // verus!
