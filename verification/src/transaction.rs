//! Transaction requests: reading their fields, signing and encoding them.

use crate::error::{Argument, SignError};
use crate::key::{key_address, PrivateKey};
use crate::signature::{parts_view, recover_address, recovered_address, same_address};
use crate::text::{
    address_of_text, amount_of_text, data_of_text, parse_address, parse_amount, parse_data,
};
use ethers_core::types::transaction::eip2718::TypedTransaction;
use ethers_core::types::{
    Eip1559TransactionRequest, Signature as WalletSignature, TransactionRequest, H160,
};
use ethers_signers::LocalWallet;
use vstd::prelude::*;

verus! {

/// The chain that a request is for where it names none: mainnet.
pub const DEFAULT_CHAIN_ID: u64 = 1;

/// The largest chain id for which the replay-protected `v` of a signature,
/// `2 * chain_id + 35` plus a recovery id of at most 3, fits 64 bits.
pub const MAX_CHAIN_ID: u64 = 9_223_372_036_854_775_788;

/// The fields of a transaction as a caller supplies them. Amounts are decimal
/// text, the recipient and the call data hexadecimal text; a field that is
/// absent stays out of the encoding, but for the chain id.
#[derive(Debug, Clone, PartialEq, Eq)]
pub struct TransactionFields {
    /// The recipient; absent where the transaction creates a contract.
    pub to: Option<String>,
    /// The amount transferred.
    pub value: Option<String>,
    /// The sender's transaction count.
    pub nonce: Option<u64>,
    /// The gas limit.
    pub gas: Option<u64>,
    /// The price per unit of gas of a legacy transaction.
    pub gas_price: Option<String>,
    /// The fee cap per unit of gas. Its presence makes the transaction a fee-market one.
    pub max_fee_per_gas: Option<String>,
    /// The priority fee per unit of gas. Its presence makes the transaction a
    /// fee-market one too.
    pub max_priority_fee_per_gas: Option<String>,
    /// The call data.
    pub data: Option<String>,
    /// The chain; mainnet where absent.
    pub chain_id: Option<u64>,
}

/// A legacy transaction, its fields read.
#[derive(Debug, Clone, PartialEq, Eq)]
pub struct LegacyRequest {
    /// The recipient, 20 bytes.
    pub to: Option<[u8; 20]>,
    /// The amount transferred, most significant byte first.
    pub value: Option<[u8; 32]>,
    /// The sender's transaction count.
    pub nonce: Option<u64>,
    /// The gas limit.
    pub gas: Option<u64>,
    /// The price per unit of gas, most significant byte first.
    pub gas_price: Option<[u8; 32]>,
    /// The call data.
    pub data: Option<Vec<u8>>,
    /// The chain.
    pub chain_id: u64,
}

/// A fee-market (EIP-1559) transaction, its fields read.
#[derive(Debug, Clone, PartialEq, Eq)]
pub struct FeeMarketRequest {
    /// The recipient, 20 bytes.
    pub to: Option<[u8; 20]>,
    /// The amount transferred, most significant byte first.
    pub value: Option<[u8; 32]>,
    /// The sender's transaction count.
    pub nonce: Option<u64>,
    /// The gas limit.
    pub gas: Option<u64>,
    /// The fee cap per unit of gas, most significant byte first.
    pub max_fee_per_gas: Option<[u8; 32]>,
    /// The priority fee per unit of gas, most significant byte first.
    pub max_priority_fee_per_gas: Option<[u8; 32]>,
    /// The call data.
    pub data: Option<Vec<u8>>,
    /// The chain.
    pub chain_id: u64,
}

/// A transaction whose fields are read, of the one kind or the other.
#[derive(Debug, Clone, PartialEq, Eq)]
pub enum PreparedTransaction {
    /// RLP-encoded, replay protection by EIP-155.
    Legacy(LegacyRequest),
    /// In the typed envelope of EIP-1559.
    FeeMarket(FeeMarketRequest),
}

/// A transaction request as contracts speak of it.
pub struct RequestView {
    /// Whether the request is a fee-market one.
    pub fee_market: bool,
    pub to: Option<Seq<u8>>,
    pub value: Option<Seq<u8>>,
    pub nonce: Option<u64>,
    pub gas: Option<u64>,
    pub gas_price: Option<Seq<u8>>,
    pub max_fee_per_gas: Option<Seq<u8>>,
    pub max_priority_fee_per_gas: Option<Seq<u8>>,
    pub data: Option<Seq<u8>>,
    pub chain_id: u64,
}

/// The bytes of an optional address.
pub open spec fn address_view(address: Option<[u8; 20]>) -> Option<Seq<u8>> {
    match address {
        Some(a) => Some(a@),
        None => None,
    }
}

/// The bytes of an optional amount.
pub open spec fn amount_view(amount: Option<[u8; 32]>) -> Option<Seq<u8>> {
    match amount {
        Some(a) => Some(a@),
        None => None,
    }
}

/// The bytes of optional call data.
pub open spec fn data_view(data: Option<Vec<u8>>) -> Option<Seq<u8>> {
    match data {
        Some(d) => Some(d@),
        None => None,
    }
}

impl View for LegacyRequest {
    type V = RequestView;

    open spec fn view(&self) -> RequestView {
        RequestView {
            fee_market: false,
            to: address_view(self.to),
            value: amount_view(self.value),
            nonce: self.nonce,
            gas: self.gas,
            gas_price: amount_view(self.gas_price),
            max_fee_per_gas: None,
            max_priority_fee_per_gas: None,
            data: data_view(self.data),
            chain_id: self.chain_id,
        }
    }
}

impl View for FeeMarketRequest {
    type V = RequestView;

    open spec fn view(&self) -> RequestView {
        RequestView {
            fee_market: true,
            to: address_view(self.to),
            value: amount_view(self.value),
            nonce: self.nonce,
            gas: self.gas,
            gas_price: None,
            max_fee_per_gas: amount_view(self.max_fee_per_gas),
            max_priority_fee_per_gas: amount_view(self.max_priority_fee_per_gas),
            data: data_view(self.data),
            chain_id: self.chain_id,
        }
    }
}

impl View for PreparedTransaction {
    type V = RequestView;

    open spec fn view(&self) -> RequestView {
        match self {
            PreparedTransaction::Legacy(request) => request@,
            PreparedTransaction::FeeMarket(request) => request@,
        }
    }
}

impl PreparedTransaction {
    /// The chain that the transaction is for.
    pub fn chain_id(&self) -> (chain_id: u64)
        ensures
            chain_id == self@.chain_id,
    {
        match self {
            PreparedTransaction::Legacy(request) => request.chain_id,
            PreparedTransaction::FeeMarket(request) => request.chain_id,
        }
    }
}

/// Whether a field is there and cannot be read.
pub open spec fn malformed(
    field: Option<String>,
    read: spec_fn(Seq<char>) -> Option<Seq<u8>>,
) -> bool {
    field matches Some(text) && read(text@) is None
}

/// What a field reads as; nothing where it is absent.
pub open spec fn field_value(
    field: Option<String>,
    read: spec_fn(Seq<char>) -> Option<Seq<u8>>,
) -> Option<Seq<u8>> {
    match field {
        Some(text) => read(text@),
        None => None,
    }
}

/// The chain that the fields are for.
pub open spec fn chain_id_of(fields: TransactionFields) -> u64 {
    match fields.chain_id {
        Some(chain_id) => chain_id,
        None => DEFAULT_CHAIN_ID,
    }
}

/// Whether the fields make a fee-market transaction: they do where the fee cap
/// or the priority fee is there.
pub open spec fn is_fee_market(fields: TransactionFields) -> bool {
    fields.max_fee_per_gas is Some || fields.max_priority_fee_per_gas is Some
}

/// Whether the fees contradict each other: a gas price beside a priority fee
/// that has no fee cap. Beside a fee cap a gas price is passed over.
pub open spec fn fees_conflict(fields: TransactionFields) -> bool {
    &&& fields.gas_price is Some
    &&& fields.max_priority_fee_per_gas is Some
    &&& fields.max_fee_per_gas is None
}

/// The first thing that is wrong with the fields, in the order in which they are
/// read; `None` where nothing is. A gas price is not read for a fee-market
/// transaction.
pub open spec fn first_fault(fields: TransactionFields) -> Option<SignError> {
    if fees_conflict(fields) {
        Some(SignError::InvalidArgument(Argument::Fees))
    } else if malformed(fields.to, |t| address_of_text(t)) {
        Some(SignError::InvalidArgument(Argument::To))
    } else if malformed(fields.value, |t| amount_of_text(t)) {
        Some(SignError::InvalidArgument(Argument::Value))
    } else if !is_fee_market(fields) && malformed(fields.gas_price, |t| amount_of_text(t)) {
        Some(SignError::InvalidArgument(Argument::GasPrice))
    } else if malformed(fields.data, |t| data_of_text(t)) {
        Some(SignError::InvalidArgument(Argument::Data))
    } else if chain_id_of(fields) > MAX_CHAIN_ID {
        Some(SignError::EncodingError)
    } else if malformed(fields.max_fee_per_gas, |t| amount_of_text(t)) {
        Some(SignError::InvalidArgument(Argument::MaxFeePerGas))
    } else if malformed(fields.max_priority_fee_per_gas, |t| amount_of_text(t)) {
        Some(SignError::InvalidArgument(Argument::MaxPriorityFeePerGas))
    } else {
        None
    }
}

/// The request that the fields make, once each is read.
pub open spec fn request_of(fields: TransactionFields) -> RequestView {
    RequestView {
        fee_market: is_fee_market(fields),
        to: field_value(fields.to, |t| address_of_text(t)),
        value: field_value(fields.value, |t| amount_of_text(t)),
        nonce: fields.nonce,
        gas: fields.gas,
        gas_price: if is_fee_market(fields) {
            None
        } else {
            field_value(fields.gas_price, |t| amount_of_text(t))
        },
        max_fee_per_gas: field_value(fields.max_fee_per_gas, |t| amount_of_text(t)),
        max_priority_fee_per_gas: field_value(
            fields.max_priority_fee_per_gas,
            |t| amount_of_text(t),
        ),
        data: field_value(fields.data, |t| data_of_text(t)),
        chain_id: chain_id_of(fields),
    }
}

/// What [`prepare_transaction`] makes of the fields.
pub open spec fn prepared(fields: TransactionFields) -> Result<RequestView, SignError> {
    match first_fault(fields) {
        Some(fault) => Err(fault),
        None => Ok(request_of(fields)),
    }
}

/// Reads a field that holds an address.
fn read_address(field: &Option<String>) -> (address: Result<Option<[u8; 20]>, SignError>)
    ensures
        match address {
            Ok(a) => !malformed(*field, |t| address_of_text(t)) && address_view(a) == field_value(
                *field,
                |t| address_of_text(t),
            ),
            Err(e) => malformed(*field, |t| address_of_text(t)) && e == SignError::InvalidArgument(
                Argument::To,
            ),
        },
{
    match field {
        Some(text) => match parse_address(text.as_str()) {
            Some(address) => Ok(Some(address)),
            None => Err(SignError::InvalidArgument(Argument::To)),
        },
        None => Ok(None),
    }
}

/// Reads a field that holds an amount; `which` names the field in the error.
/// The empty text is refused here: the amount parser would take it as zero.
fn read_amount(field: &Option<String>, which: Argument) -> (amount: Result<
    Option<[u8; 32]>,
    SignError,
>)
    ensures
        match amount {
            Ok(a) => !malformed(*field, |t| amount_of_text(t)) && amount_view(a) == field_value(
                *field,
                |t| amount_of_text(t),
            ),
            Err(e) => malformed(*field, |t| amount_of_text(t)) && e == SignError::InvalidArgument(
                which,
            ),
        },
{
    match field {
        Some(text) => {
            if text.as_str().is_empty() {
                return Err(SignError::InvalidArgument(which));
            }
            match parse_amount(text.as_str()) {
                Some(amount) => Ok(Some(amount)),
                None => Err(SignError::InvalidArgument(which)),
            }
        },
        None => Ok(None),
    }
}

/// Reads the field that holds the call data.
fn read_data(field: &Option<String>) -> (data: Result<Option<Vec<u8>>, SignError>)
    ensures
        match data {
            Ok(d) => !malformed(*field, |t| data_of_text(t)) && data_view(d) == field_value(
                *field,
                |t| data_of_text(t),
            ),
            Err(e) => malformed(*field, |t| data_of_text(t)) && e == SignError::InvalidArgument(
                Argument::Data,
            ),
        },
{
    match field {
        Some(text) => match parse_data(text.as_str()) {
            Some(data) => Ok(Some(data)),
            None => Err(SignError::InvalidArgument(Argument::Data)),
        },
        None => Ok(None),
    }
}

/// Reads the fields of a transaction and decides its kind: a fee-market
/// transaction where the fee cap or the priority fee is there, a legacy one
/// where neither is. A gas price beside a priority fee without a fee cap is
/// refused, since the fields then ask for both kinds.
pub fn prepare_transaction(fields: &TransactionFields) -> (request: Result<
    PreparedTransaction,
    SignError,
>)
    ensures
        match request {
            Ok(r) => prepared(*fields) == Ok::<RequestView, SignError>(r@),
            Err(e) => prepared(*fields) == Err::<RequestView, SignError>(e),
        },
{
    let capped = fields.max_fee_per_gas.is_some();
    let tipped = fields.max_priority_fee_per_gas.is_some();
    if fields.gas_price.is_some() && tipped && !capped {
        return Err(SignError::InvalidArgument(Argument::Fees));
    }
    let to = read_address(&fields.to)?;
    let value = read_amount(&fields.value, Argument::Value)?;
    let chain_id = match fields.chain_id {
        Some(chain_id) => chain_id,
        None => DEFAULT_CHAIN_ID,
    };
    if capped || tipped {
        let data = read_data(&fields.data)?;
        if chain_id > MAX_CHAIN_ID {
            return Err(SignError::EncodingError);
        }
        let max_fee_per_gas = read_amount(&fields.max_fee_per_gas, Argument::MaxFeePerGas)?;
        let max_priority_fee_per_gas = read_amount(
            &fields.max_priority_fee_per_gas,
            Argument::MaxPriorityFeePerGas,
        )?;
        Ok(
            PreparedTransaction::FeeMarket(
                FeeMarketRequest {
                    to,
                    value,
                    nonce: fields.nonce,
                    gas: fields.gas,
                    max_fee_per_gas,
                    max_priority_fee_per_gas,
                    data,
                    chain_id,
                },
            ),
        )
    } else {
        let gas_price = read_amount(&fields.gas_price, Argument::GasPrice)?;
        let data = read_data(&fields.data)?;
        if chain_id > MAX_CHAIN_ID {
            return Err(SignError::EncodingError);
        }
        Ok(
            PreparedTransaction::Legacy(
                LegacyRequest {
                    to,
                    value,
                    nonce: fields.nonce,
                    gas: fields.gas,
                    gas_price,
                    data,
                    chain_id,
                },
            ),
        )
    }
}

/// A signed transaction: the signature, the encoding that carries it, and the
/// hash by which the network knows the transaction.
#[derive(Debug, Clone, PartialEq, Eq)]
pub struct SignedTransaction {
    /// `r`, most significant byte first.
    pub r: [u8; 32],
    /// `s`, most significant byte first.
    pub s: [u8; 32],
    /// The recovery value: for a legacy transaction it carries the chain id.
    pub v: u64,
    /// The signed transaction, encoded.
    pub raw_transaction: Vec<u8>,
    /// The Keccak-256 hash of `raw_transaction`.
    pub hash: [u8; 32],
}

/// The signature that the signing crate computes over a transaction request
/// with a key; `None` where it computes none.
pub uninterp spec fn transaction_signature(scalar: Seq<u8>, request: RequestView) -> Option<
    (Seq<u8>, Seq<u8>, u64),
>;

/// The hash of a transaction request that a signature is made over: the signing
/// crate hashes the encoding of the unsigned request.
pub uninterp spec fn signing_hash(request: RequestView) -> Seq<u8>;

/// The encoding that the signing crate gives a transaction request with a
/// signature: RLP for a legacy request, the typed envelope for a fee-market one.
pub uninterp spec fn signed_encoding(request: RequestView, r: Seq<u8>, s: Seq<u8>, v: u64) -> Seq<
    u8,
>;

/// The Keccak-256 hash of a byte string.
pub uninterp spec fn keccak256(bytes: Seq<u8>) -> Seq<u8>;

/// Whether `v` is a replay-protected recovery value for the chain: `2 * chain_id
/// + 35` plus a recovery id of at most 3.
pub open spec fn is_chain_v(chain_id: u64, v: u64) -> bool {
    2 * chain_id + 35 <= v <= 2 * chain_id + 38
}

/// `Wallet::sign_transaction_sync` of the wallet that `LocalWallet::from_bytes`
/// makes of the key, on the legacy transaction with the request's fields. The
/// source signs the hash of the request's encoding and sets `v` to `2 * chain_id
/// + 35` plus the recovery id, computed in 64 bits.
#[verifier::external_body]
fn wallet_sign_legacy(scalar: &[u8; 32], request: &LegacyRequest) -> (parts: Option<
    ([u8; 32], [u8; 32], u64),
>)
    requires
        request.chain_id <= MAX_CHAIN_ID,
    ensures
        parts_view(parts) == transaction_signature(scalar@, request@),
{
    let transaction = TransactionRequest {
        from: None,
        to: request.to.map(|to| H160(to).into()),
        gas: request.gas.map(Into::into),
        gas_price: request.gas_price.map(Into::into),
        value: request.value.map(Into::into),
        data: request.data.clone().map(Into::into),
        nonce: request.nonce.map(Into::into),
        chain_id: Some(request.chain_id.into()),
    };
    let wallet = LocalWallet::from_bytes(scalar).ok()?;
    let signed = wallet.sign_transaction_sync(&transaction.into()).ok()?;
    Some((signed.r.into(), signed.s.into(), signed.v))
}

/// `Wallet::sign_transaction_sync` as above, on the EIP-1559 transaction with
/// the request's fields and an empty access list.
#[verifier::external_body]
fn wallet_sign_fee_market(scalar: &[u8; 32], request: &FeeMarketRequest) -> (parts: Option<
    ([u8; 32], [u8; 32], u64),
>)
    requires
        request.chain_id <= MAX_CHAIN_ID,
    ensures
        parts_view(parts) == transaction_signature(scalar@, request@),
{
    let transaction = Eip1559TransactionRequest {
        to: request.to.map(|to| H160(to).into()),
        gas: request.gas.map(Into::into),
        value: request.value.map(Into::into),
        data: request.data.clone().map(Into::into),
        nonce: request.nonce.map(Into::into),
        max_priority_fee_per_gas: request.max_priority_fee_per_gas.map(Into::into),
        max_fee_per_gas: request.max_fee_per_gas.map(Into::into),
        chain_id: Some(request.chain_id.into()),
        ..Default::default()
    };
    let wallet = LocalWallet::from_bytes(scalar).ok()?;
    let signed = wallet.sign_transaction_sync(&transaction.into()).ok()?;
    Some((signed.r.into(), signed.s.into(), signed.v))
}

/// `TypedTransaction::sighash` on the legacy transaction with the request's
/// fields: the hash of its encoding with the chain id, as EIP-155 has it.
#[verifier::external_body]
fn signing_hash_legacy(request: &LegacyRequest) -> (digest: [u8; 32])
    ensures
        digest@ == signing_hash(request@),
{
    let transaction = TransactionRequest {
        from: None,
        to: request.to.map(|to| H160(to).into()),
        gas: request.gas.map(Into::into),
        gas_price: request.gas_price.map(Into::into),
        value: request.value.map(Into::into),
        data: request.data.clone().map(Into::into),
        nonce: request.nonce.map(Into::into),
        chain_id: Some(request.chain_id.into()),
    };
    TypedTransaction::Legacy(transaction).sighash().0
}

/// `TypedTransaction::sighash` on the EIP-1559 transaction with the request's
/// fields and an empty access list.
#[verifier::external_body]
fn signing_hash_fee_market(request: &FeeMarketRequest) -> (digest: [u8; 32])
    ensures
        digest@ == signing_hash(request@),
{
    let transaction = Eip1559TransactionRequest {
        to: request.to.map(|to| H160(to).into()),
        gas: request.gas.map(Into::into),
        value: request.value.map(Into::into),
        data: request.data.clone().map(Into::into),
        nonce: request.nonce.map(Into::into),
        max_priority_fee_per_gas: request.max_priority_fee_per_gas.map(Into::into),
        max_fee_per_gas: request.max_fee_per_gas.map(Into::into),
        chain_id: Some(request.chain_id.into()),
        ..Default::default()
    };
    TypedTransaction::Eip1559(transaction).sighash().0
}

/// `TypedTransaction::rlp_signed` on the legacy transaction with the request's
/// fields. The encoding is an RLP list, so its first byte is at least `0xc0`.
#[verifier::external_body]
fn encode_signed_legacy(request: &LegacyRequest, r: &[u8; 32], s: &[u8; 32], v: u64) -> (raw: Vec<
    u8,
>)
    ensures
        raw@ == signed_encoding(request@, r@, s@, v),
        raw@.len() > 0 && raw@[0] >= 0xc0,
{
    let transaction = TransactionRequest {
        from: None,
        to: request.to.map(|to| H160(to).into()),
        gas: request.gas.map(Into::into),
        gas_price: request.gas_price.map(Into::into),
        value: request.value.map(Into::into),
        data: request.data.clone().map(Into::into),
        nonce: request.nonce.map(Into::into),
        chain_id: Some(request.chain_id.into()),
    };
    let signed = WalletSignature { r: (*r).into(), s: (*s).into(), v };
    TypedTransaction::Legacy(transaction).rlp_signed(&signed).to_vec()
}

/// `TypedTransaction::rlp_signed` on the EIP-1559 transaction with the request's
/// fields and an empty access list. The source puts the type byte 2 first, and
/// takes `2 * chain_id + 35` off a `v` above 1, in 64 bits.
#[verifier::external_body]
fn encode_signed_fee_market(
    request: &FeeMarketRequest,
    r: &[u8; 32],
    s: &[u8; 32],
    v: u64,
) -> (raw: Vec<u8>)
    requires
        request.chain_id <= MAX_CHAIN_ID,
        v <= 1 || v >= 2 * request.chain_id + 35,
    ensures
        raw@ == signed_encoding(request@, r@, s@, v),
        raw@.len() > 0 && raw@[0] == 2,
{
    let transaction = Eip1559TransactionRequest {
        to: request.to.map(|to| H160(to).into()),
        gas: request.gas.map(Into::into),
        value: request.value.map(Into::into),
        data: request.data.clone().map(Into::into),
        nonce: request.nonce.map(Into::into),
        max_priority_fee_per_gas: request.max_priority_fee_per_gas.map(Into::into),
        max_fee_per_gas: request.max_fee_per_gas.map(Into::into),
        chain_id: Some(request.chain_id.into()),
        ..Default::default()
    };
    let signed = WalletSignature { r: (*r).into(), s: (*s).into(), v };
    TypedTransaction::Eip1559(transaction).rlp_signed(&signed).to_vec()
}

/// `ethers_core::utils::keccak256` on a byte string.
#[verifier::external_body]
fn keccak(bytes: &[u8]) -> (digest: [u8; 32])
    ensures
        digest@ == keccak256(bytes@),
{
    ethers_core::utils::keccak256(bytes)
}

/// Whether `(r, s, v)` is a signature that the library hands out for a request
/// and a key: `v` is one for the request's chain, and the signature recovers,
/// over the signing hash of the request, to the key's address.
pub open spec fn signs_request(
    scalar: Seq<u8>,
    request: RequestView,
    r: Seq<u8>,
    s: Seq<u8>,
    v: u64,
) -> bool {
    &&& is_chain_v(request.chain_id, v)
    &&& key_address(scalar) is Some
    &&& recovered_address(signing_hash(request), r, s, v) == key_address(scalar)
}

/// What the first byte of a signed encoding says of the kind: the type byte 2
/// for a fee-market request, the head of an RLP list for a legacy one.
pub open spec fn encoding_is_of_kind(raw: Seq<u8>, fee_market: bool) -> bool {
    &&& raw.len() > 0
    &&& if fee_market {
        raw[0] == 2
    } else {
        raw[0] >= 0xc0
    }
}

/// What is made of the parts that the signing primitive returned for a request:
/// an encoding error where the chain id leaves no room for a replay-protected
/// `v`; else the signed transaction where there are parts that sign the request
/// for the key; else a signing failure.
pub open spec fn sealed(
    scalar: Seq<u8>,
    request: RequestView,
    parts: Option<(Seq<u8>, Seq<u8>, u64)>,
    result: Result<SignedTransaction, SignError>,
) -> bool {
    if request.chain_id > MAX_CHAIN_ID {
        result == Err::<SignedTransaction, SignError>(SignError::EncodingError)
    } else {
        match parts {
            Some((r, s, v)) => if signs_request(scalar, request, r, s, v) {
                &&& result matches Ok(signed)
                &&& signed.r@ == r
                &&& signed.s@ == s
                &&& signed.v == v
                &&& signed.raw_transaction@ == signed_encoding(request, r, s, v)
                &&& signed.hash@ == keccak256(signed.raw_transaction@)
                &&& encoding_is_of_kind(signed.raw_transaction@, request.fee_market)
            } else {
                result == Err::<SignedTransaction, SignError>(SignError::SignFailure)
            },
            None => result == Err::<SignedTransaction, SignError>(SignError::SignFailure),
        }
    }
}

/// What [`sign_prepared`] returns for a key and a request.
pub open spec fn sign_prepared_spec(
    scalar: Seq<u8>,
    request: RequestView,
    result: Result<SignedTransaction, SignError>,
) -> bool {
    sealed(scalar, request, transaction_signature(scalar, request), result)
}

/// Decides what becomes of the parts that the signing primitive returned for a
/// request: where they sign the request for the key, the request is encoded with
/// them and the encoding hashed.
pub fn seal_transaction(
    request: &PreparedTransaction,
    key: &PrivateKey,
    parts: Option<([u8; 32], [u8; 32], u64)>,
) -> (result: Result<SignedTransaction, SignError>)
    ensures
        sealed(key@, request@, parts_view(parts), result),
{
    let chain_id = request.chain_id();
    if chain_id > MAX_CHAIN_ID {
        return Err(SignError::EncodingError);
    }
    match parts {
        Some((r, s, v)) => {
            let least = 2 * chain_id + 35;
            if v < least || v - least > 3 {
                return Err(SignError::SignFailure);
            }
            let digest = match request {
                PreparedTransaction::Legacy(legacy) => signing_hash_legacy(legacy),
                PreparedTransaction::FeeMarket(fee_market) => signing_hash_fee_market(fee_market),
            };
            let signer = key.address();
            match recover_address(&digest, &r, &s, v) {
                Some(recovered) => {
                    if !same_address(&recovered, &signer) {
                        return Err(SignError::SignFailure);
                    }
                },
                None => {
                    return Err(SignError::SignFailure);
                },
            }
            let raw_transaction = match request {
                PreparedTransaction::Legacy(legacy) => encode_signed_legacy(legacy, &r, &s, v),
                PreparedTransaction::FeeMarket(fee_market) => encode_signed_fee_market(
                    fee_market,
                    &r,
                    &s,
                    v,
                ),
            };
            let hash = keccak(raw_transaction.as_slice());
            Ok(SignedTransaction { r, s, v, raw_transaction, hash })
        },
        None => Err(SignError::SignFailure),
    }
}

/// Signs a prepared transaction with a key. The signature is handed out only
/// where it recovers, over the signing hash of the request, to the address of
/// the key.
pub fn sign_prepared(request: &PreparedTransaction, key: &PrivateKey) -> (result: Result<
    SignedTransaction,
    SignError,
>)
    ensures
        sign_prepared_spec(key@, request@, result),
{
    if request.chain_id() > MAX_CHAIN_ID {
        return Err(SignError::EncodingError);
    }
    let scalar = key.to_bytes();
    let parts = match request {
        PreparedTransaction::Legacy(legacy) => wallet_sign_legacy(&scalar, legacy),
        PreparedTransaction::FeeMarket(fee_market) => wallet_sign_fee_market(&scalar, fee_market),
    };
    seal_transaction(request, key, parts)
}

} // verus!
