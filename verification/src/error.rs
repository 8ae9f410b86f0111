//! The failures a signing operation reports.

use vstd::prelude::*;

verus! {

/// The argument that an [`SignError::InvalidArgument`] speaks of.
#[derive(Debug, Clone, Copy, PartialEq, Eq, Structural)]
pub enum Argument {
    /// The message hash is not exactly 32 bytes long.
    Hash,
    /// The typed-data payload is not a well-formed EIP-712 document.
    TypedData,
    /// The recipient is not an address in hexadecimal.
    To,
    /// The transferred value is not a decimal number below 2^256.
    Value,
    /// The gas price is not a decimal number below 2^256.
    GasPrice,
    /// The fee cap is not a decimal number below 2^256.
    MaxFeePerGas,
    /// The priority fee is not a decimal number below 2^256.
    MaxPriorityFeePerGas,
    /// The call data is not hexadecimal.
    Data,
    /// A gas price stands beside a priority fee that has no fee cap.
    Fees,
}

/// Why a signing operation produced no result.
#[derive(Debug, Clone, Copy, PartialEq, Eq, Structural)]
pub enum SignError {
    /// An input is malformed or has the wrong length.
    InvalidArgument(Argument),
    /// The private key does not decode to a scalar in `1..n`, `n` the order of the curve.
    InvalidKey,
    /// Typed data could not be canonicalized, or a transaction could not be encoded.
    EncodingError,
    /// The signing primitive failed, or its signature does not recover to the signer.
    SignFailure,
}

impl SignError {
    /// The text of [`SignError::message`].
    pub open spec fn message_text(self) -> Seq<char> {
        match self {
            SignError::InvalidArgument(Argument::Hash) => "hash must be exactly 32 bytes"@,
            SignError::InvalidArgument(Argument::TypedData) => "payload is not EIP-712 typed data"@,
            SignError::InvalidArgument(Argument::To) => "`to` is not a hexadecimal address"@,
            SignError::InvalidArgument(Argument::Value) => "`value` is not a decimal amount"@,
            SignError::InvalidArgument(Argument::GasPrice) => "`gasPrice` is not a decimal amount"@,
            SignError::InvalidArgument(Argument::MaxFeePerGas) => "`maxFeePerGas` is not a decimal amount"@,
            SignError::InvalidArgument(Argument::MaxPriorityFeePerGas) => "`maxPriorityFeePerGas` is not a decimal amount"@,
            SignError::InvalidArgument(Argument::Data) => "`data` is not hexadecimal"@,
            SignError::InvalidArgument(Argument::Fees) => "`gasPrice` and `maxPriorityFeePerGas` do not go together"@,
            SignError::InvalidKey => "invalid private key"@,
            SignError::EncodingError => "encoding failed"@,
            SignError::SignFailure => "signing failed"@,
        }
    }

    /// A sentence that names the precondition that failed.
    pub fn message(&self) -> (text: &'static str)
        ensures
            text@ == self.message_text(),
    {
        match self {
            SignError::InvalidArgument(Argument::Hash) => "hash must be exactly 32 bytes",
            SignError::InvalidArgument(Argument::TypedData) => "payload is not EIP-712 typed data",
            SignError::InvalidArgument(Argument::To) => "`to` is not a hexadecimal address",
            SignError::InvalidArgument(Argument::Value) => "`value` is not a decimal amount",
            SignError::InvalidArgument(Argument::GasPrice) => "`gasPrice` is not a decimal amount",
            SignError::InvalidArgument(Argument::MaxFeePerGas) => "`maxFeePerGas` is not a decimal amount",
            SignError::InvalidArgument(Argument::MaxPriorityFeePerGas) => "`maxPriorityFeePerGas` is not a decimal amount",
            SignError::InvalidArgument(Argument::Data) => "`data` is not hexadecimal",
            SignError::InvalidArgument(Argument::Fees) => "`gasPrice` and `maxPriorityFeePerGas` do not go together",
            SignError::InvalidKey => "invalid private key",
            SignError::EncodingError => "encoding failed",
            SignError::SignFailure => "signing failed",
        }
    }
}

} // verus!
