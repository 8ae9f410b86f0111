//! Private keys: scalars of secp256k1, held for the length of one signing call.

use crate::error::SignError;
use crate::text::{array_of_32, be_value, hex_decoded, starts_with, without_prefix};
use ethers_signers::{LocalWallet, Signer};
use std::str::FromStr;
use vstd::prelude::*;

verus! {

/// The order `n` of the group of secp256k1.
pub open spec fn curve_order() -> nat {
    0xFFFF_FFFF_FFFF_FFFF_FFFF_FFFF_FFFF_FFFE_BAAE_DCE6_AF48_A03B_BFD2_5E8C_D036_4141nat
}

/// 32 bytes that write, most significant first, a scalar in `1..n`.
pub open spec fn is_scalar(b: Seq<u8>) -> bool {
    b.len() == 32 && 0 < be_value(b) < curve_order()
}

/// The digits of key text: what follows an optional `0X` and then an optional
/// `0x` or `0X`.
pub open spec fn key_digits(s: Seq<char>) -> Seq<char> {
    let rest = without_prefix(s, '0', 'X');
    if starts_with(rest, '0', 'X') {
        rest.skip(2)
    } else {
        without_prefix(rest, '0', 'x')
    }
}

/// The scalar that key text writes, where it writes one: 64 hexadecimal digits
/// after the optional prefixes, for a number in `1..n`.
pub open spec fn key_of_text(s: Seq<char>) -> Option<Seq<u8>> {
    match hex_decoded(key_digits(s)) {
        Some(b) => if is_scalar(b) {
            Some(b)
        } else {
            None
        },
        None => None,
    }
}

/// The scalar that raw bytes are, where they are one.
pub open spec fn key_of_bytes(b: Seq<u8>) -> Option<Seq<u8>> {
    if is_scalar(b) {
        Some(b)
    } else {
        None
    }
}

/// A private key as a caller supplies it: hexadecimal text or raw bytes.
pub enum KeyInput {
    /// 64 hexadecimal digits, with or without a `0x` or `0X` in front.
    Hex(String),
    /// The 32 bytes of the scalar, most significant first.
    Bytes(Vec<u8>),
}

impl KeyInput {
    /// The scalar that this input stands for, where it stands for one.
    pub open spec fn scalar(self) -> Option<Seq<u8>> {
        match self {
            KeyInput::Hex(text) => key_of_text(text@),
            KeyInput::Bytes(bytes) => key_of_bytes(bytes@),
        }
    }
}

/// A private key: 32 bytes that are a scalar in `1..n`, with the address of the
/// account that the key controls.
///
/// The type has no `Debug` and no `Clone`: a key is made, used and dropped.
pub struct PrivateKey {
    scalar: [u8; 32],
    address: [u8; 20],
}

impl View for PrivateKey {
    type V = Seq<u8>;

    closed spec fn view(&self) -> Seq<u8> {
        self.scalar@
    }
}

/// The address of the account that a key controls, as the signing crate derives
/// it from the public key; `None` where the bytes are no key.
pub uninterp spec fn key_address(scalar: Seq<u8>) -> Option<Seq<u8>>;

/// `LocalWallet::from_str`, the wallet written out: its key and its address. The
/// source strips one `0X`, hands the rest to `const_hex::decode`, which strips
/// one `0x` or `0X` and wants hexadecimal digits, asks for 32 bytes, and takes
/// them as a key where they are a non-zero scalar below the order of the curve.
#[verifier::external_body]
fn wallet_of_text(text: &str) -> (wallet: Option<([u8; 32], [u8; 20])>)
    ensures
        match wallet {
            Some((scalar, address)) => key_of_text(text@) == Some(scalar@) && key_address(scalar@)
                == Some(address@),
            None => key_of_text(text@) is None,
        },
{
    let wallet = LocalWallet::from_str(text).ok()?;
    Some((wallet.signer().to_bytes().into(), wallet.address().0))
}

/// `LocalWallet::from_bytes` on 32 bytes, the wallet written out: its address.
/// There is a wallet exactly where the bytes are a non-zero scalar below the
/// order of the curve.
#[verifier::external_body]
fn wallet_of_bytes(scalar: &[u8; 32]) -> (wallet: Option<[u8; 20]>)
    ensures
        wallet is Some <==> is_scalar(scalar@),
        match wallet {
            Some(address) => key_address(scalar@) == Some(address@),
            None => key_address(scalar@) is None,
        },
{
    LocalWallet::from_bytes(scalar).ok().map(|wallet| wallet.address().0)
}

impl PrivateKey {
    #[verifier::type_invariant]
    spec fn is_valid(self) -> bool {
        is_scalar(self.scalar@) && key_address(self.scalar@) == Some(self.address@)
    }

    /// Reads a key from hexadecimal text.
    pub fn from_hex(text: &str) -> (key: Result<PrivateKey, SignError>)
        ensures
            match key {
                Ok(k) => key_of_text(text@) == Some(k@),
                Err(e) => key_of_text(text@) is None && e == SignError::InvalidKey,
            },
    {
        match wallet_of_text(text) {
            Some((scalar, address)) => Ok(PrivateKey { scalar, address }),
            None => Err(SignError::InvalidKey),
        }
    }

    /// Reads a key from the raw bytes of its scalar.
    pub fn from_bytes(bytes: &[u8]) -> (key: Result<PrivateKey, SignError>)
        ensures
            match key {
                Ok(k) => key_of_bytes(bytes@) == Some(k@),
                Err(e) => key_of_bytes(bytes@) is None && e == SignError::InvalidKey,
            },
    {
        if bytes.len() != 32 {
            return Err(SignError::InvalidKey);
        }
        let scalar = array_of_32(bytes);
        match wallet_of_bytes(&scalar) {
            Some(address) => Ok(PrivateKey { scalar, address }),
            None => Err(SignError::InvalidKey),
        }
    }

    /// Reads a key in either form.
    pub fn parse(input: &KeyInput) -> (key: Result<PrivateKey, SignError>)
        ensures
            match key {
                Ok(k) => input.scalar() == Some(k@),
                Err(e) => input.scalar() is None && e == SignError::InvalidKey,
            },
    {
        match input {
            KeyInput::Hex(text) => PrivateKey::from_hex(text.as_str()),
            KeyInput::Bytes(bytes) => PrivateKey::from_bytes(bytes.as_slice()),
        }
    }

    /// The scalar, most significant byte first.
    pub fn to_bytes(&self) -> (bytes: [u8; 32])
        ensures
            bytes@ == self@,
            is_scalar(bytes@),
    {
        proof {
            use_type_invariant(self);
        }
        self.scalar
    }

    /// The address of the account that this key controls.
    pub fn address(&self) -> (address: [u8; 20])
        ensures
            key_address(self@) == Some(address@),
    {
        proof {
            use_type_invariant(self);
        }
        self.address
    }
}

/// Bytes that are all zero write the number zero.
proof fn lemma_zeros_write_zero(b: Seq<u8>)
    requires
        forall|i: int| 0 <= i < b.len() ==> b[i] == 0,
    ensures
        be_value(b) == 0,
    decreases b.len(),
{
    if b.len() > 0 {
        lemma_zeros_write_zero(b.drop_last());
    }
}

/// The all-zero scalar is no key: it is refused as raw bytes, and so is any text
/// that decodes to it.
pub proof fn lemma_zero_is_no_key(b: Seq<u8>)
    requires
        b.len() == 32,
        forall|i: int| 0 <= i < 32 ==> b[i] == 0,
    ensures
        !is_scalar(b),
        key_of_bytes(b) is None,
{
    lemma_zeros_write_zero(b);
}

} // verus!
