//! Recoverable signatures over 32-byte digests.

use crate::error::SignError;
use crate::key::{key_address, PrivateKey};
use ethers_core::types::{Signature as WalletSignature, H256};
use ethers_signers::LocalWallet;
use vstd::prelude::*;

verus! {

/// A recoverable ECDSA signature and its 65-byte form.
#[derive(Debug, Clone, Copy, PartialEq, Eq)]
pub struct Signature {
    /// `r`, most significant byte first.
    pub r: [u8; 32],
    /// `s`, most significant byte first.
    pub s: [u8; 32],
    /// The recovery byte.
    pub v: u8,
    /// `r`, `s` and `v` in a row.
    pub signature: [u8; 65],
}

impl Signature {
    /// The 65-byte form is the three parts in a row.
    pub open spec fn wf(self) -> bool {
        self.signature@ == self.r@ + self.s@ + seq![self.v]
    }

    /// The signature with the given parts.
    pub fn from_parts(r: [u8; 32], s: [u8; 32], v: u8) -> (signature: Signature)
        ensures
            signature.r == r,
            signature.s == s,
            signature.v == v,
            signature.wf(),
    {
        let mut bytes = [0u8; 65];
        let mut i: usize = 0;
        while i < 32
            invariant
                i <= 32,
                forall|j: int| 0 <= j < i ==> bytes@[j] == r@[j],
                forall|j: int| 0 <= j < i ==> bytes@[32 + j] == s@[j],
            decreases 32 - i,
        {
            bytes[i] = r[i];
            bytes[32 + i] = s[i];
            i += 1;
        }
        bytes[64] = v;
        assert(bytes@ =~= r@ + s@ + seq![v]);
        Signature { r, s, v, signature: bytes }
    }
}

/// The signature that the signing crate computes over a digest with a key:
/// deterministic ECDSA, the nonce by RFC 6979. `None` where it computes none.
pub uninterp spec fn ecdsa_signature(scalar: Seq<u8>, digest: Seq<u8>) -> Option<
    (Seq<u8>, Seq<u8>, u64),
>;

/// The address that the signing crate recovers from a digest and a signature
/// over it; `None` where it recovers none.
pub uninterp spec fn recovered_address(digest: Seq<u8>, r: Seq<u8>, s: Seq<u8>, v: u64) -> Option<
    Seq<u8>,
>;

/// The parts of a signature, `r`, `s` and `v`, as contracts speak of them.
pub open spec fn parts_view(parts: Option<([u8; 32], [u8; 32], u64)>) -> Option<
    (Seq<u8>, Seq<u8>, u64),
> {
    match parts {
        Some((r, s, v)) => Some((r@, s@, v)),
        None => None,
    }
}

/// `Wallet::sign_hash` of the wallet that `LocalWallet::from_bytes` makes of the
/// key; `r` and `s` written out as bytes. The source signs by RFC 6979, so that
/// the signature depends on the key and the digest alone.
#[verifier::external_body]
fn wallet_sign_hash(scalar: &[u8; 32], digest: &[u8; 32]) -> (parts: Option<
    ([u8; 32], [u8; 32], u64),
>)
    ensures
        parts_view(parts) == ecdsa_signature(scalar@, digest@),
{
    let signed = LocalWallet::from_bytes(scalar).ok()?.sign_hash(H256(*digest)).ok()?;
    Some((signed.r.into(), signed.s.into(), signed.v))
}

/// `Signature::recover` on a digest, the recovered address written out as bytes.
#[verifier::external_body]
pub(crate) fn recover_address(digest: &[u8; 32], r: &[u8; 32], s: &[u8; 32], v: u64) -> (address: Option<
    [u8; 20],
>)
    ensures
        match address {
            Some(a) => recovered_address(digest@, r@, s@, v) == Some(a@),
            None => recovered_address(digest@, r@, s@, v) is None,
        },
{
    let signed = WalletSignature { r: (*r).into(), s: (*s).into(), v };
    signed.recover(H256(*digest)).ok().map(|address| address.0)
}

/// Whether two addresses are the same 20 bytes.
pub(crate) fn same_address(a: &[u8; 20], b: &[u8; 20]) -> (same: bool)
    ensures
        same == (a@ == b@),
{
    let mut i: usize = 0;
    while i < 20
        invariant
            i <= 20,
            forall|j: int| 0 <= j < i ==> a@[j] == b@[j],
        decreases 20 - i,
    {
        if a[i] != b[i] {
            return false;
        }
        i += 1;
    }
    assert(a@ =~= b@);
    true
}

/// Whether `(r, s, v)` is a signature that the library hands out for a digest
/// and a key: `v` fits a byte, and the signature recovers to the key's address.
pub open spec fn recovers_to_signer(
    scalar: Seq<u8>,
    digest: Seq<u8>,
    r: Seq<u8>,
    s: Seq<u8>,
    v: u64,
) -> bool {
    &&& v <= 255
    &&& key_address(scalar) is Some
    &&& recovered_address(digest, r, s, v) == key_address(scalar)
}

/// What is made of the parts that the signing primitive returned.
pub open spec fn accepted(
    scalar: Seq<u8>,
    digest: Seq<u8>,
    parts: Option<(Seq<u8>, Seq<u8>, u64)>,
    result: Result<Signature, SignError>,
) -> bool {
    match parts {
        Some((r, s, v)) => if recovers_to_signer(scalar, digest, r, s, v) {
            &&& result matches Ok(signature)
            &&& signature.r@ == r
            &&& signature.s@ == s
            &&& signature.v == v
            &&& signature.wf()
        } else {
            result == Err::<Signature, SignError>(SignError::SignFailure)
        },
        None => result == Err::<Signature, SignError>(SignError::SignFailure),
    }
}

/// What [`sign_digest`] returns for a key and a digest.
pub open spec fn sign_digest_spec(
    scalar: Seq<u8>,
    digest: Seq<u8>,
    result: Result<Signature, SignError>,
) -> bool {
    accepted(scalar, digest, ecdsa_signature(scalar, digest), result)
}

/// Decides what becomes of the parts that the signing primitive returned for a
/// digest: a signature, where there are parts, `v` fits a byte and the parts
/// recover to the address of the key; a signing failure otherwise.
pub fn accept_signature(
    key: &PrivateKey,
    digest: &[u8; 32],
    parts: Option<([u8; 32], [u8; 32], u64)>,
) -> (result: Result<Signature, SignError>)
    ensures
        accepted(key@, digest@, parts_view(parts), result),
{
    match parts {
        Some((r, s, v)) => {
            let signer = key.address();
            match recover_address(digest, &r, &s, v) {
                Some(recovered) => {
                    if v <= 255 && same_address(&recovered, &signer) {
                        Ok(Signature::from_parts(r, s, v as u8))
                    } else {
                        Err(SignError::SignFailure)
                    }
                },
                None => Err(SignError::SignFailure),
            }
        },
        None => Err(SignError::SignFailure),
    }
}

/// Signs a 32-byte digest with a key. The signature is handed out only where it
/// recovers to the address of the key; anything else is a signing failure.
pub fn sign_digest(key: &PrivateKey, digest: &[u8; 32]) -> (result: Result<Signature, SignError>)
    ensures
        sign_digest_spec(key@, digest@, result),
{
    let scalar = key.to_bytes();
    let parts = wallet_sign_hash(&scalar, digest);
    accept_signature(key, digest, parts)
}

} // verus!
