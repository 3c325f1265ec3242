//! Message digests.

use vstd::prelude::*;

verus! {

/// Name of the MD4 digest of some bytes.
pub uninterp spec fn md4_digest(bytes: Seq<u8>) -> Seq<u8>;

/// `md4::Md4::digest`: the sixteen bytes of the MD4 digest. It is claimed that they depend on the
/// bytes alone; which bytes have which digest, and that different bytes have different digests, is
/// not claimed.
#[verifier::external_body]
pub(crate) fn md4_of(bytes: &[u8]) -> (r: [u8; 16])
    ensures
        r@ == md4_digest(bytes@),
{
    <md4::Md4 as md4::Digest>::digest(bytes).into()
}

/// Name of the SHA-1 digest of some bytes.
pub uninterp spec fn sha1_digest(bytes: Seq<u8>) -> Seq<u8>;

/// `sha1::Sha1::digest`: the twenty bytes of the SHA-1 digest. It is claimed that they depend on the
/// bytes alone; which bytes have which digest, and that different bytes have different digests, is
/// not claimed.
#[verifier::external_body]
pub(crate) fn sha1_of(bytes: &[u8]) -> (r: [u8; 20])
    ensures
        r@ == sha1_digest(bytes@),
{
    <sha1::Sha1 as sha1::Digest>::digest(bytes).into()
}

} // verus!
