//! Flashbots-style request authentication: the body's digest is signed and
//! the signature travels in a request header beside the unmodified body.
use vstd::prelude::*;
use std::sync::Arc;
use vstd::string::StringExecFns;
use crate::hex_text::{encode_hex, hex_of, hex_value};

verus! {

/// Name of the header that carries the signature.
pub const SIGNATURE_HEADER: &'static str = "x-flashbots-signature";

/// Keccak-256 digest of a byte string.
pub uninterp spec fn keccak_of(b: Seq<u8>) -> Seq<u8>;

/// EIP-55 checksummed text of a 20-byte address.
pub uninterp spec fn checksum_of(addr: Seq<u8>) -> Seq<char>;

/// Relies on ethers::utils::keccak256: the 32-byte Keccak-256 digest of the input.
#[verifier::external_body]
fn keccak(b: &[u8]) -> (r: [u8; 32])
    ensures
        r@ == keccak_of(b@),
{
    ethers::utils::keccak256(b)
}

/// Relies on ethers::utils::to_checksum (no chain id): "0x" and forty hex digits
/// whose letters are upper- or lowercased by the address's hash.
#[verifier::external_body]
fn checksum_address(addr: &[u8; 20]) -> (r: String)
    ensures
        r@ == checksum_of(addr@),
        r@.len() == 42,
        r@[0] == '0',
        r@[1] == 'x',
        forall|i: int| 2 <= i < 42 ==> (#[trigger] hex_value(r@[i])) is Some,
{
    ethers::utils::to_checksum(&ethers::types::Address::from(*addr), None)
}

/// The message that is signed for a body: "0x" and the hex of its Keccak-256 digest.
pub open spec fn signing_message_of(body: Seq<u8>) -> Seq<char> {
    seq!['0', 'x'] + hex_of(keccak_of(body))
}

/// The header value: the signer's address text, ':', "0x" and the signature's hex.
pub open spec fn signature_header_of(address_text: Seq<char>, signature: Seq<u8>) -> Seq<char> {
    address_text + seq![':', '0', 'x'] + hex_of(signature)
}

/// The message to hand the signer for a request body.
pub fn signing_message(body: &[u8]) -> (r: String)
    ensures
        r@ == signing_message_of(body@),
{
    let digest = keccak(body);
    let prefix = String::from_str("0x");
    proof {
        reveal_strlit("0x");
    }
    let r = prefix.concat(encode_hex(digest.as_slice()).as_str());
    assert(r@ =~= signing_message_of(body@));
    r
}

/// The header value for a signer's address and the signature it produced.
pub fn signature_header(address: &[u8; 20], signature: &[u8]) -> (r: String)
    ensures
        r@ == signature_header_of(checksum_of(address@), signature@),
        r@.len() == 45 + 2 * signature@.len(),
        r@.subrange(0, 42) == checksum_of(address@),
        r@[42] == ':',
        forall|i: int| 0 <= i < 42 ==> #[trigger] r@[i] != ':',
{
    let text = checksum_address(address);
    proof {
        lemma_header_address(text@, signature@);
    }
    proof {
        reveal_strlit(":0x");
    }
    let r = text.concat(":0x").concat(encode_hex(signature).as_str());
    assert(r@ =~= signature_header_of(checksum_of(address@), signature@));
    r
}

/// The signer refused or failed to sign.
#[derive(Debug, Clone, Copy, PartialEq, Eq, Structural)]
pub enum SigningError {
    /// The signer reported a failure.
    SignerFailed,
}

/// A request ready for the inner transport: its body and the authentication header.
pub struct SignedRequest {
    pub header_name: String,
    pub header_value: String,
    pub body: Vec<u8>,
}

/// Layer that authenticates each request of the transport it wraps.
pub struct FlashbotsSignerLayer<S> {
    signer: Arc<S>,
}

impl<S> FlashbotsSignerLayer<S> {
    /// A layer that signs with `signer`.
    pub fn new(signer: Arc<S>) -> (r: FlashbotsSignerLayer<S>)
        ensures
            r.signer() == signer,
    {
        FlashbotsSignerLayer { signer }
    }

    pub closed spec fn signer(&self) -> Arc<S> {
        self.signer
    }

    /// Wraps `inner` in the signing middleware.
    pub fn layer<I>(self, inner: I) -> (r: FlashbotsSigner<S, I>)
        ensures
            r.signer() == self.signer(),
            r.inner() == inner,
    {
        FlashbotsSigner { signer: self.signer, inner }
    }
}

/// Middleware that adds a header with a signature of the request body.
pub struct FlashbotsSigner<S, I> {
    signer: Arc<S>,
    inner: I,
}

impl<S, I> FlashbotsSigner<S, I> {
    pub closed spec fn signer(&self) -> Arc<S> {
        self.signer
    }

    pub closed spec fn inner(&self) -> I {
        self.inner
    }

    /// The signer shared by every request of this middleware.
    pub fn signer_ref(&self) -> (r: &Arc<S>)
        ensures
            *r == self.signer(),
    {
        &self.signer
    }

    /// The wrapped transport.
    pub fn inner_mut(&mut self) -> (r: &mut I)
        ensures
            *r == old(self).inner(),
            final(self).signer() == old(self).signer(),
            final(self).inner() == *final(r),
    {
        &mut self.inner
    }

    /// Takes the middleware apart.
    pub fn into_parts(self) -> (r: (Arc<S>, I))
        ensures
            r.0 == self.signer(),
            r.1 == self.inner(),
    {
        (self.signer, self.inner)
    }
}

/// Completes one request once the signer has answered: on a signature, the
/// unmodified body goes on with the header; on a failure nothing is forwarded.
pub fn attach_signature(
    body: Vec<u8>,
    address: &[u8; 20],
    signature: Result<Vec<u8>, SigningError>,
) -> (r: Result<SignedRequest, SigningError>)
    ensures
        signature is Err ==> r == Err::<SignedRequest, SigningError>(signature->Err_0),
        signature is Ok ==> r is Ok,
        r is Ok ==> r->Ok_0.body == body && r->Ok_0.header_name@ == SIGNATURE_HEADER@
            && r->Ok_0.header_value@ == signature_header_of(
            checksum_of(address@),
            signature->Ok_0@,
        ),
        r is Ok ==> r->Ok_0.header_value@.subrange(0, 42) == checksum_of(address@)
            && r->Ok_0.header_value@[42] == ':'
            && forall|i: int| 0 <= i < 42 ==> #[trigger] r->Ok_0.header_value@[i] != ':',
{
    match signature {
        Err(e) => Err(e),
        Ok(sig) => {
            let header_value = signature_header(address, sig.as_slice());
            Ok(SignedRequest { header_name: String::from_str(SIGNATURE_HEADER), header_value, body })
        },
    }
}

/// The signed message depends on the body bytes alone, and the header on the
/// signer's address and signature alone: equal inputs give equal headers.
pub proof fn lemma_signing_deterministic(
    body1: Seq<u8>,
    body2: Seq<u8>,
    address: Seq<u8>,
    sig1: Seq<u8>,
    sig2: Seq<u8>,
)
    requires
        body1 == body2,
        sig1 == sig2,
    ensures
        signing_message_of(body1) == signing_message_of(body2),
        signature_header_of(checksum_of(address), sig1) == signature_header_of(
            checksum_of(address),
            sig2,
        ),
{
}

/// The address part of a header, everything before its first ':', is the
/// signer's address text, whatever signature follows it.
pub proof fn lemma_header_address(address_text: Seq<char>, signature: Seq<u8>)
    requires
        address_text.len() == 42,
        address_text[0] == '0',
        address_text[1] == 'x',
        forall|i: int| 2 <= i < 42 ==> (#[trigger] hex_value(address_text[i])) is Some,
    ensures
        signature_header_of(address_text, signature).subrange(0, 42) == address_text,
        signature_header_of(address_text, signature)[42] == ':',
        forall|i: int|
            0 <= i < 42 ==> #[trigger] signature_header_of(address_text, signature)[i] != ':',
{
    let h = signature_header_of(address_text, signature);
    assert(h.subrange(0, 42) =~= address_text);
    assert forall|i: int| 0 <= i < 42 implies #[trigger] h[i] != ':' by {
        if i >= 2 {
            assert(hex_value(address_text[i]) is Some);
        }
    }
}

} // verus!
