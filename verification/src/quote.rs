use vstd::prelude::*;
use crate::encoding::spec_be4;
use crate::encoding::spec_be8;
use crate::encoding::push_be4;
use crate::encoding::push_be8;
use crate::encoding::lemma_be4_injective;
use crate::encoding::lemma_be8_injective;

verus! {

/// Canonical payload signed by the off-chain quoter.  All multi-byte
/// integers are encoded big-endian; the layout is fixed-width, 20 bytes.
#[derive(Clone, Copy, Debug, PartialEq, Eq, Structural)]
pub struct OffChainQuoteData {
    pub source_domain: u8,
    pub destination_domain: u8,
    /// The corridor's tag byte.
    pub corridor: u8,
    pub gas_dropoff: u32,
    pub expiration_time: u32,
    pub pay_in_usdc: bool,
    pub relay_fee: u64,
}

impl OffChainQuoteData {
    /// The canonical byte encoding: source domain, destination domain,
    /// corridor tag, gas drop-off (be32), expiration (be32), charge
    /// currency flag, relay fee (be64).
    pub open spec fn spec_bytes(self) -> Seq<u8> {
        seq![self.source_domain, self.destination_domain, self.corridor] + spec_be4(
            self.gas_dropoff,
        ) + spec_be4(self.expiration_time) + seq![
            if self.pay_in_usdc {
                1u8
            } else {
                0u8
            },
        ] + spec_be8(self.relay_fee)
    }

    pub fn to_bytes(&self) -> (r: Vec<u8>)
        ensures
            r@ == self.spec_bytes(),
    {
        let mut out: Vec<u8> = Vec::new();
        out.push(self.source_domain);
        out.push(self.destination_domain);
        out.push(self.corridor);
        push_be4(&mut out, self.gas_dropoff);
        push_be4(&mut out, self.expiration_time);
        out.push(if self.pay_in_usdc { 1u8 } else { 0u8 });
        push_be8(&mut out, self.relay_fee);
        proof {
            assert(out@ =~= self.spec_bytes());
        }
        out
    }
}

/// The canonical encoding determines every field: two payloads with the
/// same bytes carry the same source domain, destination domain, corridor,
/// gas drop-off, expiration, charge currency and relay fee.  A signature
/// therefore commits to all quote fields at once.
pub proof fn lemma_quote_bytes_injective(a: OffChainQuoteData, b: OffChainQuoteData)
    ensures
        a.spec_bytes() == b.spec_bytes() ==> a == b,
{
    if a.spec_bytes() == b.spec_bytes() {
        let sa = a.spec_bytes();
        let sb = b.spec_bytes();
        assert(sa.subrange(3, 7) =~= spec_be4(a.gas_dropoff));
        assert(sb.subrange(3, 7) =~= spec_be4(b.gas_dropoff));
        lemma_be4_injective(a.gas_dropoff, b.gas_dropoff);
        assert(sa.subrange(7, 11) =~= spec_be4(a.expiration_time));
        assert(sb.subrange(7, 11) =~= spec_be4(b.expiration_time));
        lemma_be4_injective(a.expiration_time, b.expiration_time);
        assert(sa.subrange(12, 20) =~= spec_be8(a.relay_fee));
        assert(sb.subrange(12, 20) =~= spec_be8(b.relay_fee));
        lemma_be8_injective(a.relay_fee, b.relay_fee);
        assert(sa[0] == a.source_domain && sb[0] == b.source_domain);
        assert(sa[1] == a.destination_domain && sb[1] == b.destination_domain);
        assert(sa[2] == a.corridor && sb[2] == b.corridor);
        assert(sa[11] == (if a.pay_in_usdc { 1u8 } else { 0u8 }));
        assert(sb[11] == (if b.pay_in_usdc { 1u8 } else { 0u8 }));
    }
}

/// The keccak-256 digest of a byte string.
pub uninterp spec fn keccak256_of(data: Seq<u8>) -> Seq<u8>;

/// Relies on `sha3::Keccak256`: the 32-byte keccak-256 digest, a pure
/// function of the input bytes alone.
#[verifier::external_body]
fn keccak256(data: &[u8]) -> (r: [u8; 32])
    ensures
        r@ == keccak256_of(data@),
{
    let mut out = [0u8; 32];
    out.copy_from_slice(<sha3::Keccak256 as sha3::Digest>::digest(data).as_slice());
    out
}

/// The public key recovered from a 32-byte digest, a recovery id and a
/// 64-byte signature, in uncompressed form without its prefix byte; `None`
/// when the signature or recovery id is rejected.
pub uninterp spec fn secp256k1_recover_of(
    digest: Seq<u8>,
    recovery_id: u8,
    signature: Seq<u8>,
) -> Option<Seq<u8>>;

/// Relies on `libsecp256k1::recover` (with `RecoveryId::parse`,
/// `Signature::parse_standard_slice` and `PublicKey::serialize`): public
/// key recovery is a pure function of the digest, the recovery id and the
/// first 64 signature bytes; a recovery id of 4 or more and a signature
/// whose scalars overflow the curve order are rejected.
#[verifier::external_body]
fn secp256k1_recover(digest: &[u8; 32], recovery_id: u8, signature: &[u8; 65]) -> (r: Option<
    [u8; 64],
>)
    ensures
        match r {
            Some(key) => secp256k1_recover_of(digest@, recovery_id, signature@.subrange(0, 64))
                == Some(key@),
            None => secp256k1_recover_of(digest@, recovery_id, signature@.subrange(0, 64)) is None,
        },
{
    let message = libsecp256k1::Message::parse(digest);
    let recovery_id = libsecp256k1::RecoveryId::parse(recovery_id).ok()?;
    let parsed = libsecp256k1::Signature::parse_standard_slice(&signature[..64]).ok()?;
    let public_key = libsecp256k1::recover(&message, &parsed, &recovery_id).ok()?;
    let mut out = [0u8; 64];
    out.copy_from_slice(&public_key.serialize()[1..]);
    Some(out)
}

/// Authenticity of an off-chain quote: the payload's keccak-256 digest,
/// the public key recovered from the recoverable signature over it, and
/// the low 20 bytes of that key's keccak-256 digest matching the trusted
/// quoter identity.  A signature whose recovery byte is below 27 is
/// invalid.
pub open spec fn spec_quote_valid(
    trusted_quoter: Seq<u8>,
    quote: OffChainQuoteData,
    signature: Seq<u8>,
) -> bool {
    if signature[64] < 27 {
        false
    } else {
        match secp256k1_recover_of(
            keccak256_of(quote.spec_bytes()),
            (signature[64] - 27) as u8,
            signature.subrange(0, 64),
        ) {
            Some(public_key) => keccak256_of(public_key).subrange(12, 32) == trusted_quoter,
            None => false,
        }
    }
}

/// Verifies an off-chain quote's recoverable signature against the
/// trusted quoter identity.
pub fn verify_offchain_quote(
    trusted_quoter: &[u8; 20],
    quote: &OffChainQuoteData,
    signature: &[u8; 65],
) -> (r: bool)
    ensures
        r == spec_quote_valid(trusted_quoter@, *quote, signature@),
{
    let message = quote.to_bytes();
    let digest = keccak256(message.as_slice());
    let recovery_byte = signature[64];
    if recovery_byte < 27 {
        return false;
    }
    match secp256k1_recover(&digest, recovery_byte - 27, signature) {
        Some(public_key) => {
            let key_digest = keccak256(public_key.as_slice());
            digest_tail_matches(&key_digest, trusted_quoter)
        },
        None => false,
    }
}

/// Compares the low 20 bytes of a 32-byte digest with an expected
/// 20-byte identity.
fn digest_tail_matches(digest: &[u8; 32], expected: &[u8; 20]) -> (r: bool)
    ensures
        r == (digest@.subrange(12, 32) == expected@),
{
    let mut i: usize = 0;
    while i < 20
        invariant
            i <= 20,
            forall|j: int| 0 <= j < i ==> digest@[12 + j] == expected@[j],
        decreases 20 - i,
    {
        if digest[12 + i] != expected[i] {
            proof {
                assert(digest@.subrange(12, 32)[i as int] == digest@[12 + i]);
                assert(digest@.subrange(12, 32) != expected@);
            }
            return false;
        }
        i += 1;
    }
    proof {
        assert(digest@.subrange(12, 32) =~= expected@);
    }
    true
}

} // verus!
