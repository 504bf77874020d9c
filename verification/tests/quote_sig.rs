use cctpr::quote::OffChainQuoteData;
use cctpr::quote::verify_offchain_quote;
use sha3::Digest;

fn keccak(data: &[u8]) -> [u8; 32] {
    let mut out = [0u8; 32];
    out.copy_from_slice(sha3::Keccak256::digest(data).as_slice());
    out
}

fn quoter_identity(secret: &libsecp256k1::SecretKey) -> [u8; 20] {
    let public_key = libsecp256k1::PublicKey::from_secret_key(secret);
    let digest = keccak(&public_key.serialize()[1..]);
    let mut identity = [0u8; 20];
    identity.copy_from_slice(&digest[12..]);
    identity
}

fn sign_quote(secret: &libsecp256k1::SecretKey, quote: &OffChainQuoteData) -> [u8; 65] {
    let digest = keccak(&quote.to_bytes());
    let message = libsecp256k1::Message::parse(&digest);
    let (signature, recovery_id) = libsecp256k1::sign(&message, secret);
    let mut out = [0u8; 65];
    out[..64].copy_from_slice(&signature.serialize());
    out[64] = recovery_id.serialize() + 27;
    out
}

fn sample_quote() -> OffChainQuoteData {
    OffChainQuoteData {
        source_domain: 5,
        destination_domain: 7,
        corridor: 1,
        gas_dropoff: 1_234,
        expiration_time: 1_700_000_000,
        pay_in_usdc: true,
        relay_fee: 55_000,
    }
}

#[test]
fn quote_payload_encoding_is_fixed_width_big_endian() {
    let quote = OffChainQuoteData {
        source_domain: 5,
        destination_domain: 7,
        corridor: 2,
        gas_dropoff: 0x01020304,
        expiration_time: 0x0A0B0C0D,
        pay_in_usdc: true,
        relay_fee: 0x1112131415161718,
    };
    assert_eq!(
        quote.to_bytes(),
        vec![
            5, 7, 2, // domains and corridor tag
            0x01, 0x02, 0x03, 0x04, // gas drop-off
            0x0A, 0x0B, 0x0C, 0x0D, // expiration
            1, // charged in USDC
            0x11, 0x12, 0x13, 0x14, 0x15, 0x16, 0x17, 0x18, // relay fee
        ]
    );

    let in_gas = OffChainQuoteData { pay_in_usdc: false, ..quote };
    assert_eq!(in_gas.to_bytes()[11], 0);
}

#[test]
fn valid_signature_verifies() {
    let secret = libsecp256k1::SecretKey::parse(&[1u8; 32]).unwrap();
    let quoter = quoter_identity(&secret);
    let quote = sample_quote();
    let signature = sign_quote(&secret, &quote);
    assert!(verify_offchain_quote(&quoter, &quote, &signature));
}

#[test]
fn altering_any_field_invalidates_the_signature() {
    let secret = libsecp256k1::SecretKey::parse(&[1u8; 32]).unwrap();
    let quoter = quoter_identity(&secret);
    let quote = sample_quote();
    let signature = sign_quote(&secret, &quote);

    let altered = [
        OffChainQuoteData { source_domain: 6, ..quote },
        OffChainQuoteData { destination_domain: 8, ..quote },
        OffChainQuoteData { corridor: 0, ..quote },
        OffChainQuoteData { gas_dropoff: 1_235, ..quote },
        OffChainQuoteData { expiration_time: 1_700_000_001, ..quote },
        OffChainQuoteData { pay_in_usdc: false, ..quote },
        OffChainQuoteData { relay_fee: 55_001, ..quote },
    ];
    for tampered in altered {
        assert!(!verify_offchain_quote(&quoter, &tampered, &signature));
    }
}

#[test]
fn signature_from_another_key_is_rejected() {
    let trusted = libsecp256k1::SecretKey::parse(&[1u8; 32]).unwrap();
    let impostor = libsecp256k1::SecretKey::parse(&[2u8; 32]).unwrap();
    let quoter = quoter_identity(&trusted);
    let quote = sample_quote();
    let forged = sign_quote(&impostor, &quote);
    assert!(!verify_offchain_quote(&quoter, &quote, &forged));
}

#[test]
fn malformed_recovery_byte_is_rejected() {
    let secret = libsecp256k1::SecretKey::parse(&[1u8; 32]).unwrap();
    let quoter = quoter_identity(&secret);
    let quote = sample_quote();
    let mut signature = sign_quote(&secret, &quote);

    let valid_byte = signature[64];
    signature[64] = 3; // below the RPC offset of 27
    assert!(!verify_offchain_quote(&quoter, &quote, &signature));
    signature[64] = 27 + 4; // recovery id out of range
    assert!(!verify_offchain_quote(&quoter, &quote, &signature));
    signature[64] = valid_byte;
    assert!(verify_offchain_quote(&quoter, &quote, &signature));
}

#[test]
fn corrupted_scalar_bytes_are_rejected() {
    let secret = libsecp256k1::SecretKey::parse(&[1u8; 32]).unwrap();
    let quoter = quoter_identity(&secret);
    let quote = sample_quote();
    let mut signature = sign_quote(&secret, &quote);
    // An all-ones scalar overflows the curve order and cannot be parsed.
    for byte in signature[..32].iter_mut() {
        *byte = 0xFF;
    }
    assert!(!verify_offchain_quote(&quoter, &quote, &signature));
}
