use runtime_metadata::account::{
    address_from_public_key, keypair_from_secret, new_phrase, secret_from_phrase, sign,
    AccountError, PhraseSize,
};
use runtime_metadata::hashing::{blake2b128, xx128, xx64};

const DEV_PHRASE: &str = "bottom drive obey lake curtain smoke basket hold race lonely fit walk";

const ALICE_PUBLIC: [u8; 32] = [
    0xd4, 0x35, 0x93, 0xc7, 0x15, 0xfd, 0xd3, 0x1c, 0x61, 0x14, 0x1a, 0xbd, 0x04, 0xa9, 0x9f,
    0xd6, 0x82, 0x2c, 0x85, 0x58, 0x85, 0x4c, 0xcd, 0xe3, 0x9a, 0x56, 0x84, 0xe7, 0xa5, 0x6d,
    0xa2, 0x7d,
];

#[test]
fn new_phrase_has_the_requested_word_count() {
    assert_eq!(new_phrase(PhraseSize::Words12).split_whitespace().count(), 12);
    assert_eq!(new_phrase(PhraseSize::Words15).split_whitespace().count(), 15);
    assert_eq!(new_phrase(PhraseSize::Words18).split_whitespace().count(), 18);
    assert_eq!(new_phrase(PhraseSize::Words21).split_whitespace().count(), 21);
    assert_eq!(new_phrase(PhraseSize::Words24).split_whitespace().count(), 24);
}

#[test]
fn a_generated_phrase_round_trips_through_derivation() {
    let phrase = new_phrase(PhraseSize::Words12);
    let secret = secret_from_phrase(&phrase, "").unwrap();
    assert_eq!(secret.len(), 32);
}

#[test]
fn secret_from_phrase_matches_the_entropy_derivation() {
    let secret = secret_from_phrase(DEV_PHRASE, "").unwrap();
    assert_eq!(secret.len(), 32);

    // The same derivation spelled out directly against the collaborators.
    let m = bip39::Mnemonic::parse_in_normalized(bip39::Language::English, DEV_PHRASE).unwrap();
    let entropy = m.to_entropy();
    let salt = b"mnemonic".to_vec();
    let mut out = [0u8; 64];
    pbkdf2::pbkdf2_hmac::<sha2::Sha512>(&entropy, &salt, 2048, &mut out);
    assert_eq!(secret, out[..32].to_vec());

    // The well-known development secret for this phrase.
    let expected: [u8; 32] = [
        0xfa, 0xc7, 0x95, 0x9d, 0xbf, 0xe7, 0x2f, 0x05, 0x2e, 0x5a, 0x0c, 0x3c, 0x8d, 0x65,
        0x30, 0xf2, 0x02, 0xb0, 0x2f, 0xd8, 0xf9, 0xf5, 0xca, 0x35, 0x80, 0xec, 0x8d, 0xeb,
        0x77, 0x97, 0x47, 0x9e,
    ];
    assert_eq!(secret, expected.to_vec());
}

#[test]
fn secret_from_phrase_uses_the_password() {
    let with = secret_from_phrase(DEV_PHRASE, "pass").unwrap();
    let without = secret_from_phrase(DEV_PHRASE, "").unwrap();
    assert_ne!(with, without);
}

#[test]
fn invalid_phrase_is_rejected() {
    assert_eq!(
        secret_from_phrase("not a valid mnemonic phrase at all", ""),
        Err(AccountError::InvalidPhrase)
    );
}

#[test]
fn keypair_from_secret_expands_to_96_bytes_with_the_right_public_key() {
    let secret = secret_from_phrase(DEV_PHRASE, "").unwrap();
    let keypair = keypair_from_secret(&secret);
    assert_eq!(keypair.len(), 96);

    let direct = schnorrkel::MiniSecretKey::from_bytes(&secret)
        .unwrap()
        .expand_to_keypair(schnorrkel::ExpansionMode::Ed25519);
    assert_eq!(&keypair[64..], &direct.public.to_bytes()[..]);
}

#[test]
fn signatures_verify_under_the_substrate_context() {
    let secret = secret_from_phrase(DEV_PHRASE, "").unwrap();
    let keypair = keypair_from_secret(&secret);
    let message = b"an important message";
    let signature = sign(&keypair[64..], &keypair[..64], message).unwrap();
    assert_eq!(signature.len(), 64);

    let public = schnorrkel::PublicKey::from_bytes(&keypair[64..]).unwrap();
    let sig = schnorrkel::Signature::from_bytes(&signature).unwrap();
    assert!(public.verify_simple(b"substrate", message, &sig).is_ok());
}

#[test]
fn sign_rejects_malformed_keys() {
    assert_eq!(sign(&[0u8; 32], &[0u8; 3], b"m"), Err(AccountError::InvalidKey));
    assert_eq!(sign(&[0u8; 3], &[0u8; 64], b"m"), Err(AccountError::InvalidKey));
}

#[test]
fn alice_address_under_the_generic_format() {
    let address = address_from_public_key(&ALICE_PUBLIC, 42);
    assert_eq!(address, "5GrwvaEF5zXb26Fz9rcQpDWS57CtERHpNehXCPcNoHGKutQY");
}

#[test]
fn two_byte_prefix_formats_match_the_direct_construction() {
    let format: u8 = 100;
    let address = address_from_public_key(&ALICE_PUBLIC, format);

    // The same assembly spelled out directly against the collaborators.
    let prefix = format as u16;
    let mut bytes = vec![
        (((prefix & 0x00fc) as u8) >> 2) | 0x40,
        ((prefix >> 8) as u8) | (((prefix & 0x0003) as u8) << 6),
    ];
    bytes.extend_from_slice(&ALICE_PUBLIC);
    let mut context = blake2_rfc::blake2b::Blake2b::new(64);
    context.update(b"SS58PRE");
    context.update(&bytes);
    let digest = context.finalize();
    bytes.extend_from_slice(&digest.as_bytes()[0..2]);
    assert_eq!(address, base58::ToBase58::to_base58(bytes.as_slice()));
}

#[test]
fn hash_digests_have_their_fixed_lengths() {
    let data = b"runtime metadata";
    assert_eq!(blake2b128(data).len(), 16);
    assert_eq!(xx64(data).len(), 8);
    assert_eq!(xx128(data).len(), 16);
}

#[test]
fn hash_digests_match_the_collaborators() {
    let data = b"storage key";
    assert_eq!(blake2b128(data), sp_core_hashing::blake2_128(data).to_vec());
    assert_eq!(xx64(data), sp_core_hashing::twox_64(data).to_vec());
    assert_eq!(xx128(data), sp_core_hashing::twox_128(data).to_vec());
    assert_ne!(xx64(data), xx64(b"other key"));
}
