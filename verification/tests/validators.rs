use ledger_gateway::errors::ApiError;
use ledger_gateway::utils::{parse_secret_key, validate_amount, validate_decimals, validate_pubkey};

// Base58 of 31 zero bytes followed by 0x01: a valid, non-default 32-byte key.
const UNIT_KEY: &str = "11111111111111111111111111111112";
// Base58 of 32 zero bytes: the reserved default key.
const ZERO_KEY: &str = "11111111111111111111111111111111";

#[test]
fn accepts_valid_key_and_returns_its_bytes() {
    let pk = validate_pubkey(UNIT_KEY).expect("valid key must be accepted");
    let mut expected = [0u8; 32];
    expected[31] = 1;
    assert_eq!(pk.bytes, expected.to_vec());
}

#[test]
fn accepts_arbitrary_valid_32_byte_keys() {
    let text = bs58::encode(&[7u8; 32]).into_string();
    let pk = validate_pubkey(&text).expect("valid key must be accepted");
    assert_eq!(pk.bytes, vec![7u8; 32]);
}

#[test]
fn accepts_valid_key_with_surrounding_whitespace() {
    let padded = format!("  {}  ", UNIT_KEY);
    let pk = validate_pubkey(&padded).expect("trimmed key must be accepted");
    assert_eq!(pk.bytes.len(), 32);
}

#[test]
fn rejects_the_all_zero_default_key() {
    assert_eq!(validate_pubkey(ZERO_KEY).unwrap_err(), ApiError::InvalidPublicKey);
}

#[test]
fn rejects_text_shorter_than_32_characters() {
    assert_eq!(validate_pubkey("abc").unwrap_err(), ApiError::InvalidPublicKey);
}

#[test]
fn rejects_text_longer_than_50_characters() {
    let long = bs58::encode(&[9u8; 40]).into_string();
    assert!(long.len() > 50);
    assert_eq!(validate_pubkey(&long).unwrap_err(), ApiError::InvalidPublicKey);
}

#[test]
fn rejects_decoded_length_other_than_32_bytes() {
    // 24 bytes encode to a string whose length falls inside [32, 50].
    let text = bs58::encode(&[8u8; 24]).into_string();
    assert!(text.len() >= 32 && text.len() <= 50);
    assert_eq!(validate_pubkey(&text).unwrap_err(), ApiError::InvalidPublicKey);
}

#[test]
fn rejects_ambiguous_glyphs_and_bad_base58() {
    let with_zero = format!("0{}", &UNIT_KEY[1..]);
    assert_eq!(validate_pubkey(&with_zero).unwrap_err(), ApiError::InvalidPublicKey);
    let with_ell = format!("l{}", &UNIT_KEY[1..]);
    assert_eq!(validate_pubkey(&with_ell).unwrap_err(), ApiError::InvalidPublicKey);
}

#[test]
fn rejects_empty_and_blank_key_text() {
    assert_eq!(validate_pubkey("").unwrap_err(), ApiError::InvalidPublicKey);
    assert_eq!(validate_pubkey("   ").unwrap_err(), ApiError::InvalidPublicKey);
}

#[test]
fn amount_zero_always_fails() {
    assert_eq!(validate_amount(0, None).unwrap_err(), ApiError::InvalidAmountZero);
    assert_eq!(validate_amount(0, Some(10)).unwrap_err(), ApiError::InvalidAmountZero);
    assert_eq!(
        validate_amount(0, None).unwrap_err().message(),
        "Invalid amount: must be greater than 0"
    );
}

#[test]
fn amount_fails_exactly_above_the_ceiling() {
    assert_eq!(validate_amount(11, Some(10)).unwrap_err(), ApiError::InvalidAmountTooLarge);
    assert_eq!(validate_amount(10, Some(10)).unwrap(), 10);
    assert_eq!(validate_amount(1, Some(10)).unwrap(), 1);
    assert_eq!(validate_amount(u64::MAX, None).unwrap(), u64::MAX);
}

#[test]
fn decimals_accept_zero_through_nine() {
    for d in 0u8..=9 {
        assert_eq!(validate_decimals(d).unwrap(), d);
    }
}

#[test]
fn decimals_reject_ten_and_two_fifty_five() {
    assert_eq!(validate_decimals(10).unwrap_err(), ApiError::InvalidDecimals);
    assert_eq!(validate_decimals(255).unwrap_err(), ApiError::InvalidDecimals);
}

#[test]
fn secret_key_round_trips_through_base58() {
    let kp = solana_sdk::signature::Keypair::new();
    let text = bs58::encode(kp.to_bytes()).into_string();
    let sk = parse_secret_key(&text).expect("valid secret must parse");
    assert_eq!(sk.bytes, kp.to_bytes().to_vec());
}

#[test]
fn secret_key_rejects_bad_lengths_and_mismatched_halves() {
    assert_eq!(parse_secret_key("short").unwrap_err(), ApiError::InvalidSecretKey);
    let bad_len = bs58::encode(&[1u8; 63]).into_string();
    assert_eq!(parse_secret_key(&bad_len).unwrap_err(), ApiError::InvalidSecretKey);
    // 64 bytes whose second half is not the derived public key.
    let mut bytes = solana_sdk::signature::Keypair::new().to_bytes();
    bytes[40] ^= 0xff;
    let text = bs58::encode(&bytes[..]).into_string();
    assert_eq!(parse_secret_key(&text).unwrap_err(), ApiError::InvalidSecretKey);
}
