use base64::Engine as _;
use ledger_gateway::errors::ApiError;
use ledger_gateway::keypair::handle_keypair_generation;
use ledger_gateway::message::{
    handle_message_signing, handle_message_verification, signed_message_verifies,
    MessageSignRequest, MessageVerifyRequest,
};
use ledger_gateway::request::SafeJson;
use ledger_gateway::response::ApiResponse;
use ledger_gateway::send::{handle_sol_transfer, handle_token_transfer, SolSendRequest,
    TokenSendRequest};
use ledger_gateway::token::{handle_token_creation, handle_token_minting, TokenCreateRequest,
    TokenMintRequest};
use ledger_gateway::utils::parse_secret_key;

const UNIT_KEY: &str = "11111111111111111111111111111112";

fn fresh_keypair() -> (String, String) {
    match handle_keypair_generation() {
        ApiResponse::Success(resp) => (resp.pubkey, resp.secret),
        ApiResponse::Failure(_) => panic!("keypair generation cannot fail"),
    }
}

fn b64(data: &str) -> Vec<u8> {
    base64::engine::general_purpose::STANDARD
        .decode(data)
        .expect("payload must be valid base64")
}

fn key_of(text: &str) -> String {
    assert_eq!(text.len(), 32, "test key material must be exactly 32 bytes");
    bs58::encode(text.as_bytes()).into_string()
}

#[test]
fn keypair_payload_is_consistent_base58() {
    let (pubkey, secret) = fresh_keypair();
    let material = bs58::decode(&secret).into_vec().expect("secret must be base58");
    assert_eq!(material.len(), 64);
    let public = bs58::decode(&pubkey).into_vec().expect("pubkey must be base58");
    assert_eq!(public, material[32..].to_vec());
}

#[test]
fn sign_hello_yields_64_byte_signature_that_verifies() {
    let (pubkey, secret) = fresh_keypair();
    let resp = match handle_message_signing(SafeJson(Some(MessageSignRequest {
        message: Some("hello".to_string()),
        secret: Some(secret.clone()),
    }))) {
        ApiResponse::Success(resp) => resp,
        ApiResponse::Failure(e) => panic!("signing must succeed, got {:?}", e),
    };
    assert_eq!(resp.public_key, pubkey);
    assert_eq!(resp.message, "hello");
    let sig = b64(&resp.signature);
    assert_eq!(sig.len(), 64);
    // The signature matches what the crypto library computes directly.
    let material = bs58::decode(&secret).into_vec().unwrap();
    let kp = solana_sdk::signature::Keypair::try_from(&material[..]).unwrap();
    let direct = solana_sdk::signer::Signer::sign_message(&kp, b"hello");
    assert_eq!(sig, direct.as_ref().to_vec());
    let verdict = match handle_message_verification(SafeJson(Some(MessageVerifyRequest {
        message: Some("hello".to_string()),
        signature: Some(resp.signature),
        pubkey: Some(resp.public_key),
    }))) {
        ApiResponse::Success(v) => v,
        ApiResponse::Failure(e) => panic!("verification must succeed, got {:?}", e),
    };
    assert!(verdict.valid);
    assert_eq!(verdict.message, "hello");
}

#[test]
fn tampering_flips_verification_to_false_without_erroring() {
    let (pubkey, secret) = fresh_keypair();
    let signed = match handle_message_signing(SafeJson(Some(MessageSignRequest {
        message: Some("hello".to_string()),
        secret: Some(secret),
    }))) {
        ApiResponse::Success(resp) => resp,
        ApiResponse::Failure(_) => panic!("signing must succeed"),
    };
    // A different message.
    let wrong_message = match handle_message_verification(SafeJson(Some(MessageVerifyRequest {
        message: Some("hellp".to_string()),
        signature: Some(signed.signature.clone()),
        pubkey: Some(pubkey.clone()),
    }))) {
        ApiResponse::Success(v) => v,
        ApiResponse::Failure(_) => panic!("well-formed input must not error"),
    };
    assert!(!wrong_message.valid);
    // A flipped signature byte.
    let mut sig = b64(&signed.signature);
    sig[10] ^= 0x01;
    let flipped = base64::engine::general_purpose::STANDARD.encode(&sig);
    let wrong_sig = match handle_message_verification(SafeJson(Some(MessageVerifyRequest {
        message: Some("hello".to_string()),
        signature: Some(flipped),
        pubkey: Some(pubkey),
    }))) {
        ApiResponse::Success(v) => v,
        ApiResponse::Failure(_) => panic!("well-formed input must not error"),
    };
    assert!(!wrong_sig.valid);
    // A different, valid public key.
    let (other_pubkey, _) = fresh_keypair();
    let wrong_key = match handle_message_verification(SafeJson(Some(MessageVerifyRequest {
        message: Some("hello".to_string()),
        signature: Some(signed.signature),
        pubkey: Some(other_pubkey),
    }))) {
        ApiResponse::Success(v) => v,
        ApiResponse::Failure(_) => panic!("well-formed input must not error"),
    };
    assert!(!wrong_key.valid);
}

#[test]
fn sign_then_verify_law_on_parsed_material() {
    let (_, secret) = fresh_keypair();
    let sk = parse_secret_key(&secret).expect("generated secret must parse");
    assert!(signed_message_verifies(&sk, b"any message at all"));
}

#[test]
fn signing_errors_are_reported_in_order() {
    let missing = handle_message_signing(SafeJson(None));
    assert!(matches!(missing, ApiResponse::Failure(ApiError::MissingFields)));
    let empty = handle_message_signing(SafeJson(Some(MessageSignRequest {
        message: Some(String::new()),
        secret: Some("x".to_string()),
    })));
    assert!(matches!(empty, ApiResponse::Failure(ApiError::MissingFields)));
    let (_, secret) = fresh_keypair();
    let long = handle_message_signing(SafeJson(Some(MessageSignRequest {
        message: Some("a".repeat(1_000_001)),
        secret: Some(secret),
    })));
    match long {
        ApiResponse::Failure(e) => {
            assert_eq!(e, ApiError::MessageTooLong);
            assert_eq!(e.message(), "Message too long");
        }
        ApiResponse::Success(_) => panic!("oversized message must be rejected"),
    }
    let bad_secret = handle_message_signing(SafeJson(Some(MessageSignRequest {
        message: Some("hello".to_string()),
        secret: Some("tooshort".to_string()),
    })));
    assert!(matches!(bad_secret, ApiResponse::Failure(ApiError::InvalidSecretKey)));
}

#[test]
fn verification_rejects_malformed_signatures() {
    let (pubkey, _) = fresh_keypair();
    let not_base64 = handle_message_verification(SafeJson(Some(MessageVerifyRequest {
        message: Some("hello".to_string()),
        signature: Some("!!!not-base64!!!".to_string()),
        pubkey: Some(pubkey.clone()),
    })));
    match not_base64 {
        ApiResponse::Failure(e) => {
            assert_eq!(e, ApiError::InvalidSignatureEncoding);
            assert_eq!(e.message(), "Invalid signature: Invalid base64 encoding");
        }
        ApiResponse::Success(_) => panic!("bad base64 must be rejected"),
    }
    let ten_bytes = base64::engine::general_purpose::STANDARD.encode([1u8; 10]);
    let short = handle_message_verification(SafeJson(Some(MessageVerifyRequest {
        message: Some("hello".to_string()),
        signature: Some(ten_bytes),
        pubkey: Some(pubkey),
    })));
    assert!(matches!(short, ApiResponse::Failure(ApiError::InvalidSignatureLength)));
}

#[test]
fn create_mint_with_decimals_nine_succeeds() {
    let mint = key_of("mint-number-one-for-the-create-e");
    let authority = key_of("authority-number-one-for-create-");
    let resp = match handle_token_creation(SafeJson(Some(TokenCreateRequest {
        mint_authority: Some(authority.clone()),
        mint: Some(mint.clone()),
        decimals: Some(9),
    }))) {
        ApiResponse::Success(resp) => resp,
        ApiResponse::Failure(e) => panic!("creation must succeed, got {:?}", e),
    };
    assert_eq!(resp.program_id, "TokenkegQfeZyiNwAJbNbGKPFXCWuBvf9Ss623VQ5DA");
    assert!(!resp.instruction_data.is_empty());
    assert_eq!(resp.accounts.len(), 2);
    assert_eq!(resp.accounts[0].pubkey, mint);
    assert!(!resp.accounts[0].is_signer);
    assert!(resp.accounts[0].is_writable);
    // The packed payload carries the authority key twice: as mint authority
    // and as present freeze authority.
    let data = b64(&resp.instruction_data);
    let authority_bytes = bs58::decode(&authority).into_vec().unwrap();
    let mut expected = vec![0u8, 9];
    expected.extend_from_slice(&authority_bytes);
    expected.push(1);
    expected.extend_from_slice(&authority_bytes);
    assert_eq!(data, expected);
}

#[test]
fn create_mint_rejects_decimals_ten() {
    let r = handle_token_creation(SafeJson(Some(TokenCreateRequest {
        mint_authority: Some(key_of("authority-number-one-for-create-")),
        mint: Some(key_of("mint-number-one-for-the-create-e")),
        decimals: Some(10),
    })));
    match r {
        ApiResponse::Failure(e) => {
            assert_eq!(e, ApiError::InvalidDecimals);
            assert_eq!(e.message(), "Invalid decimals: must be between 0 and 9");
        }
        ApiResponse::Success(_) => panic!("decimals 10 must be rejected"),
    }
}

#[test]
fn mint_to_packs_tag_and_little_endian_amount() {
    let mint = key_of("mint-number-one-for-the-minting-");
    let destination = key_of("destination-number-one-for-mint-");
    let authority = key_of("authority-number-one-for-minting");
    let resp = match handle_token_minting(SafeJson(Some(TokenMintRequest {
        mint: Some(mint.clone()),
        destination: Some(destination.clone()),
        authority: Some(authority.clone()),
        amount: Some(0x0102030405060708),
    }))) {
        ApiResponse::Success(resp) => resp,
        ApiResponse::Failure(e) => panic!("minting must succeed, got {:?}", e),
    };
    assert_eq!(resp.accounts.len(), 3);
    assert_eq!(resp.accounts[0].pubkey, mint);
    assert_eq!(resp.accounts[1].pubkey, destination);
    assert_eq!(resp.accounts[2].pubkey, authority);
    assert!(resp.accounts[2].is_signer);
    assert_eq!(
        b64(&resp.instruction_data),
        vec![7u8, 0x08, 0x07, 0x06, 0x05, 0x04, 0x03, 0x02, 0x01]
    );
}

#[test]
fn mint_to_rejects_amount_above_half_range() {
    let r = handle_token_minting(SafeJson(Some(TokenMintRequest {
        mint: Some(key_of("mint-number-one-for-the-minting-")),
        destination: Some(key_of("destination-number-one-for-mint-")),
        authority: Some(key_of("authority-number-one-for-minting")),
        amount: Some(u64::MAX / 2 + 1),
    })));
    match r {
        ApiResponse::Failure(e) => {
            assert_eq!(e, ApiError::InvalidAmountTooLarge);
            assert_eq!(e.message(), "Invalid amount: amount too large");
        }
        ApiResponse::Success(_) => panic!("oversized amount must be rejected"),
    }
}

#[test]
fn sol_transfer_reports_accounts_and_payload_exactly() {
    let from = UNIT_KEY.to_string();
    let to = key_of("recipient-number-one-for-lampor-");
    let resp = match handle_sol_transfer(SafeJson(Some(SolSendRequest {
        from: Some(from.clone()),
        to: Some(to.clone()),
        lamports: Some(1),
    }))) {
        ApiResponse::Success(resp) => resp,
        ApiResponse::Failure(e) => panic!("transfer must succeed, got {:?}", e),
    };
    assert_eq!(resp.program_id, "11111111111111111111111111111111");
    assert_eq!(resp.accounts, vec![from, to]);
    assert_eq!(b64(&resp.instruction_data), vec![2u8, 0, 0, 0, 1, 0, 0, 0, 0, 0, 0, 0]);
}

#[test]
fn sol_transfer_with_zero_lamports_reports_the_amount_error() {
    let r = handle_sol_transfer(SafeJson(Some(SolSendRequest {
        from: Some(UNIT_KEY.to_string()),
        to: Some(key_of("recipient-number-one-for-lampor-")),
        lamports: Some(0),
    })));
    match r {
        ApiResponse::Failure(e) => {
            assert_eq!(e, ApiError::InvalidAmountZero);
            assert!(e.message().contains("must be greater than 0"));
        }
        ApiResponse::Success(_) => panic!("zero lamports must be rejected"),
    }
}

#[test]
fn sol_transfer_rejects_lamports_above_ceiling() {
    let r = handle_sol_transfer(SafeJson(Some(SolSendRequest {
        from: Some(UNIT_KEY.to_string()),
        to: Some(key_of("recipient-number-one-for-lampor-")),
        lamports: Some(1_000_000_000_000_000_001),
    })));
    assert!(matches!(r, ApiResponse::Failure(ApiError::InvalidAmountTooLarge)));
    let ok = handle_sol_transfer(SafeJson(Some(SolSendRequest {
        from: Some(UNIT_KEY.to_string()),
        to: Some(key_of("recipient-number-one-for-lampor-")),
        lamports: Some(1_000_000_000_000_000_000),
    })));
    assert!(matches!(ok, ApiResponse::Success(_)));
}

#[test]
fn token_transfer_to_self_always_collides() {
    let owner = key_of("owner-number-one-for-token-send-");
    let r = handle_token_transfer(SafeJson(Some(TokenSendRequest {
        destination: Some(owner.clone()),
        mint: Some(key_of("mint-number-one-for-token-send-e")),
        owner: Some(owner),
        amount: Some(5),
    })));
    match r {
        ApiResponse::Failure(e) => {
            assert_eq!(e, ApiError::SameAccountTransfer);
            assert_eq!(e.message(), "Cannot transfer to the same token account");
        }
        ApiResponse::Success(_) => panic!("self transfer must be rejected"),
    }
}

#[test]
fn token_transfer_between_distinct_owners_never_collides() {
    let owner = key_of("owner-number-one-for-token-send-");
    let destination = key_of("destination-number-one-for-send-");
    let mint = key_of("mint-number-one-for-token-send-e");
    let resp = match handle_token_transfer(SafeJson(Some(TokenSendRequest {
        destination: Some(destination.clone()),
        mint: Some(mint.clone()),
        owner: Some(owner.clone()),
        amount: Some(5),
    }))) {
        ApiResponse::Success(resp) => resp,
        ApiResponse::Failure(e) => panic!("distinct owners must not collide, got {:?}", e),
    };
    assert_eq!(resp.program_id, "TokenkegQfeZyiNwAJbNbGKPFXCWuBvf9Ss623VQ5DA");
    assert_eq!(resp.accounts.len(), 3);
    // The derived source and destination accounts match the program
    // library's own derivation.
    let owner_pk = solana_sdk::pubkey::Pubkey::try_from(
        bs58::decode(&owner).into_vec().unwrap().as_slice()).unwrap();
    let dest_pk = solana_sdk::pubkey::Pubkey::try_from(
        bs58::decode(&destination).into_vec().unwrap().as_slice()).unwrap();
    let mint_pk = solana_sdk::pubkey::Pubkey::try_from(
        bs58::decode(&mint).into_vec().unwrap().as_slice()).unwrap();
    let src = spl_associated_token_account::get_associated_token_address(&owner_pk, &mint_pk);
    let dst = spl_associated_token_account::get_associated_token_address(&dest_pk, &mint_pk);
    assert_eq!(resp.accounts[0].pubkey, src.to_string());
    assert_eq!(resp.accounts[1].pubkey, dst.to_string());
    assert_eq!(resp.accounts[2].pubkey, owner);
    assert!(resp.accounts[2].is_signer);
    assert!(!resp.accounts[0].is_signer);
    assert_eq!(b64(&resp.instruction_data), vec![3u8, 5, 0, 0, 0, 0, 0, 0, 0]);
}

#[test]
fn missing_fields_are_one_uniform_error() {
    let r = handle_token_creation(SafeJson(Some(TokenCreateRequest {
        mint_authority: Some("   ".to_string()),
        mint: Some(key_of("mint-number-one-for-the-create-e")),
        decimals: Some(1),
    })));
    match r {
        ApiResponse::Failure(e) => {
            assert_eq!(e, ApiError::MissingFields);
            assert_eq!(e.message(), "Missing required fields");
        }
        ApiResponse::Success(_) => panic!("blank field must be missing"),
    }
    let r2 = handle_sol_transfer(SafeJson(Some(SolSendRequest {
        from: Some(UNIT_KEY.to_string()),
        to: None,
        lamports: Some(1),
    })));
    assert!(matches!(r2, ApiResponse::Failure(ApiError::MissingFields)));
    let r3 = handle_token_minting(SafeJson(None));
    assert!(matches!(r3, ApiResponse::Failure(ApiError::MissingFields)));
}
