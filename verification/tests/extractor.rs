use ledger_gateway::errors::ApiError;
use ledger_gateway::message::{handle_message_signing, MessageSignRequest};
use ledger_gateway::request::{get_required_string, get_required_u64, get_required_u8, SafeJson};
use ledger_gateway::response::ApiResponse;
use ledger_gateway::send::{handle_sol_transfer, SolSendRequest};
use ledger_gateway::token::{handle_token_minting, TokenMintRequest};

const UNIT_KEY: &str = "11111111111111111111111111111112";

#[test]
fn required_string_trims_and_rejects_blank() {
    assert_eq!(get_required_string(Some("  value  ".to_string()), "field").unwrap(), "value");
    assert_eq!(get_required_string(Some("value".to_string()), "field").unwrap(), "value");
    assert_eq!(
        get_required_string(Some("   ".to_string()), "field").unwrap_err(),
        ApiError::MissingFields
    );
    assert_eq!(
        get_required_string(Some(String::new()), "field").unwrap_err(),
        ApiError::MissingFields
    );
    assert_eq!(get_required_string(None, "field").unwrap_err(), ApiError::MissingFields);
}

#[test]
fn required_numbers_pass_through_and_reject_absence() {
    assert_eq!(get_required_u64(Some(0), "field").unwrap(), 0);
    assert_eq!(get_required_u64(None, "field").unwrap_err(), ApiError::MissingFields);
    assert_eq!(get_required_u8(Some(7), "field").unwrap(), 7);
    assert_eq!(get_required_u8(None, "field").unwrap_err(), ApiError::MissingFields);
}

#[test]
fn message_at_exactly_the_ceiling_is_accepted() {
    let (secret, message) = (fresh_secret(), "a".repeat(1_000_000));
    let r = handle_message_signing(SafeJson(Some(MessageSignRequest {
        message: Some(message),
        secret: Some(secret),
    })));
    assert!(matches!(r, ApiResponse::Success(_)));
}

#[test]
fn sol_self_transfer_is_deliberately_allowed() {
    let r = handle_sol_transfer(SafeJson(Some(SolSendRequest {
        from: Some(UNIT_KEY.to_string()),
        to: Some(UNIT_KEY.to_string()),
        lamports: Some(10),
    })));
    match r {
        ApiResponse::Success(resp) => {
            assert_eq!(resp.accounts, vec![UNIT_KEY.to_string(), UNIT_KEY.to_string()]);
        }
        ApiResponse::Failure(e) => panic!("self transfer must be allowed, got {:?}", e),
    }
}

#[test]
fn minting_accepts_exactly_half_the_range() {
    let r = handle_token_minting(SafeJson(Some(TokenMintRequest {
        mint: Some(bs58::encode(&[3u8; 32]).into_string()),
        destination: Some(bs58::encode(&[4u8; 32]).into_string()),
        authority: Some(bs58::encode(&[5u8; 32]).into_string()),
        amount: Some(u64::MAX / 2),
    })));
    assert!(matches!(r, ApiResponse::Success(_)));
}

fn fresh_secret() -> String {
    match ledger_gateway::keypair::handle_keypair_generation() {
        ApiResponse::Success(resp) => resp.secret,
        ApiResponse::Failure(_) => panic!("keypair generation cannot fail"),
    }
}
