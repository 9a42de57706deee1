//! Token mint creation and minting: field extraction, validation, and the
//! assembled instruction reported in the shared account/payload shape.
use vstd::prelude::*;
use crate::codec::{base58_of, base64_of};
use crate::errors::ApiError;
use crate::ledger::{build_initialize_mint, build_mint_to, rent_sysvar_id, spl_token_program_id};
use crate::request::{get_required_string, get_required_u64, get_required_u8, required_string,
    SafeJson};
use crate::response::{ApiResponse, InstructionResponse};
use crate::utils::{amount_checked, convert_instruction_to_response, decimals_checked,
    pubkey_checked, validate_amount, validate_decimals, validate_pubkey};

verus! {

use vstd::bytes::spec_u64_to_le_bytes;

/// A request to create a token mint.
pub struct TokenCreateRequest {
    pub mint_authority: Option<String>,
    pub mint: Option<String>,
    pub decimals: Option<u8>,
}

/// A request to mint tokens to an account.
pub struct TokenMintRequest {
    pub mint: Option<String>,
    pub destination: Option<String>,
    pub authority: Option<String>,
    pub amount: Option<u64>,
}

/// The outcome of validating a mint-creation request, in evaluation order:
/// authority, mint and decimals must be present, the decimals at most 9 and
/// both keys valid.  On success: the authority bytes, the mint bytes and the
/// decimals.
pub open spec fn token_create_checked(payload: Option<TokenCreateRequest>) -> Result<
    (Seq<u8>, Seq<u8>, u8),
    ApiError,
> {
    match payload {
        None => Err(ApiError::MissingFields),
        Some(req) => match required_string(req.mint_authority) {
            Some(authority_text) => match required_string(req.mint) {
                Some(mint_text) => match req.decimals {
                    Some(d) => match decimals_checked(d) {
                        Ok(dv) => match pubkey_checked(authority_text) {
                            Some(ab) => match pubkey_checked(mint_text) {
                                Some(mb) => Ok((ab, mb, dv)),
                                None => Err(ApiError::InvalidPublicKey),
                            },
                            None => Err(ApiError::InvalidPublicKey),
                        },
                        Err(e) => Err(e),
                    },
                    None => Err(ApiError::MissingFields),
                },
                None => Err(ApiError::MissingFields),
            },
            None => Err(ApiError::MissingFields),
        },
    }
}

/// Assembles a mint-initialisation instruction.  The authority serves as
/// both mint and freeze authority.  On success the payload shows the token
/// program id, the writable mint account and the read-only rent sysvar, and
/// the packed initialise-mint bytes.
pub fn handle_token_creation(payload: SafeJson<TokenCreateRequest>) -> (r: ApiResponse<
    InstructionResponse>)
    ensures
        match token_create_checked(payload.0) {
            Err(e) => r matches ApiResponse::Failure(f) && f == e,
            Ok(v) => r matches ApiResponse::Success(resp) && {
                &&& resp.program_id@ == base58_of(spl_token_program_id())
                &&& resp.accounts@.len() == 2
                &&& resp.accounts@[0].pubkey@ == base58_of(v.1)
                &&& resp.accounts@[0].is_signer == false
                &&& resp.accounts@[0].is_writable == true
                &&& resp.accounts@[1].pubkey@ == base58_of(rent_sysvar_id())
                &&& resp.accounts@[1].is_signer == false
                &&& resp.accounts@[1].is_writable == false
                &&& resp.instruction_data@ == base64_of(
                    seq![0u8, v.2] + v.0 + seq![1u8] + v.0)
                &&& resp.instruction_data@.len() > 0
            },
        },
{
    let req = match payload.0 {
        Some(req) => req,
        None => { return ApiResponse::Failure(ApiError::MissingFields) },
    };
    let mint_authority = match get_required_string(req.mint_authority, "mintAuthority") {
        Ok(val) => val,
        Err(e) => { return ApiResponse::Failure(e) },
    };
    let mint = match get_required_string(req.mint, "mint") {
        Ok(val) => val,
        Err(e) => { return ApiResponse::Failure(e) },
    };
    let decimals = match get_required_u8(req.decimals, "decimals") {
        Ok(val) => val,
        Err(e) => { return ApiResponse::Failure(e) },
    };
    let validated_decimals = match validate_decimals(decimals) {
        Ok(val) => val,
        Err(e) => { return ApiResponse::Failure(e) },
    };
    let mint_authority_pk = match validate_pubkey(mint_authority.as_str()) {
        Ok(pk) => pk,
        Err(e) => { return ApiResponse::Failure(e) },
    };
    let mint_pk = match validate_pubkey(mint.as_str()) {
        Ok(pk) => pk,
        Err(e) => { return ApiResponse::Failure(e) },
    };
    let instruction = build_initialize_mint(&mint_pk, &mint_authority_pk, validated_decimals);
    let response = convert_instruction_to_response(instruction);
    ApiResponse::Success(response)
}

/// The outcome of validating a minting request, in evaluation order: mint,
/// destination, authority and amount must be present, the amount positive
/// and at most half the 64-bit range, and all three keys valid.  On success:
/// the mint, destination and authority bytes and the amount.
pub open spec fn token_mint_checked(payload: Option<TokenMintRequest>) -> Result<
    (Seq<u8>, Seq<u8>, Seq<u8>, u64),
    ApiError,
> {
    match payload {
        None => Err(ApiError::MissingFields),
        Some(req) => match required_string(req.mint) {
            Some(mint_text) => match required_string(req.destination) {
                Some(dest_text) => match required_string(req.authority) {
                    Some(auth_text) => match req.amount {
                        Some(a) => match amount_checked(a, Some(u64::MAX / 2)) {
                            Ok(av) => match pubkey_checked(mint_text) {
                                Some(mb) => match pubkey_checked(dest_text) {
                                    Some(db) => match pubkey_checked(auth_text) {
                                        Some(ab) => Ok((mb, db, ab, av)),
                                        None => Err(ApiError::InvalidPublicKey),
                                    },
                                    None => Err(ApiError::InvalidPublicKey),
                                },
                                None => Err(ApiError::InvalidPublicKey),
                            },
                            Err(e) => Err(e),
                        },
                        None => Err(ApiError::MissingFields),
                    },
                    None => Err(ApiError::MissingFields),
                },
                None => Err(ApiError::MissingFields),
            },
            None => Err(ApiError::MissingFields),
        },
    }
}

/// Assembles a mint-to instruction.  No same-account check is made here:
/// minting is between a mint and a destination account, and the ceiling on
/// the amount leaves headroom for downstream arithmetic.  On success the
/// payload shows the token program id; the writable mint and destination and
/// the read-only signing authority; and tag 7 with the little-endian amount.
pub fn handle_token_minting(payload: SafeJson<TokenMintRequest>) -> (r: ApiResponse<
    InstructionResponse>)
    ensures
        match token_mint_checked(payload.0) {
            Err(e) => r matches ApiResponse::Failure(f) && f == e,
            Ok(v) => r matches ApiResponse::Success(resp) && {
                &&& resp.program_id@ == base58_of(spl_token_program_id())
                &&& resp.accounts@.len() == 3
                &&& resp.accounts@[0].pubkey@ == base58_of(v.0)
                &&& resp.accounts@[0].is_signer == false
                &&& resp.accounts@[0].is_writable == true
                &&& resp.accounts@[1].pubkey@ == base58_of(v.1)
                &&& resp.accounts@[1].is_signer == false
                &&& resp.accounts@[1].is_writable == true
                &&& resp.accounts@[2].pubkey@ == base58_of(v.2)
                &&& resp.accounts@[2].is_signer == true
                &&& resp.accounts@[2].is_writable == false
                &&& resp.instruction_data@ == base64_of(seq![7u8] + spec_u64_to_le_bytes(v.3))
                &&& resp.instruction_data@.len() > 0
            },
        },
{
    let req = match payload.0 {
        Some(req) => req,
        None => { return ApiResponse::Failure(ApiError::MissingFields) },
    };
    let mint = match get_required_string(req.mint, "mint") {
        Ok(val) => val,
        Err(e) => { return ApiResponse::Failure(e) },
    };
    let destination = match get_required_string(req.destination, "destination") {
        Ok(val) => val,
        Err(e) => { return ApiResponse::Failure(e) },
    };
    let authority = match get_required_string(req.authority, "authority") {
        Ok(val) => val,
        Err(e) => { return ApiResponse::Failure(e) },
    };
    let amount = match get_required_u64(req.amount, "amount") {
        Ok(val) => val,
        Err(e) => { return ApiResponse::Failure(e) },
    };
    let validated_amount = match validate_amount(amount, Some(u64::MAX / 2)) {
        Ok(val) => val,
        Err(e) => { return ApiResponse::Failure(e) },
    };
    let mint_pk = match validate_pubkey(mint.as_str()) {
        Ok(pk) => pk,
        Err(e) => { return ApiResponse::Failure(e) },
    };
    let destination_pk = match validate_pubkey(destination.as_str()) {
        Ok(pk) => pk,
        Err(e) => { return ApiResponse::Failure(e) },
    };
    let authority_pk = match validate_pubkey(authority.as_str()) {
        Ok(pk) => pk,
        Err(e) => { return ApiResponse::Failure(e) },
    };
    let instruction = build_mint_to(&mint_pk, &destination_pk, &authority_pk, validated_amount);
    let response = convert_instruction_to_response(instruction);
    ApiResponse::Success(response)
}

} // verus!
