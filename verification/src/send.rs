//! Native-coin and token transfers: field extraction, validation, the
//! same-account invariant on token transfers, and the assembled instruction
//! in each endpoint's own response shape.
use vstd::prelude::*;
use crate::codec::{base58_encode, base58_of, base64_encode, base64_of};
use crate::errors::ApiError;
use crate::ledger::{build_system_transfer, build_token_transfer, derive_token_account,
    derived_token_account, spl_token_program_id, system_program_id};
use crate::request::{get_required_string, get_required_u64, required_string, SafeJson};
use crate::response::{ApiResponse, SolTransferResponse, TokenTransferAccount,
    TokenTransferResponse};
use crate::utils::{amount_checked, pubkey_checked, validate_amount, validate_pubkey};

verus! {

use vstd::bytes::spec_u64_to_le_bytes;

/// The ceiling on a lamport transfer: one billion native coins expressed in
/// lamports.
pub const MAX_LAMPORTS: u64 = 1_000_000_000 * 1_000_000_000;

/// A request to transfer lamports.
pub struct SolSendRequest {
    pub from: Option<String>,
    pub to: Option<String>,
    pub lamports: Option<u64>,
}

/// A request to transfer tokens of a mint between owners.
pub struct TokenSendRequest {
    pub destination: Option<String>,
    pub mint: Option<String>,
    pub owner: Option<String>,
    pub amount: Option<u64>,
}

/// The outcome of validating a lamport transfer, in evaluation order: from,
/// to and lamports must be present, the lamports positive and at most the
/// ceiling, and both keys valid.  On success: the source bytes, the
/// recipient bytes and the lamports.
pub open spec fn sol_send_checked(payload: Option<SolSendRequest>) -> Result<
    (Seq<u8>, Seq<u8>, u64),
    ApiError,
> {
    match payload {
        None => Err(ApiError::MissingFields),
        Some(req) => match required_string(req.from) {
            Some(from_text) => match required_string(req.to) {
                Some(to_text) => match req.lamports {
                    Some(l) => match amount_checked(l, Some(MAX_LAMPORTS)) {
                        Ok(lv) => match pubkey_checked(from_text) {
                            Some(fb) => match pubkey_checked(to_text) {
                                Some(tb) => Ok((fb, tb, lv)),
                                None => Err(ApiError::InvalidPublicKey),
                            },
                            None => Err(ApiError::InvalidPublicKey),
                        },
                        Err(e) => Err(e),
                    },
                    None => Err(ApiError::MissingFields),
                },
                None => Err(ApiError::MissingFields),
            },
            None => Err(ApiError::MissingFields),
        },
    }
}

/// Assembles a system transfer.  A self-transfer (`from == to`) is
/// syntactically valid and deliberately not rejected: it yields a valid, if
/// useless, instruction.  On success the payload shows the system program
/// id, the two account keys as plain strings, and the transfer payload of
/// variant index 2 with the little-endian lamports.
pub fn handle_sol_transfer(payload: SafeJson<SolSendRequest>) -> (r: ApiResponse<
    SolTransferResponse>)
    ensures
        match sol_send_checked(payload.0) {
            Err(e) => r matches ApiResponse::Failure(f) && f == e,
            Ok(v) => r matches ApiResponse::Success(resp) && {
                &&& resp.program_id@ == base58_of(system_program_id())
                &&& resp.accounts@.len() == 2
                &&& resp.accounts@[0]@ == base58_of(v.0)
                &&& resp.accounts@[1]@ == base58_of(v.1)
                &&& resp.instruction_data@ == base64_of(
                    seq![2u8, 0u8, 0u8, 0u8] + spec_u64_to_le_bytes(v.2))
            },
        },
{
    let req = match payload.0 {
        Some(req) => req,
        None => { return ApiResponse::Failure(ApiError::MissingFields) },
    };
    let from = match get_required_string(req.from, "from") {
        Ok(val) => val,
        Err(e) => { return ApiResponse::Failure(e) },
    };
    let to = match get_required_string(req.to, "to") {
        Ok(val) => val,
        Err(e) => { return ApiResponse::Failure(e) },
    };
    let lamports = match get_required_u64(req.lamports, "lamports") {
        Ok(val) => val,
        Err(e) => { return ApiResponse::Failure(e) },
    };
    let validated_lamports = match validate_amount(lamports, Some(MAX_LAMPORTS)) {
        Ok(val) => val,
        Err(e) => { return ApiResponse::Failure(e) },
    };
    let from_pk = match validate_pubkey(from.as_str()) {
        Ok(pk) => pk,
        Err(e) => { return ApiResponse::Failure(e) },
    };
    let to_pk = match validate_pubkey(to.as_str()) {
        Ok(pk) => pk,
        Err(e) => { return ApiResponse::Failure(e) },
    };
    let instruction = build_system_transfer(&from_pk, &to_pk, validated_lamports);
    let mut accounts: Vec<String> = Vec::new();
    let mut i: usize = 0;
    while i < instruction.accounts.len()
        invariant
            0 <= i <= instruction.accounts@.len(),
            instruction.wf(),
            accounts@.len() == i,
            forall|j: int| 0 <= j < i ==> (#[trigger] accounts@[j])@ == base58_of(
                instruction.accounts@[j].pubkey@),
        decreases instruction.accounts@.len() - i,
    {
        let acc = &instruction.accounts[i];
        accounts.push(base58_encode(acc.pubkey.bytes.as_slice()));
        i = i + 1;
    }
    ApiResponse::Success(SolTransferResponse {
        program_id: base58_encode(instruction.program_id.bytes.as_slice()),
        accounts,
        instruction_data: base64_encode(instruction.data.as_slice()),
    })
}

/// The outcome of validating a token transfer, in evaluation order:
/// destination, mint, owner and amount must be present, the amount positive
/// and at most half the 64-bit range, and all three keys valid.  On success:
/// the destination, mint and owner bytes and the amount.
pub open spec fn token_send_checked(payload: Option<TokenSendRequest>) -> Result<
    (Seq<u8>, Seq<u8>, Seq<u8>, u64),
    ApiError,
> {
    match payload {
        None => Err(ApiError::MissingFields),
        Some(req) => match required_string(req.destination) {
            Some(dest_text) => match required_string(req.mint) {
                Some(mint_text) => match required_string(req.owner) {
                    Some(owner_text) => match req.amount {
                        Some(a) => match amount_checked(a, Some(u64::MAX / 2)) {
                            Ok(av) => match pubkey_checked(dest_text) {
                                Some(db) => match pubkey_checked(mint_text) {
                                    Some(mb) => match pubkey_checked(owner_text) {
                                        Some(ob) => Ok((db, mb, ob, av)),
                                        None => Err(ApiError::InvalidPublicKey),
                                    },
                                    None => Err(ApiError::InvalidPublicKey),
                                },
                                None => Err(ApiError::InvalidPublicKey),
                            },
                            Err(e) => Err(e),
                        },
                        None => Err(ApiError::MissingFields),
                    },
                    None => Err(ApiError::MissingFields),
                },
                None => Err(ApiError::MissingFields),
            },
            None => Err(ApiError::MissingFields),
        },
    }
}

/// Assembles a token transfer between the owner's and the destination's
/// associated token accounts for the mint.  When the two derived accounts
/// coincide — in particular whenever owner and destination are the same
/// key — the transfer is rejected as a protocol-level no-op; that is the one
/// same-account check the assembler enforces.  On success the payload shows
/// the token program id; the derived source and destination accounts and the
/// signing owner; and tag 3 with the little-endian amount.
pub fn handle_token_transfer(payload: SafeJson<TokenSendRequest>) -> (r: ApiResponse<
    TokenTransferResponse>)
    ensures
        match token_send_checked(payload.0) {
            Err(e) => r matches ApiResponse::Failure(f) && f == e,
            Ok(v) => {
                let src = derived_token_account(v.2, v.1);
                let dst = derived_token_account(v.0, v.1);
                if src == dst {
                    r matches ApiResponse::Failure(f) && f == ApiError::SameAccountTransfer
                } else {
                    r matches ApiResponse::Success(resp) && {
                        &&& resp.program_id@ == base58_of(spl_token_program_id())
                        &&& resp.accounts@.len() == 3
                        &&& resp.accounts@[0].pubkey@ == base58_of(src)
                        &&& resp.accounts@[0].is_signer == false
                        &&& resp.accounts@[1].pubkey@ == base58_of(dst)
                        &&& resp.accounts@[1].is_signer == false
                        &&& resp.accounts@[2].pubkey@ == base58_of(v.2)
                        &&& resp.accounts@[2].is_signer == true
                        &&& resp.instruction_data@ == base64_of(
                            seq![3u8] + spec_u64_to_le_bytes(v.3))
                    }
                }
            },
        },
        // A transfer whose validated owner and destination are the same key
        // always collides on the derived account and is rejected.
        (token_send_checked(payload.0) matches Ok(v) && v.0 == v.2) ==> (
            r matches ApiResponse::Failure(f) && f == ApiError::SameAccountTransfer),
        // The collision error arises only from an actual collision of the
        // derived accounts, never otherwise.
        (r matches ApiResponse::Failure(f) && f == ApiError::SameAccountTransfer) ==> (
            token_send_checked(payload.0) matches Ok(v) && derived_token_account(v.2, v.1)
                == derived_token_account(v.0, v.1)),
{
    let req = match payload.0 {
        Some(req) => req,
        None => { return ApiResponse::Failure(ApiError::MissingFields) },
    };
    let destination = match get_required_string(req.destination, "destination") {
        Ok(val) => val,
        Err(e) => { return ApiResponse::Failure(e) },
    };
    let mint = match get_required_string(req.mint, "mint") {
        Ok(val) => val,
        Err(e) => { return ApiResponse::Failure(e) },
    };
    let owner = match get_required_string(req.owner, "owner") {
        Ok(val) => val,
        Err(e) => { return ApiResponse::Failure(e) },
    };
    let amount = match get_required_u64(req.amount, "amount") {
        Ok(val) => val,
        Err(e) => { return ApiResponse::Failure(e) },
    };
    let validated_amount = match validate_amount(amount, Some(u64::MAX / 2)) {
        Ok(val) => val,
        Err(e) => { return ApiResponse::Failure(e) },
    };
    let destination_pk = match validate_pubkey(destination.as_str()) {
        Ok(pk) => pk,
        Err(e) => { return ApiResponse::Failure(e) },
    };
    let mint_pk = match validate_pubkey(mint.as_str()) {
        Ok(pk) => pk,
        Err(e) => { return ApiResponse::Failure(e) },
    };
    let owner_pk = match validate_pubkey(owner.as_str()) {
        Ok(pk) => pk,
        Err(e) => { return ApiResponse::Failure(e) },
    };
    let source_token_account = derive_token_account(&owner_pk, &mint_pk);
    let dest_token_account = derive_token_account(&destination_pk, &mint_pk);
    if source_token_account.same_key(&dest_token_account) {
        return ApiResponse::Failure(ApiError::SameAccountTransfer);
    }
    let instruction = build_token_transfer(&source_token_account, &dest_token_account, &owner_pk,
        validated_amount);
    let mut accounts: Vec<TokenTransferAccount> = Vec::new();
    let mut i: usize = 0;
    while i < instruction.accounts.len()
        invariant
            0 <= i <= instruction.accounts@.len(),
            instruction.wf(),
            accounts@.len() == i,
            forall|j: int| 0 <= j < i ==> {
                &&& (#[trigger] accounts@[j]).pubkey@ == base58_of(
                    instruction.accounts@[j].pubkey@)
                &&& accounts@[j].is_signer == instruction.accounts@[j].is_signer
            },
        decreases instruction.accounts@.len() - i,
    {
        let acc = &instruction.accounts[i];
        accounts.push(TokenTransferAccount {
            pubkey: base58_encode(acc.pubkey.bytes.as_slice()),
            is_signer: acc.is_signer,
        });
        i = i + 1;
    }
    ApiResponse::Success(TokenTransferResponse {
        program_id: base58_encode(instruction.program_id.bytes.as_slice()),
        accounts,
        instruction_data: base64_encode(instruction.data.as_slice()),
    })
}

} // verus!
