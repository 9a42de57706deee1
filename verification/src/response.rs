//! The uniform response envelope and the per-endpoint payload shapes.  The
//! shapes deliberately differ between endpoints and must be preserved.
use vstd::prelude::*;
use crate::errors::ApiError;

verus! {

/// Uniform envelope: exactly one of a payload or an error.
pub enum ApiResponse<T> {
    Success(T),
    Failure(ApiError),
}

/// Payload of keypair generation.
pub struct KeypairResponse {
    pub pubkey: String,
    pub secret: String,
}

/// One account of a mint-creation or mint-to instruction.
pub struct AccountData {
    pub pubkey: String,
    pub is_signer: bool,
    pub is_writable: bool,
}

/// Payload of mint creation and of minting.
pub struct InstructionResponse {
    pub program_id: String,
    pub accounts: Vec<AccountData>,
    pub instruction_data: String,
}

/// Payload of a native-coin transfer; its accounts are plain strings.
pub struct SolTransferResponse {
    pub program_id: String,
    pub accounts: Vec<String>,
    pub instruction_data: String,
}

/// One account of a token transfer; only the signer flag is reported.
pub struct TokenTransferAccount {
    pub pubkey: String,
    pub is_signer: bool,
}

/// Payload of a token transfer.
pub struct TokenTransferResponse {
    pub program_id: String,
    pub accounts: Vec<TokenTransferAccount>,
    pub instruction_data: String,
}

/// Payload of message signing.
pub struct MessageSignResponse {
    pub signature: String,
    pub public_key: String,
    pub message: String,
}

/// Payload of message verification; an invalid signature is a successful
/// verification reporting `valid: false`, not an error.
pub struct MessageVerifyResponse {
    pub valid: bool,
    pub message: String,
    pub pubkey: String,
}

} // verus!
