//! Domain validators: public-key strings, secret-key strings, amounts and
//! decimals; and the re-shaping of an instruction into its response form.
//! Every validator is a pure function from its input to a typed value or an
//! error, with the outcome pinned down exactly by its contract.
use vstd::prelude::*;
use crate::codec::{
    base58_decode, base58_decoded, base58_encode, base58_of, base64_encode, base64_of, trim_text,
    trimmed_of,
};
use crate::errors::ApiError;
use crate::keys::{keypair_bytes_valid, keypair_pubkey_bytes, PublicKey, SecretKey};
use crate::ledger::InstructionDescriptor;
use crate::response::{AccountData, InstructionResponse};

verus! {

use vstd::utf8::encode_utf8;

/// Whether every byte of `b` is zero: the reserved default key is all-zero.
pub open spec fn all_zero(b: Seq<u8>) -> bool {
    forall|i: int| 0 <= i < b.len() ==> b[i] == 0
}

/// The outcome of public-key validation on the characters of the input:
/// after trimming, the text must be 32 to 50 bytes long and decode as base58
/// to exactly 32 bytes that are not the all-zero default key.  The base58
/// alphabet contains none of the visually ambiguous glyphs `0`, `O`, `I`,
/// `l`, so the decode step rejects them uniformly.
pub open spec fn pubkey_checked(s: Seq<char>) -> Option<Seq<u8>> {
    let t = trimmed_of(s);
    if encode_utf8(t).len() < 32 || encode_utf8(t).len() > 50 {
        None
    } else {
        match base58_decoded(t) {
            Some(b) => if b.len() == 32 && !all_zero(b) {
                Some(b)
            } else {
                None
            },
            None => None,
        }
    }
}

/// The outcome of secret-key validation on the characters of the input:
/// after trimming, the text must be 80 to 90 bytes long and decode as base58
/// to exactly 64 bytes that reconstruct into a signing keypair.
pub open spec fn secret_checked(s: Seq<char>) -> Option<Seq<u8>> {
    let t = trimmed_of(s);
    if encode_utf8(t).len() < 80 || encode_utf8(t).len() > 90 {
        None
    } else {
        match base58_decoded(t) {
            Some(b) => if b.len() == 64 && keypair_bytes_valid(b) {
                Some(b)
            } else {
                None
            },
            None => None,
        }
    }
}

/// The outcome of amount validation: zero is always rejected, and a value
/// above the supplied ceiling is rejected.
pub open spec fn amount_checked(amount: u64, max_allowed: Option<u64>) -> Result<u64, ApiError> {
    if amount == 0 {
        Err(ApiError::InvalidAmountZero)
    } else if max_allowed matches Some(m) && amount > m {
        Err(ApiError::InvalidAmountTooLarge)
    } else {
        Ok(amount)
    }
}

/// The outcome of decimals validation: values above 9 are rejected.
pub open spec fn decimals_checked(decimals: u8) -> Result<u8, ApiError> {
    if decimals > 9 {
        Err(ApiError::InvalidDecimals)
    } else {
        Ok(decimals)
    }
}


fn is_all_zero(b: &Vec<u8>) -> (r: bool)
    ensures
        r == all_zero(b@),
{
    let mut i: usize = 0;
    while i < b.len()
        invariant
            0 <= i <= b@.len(),
            forall|j: int| 0 <= j < i ==> b@[j] == 0,
        decreases b@.len() - i,
    {
        if b[i] != 0 {
            return false;
        }
        i = i + 1;
    }
    true
}

/// Validates a public-key string: accepted exactly when, after trimming, it
/// is 32 to 50 bytes long and decodes as base58 to 32 bytes other than the
/// all-zero default key.  All rejections report `InvalidPublicKey`.
pub fn validate_pubkey(pubkey_str: &str) -> (r: Result<PublicKey, ApiError>)
    ensures
        r is Ok <==> pubkey_checked(pubkey_str@) is Some,
        r matches Ok(pk) ==> pk.wf() && pubkey_checked(pubkey_str@) == Some(pk@),
        r matches Err(e) ==> e == ApiError::InvalidPublicKey,
        // Every base58 encoding of 32 bytes other than the all-zero key is
        // accepted; the length gate is stated as a hypothesis because a
        // 32-byte value always encodes to 32 to 44 characters.
        ({
            let t = trimmed_of(pubkey_str@);
            &&& 32 <= encode_utf8(t).len() <= 50
            &&& base58_decoded(t) matches Some(b) && b.len() == 32 && !all_zero(b)
        }) ==> r is Ok,
        // The all-zero default key always fails.
        (base58_decoded(trimmed_of(pubkey_str@)) matches Some(b) && all_zero(b)) ==> r is Err,
        // Text that decodes to any length other than 32 bytes always fails.
        (base58_decoded(trimmed_of(pubkey_str@)) matches Some(b) && b.len() != 32) ==> r is Err,
        // Text whose trimmed byte length falls outside [32, 50] always fails.
        !(32 <= encode_utf8(trimmed_of(pubkey_str@)).len() <= 50) ==> r is Err,
{
    let trimmed = trim_text(pubkey_str);
    let n = trimmed.as_str().len();
    if n < 32 || n > 50 {
        return Err(ApiError::InvalidPublicKey);
    }
    match base58_decode(trimmed.as_str()) {
        None => Err(ApiError::InvalidPublicKey),
        Some(bytes) => {
            if bytes.len() != 32 {
                return Err(ApiError::InvalidPublicKey);
            }
            if is_all_zero(&bytes) {
                return Err(ApiError::InvalidPublicKey);
            }
            Ok(PublicKey { bytes })
        },
    }
}

/// Validates a secret-key string: accepted exactly when, after trimming, it
/// is 80 to 90 bytes long and decodes as base58 to 64 bytes of valid keypair
/// material.  All rejections report `InvalidSecretKey`.
pub fn parse_secret_key(secret_str: &str) -> (r: Result<SecretKey, ApiError>)
    ensures
        r is Ok <==> secret_checked(secret_str@) is Some,
        r matches Ok(sk) ==> sk.wf() && secret_checked(secret_str@) == Some(sk@),
        r matches Err(e) ==> e == ApiError::InvalidSecretKey,
{
    let trimmed = trim_text(secret_str);
    let n = trimmed.as_str().len();
    if n < 80 || n > 90 {
        return Err(ApiError::InvalidSecretKey);
    }
    match base58_decode(trimmed.as_str()) {
        None => Err(ApiError::InvalidSecretKey),
        Some(bytes) => {
            if bytes.len() != 64 {
                return Err(ApiError::InvalidSecretKey);
            }
            match keypair_pubkey_bytes(&bytes) {
                Some(_) => Ok(SecretKey { bytes }),
                None => Err(ApiError::InvalidSecretKey),
            }
        },
    }
}

/// Validates an amount: zero always fails, and with a ceiling `Some(m)` the
/// validation fails exactly when the amount is zero or exceeds `m`.
pub fn validate_amount(amount: u64, max_allowed: Option<u64>) -> (r: Result<u64, ApiError>)
    ensures
        r == amount_checked(amount, max_allowed),
        amount == 0 ==> r == Err::<u64, ApiError>(ApiError::InvalidAmountZero),
        max_allowed matches Some(m) ==> ((r is Err) <==> (amount == 0 || amount > m)),
        max_allowed is None ==> ((r is Err) <==> amount == 0),
{
    if amount == 0 {
        return Err(ApiError::InvalidAmountZero);
    }
    if let Some(max) = max_allowed {
        if amount > max {
            return Err(ApiError::InvalidAmountTooLarge);
        }
    }
    Ok(amount)
}

/// Validates a decimals value: accepts exactly 0 through 9.
pub fn validate_decimals(decimals: u8) -> (r: Result<u8, ApiError>)
    ensures
        r == decimals_checked(decimals),
        r is Ok <==> decimals <= 9,
{
    if decimals > 9 {
        return Err(ApiError::InvalidDecimals);
    }
    Ok(decimals)
}

/// Re-shapes an instruction into the response form shared by mint creation
/// and minting: every key base58-encoded, the flags kept in order, and the
/// payload base64-encoded.
pub fn convert_instruction_to_response(instruction: InstructionDescriptor) -> (r:
    InstructionResponse)
    requires
        instruction.wf(),
    ensures
        r.program_id@ == base58_of(instruction.program_id@),
        r.accounts@.len() == instruction.accounts@.len(),
        forall|i: int| 0 <= i < instruction.accounts@.len() ==> {
            &&& (#[trigger] r.accounts@[i]).pubkey@ == base58_of(instruction.accounts@[i].pubkey@)
            &&& r.accounts@[i].is_signer == instruction.accounts@[i].is_signer
            &&& r.accounts@[i].is_writable == instruction.accounts@[i].is_writable
        },
        r.instruction_data@ == base64_of(instruction.data@),
        instruction.data@.len() > 0 ==> r.instruction_data@.len() > 0,
{
    let mut accounts: Vec<AccountData> = Vec::new();
    let mut i: usize = 0;
    while i < instruction.accounts.len()
        invariant
            0 <= i <= instruction.accounts@.len(),
            instruction.wf(),
            accounts@.len() == i,
            forall|j: int| 0 <= j < i ==> {
                &&& (#[trigger] accounts@[j]).pubkey@ == base58_of(
                    instruction.accounts@[j].pubkey@)
                &&& accounts@[j].is_signer == instruction.accounts@[j].is_signer
                &&& accounts@[j].is_writable == instruction.accounts@[j].is_writable
            },
        decreases instruction.accounts@.len() - i,
    {
        let acc = &instruction.accounts[i];
        accounts.push(AccountData {
            pubkey: base58_encode(acc.pubkey.bytes.as_slice()),
            is_signer: acc.is_signer,
            is_writable: acc.is_writable,
        });
        i = i + 1;
    }
    InstructionResponse {
        program_id: base58_encode(instruction.program_id.bytes.as_slice()),
        accounts,
        instruction_data: base64_encode(instruction.data.as_slice()),
    }
}

} // verus!
