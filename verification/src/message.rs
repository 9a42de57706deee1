//! Message signing and verification: size-guarded extraction, key
//! validation, and the trusted ed25519 calls behind exact contracts.
use vstd::prelude::*;
use crate::codec::{base58_encode, base58_of, base64_decode, base64_decoded, base64_encode,
    base64_of, byte_len};
use crate::errors::ApiError;
use crate::keys::{sig_valid_of, sign_with_keypair, signature_of, verify_signature, SecretKey};
use crate::request::{get_required_string, required_string, SafeJson};
use crate::response::{ApiResponse, MessageSignResponse, MessageVerifyResponse};
use crate::utils::{parse_secret_key, pubkey_checked, secret_checked, validate_pubkey};

verus! {

use vstd::utf8::encode_utf8;

/// The ceiling on message size in bytes: a denial-of-service guard, not a
/// protocol limit.
pub const MAX_MESSAGE_BYTES: usize = 1_000_000;

/// A request to sign a message with a secret key.
pub struct MessageSignRequest {
    pub message: Option<String>,
    pub secret: Option<String>,
}

/// A request to verify a signature over a message under a public key.
pub struct MessageVerifyRequest {
    pub message: Option<String>,
    pub signature: Option<String>,
    pub pubkey: Option<String>,
}

/// The outcome of validating a signing request, in evaluation order: the
/// message must be present and non-empty, the secret present and non-blank,
/// the message no longer than the size ceiling, and the secret valid key
/// material.  On success: the message characters and the keypair bytes.
pub open spec fn sign_checked(payload: Option<MessageSignRequest>) -> Result<
    (Seq<char>, Seq<u8>),
    ApiError,
> {
    match payload {
        None => Err(ApiError::MissingFields),
        Some(req) => match req.message {
            Some(m) => if m@.len() == 0 {
                Err(ApiError::MissingFields)
            } else {
                match required_string(req.secret) {
                    Some(sec) => if encode_utf8(m@).len() > MAX_MESSAGE_BYTES {
                        Err(ApiError::MessageTooLong)
                    } else {
                        match secret_checked(sec) {
                            Some(kb) => Ok((m@, kb)),
                            None => Err(ApiError::InvalidSecretKey),
                        }
                    },
                    None => Err(ApiError::MissingFields),
                }
            },
            None => Err(ApiError::MissingFields),
        },
    }
}

/// Signs a message with the secret key of the request.  On success the
/// payload carries the base64 signature, the signer's base58 public key and
/// the original message, and the signature verifies under that public key.
pub fn handle_message_signing(payload: SafeJson<MessageSignRequest>) -> (r: ApiResponse<
    MessageSignResponse>)
    ensures
        match sign_checked(payload.0) {
            Err(e) => r matches ApiResponse::Failure(f) && f == e,
            Ok(mk) => r matches ApiResponse::Success(resp) && {
                &&& resp.signature@ == base64_of(signature_of(mk.1, encode_utf8(mk.0)))
                &&& resp.public_key@ == base58_of(mk.1.subrange(32, 64))
                &&& resp.message@ == mk.0
                &&& sig_valid_of(mk.1.subrange(32, 64), encode_utf8(mk.0), signature_of(mk.1,
                    encode_utf8(mk.0)))
            },
        },
{
    let req = match payload.0 {
        Some(req) => req,
        None => { return ApiResponse::Failure(ApiError::MissingFields) },
    };
    let message = match req.message {
        Some(val) => {
            if val.as_str().is_empty() {
                return ApiResponse::Failure(ApiError::MissingFields);
            }
            val
        },
        None => { return ApiResponse::Failure(ApiError::MissingFields) },
    };
    let secret = match get_required_string(req.secret, "secret") {
        Ok(val) => val,
        Err(e) => { return ApiResponse::Failure(e) },
    };
    if byte_len(message.as_str()) > MAX_MESSAGE_BYTES {
        return ApiResponse::Failure(ApiError::MessageTooLong);
    }
    let keypair = match parse_secret_key(secret.as_str()) {
        Ok(kp) => kp,
        Err(e) => { return ApiResponse::Failure(e) },
    };
    let message_bytes = message.as_str().as_bytes();
    let signature = sign_with_keypair(&keypair.bytes, message_bytes);
    let public_key = keypair.public_bytes();
    ApiResponse::Success(MessageSignResponse {
        signature: base64_encode(signature.as_slice()),
        public_key: base58_encode(public_key.as_slice()),
        message,
    })
}

/// The outcome of validating a verification request, in evaluation order:
/// message, signature and pubkey must be present and non-blank, the message
/// within the size ceiling, the pubkey a valid key, the signature valid
/// base64 of exactly 64 bytes.  On success: the message characters, the
/// trimmed pubkey text, the pubkey bytes and the signature bytes.
pub open spec fn verify_checked(payload: Option<MessageVerifyRequest>) -> Result<
    (Seq<char>, Seq<char>, Seq<u8>, Seq<u8>),
    ApiError,
> {
    match payload {
        None => Err(ApiError::MissingFields),
        Some(req) => match req.message {
            Some(m) => if m@.len() == 0 {
                Err(ApiError::MissingFields)
            } else {
                match required_string(req.signature) {
                    Some(sigtext) => match required_string(req.pubkey) {
                        Some(pktext) => if encode_utf8(m@).len() > MAX_MESSAGE_BYTES {
                            Err(ApiError::MessageTooLong)
                        } else {
                            match pubkey_checked(pktext) {
                                Some(pkb) => match base64_decoded(sigtext) {
                                    Some(sigb) => if sigb.len() != 64 {
                                        Err(ApiError::InvalidSignatureLength)
                                    } else {
                                        Ok((m@, pktext, pkb, sigb))
                                    },
                                    None => Err(ApiError::InvalidSignatureEncoding),
                                },
                                None => Err(ApiError::InvalidPublicKey),
                            }
                        },
                        None => Err(ApiError::MissingFields),
                    },
                    None => Err(ApiError::MissingFields),
                }
            },
            None => Err(ApiError::MissingFields),
        },
    }
}

/// Verifies a signature over a message.  Malformed input is an error; an
/// invalid signature is a successful verification reporting `valid: false`.
pub fn handle_message_verification(payload: SafeJson<MessageVerifyRequest>) -> (r: ApiResponse<
    MessageVerifyResponse>)
    ensures
        match verify_checked(payload.0) {
            Err(e) => r matches ApiResponse::Failure(f) && f == e,
            Ok(v) => r matches ApiResponse::Success(resp) && {
                &&& resp.valid == sig_valid_of(v.2, encode_utf8(v.0), v.3)
                &&& resp.message@ == v.0
                &&& resp.pubkey@ == v.1
            },
        },
{
    let req = match payload.0 {
        Some(req) => req,
        None => { return ApiResponse::Failure(ApiError::MissingFields) },
    };
    let message = match req.message {
        Some(val) => {
            if val.as_str().is_empty() {
                return ApiResponse::Failure(ApiError::MissingFields);
            }
            val
        },
        None => { return ApiResponse::Failure(ApiError::MissingFields) },
    };
    let signature_str = match get_required_string(req.signature, "signature") {
        Ok(val) => val,
        Err(e) => { return ApiResponse::Failure(e) },
    };
    let pubkey_str = match get_required_string(req.pubkey, "pubkey") {
        Ok(val) => val,
        Err(e) => { return ApiResponse::Failure(e) },
    };
    if byte_len(message.as_str()) > MAX_MESSAGE_BYTES {
        return ApiResponse::Failure(ApiError::MessageTooLong);
    }
    let pubkey = match validate_pubkey(pubkey_str.as_str()) {
        Ok(pk) => pk,
        Err(e) => { return ApiResponse::Failure(e) },
    };
    let signature_bytes = match base64_decode(signature_str.as_str()) {
        Some(bytes) => bytes,
        None => { return ApiResponse::Failure(ApiError::InvalidSignatureEncoding) },
    };
    if signature_bytes.len() != 64 {
        return ApiResponse::Failure(ApiError::InvalidSignatureLength);
    }
    let message_bytes = message.as_str().as_bytes();
    let is_valid = verify_signature(pubkey.bytes.as_slice(), message_bytes, &signature_bytes);
    ApiResponse::Success(MessageVerifyResponse {
        valid: is_valid,
        message,
        pubkey: pubkey_str,
    })
}

/// Signing a message with valid secret-key material and then verifying the
/// produced signature against the key's public half and the same message
/// always reports the signature valid.
pub fn signed_message_verifies(secret: &SecretKey, message: &[u8]) -> (valid: bool)
    requires
        secret.wf(),
    ensures
        valid,
{
    let signature = sign_with_keypair(&secret.bytes, message);
    let public_key = secret.public_bytes();
    verify_signature(public_key.as_slice(), message, &signature)
}

} // verus!
