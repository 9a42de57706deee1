//! The error vocabulary of the gateway and the fixed message text that each
//! error carries to a caller.
use vstd::prelude::*;

verus! {

/// Every way a request can be rejected.  Each variant corresponds to one
/// fixed, caller-visible message; no internal diagnostic detail is attached.
#[derive(Clone, Copy, Debug, PartialEq, Eq, Structural)]
pub enum ApiError {
    /// The body was absent, malformed, or a required field was missing/blank.
    MissingFields,
    /// A message to sign or verify exceeded the size ceiling.
    MessageTooLong,
    /// A public-key string failed validation.
    InvalidPublicKey,
    /// A secret-key string failed validation.
    InvalidSecretKey,
    /// An amount of zero was supplied.
    InvalidAmountZero,
    /// An amount above the operation's ceiling was supplied.
    InvalidAmountTooLarge,
    /// A decimals value above the protocol ceiling was supplied.
    InvalidDecimals,
    /// A signature string was not valid base64.
    InvalidSignatureEncoding,
    /// A decoded signature was not exactly 64 bytes.
    InvalidSignatureLength,
    /// A decoded signature could not be shaped into a signature value.
    InvalidSignatureFormat,
    /// A token transfer whose derived source and destination accounts coincide.
    SameAccountTransfer,
    /// An instruction builder reported failure.  The builders in use fail only
    /// when handed a foreign token program id, which this library never does.
    InstructionBuildFailed,
}

impl ApiError {
    /// The exact message text reported to callers for this error.
    pub open spec fn spec_message(self) -> Seq<char> {
        match self {
            ApiError::MissingFields => "Missing required fields"@,
            ApiError::MessageTooLong => "Message too long"@,
            ApiError::InvalidPublicKey => "Invalid public key"@,
            ApiError::InvalidSecretKey => "Invalid private key"@,
            ApiError::InvalidAmountZero => "Invalid amount: must be greater than 0"@,
            ApiError::InvalidAmountTooLarge => "Invalid amount: amount too large"@,
            ApiError::InvalidDecimals => "Invalid decimals: must be between 0 and 9"@,
            ApiError::InvalidSignatureEncoding => "Invalid signature: Invalid base64 encoding"@,
            ApiError::InvalidSignatureLength => "Invalid signature: Invalid signature length"@,
            ApiError::InvalidSignatureFormat => "Invalid signature: Invalid signature format"@,
            ApiError::SameAccountTransfer => "Cannot transfer to the same token account"@,
            ApiError::InstructionBuildFailed => "Failed to create instruction"@,
        }
    }

    /// The message as an owned string, for the response envelope.
    pub fn message(&self) -> (r: String)
        ensures
            r@ == self.spec_message(),
    {
        match self {
            ApiError::MissingFields => "Missing required fields".to_owned(),
            ApiError::MessageTooLong => "Message too long".to_owned(),
            ApiError::InvalidPublicKey => "Invalid public key".to_owned(),
            ApiError::InvalidSecretKey => "Invalid private key".to_owned(),
            ApiError::InvalidAmountZero => "Invalid amount: must be greater than 0".to_owned(),
            ApiError::InvalidAmountTooLarge => "Invalid amount: amount too large".to_owned(),
            ApiError::InvalidDecimals => "Invalid decimals: must be between 0 and 9".to_owned(),
            ApiError::InvalidSignatureEncoding => "Invalid signature: Invalid base64 encoding".to_owned(),
            ApiError::InvalidSignatureLength => "Invalid signature: Invalid signature length".to_owned(),
            ApiError::InvalidSignatureFormat => "Invalid signature: Invalid signature format".to_owned(),
            ApiError::SameAccountTransfer => "Cannot transfer to the same token account".to_owned(),
            ApiError::InstructionBuildFailed => "Failed to create instruction".to_owned(),
        }
    }
}

} // verus!
