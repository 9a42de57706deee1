//! The field extractor: tolerant body wrapping and per-field extraction of
//! required values, failing fast with one uniform error.
use vstd::prelude::*;
use crate::codec::{trim_text, trimmed_of};
use crate::errors::ApiError;

verus! {

use vstd::utf8::encode_utf8;

/// A request body after tolerant parsing: `None` when the body was absent,
/// empty, or did not fit the expected shape.  Parse failures and missing
/// bodies are deliberately indistinguishable downstream.
pub struct SafeJson<T>(pub Option<T>);

/// What a required string field yields: the trimmed text, or nothing when
/// the field is absent or blank.
pub open spec fn required_string(opt: Option<String>) -> Option<Seq<char>> {
    match opt {
        Some(val) => if trimmed_of(val@).len() > 0 {
            Some(trimmed_of(val@))
        } else {
            None
        },
        None => None,
    }
}

/// Extracts a required string field, trimmed; absence and whitespace-only
/// text are both missing.
pub fn get_required_string(opt: Option<String>, field_name: &str) -> (r: Result<String, ApiError>)
    ensures
        r is Ok <==> required_string(opt) is Some,
        r matches Ok(v) ==> required_string(opt) == Some(v@) && trimmed_of(v@) == v@
            && encode_utf8(v@).len() <= usize::MAX,
        r matches Err(e) ==> e == ApiError::MissingFields,
{
    match opt {
        Some(val) => {
            let trimmed = trim_text(val.as_str());
            if trimmed.as_str().is_empty() {
                Err(ApiError::MissingFields)
            } else {
                Ok(trimmed)
            }
        },
        None => Err(ApiError::MissingFields),
    }
}

/// Extracts a required unsigned 64-bit field.
pub fn get_required_u64(opt: Option<u64>, field_name: &str) -> (r: Result<u64, ApiError>)
    ensures
        r == match opt {
            Some(v) => Ok::<u64, ApiError>(v),
            None => Err::<u64, ApiError>(ApiError::MissingFields),
        },
{
    match opt {
        Some(val) => Ok(val),
        None => Err(ApiError::MissingFields),
    }
}

/// Extracts a required unsigned 8-bit field.
pub fn get_required_u8(opt: Option<u8>, field_name: &str) -> (r: Result<u8, ApiError>)
    ensures
        r == match opt {
            Some(v) => Ok::<u8, ApiError>(v),
            None => Err::<u8, ApiError>(ApiError::MissingFields),
        },
{
    match opt {
        Some(val) => Ok(val),
        None => Err(ApiError::MissingFields),
    }
}

} // verus!
