use vstd::prelude::*;
use crate::decimal::{decimal_text, lemma_parse_render, parse_u64, parse_u64_spec, DecimalError};
use crate::farcaster::Fid;

verus! {

/// What the `fid` field of a short user form holds, as far as decoding it
/// reads: JSON `null`, a number, a string, or any other JSON value.
#[derive(Debug, Clone)]
pub enum FidValue {
    Null,
    /// A JSON number, with its value where that is a `u64`.
    Number(Option<u64>),
    /// A JSON string.
    Text(String),
    /// Any other JSON value, by its JSON text.
    Other(String),
}

/// Why a `fid` field is refused.
#[derive(Debug, Clone)]
pub enum FidError {
    /// A number that is no `u64`.
    InvalidNumber,
    /// A string that is not the decimal form of a `u64`.
    InvalidText(DecimalError),
    /// A value that is neither `null`, a number nor a string.
    InvalidValue(String),
}

/// The Farcaster id that a `fid` field denotes: none where the field is
/// absent or `null`, the number where it is a `u64`, the decimal value of a
/// string; anything else is refused.
pub open spec fn decode_fid_spec(value: Option<FidValue>) -> Result<Option<Fid>, FidError> {
    match value {
        None => Ok(None),
        Some(FidValue::Null) => Ok(None),
        Some(FidValue::Number(Some(n))) => Ok(Some(n)),
        Some(FidValue::Number(None)) => Err(FidError::InvalidNumber),
        Some(FidValue::Text(s)) => match parse_u64_spec(s@) {
            Ok(n) => Ok(Some(n)),
            Err(e) => Err(FidError::InvalidText(e)),
        },
        Some(FidValue::Other(json)) => Err(FidError::InvalidValue(json)),
    }
}

/// Decodes an optional `fid` field.
pub fn decode_optional_fid(value: Option<FidValue>) -> (r: Result<Option<Fid>, FidError>)
    ensures
        r == decode_fid_spec(value),
{
    match value {
        None => Ok(None),
        Some(FidValue::Null) => Ok(None),
        Some(FidValue::Number(n)) => match n {
            Some(n) => Ok(Some(n)),
            None => Err(FidError::InvalidNumber),
        },
        Some(FidValue::Text(s)) => match parse_u64(s.as_str()) {
            Ok(n) => Ok(Some(n)),
            Err(e) => Err(FidError::InvalidText(e)),
        },
        Some(FidValue::Other(json)) => Err(FidError::InvalidValue(json)),
    }
}

impl FidError {
    /// The message that describes the error.
    pub open spec fn message_spec(&self) -> Seq<char> {
        match self {
            FidError::InvalidNumber => "invalid fid number"@,
            FidError::InvalidText(e) => e.message_spec(),
            FidError::InvalidValue(json) => "invalid fid value: "@ + json@,
        }
    }

    /// The message that describes the error.
    pub fn message(&self) -> (text: String)
        ensures
            text@ == self.message_spec(),
    {
        match self {
            FidError::InvalidNumber => String::from_str("invalid fid number"),
            FidError::InvalidText(e) => String::from_str(e.message()),
            FidError::InvalidValue(json) => String::from_str("invalid fid value: ").concat(json.as_str()),
        }
    }
}

/// A `fid` given as a number and the same `fid` given as its decimal string
/// decode to the same id.
pub proof fn lemma_number_and_text_agree(fid: Fid, text: String)
    requires
        text@ == decimal_text(fid as nat),
    ensures
        decode_fid_spec(Some(FidValue::Text(text))) == decode_fid_spec(Some(FidValue::Number(Some(fid)))),
        decode_fid_spec(Some(FidValue::Number(Some(fid)))) == Ok::<Option<Fid>, FidError>(Some(fid)),
{
    lemma_parse_render(fid);
}

} // verus!
