//! Decode failures. Decoding is the only direction that can fail: encoding
//! always succeeds because typed entities are well-formed by construction.

use vstd::prelude::*;

verus! {

/// Why a wire value failed to decode. Each failure is terminal for the one
/// message being decoded; nothing is retried or defaulted.
#[derive(Debug)]
pub enum DecodeError {
    /// A required field was missing, or a field did not have the expected
    /// shape. Carries the field's wire name.
    MissingOrInvalidField(String),
    /// A closed enumeration was sent an integer outside its table. Carries
    /// the enumeration's name and the offending integer.
    InvalidEnumValue(String, u64),
    /// A tagged value matched none of its known shapes. Carries the type's
    /// name.
    UnrecognizedShape(String),
}

/// The mathematical model of a decode failure.
pub enum DecodeErrorView {
    MissingOrInvalidField(Seq<char>),
    InvalidEnumValue(Seq<char>, u64),
    UnrecognizedShape(Seq<char>),
}

impl View for DecodeError {
    type V = DecodeErrorView;

    open spec fn view(&self) -> DecodeErrorView {
        match self {
            DecodeError::MissingOrInvalidField(f) => DecodeErrorView::MissingOrInvalidField(f@),
            DecodeError::InvalidEnumValue(t, raw) => DecodeErrorView::InvalidEnumValue(t@, *raw),
            DecodeError::UnrecognizedShape(t) => DecodeErrorView::UnrecognizedShape(t@),
        }
    }
}

/// The failure for a missing or ill-shaped field.
pub open spec fn missing(field: Seq<char>) -> DecodeErrorView {
    DecodeErrorView::MissingOrInvalidField(field)
}

} // verus!
