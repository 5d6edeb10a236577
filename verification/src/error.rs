//! Decode errors: every decode operation is total, returning either a typed
//! value or an error naming the field, tag or kind that did not match.

use vstd::prelude::*;

verus! {

/// Model of an error raised while reading one field of a record.
#[verifier::ext_equal]
pub enum FieldErrV {
    /// a required field was absent
    Missing(Seq<char>),
    /// a field was present with the wrong shape
    Wrong(Seq<char>),
    /// something other than a key/value record stood where a record must
    NotARecord,
}

/// An error raised while reading one field of a record; carries the
/// lower-camel-case wire name of the field.
#[derive(Debug, PartialEq)]
pub enum FieldError {
    Missing(String),
    Wrong(String),
    NotARecord,
}

impl View for FieldError {
    type V = FieldErrV;

    open spec fn view(&self) -> FieldErrV {
        match self {
            FieldError::Missing(f) => FieldErrV::Missing(f@),
            FieldError::Wrong(f) => FieldErrV::Wrong(f@),
            FieldError::NotARecord => FieldErrV::NotARecord,
        }
    }
}

/// Model of a message-level decode error.
#[verifier::ext_equal]
pub enum ErrV {
    /// the input was not a key/value record
    NotARecord,
    /// a required envelope field was absent
    MissingField(Seq<char>),
    /// an envelope field had the wrong shape
    WrongType(Seq<char>),
    /// the envelope `type` tag was none of request, response, event
    UnknownEnvelopeKind(Seq<char>),
    /// a known event's payload failed to decode: the tag and the mismatch
    EventPayload(Seq<char>, FieldErrV),
}

/// A message-level decode error. Unrecognized event tags are not errors (the
/// event layer falls back to its catch-all variant); an unrecognized envelope
/// kind is, because the envelope kind set is protocol-fixed.
#[derive(Debug, PartialEq)]
pub enum DecodeError {
    NotARecord,
    MissingField(String),
    WrongType(String),
    UnknownEnvelopeKind(String),
    EventPayload(String, FieldError),
}

impl View for DecodeError {
    type V = ErrV;

    open spec fn view(&self) -> ErrV {
        match self {
            DecodeError::NotARecord => ErrV::NotARecord,
            DecodeError::MissingField(f) => ErrV::MissingField(f@),
            DecodeError::WrongType(f) => ErrV::WrongType(f@),
            DecodeError::UnknownEnvelopeKind(k) => ErrV::UnknownEnvelopeKind(k@),
            DecodeError::EventPayload(t, c) => ErrV::EventPayload(t@, c@),
        }
    }
}


/// A field-level mismatch lifted to a message-level error.
pub open spec fn spec_field_to_msg(e: FieldErrV) -> ErrV {
    match e {
        FieldErrV::Missing(f) => ErrV::MissingField(f),
        FieldErrV::Wrong(f) => ErrV::WrongType(f),
        FieldErrV::NotARecord => ErrV::NotARecord,
    }
}

/// Lifts a field-level mismatch to a message-level error.
pub fn field_to_msg(e: FieldError) -> (r: DecodeError)
    ensures
        r@ == spec_field_to_msg(e@),
{
    match e {
        FieldError::Missing(f) => DecodeError::MissingField(f),
        FieldError::Wrong(f) => DecodeError::WrongType(f),
        FieldError::NotARecord => DecodeError::NotARecord,
    }
}

} // verus!
