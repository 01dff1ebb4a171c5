//! The error taxonomy: decode failures are permanent and carry the offending
//! tag or field; resolution failures distinguish storage faults, decode
//! faults and an invalid entrypoint key.

use vstd::prelude::*;

verus! {

/// A component decode failure: unknown discriminator, a missing required
/// field, or a field whose value fails the payload's own validation.
#[derive(Clone, Debug, PartialEq, Eq)]
pub enum DecodeError {
    UnknownComponentKind { tag: String },
    MissingField { kind_tag: String, field: String },
    InvalidField { kind_tag: String, field: String },
}

/// Spec-level model of a decode failure.
#[verifier::ext_equal]
pub enum DecodeErrorV {
    UnknownComponentKind { tag: Seq<char> },
    MissingField { kind_tag: Seq<char>, field: Seq<char> },
    InvalidField { kind_tag: Seq<char>, field: Seq<char> },
}

impl View for DecodeError {
    type V = DecodeErrorV;

    open spec fn view(&self) -> DecodeErrorV {
        match self {
            DecodeError::UnknownComponentKind { tag } => DecodeErrorV::UnknownComponentKind {
                tag: tag@,
            },
            DecodeError::MissingField { kind_tag, field } => DecodeErrorV::MissingField {
                kind_tag: kind_tag@,
                field: field@,
            },
            DecodeError::InvalidField { kind_tag, field } => DecodeErrorV::InvalidField {
                kind_tag: kind_tag@,
                field: field@,
            },
        }
    }
}

/// A decode failure annotated with the identifier of the section whose
/// record could not be decoded.
#[derive(Clone, Debug, PartialEq, Eq)]
pub struct SectionDecodeError {
    pub section_id: String,
    pub error: DecodeError,
}

/// Spec-level model of an annotated decode failure.
#[verifier::ext_equal]
pub struct SectionDecodeErrorV {
    pub section_id: Seq<char>,
    pub error: DecodeErrorV,
}

impl View for SectionDecodeError {
    type V = SectionDecodeErrorV;

    open spec fn view(&self) -> SectionDecodeErrorV {
        SectionDecodeErrorV { section_id: self.section_id@, error: self.error@ }
    }
}

/// A failure reported by the storage collaborator; this library only
/// carries its message through.
#[derive(Clone, Debug, PartialEq, Eq)]
pub struct StorageError {
    pub message: String,
}

/// Spec-level model of a storage failure.
#[verifier::ext_equal]
pub struct StorageErrorV {
    pub message: Seq<char>,
}

impl View for StorageError {
    type V = StorageErrorV;

    open spec fn view(&self) -> StorageErrorV {
        StorageErrorV { message: self.message@ }
    }
}

/// Why an entrypoint resolution failed as a whole.
#[derive(Clone, Debug, PartialEq, Eq)]
pub enum ResolutionError {
    Storage(StorageError),
    Decode(SectionDecodeError),
    InvalidKey,
}

/// Spec-level model of a resolution failure.
#[verifier::ext_equal]
pub enum ResolutionErrorV {
    Storage(StorageErrorV),
    Decode(SectionDecodeErrorV),
    InvalidKey,
}

impl View for ResolutionError {
    type V = ResolutionErrorV;

    open spec fn view(&self) -> ResolutionErrorV {
        match self {
            ResolutionError::Storage(e) => ResolutionErrorV::Storage(e@),
            ResolutionError::Decode(e) => ResolutionErrorV::Decode(e@),
            ResolutionError::InvalidKey => ResolutionErrorV::InvalidKey,
        }
    }
}

} // verus!
