use vstd::prelude::*;

verus! {

/// The wire field that a decoding failure concerns.
#[derive(Debug, Clone, Copy, PartialEq, Eq, Structural)]
pub enum Field {
    Context,
    Id,
    Type,
    Controller,
    KeyMaterial,
    Created,
    Updated,
    VerificationMethod,
    Authentication,
    AssertionMethod,
    KeyAgreement,
    CapabilityInvocation,
    CapabilityDelegation,
    Service,
}

/// The part of a document that a decoding failure concerns.
#[derive(Debug, Clone, Copy, PartialEq, Eq, Structural)]
pub enum Entity {
    /// The document object itself.
    Document,
    /// The verification method at this position of `verificationMethod`.
    Method(usize),
    /// The element at this position of the named role list.
    RoleEntry(Field, usize),
}

/// Why a document, or a part of one, could not be decoded.
#[derive(Debug, Clone, Copy, PartialEq, Eq, Structural)]
pub enum DecodeError {
    /// The text is not JSON at all.
    MalformedJson,
    /// The document itself is not a JSON object.
    NotAnObject,
    /// `@context` is neither a string nor a non-empty list of strings.
    MalformedContext,
    /// An identifier field holds the empty string.
    EmptyIdentifier(Entity, Field),
    /// A field that must be present is absent.
    MissingRequiredField(Entity, Field),
    /// A field holds a JSON value of the wrong shape.
    WrongFieldType(Entity, Field),
    /// More than one key-material field is present in one verification method.
    ConflictingKeyEncoding(Entity),
}

} // verus!
