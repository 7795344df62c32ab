//! Error types: build-time faults raised while processing directives and
//! declarations, and runtime faults raised while decoding wire nodes.

use vstd::prelude::*;

verus! {

/// A directive key recognized by the configuration grammar.
///
/// `Unknown` stands for any identifier that is none of the recognized keys;
/// the parser rejects it wherever it appears.
#[derive(Clone, Copy, Debug, PartialEq, Eq, Structural)]
pub enum DirectiveKey {
    Tag,
    Content,
    DefaultVariant,
    DontWriteTag,
    DenyUnknownFields,
    Name,
    Unknown,
}

/// A build-time fault. Each variant aborts generation of the one declaration
/// it was found on.
#[derive(Clone, Copy, Debug, PartialEq, Eq, Structural)]
pub enum BuildError {
    /// A directive key that is not recognized in this position.
    UnknownKey,
    /// The same directive key given twice.
    RepeatedKey(DirectiveKey),
    /// A key that takes a value was given as a bare flag.
    MissingValue(DirectiveKey),
    /// A bare flag was given a value.
    UnexpectedValue(DirectiveKey),
    /// A field-naming key (`tag`, `content`) was given the empty string: a
    /// scheme's field names must be non-empty.
    EmptyValue(DirectiveKey),
    /// A token follows the single directive the position admits.
    ExtraToken,
    /// `content` or a flag was given, but `tag` was not.
    TagNotGiven,
    /// `dont_write_tag` cannot be combined with `content`.
    DontWriteTagWithContent,
    /// `deny_unknown_fields` is meaningless without `content`.
    DenyUnknownFieldsWithoutContent,
    /// The declaration has an unsupported shape: an associated constant or
    /// associated type, an implementation without a trait reference, or a
    /// generic implementation requesting deserialization.
    UnsupportedDeclaration,
    /// The implementing type has no simple identifier and no explicit `name`.
    MissingName,
}

/// The coarse category of a build-time fault, as reported to the caller.
#[derive(Clone, Copy, Debug, PartialEq, Eq, Structural)]
pub enum ErrorCategory {
    Grammar,
    ConfigConflict,
    UnsupportedDeclaration,
    MissingName,
}

/// The category of each build-time fault.
pub open spec fn spec_category(e: BuildError) -> ErrorCategory {
    match e {
        BuildError::UnknownKey => ErrorCategory::Grammar,
        BuildError::RepeatedKey(_) => ErrorCategory::Grammar,
        BuildError::MissingValue(_) => ErrorCategory::Grammar,
        BuildError::UnexpectedValue(_) => ErrorCategory::Grammar,
        BuildError::EmptyValue(_) => ErrorCategory::Grammar,
        BuildError::ExtraToken => ErrorCategory::Grammar,
        BuildError::TagNotGiven => ErrorCategory::ConfigConflict,
        BuildError::DontWriteTagWithContent => ErrorCategory::ConfigConflict,
        BuildError::DenyUnknownFieldsWithoutContent => ErrorCategory::ConfigConflict,
        BuildError::UnsupportedDeclaration => ErrorCategory::UnsupportedDeclaration,
        BuildError::MissingName => ErrorCategory::MissingName,
    }
}

impl BuildError {
    /// Report which category this fault falls under.
    pub fn category(&self) -> (r: ErrorCategory)
        ensures
            r == spec_category(*self),
    {
        match self {
            BuildError::UnknownKey => ErrorCategory::Grammar,
            BuildError::RepeatedKey(_) => ErrorCategory::Grammar,
            BuildError::MissingValue(_) => ErrorCategory::Grammar,
            BuildError::UnexpectedValue(_) => ErrorCategory::Grammar,
            BuildError::EmptyValue(_) => ErrorCategory::Grammar,
            BuildError::ExtraToken => ErrorCategory::Grammar,
            BuildError::TagNotGiven => ErrorCategory::ConfigConflict,
            BuildError::DontWriteTagWithContent => ErrorCategory::ConfigConflict,
            BuildError::DenyUnknownFieldsWithoutContent => ErrorCategory::ConfigConflict,
            BuildError::UnsupportedDeclaration => ErrorCategory::UnsupportedDeclaration,
            BuildError::MissingName => ErrorCategory::MissingName,
        }
    }
}

/// A runtime fault raised while decoding a wire node. Always surfaced to the
/// caller as a result value, never a process abort.
#[derive(Clone, Debug, PartialEq, Eq)]
pub enum RuntimeError {
    /// The node has no field named by the scheme's tag and no default variant
    /// is configured.
    MissingTag,
    /// The discriminant is not registered for this interface.
    UnknownVariant { tag: String, interface: String },
    /// The node does not have the map shape the scheme demands.
    ShapeMismatch,
    /// Two registry contributions for one interface share a discriminant.
    /// Detected at registry construction, not per call.
    DuplicateTag(String),
}

} // verus!
