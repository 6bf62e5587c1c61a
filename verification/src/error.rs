//! The error family of the crate.

use vstd::prelude::*;

verus! {

#[verifier::external_type_specification]
#[verifier::external_body]
pub struct ExIoError(std::io::Error);

/// A pattern that a text field has to match.
#[derive(Clone, Copy, Debug, PartialEq, Eq, Structural)]
pub enum Pattern {
    /// `type/subtype`, see [`crate::media_type::is_media_type`].
    MediaType,
    /// `algorithm:encoded`, see [`crate::digest::is_digest`].
    Digest,
}

/// The rule that a document broke.
#[derive(Clone, Copy, Debug, PartialEq, Eq, Structural)]
pub enum Rule {
    /// A schema version other than the literal `2`.
    InvalidSchemaVersion,
    /// A text field that does not match its pattern.
    PatternMismatch(Pattern),
    /// An annotation or label whose key is the empty string.
    InvalidAnnotationKey,
    /// A field that a strict document type does not have.
    UnknownField,
    /// A manifest without layers.
    LayersEmpty,
    /// A required field that the document lacks.
    MissingField,
    /// A value of another JSON type than the field takes.
    WrongType,
    /// A text that stands for none of the variants of an enumeration.
    UnknownVariant,
    /// Inline data that is not base64 text.
    InvalidBase64,
    /// A text that is not an absolute URL.
    InvalidUrl,
    /// A text that is not an RFC 3339 date and time.
    InvalidTimestamp,
}

/// A broken rule and the field that broke it, as a mathematical value.
pub struct Violation {
    pub rule: Rule,
    pub field: Seq<char>,
}

/// A document that is well-formed JSON but breaks a rule of the format.
#[derive(Clone, Debug, PartialEq, Eq)]
pub struct ValidationError {
    /// The rule.
    pub rule: Rule,
    /// The name of the field that broke it.
    pub field: String,
}

impl View for ValidationError {
    type V = Violation;

    open spec fn view(&self) -> Violation {
        Violation { rule: self.rule, field: self.field@ }
    }
}

/// The violation of `rule` at `field`.
pub open spec fn violation(rule: Rule, field: Seq<char>) -> Violation {
    Violation { rule, field }
}

/// The error for `rule` at `field`.
pub(crate) fn invalid(rule: Rule, field: &str) -> (e: ValidationError)
    ensures
        e@ == violation(rule, field@),
{
    ValidationError { rule, field: field.to_owned() }
}

impl Pattern {
    /// The pattern as a regular expression.
    pub fn regex(&self) -> (r: &'static str)
        ensures
            r@ == match *self {
                Pattern::MediaType => "^[A-Za-z0-9][A-Za-z0-9!#$&-^_.+]{0,126}/[A-Za-z0-9][A-Za-z0-9!#$&-^_.+]{0,126}$"@,
                Pattern::Digest => "^[a-z0-9]+(?:[+._-][a-z0-9]+)*:[a-zA-Z0-9=_-]+$"@,
            },
    {
        match self {
            Pattern::MediaType => "^[A-Za-z0-9][A-Za-z0-9!#$&-^_.+]{0,126}/[A-Za-z0-9][A-Za-z0-9!#$&-^_.+]{0,126}$",
            Pattern::Digest => "^[a-z0-9]+(?:[+._-][a-z0-9]+)*:[a-zA-Z0-9=_-]+$",
        }
    }
}

/// Why a text is not a document of some type.
#[derive(Debug)]
pub enum DocumentError {
    /// The text is not well-formed JSON.
    Syntax(serde_json::Error),
    /// The JSON breaks a rule of the format.
    Invalid(ValidationError),
}

/// Which document of a layout a failure concerns.
#[derive(Clone, Debug, PartialEq, Eq)]
pub enum Document {
    /// `index.json`.
    Index,
    /// The blob of a descriptor, named by the descriptor's digest string.
    Blob(String),
}

/// Which document a failure concerns, as a mathematical value.
pub enum DocumentModel {
    Index,
    Blob(Seq<char>),
}

impl View for Document {
    type V = DocumentModel;

    open spec fn view(&self) -> DocumentModel {
        match *self {
            Document::Index => DocumentModel::Index,
            Document::Blob(digest) => DocumentModel::Blob(digest@),
        }
    }
}

/// A failure as a mathematical value: what an error says, without the
/// payload of the outside error that it may carry.
pub enum Failure {
    Io(DocumentModel),
    Syntax(DocumentModel),
    Invalid(DocumentModel, Violation),
    BlobNotFound(Seq<char>),
    MalformedDigest(Seq<char>),
}

/// Why a layout could not be loaded, or a digest not be read.
#[derive(Debug)]
pub enum OCIDirError {
    /// The file system failed on a document, otherwise than by its absence.
    IO(Document, std::io::Error),
    /// A document is not well-formed JSON.
    SerdeJson(Document, serde_json::Error),
    /// A document breaks a rule of the format.
    Validation(Document, ValidationError),
    /// No inline data and no file for the digest.
    BlobNotFound(String),
    /// A text that is no `algorithm:encoded`.
    MalformedDigest(String),
}

impl View for OCIDirError {
    type V = Failure;

    open spec fn view(&self) -> Failure {
        match *self {
            OCIDirError::IO(document, _) => Failure::Io(document@),
            OCIDirError::SerdeJson(document, _) => Failure::Syntax(document@),
            OCIDirError::Validation(document, e) => Failure::Invalid(document@, e@),
            OCIDirError::BlobNotFound(digest) => Failure::BlobNotFound(digest@),
            OCIDirError::MalformedDigest(text) => Failure::MalformedDigest(text@),
        }
    }
}

} // verus!
