//! Failure kinds of the transformation pipeline.
//!
//! Every failure aborts the enclosing batch; nothing is retried or silently
//! dropped inside the library. The caller owns retry and alerting policy.

use vstd::prelude::*;

verus! {

/// The three fields of a business entity that projection resolves.
#[derive(Clone, Copy, Debug, PartialEq, Eq, Structural)]
pub enum Field {
    Id,
    Name,
    Price,
}

/// Which construct a structural failure was found in: the context that a
/// structural error carries, so that a caller can name the offending part
/// of the envelope when reporting the failure.
#[derive(Clone, Copy, Debug, PartialEq, Eq, Structural)]
pub enum StructuralIssue {
    /// The envelope itself: no well-formed batch of records.
    Envelope,
    /// A change record of the batch.
    Record,
    /// The stream portion of a change record.
    StreamRecord,
    /// An attribute mapping that is not an object.
    AttributeMap,
    /// A tagged attribute value: tag or payload shape.
    Attribute,
    /// A record lacking the image its event kind needs.
    MissingImage,
}

/// A failure of decoding, projection or classification.
#[derive(Clone, Copy, Debug, PartialEq, Eq, Structural)]
pub enum Error {
    /// The envelope or an attribute does not match the expected tagged
    /// shape; carries which construct the mismatch was found in.
    StructuralDecode(StructuralIssue),
    /// A field is absent under both its canonical and its alternate key.
    MissingField(Field),
    /// A field is present but tagged with the wrong attribute kind.
    TypeMismatch(Field),
    /// The event kind is outside the recognized set.
    UnrecognizedEventKind,
}

impl Error {
    /// The human-readable description of this error.
    pub open spec fn spec_message(self) -> Seq<char> {
        match self {
            Error::StructuralDecode(StructuralIssue::MissingImage) => "InternalError: Missing image in change record"@,
            Error::StructuralDecode(_) => "ClientError: Error parsing json"@,
            Error::MissingField(Field::Id) => "InternalError: Missing id in lambda"@,
            Error::MissingField(Field::Name) => "InternalError: Missing name in lambda"@,
            Error::MissingField(Field::Price) => "InternalError: Missing price in lambda"@,
            Error::TypeMismatch(Field::Id) => "InternalError: id is not a string"@,
            Error::TypeMismatch(Field::Name) => "InternalError: name is not a string"@,
            Error::TypeMismatch(Field::Price) => "InternalError: price is not a number"@,
            Error::UnrecognizedEventKind => "InternalError: Unknown event type"@,
        }
    }

    /// Render the error for the caller; identifies the failing field or issue.
    pub fn message(&self) -> (r: String)
        ensures
            r@ == self.spec_message(),
    {
        match self {
            Error::StructuralDecode(StructuralIssue::MissingImage) => "InternalError: Missing image in change record".to_owned(),
            Error::StructuralDecode(_) => "ClientError: Error parsing json".to_owned(),
            Error::MissingField(Field::Id) => "InternalError: Missing id in lambda".to_owned(),
            Error::MissingField(Field::Name) => "InternalError: Missing name in lambda".to_owned(),
            Error::MissingField(Field::Price) => "InternalError: Missing price in lambda".to_owned(),
            Error::TypeMismatch(Field::Id) => "InternalError: id is not a string".to_owned(),
            Error::TypeMismatch(Field::Name) => "InternalError: name is not a string".to_owned(),
            Error::TypeMismatch(Field::Price) => "InternalError: price is not a number".to_owned(),
            Error::UnrecognizedEventKind => "InternalError: Unknown event type".to_owned(),
        }
    }
}

} // verus!
