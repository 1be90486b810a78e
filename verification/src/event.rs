//! Domain events and the per-record classifier.
//!
//! Classification is a pure function of one change record: the event kind
//! picks which images are projected, a record lacking an image its kind
//! needs is a structural failure, and an unknown kind is an error of its
//! own — no record is silently dropped.

use vstd::prelude::*;

use crate::envelope::DynamoDBRecord;
use crate::error::Error;
use crate::error::StructuralIssue;
use crate::json::str_eq;
use crate::product::Product;
use crate::product::ProductV;
use crate::product::spec_project;

verus! {

/// One domain event; the sole artifact that crosses to the sink.
#[derive(Debug, PartialEq, Eq)]
pub enum Event {
    Created { product: Product },
    Updated { old: Product, new: Product },
    Deleted { product: Product },
}

/// The mathematical value of a domain event.
pub enum EventV {
    Created { product: ProductV },
    Updated { old: ProductV, new: ProductV },
    Deleted { product: ProductV },
}

impl View for Event {
    type V = EventV;

    open spec fn view(&self) -> EventV {
        match self {
            Event::Created { product } => EventV::Created { product: product@ },
            Event::Updated { old, new } => EventV::Updated { old: old@, new: new@ },
            Event::Deleted { product } => EventV::Deleted { product: product@ },
        }
    }
}

/// What classifying one change record yields: the event kind picks the
/// images, projection failures surface in the order old before new, a
/// missing required image is a structural failure, and an unknown kind is
/// rejected.
pub open spec fn spec_classify(r: DynamoDBRecord) -> Result<EventV, Error> {
    if r.event_name@ == "INSERT"@ {
        match r.dynamodb.new_image {
            None => Err(Error::StructuralDecode(StructuralIssue::MissingImage)),
            Some(m) => match spec_project(m@) {
                Ok(p) => Ok(EventV::Created { product: p }),
                Err(e) => Err(e),
            },
        }
    } else if r.event_name@ == "MODIFY"@ {
        match (r.dynamodb.old_image, r.dynamodb.new_image) {
            (Some(om), Some(nm)) => match spec_project(om@) {
                Err(e) => Err(e),
                Ok(po) => match spec_project(nm@) {
                    Err(e) => Err(e),
                    Ok(pn) => Ok(EventV::Updated { old: po, new: pn }),
                },
            },
            _ => Err(Error::StructuralDecode(StructuralIssue::MissingImage)),
        }
    } else if r.event_name@ == "REMOVE"@ {
        match r.dynamodb.old_image {
            None => Err(Error::StructuralDecode(StructuralIssue::MissingImage)),
            Some(m) => match spec_project(m@) {
                Ok(p) => Ok(EventV::Deleted { product: p }),
                Err(e) => Err(e),
            },
        }
    } else {
        Err(Error::UnrecognizedEventKind)
    }
}

/// The view of a classification result.
pub open spec fn classified_view(r: Result<Event, Error>) -> Result<EventV, Error> {
    match r {
        Ok(e) => Ok(e@),
        Err(er) => Err(er),
    }
}

impl Event {
    /// Classify one change record into its domain event.
    pub fn try_from(value: &DynamoDBRecord) -> (r: Result<Event, Error>)
        ensures
            classified_view(r) == spec_classify(*value),
    {
        if str_eq(value.event_name.as_str(), "INSERT") {
            match &value.dynamodb.new_image {
                None => Err(Error::StructuralDecode(StructuralIssue::MissingImage)),
                Some(m) => match Product::try_from(m) {
                    Ok(product) => Ok(Event::Created { product }),
                    Err(e) => Err(e),
                },
            }
        } else if str_eq(value.event_name.as_str(), "MODIFY") {
            match (&value.dynamodb.old_image, &value.dynamodb.new_image) {
                (Some(om), Some(nm)) => {
                    let old_product = match Product::try_from(om) {
                        Ok(p) => p,
                        Err(e) => {
                            return Err(e);
                        },
                    };
                    let new_product = match Product::try_from(nm) {
                        Ok(p) => p,
                        Err(e) => {
                            return Err(e);
                        },
                    };
                    Ok(Event::Updated { old: old_product, new: new_product })
                },
                _ => Err(Error::StructuralDecode(StructuralIssue::MissingImage)),
            }
        } else if str_eq(value.event_name.as_str(), "REMOVE") {
            match &value.dynamodb.old_image {
                None => Err(Error::StructuralDecode(StructuralIssue::MissingImage)),
                Some(m) => match Product::try_from(m) {
                    Ok(product) => Ok(Event::Deleted { product }),
                    Err(e) => Err(e),
                },
            }
        } else {
            Err(Error::UnrecognizedEventKind)
        }
    }
}

} // verus!
