//! Transformation of change-data-capture batches into domain events.
//!
//! A batch envelope arrives as a generic JSON value. The library decodes
//! the envelope's tagged attribute format, projects each record's images
//! into the business entity, classifies every record into a domain event,
//! and aggregates the batch into an ordered event sequence with
//! all-or-nothing failure; the boundaries around it (JSON text parsing,
//! the event bus, the persistent store) stay outside.

pub mod envelope;
pub mod error;
pub mod event;
pub mod json;
pub mod laws;
pub mod model;
pub mod numeral;
pub mod pipeline;
pub mod product;
