//! Normalisation of broadband speed-test results.
//!
//! Each result file is one JSON object whose members follow one of several
//! producers' naming conventions. [`log::LogRecord::from_json`] decodes such a
//! buffer into a [`log::RawLogRecord`] and canonicalises it into a
//! [`log::LogRecord`], or reports why it could not.
use vstd::prelude::*;

pub mod batch;
pub mod json;
pub mod log;
pub mod timestamp;

verus! {

use crate::log::{FieldError, RawLogRecord, RawModel};

/// Why a buffer did not become a canonical record.
#[derive(Debug)]
pub enum Error {
    /// The buffer is not one well-formed JSON object; serde_json's message.
    JsonParseError(String),
    /// The object lacks a required field, or a field has the wrong type.
    SchemaError(FieldError),
    /// A rate's unit is not one of the known units; the whole decoded record.
    ConvertRawLogError(RawLogRecord),
}

/// The model of an [`Error`]: its kind, and the decoded record for a unit
/// failure.
pub ghost enum Failure {
    Syntax,
    Schema(FieldError),
    Unit(RawModel),
}

impl View for Error {
    type V = Failure;

    open spec fn view(&self) -> Failure {
        match self {
            Error::JsonParseError(_) => Failure::Syntax,
            Error::SchemaError(e) => Failure::Schema(*e),
            Error::ConvertRawLogError(raw) => Failure::Unit(raw@),
        }
    }
}

} // verus!
