//! The error taxonomy of the pipeline.
//!
//! Every failure of an invocation is one of these variants; no error is
//! recovered internally, each one aborts the whole run.

use vstd::prelude::*;

verus! {

/// The classification of a [`DfqError`], without its message.
#[derive(Clone, Copy, Debug, PartialEq, Eq, Structural)]
pub enum ErrorKind {
    InvalidArgument,
    LoadError,
    ParseError,
    BindingError,
    PolicyViolation,
    SerializationError,
    Unknown,
}

/// A terminal failure of one invocation of the tool.
#[derive(Debug)]
pub enum DfqError {
    /// The argument list was empty, or held no SQL statement.
    InvalidArgument(String),
    /// A data source could not be loaded; tagged with the offending path.
    LoadError { path: String, message: String },
    /// The SQL text was malformed, or the dialect unknown.
    ParseError(String),
    /// A table or column reference could not be resolved.
    BindingError(String),
    /// The statement asked for a DDL or DML operation.
    PolicyViolation(String),
    /// Writing the result to the chosen output encoding failed.
    SerializationError(String),
    /// A failure of the engine not otherwise classified.
    Unknown(String),
}

pub type DfqResult<T> = Result<T, DfqError>;

impl DfqError {
    /// The kind of this error, as a spec-level value.
    pub open spec fn kind_spec(&self) -> ErrorKind {
        match self {
            DfqError::InvalidArgument(_) => ErrorKind::InvalidArgument,
            DfqError::LoadError { .. } => ErrorKind::LoadError,
            DfqError::ParseError(_) => ErrorKind::ParseError,
            DfqError::BindingError(_) => ErrorKind::BindingError,
            DfqError::PolicyViolation(_) => ErrorKind::PolicyViolation,
            DfqError::SerializationError(_) => ErrorKind::SerializationError,
            DfqError::Unknown(_) => ErrorKind::Unknown,
        }
    }

    /// The classification of this error.
    pub fn kind(&self) -> (k: ErrorKind)
        ensures
            k == self.kind_spec(),
    {
        match self {
            DfqError::InvalidArgument(_) => ErrorKind::InvalidArgument,
            DfqError::LoadError { .. } => ErrorKind::LoadError,
            DfqError::ParseError(_) => ErrorKind::ParseError,
            DfqError::BindingError(_) => ErrorKind::BindingError,
            DfqError::PolicyViolation(_) => ErrorKind::PolicyViolation,
            DfqError::SerializationError(_) => ErrorKind::SerializationError,
            DfqError::Unknown(_) => ErrorKind::Unknown,
        }
    }

    /// The label that prefixes this error's human-readable message.
    pub open spec fn label_spec(&self) -> Seq<char> {
        match self {
            DfqError::InvalidArgument(_) => "InvalidArgument: "@,
            DfqError::LoadError { .. } => "LoadError: "@,
            DfqError::ParseError(_) => "ParseError: "@,
            DfqError::BindingError(_) => "BindingError: "@,
            DfqError::PolicyViolation(_) => "PolicyViolation: "@,
            DfqError::SerializationError(_) => "SerializationError: "@,
            DfqError::Unknown(_) => "UnknownError: "@,
        }
    }

    /// The message text carried by this error; for a load failure, the
    /// offending path, a separator, and the loader's message.
    pub open spec fn detail_spec(&self) -> Seq<char> {
        match self {
            DfqError::InvalidArgument(m) => m@,
            DfqError::LoadError { path, message } => path@ + ": "@ + message@,
            DfqError::ParseError(m) => m@,
            DfqError::BindingError(m) => m@,
            DfqError::PolicyViolation(m) => m@,
            DfqError::SerializationError(m) => m@,
            DfqError::Unknown(m) => m@,
        }
    }

    /// The message text carried by this error, without its label.
    pub fn detail(&self) -> (r: String)
        ensures
            r@ == self.detail_spec(),
    {
        match self {
            DfqError::InvalidArgument(m) => m.clone(),
            DfqError::LoadError { path, message } => {
                let mut r = path.clone();
                r.append(": ");
                r.append(message.as_str());
                r
            },
            DfqError::ParseError(m) => m.clone(),
            DfqError::BindingError(m) => m.clone(),
            DfqError::PolicyViolation(m) => m.clone(),
            DfqError::SerializationError(m) => m.clone(),
            DfqError::Unknown(m) => m.clone(),
        }
    }

    /// The human-readable message for this error: its label followed by its
    /// detail text.
    pub fn message(&self) -> (r: String)
        ensures
            r@ == self.label_spec() + self.detail_spec(),
    {
        match self {
            DfqError::InvalidArgument(m) => String::from_str("InvalidArgument: ").concat(m.as_str()),
            DfqError::LoadError { path, message } => {
                let mut r = String::from_str("LoadError: ");
                r.append(path.as_str());
                r.append(": ");
                r.append(message.as_str());
                r
            },
            DfqError::ParseError(m) => String::from_str("ParseError: ").concat(m.as_str()),
            DfqError::BindingError(m) => String::from_str("BindingError: ").concat(m.as_str()),
            DfqError::PolicyViolation(m) => String::from_str("PolicyViolation: ").concat(m.as_str()),
            DfqError::SerializationError(m) => String::from_str("SerializationError: ").concat(m.as_str()),
            DfqError::Unknown(m) => String::from_str("UnknownError: ").concat(m.as_str()),
        }
    }
}

} // verus!
