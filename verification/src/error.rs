//! The error taxonomy of the client core.
//!
//! Every operation returns success or an explicit error; nothing is
//! logged, swallowed or defaulted. Transport failures are reported by the
//! surrounding application through [`Error::Request`], so a caller can
//! always tell "device unreachable" apart from "device responded with
//! something unexpected".

use vstd::prelude::*;
use crate::status::Status;

verus! {

/// Why a response body could not be decoded. The variants are
/// diagnostic detail; callers branch on [`Error::Decode`] as a whole.
#[derive(Debug, Clone, PartialEq, Eq)]
pub enum DecodeError {
    /// The text is not a well-formed JSON document; `offset` is the
    /// character position where reading it failed.
    Syntax { offset: usize },
    /// A mandatory field is absent.
    MissingField { field: String },
    /// A field holds a value of an unexpected shape, or a number that
    /// does not fit the expected integer type.
    WrongType { field: String },
    /// A closed enumeration field holds an integer outside the
    /// enumeration.
    UnknownCode { field: String, code: u64 },
}

/// A failure of one core operation.
#[derive(Debug, Clone, PartialEq)]
pub enum Error {
    /// The bootstrap handshake reported an API revision this client
    /// does not implement.
    UnsupportedApiVersion(u64),
    /// An endpoint path could not be resolved against the base URL:
    /// a defect in the caller, not an operational condition.
    InvalidEndpoint(String),
    /// The transport failed (connection, timeout, TLS); carried through
    /// for the application, which performs the transfers.
    Request(String),
    /// The response body could not be decoded, at the envelope or at
    /// the payload level.
    Decode(DecodeError),
    /// The envelope decoded fine, but its status code was not Okay;
    /// carries the full status record.
    Response(Status),
}

} // verus!
