//! The protocol-level status record carried in every response head.
//!
//! A response can fail at the protocol level even when the transport
//! succeeded and the JSON parsed; the status code is the single source
//! of that verdict.

use vstd::prelude::*;
use crate::error::DecodeError;
use crate::json::{spec_field, spec_int_of, JsonValue, JsonView};

verus! {

/// The closed enumeration of protocol status codes.
#[derive(Debug, Clone, Copy, PartialEq, Eq, Structural)]
pub enum StatusCode {
    Okay,
    NotImplemented,
    Uninitialized,
    Initialized,
    Running,
    Timeout,
    ArgumentError,
    LNRequestError,
    LNRequestTimeout,
    LNParseError,
    ConfigIOError,
    NotSupported,
    DeviceNotAvailable,
    UnknownError,
}

/// The fixed wire number of each status code.
pub open spec fn spec_status_code_number(c: StatusCode) -> u64 {
    match c {
        StatusCode::Okay => 0,
        StatusCode::NotImplemented => 1,
        StatusCode::Uninitialized => 2,
        StatusCode::Initialized => 3,
        StatusCode::Running => 4,
        StatusCode::Timeout => 5,
        StatusCode::ArgumentError => 6,
        StatusCode::LNRequestError => 7,
        StatusCode::LNRequestTimeout => 8,
        StatusCode::LNParseError => 9,
        StatusCode::ConfigIOError => 10,
        StatusCode::NotSupported => 11,
        StatusCode::DeviceNotAvailable => 12,
        StatusCode::UnknownError => 255,
    }
}

/// The status code a wire number stands for, if any.
pub open spec fn spec_status_code_of(n: u64) -> Option<StatusCode> {
    if n == 0 {
        Some(StatusCode::Okay)
    } else if n == 1 {
        Some(StatusCode::NotImplemented)
    } else if n == 2 {
        Some(StatusCode::Uninitialized)
    } else if n == 3 {
        Some(StatusCode::Initialized)
    } else if n == 4 {
        Some(StatusCode::Running)
    } else if n == 5 {
        Some(StatusCode::Timeout)
    } else if n == 6 {
        Some(StatusCode::ArgumentError)
    } else if n == 7 {
        Some(StatusCode::LNRequestError)
    } else if n == 8 {
        Some(StatusCode::LNRequestTimeout)
    } else if n == 9 {
        Some(StatusCode::LNParseError)
    } else if n == 10 {
        Some(StatusCode::ConfigIOError)
    } else if n == 11 {
        Some(StatusCode::NotSupported)
    } else if n == 12 {
        Some(StatusCode::DeviceNotAvailable)
    } else if n == 255 {
        Some(StatusCode::UnknownError)
    } else {
        None
    }
}

impl StatusCode {
    /// Reads a wire number; an unknown number is a decode error, never
    /// a crash.
    pub fn from_number(n: u64) -> (r: Option<StatusCode>)
        ensures
            r == spec_status_code_of(n),
    {
        if n == 0 {
            Some(StatusCode::Okay)
        } else if n == 1 {
            Some(StatusCode::NotImplemented)
        } else if n == 2 {
            Some(StatusCode::Uninitialized)
        } else if n == 3 {
            Some(StatusCode::Initialized)
        } else if n == 4 {
            Some(StatusCode::Running)
        } else if n == 5 {
            Some(StatusCode::Timeout)
        } else if n == 6 {
            Some(StatusCode::ArgumentError)
        } else if n == 7 {
            Some(StatusCode::LNRequestError)
        } else if n == 8 {
            Some(StatusCode::LNRequestTimeout)
        } else if n == 9 {
            Some(StatusCode::LNParseError)
        } else if n == 10 {
            Some(StatusCode::ConfigIOError)
        } else if n == 11 {
            Some(StatusCode::NotSupported)
        } else if n == 12 {
            Some(StatusCode::DeviceNotAvailable)
        } else if n == 255 {
            Some(StatusCode::UnknownError)
        } else {
            None
        }
    }

    /// The wire number of this status code.
    pub fn number(&self) -> (r: u64)
        ensures
            r == spec_status_code_number(*self),
    {
        match self {
            StatusCode::Okay => 0,
            StatusCode::NotImplemented => 1,
            StatusCode::Uninitialized => 2,
            StatusCode::Initialized => 3,
            StatusCode::Running => 4,
            StatusCode::Timeout => 5,
            StatusCode::ArgumentError => 6,
            StatusCode::LNRequestError => 7,
            StatusCode::LNRequestTimeout => 8,
            StatusCode::LNParseError => 9,
            StatusCode::ConfigIOError => 10,
            StatusCode::NotSupported => 11,
            StatusCode::DeviceNotAvailable => 12,
            StatusCode::UnknownError => 255,
        }
    }
}

/// Every status code round-trips through its wire number.
pub proof fn lemma_status_code_round_trip(c: StatusCode)
    ensures
        spec_status_code_of(spec_status_code_number(c)) == Some(c),
{
}

/// The status record: machine code, machine reason, user-facing message.
#[derive(Debug, Clone, PartialEq)]
pub struct Status {
    pub code: StatusCode,
    pub reason: String,
    pub user_message: String,
}

/// The mathematical content of a status record.
#[verifier::ext_equal]
pub ghost struct StatusView {
    pub code: StatusCode,
    pub reason: Seq<char>,
    pub user_message: Seq<char>,
}

impl View for Status {
    type V = StatusView;

    open spec fn view(&self) -> StatusView {
        StatusView { code: self.code, reason: self.reason@, user_message: self.user_message@ }
    }
}

/// The status code held in the `Code` field of `v`, if that field is an
/// integer naming one.
pub open spec fn spec_status_code_field(v: JsonView) -> Option<StatusCode> {
    match spec_field(v, "Code"@) {
        Some(JsonView::Num(t)) => match spec_int_of(t) {
            Some(n) => if 0 <= n <= u64::MAX as int {
                spec_status_code_of(n as u64)
            } else {
                None
            },
            None => None,
        },
        _ => None,
    }
}

/// The status record `v` decodes to, if it is an object with an
/// integral `Code` naming a known status and string `Reason` and
/// `UserMessage` fields.
pub open spec fn spec_decode_status(v: JsonView) -> Option<StatusView> {
    match (spec_status_code_field(v), spec_field(v, "Reason"@), spec_field(v, "UserMessage"@)) {
        (Some(code), Some(JsonView::Str(reason)), Some(JsonView::Str(um))) => Some(
            StatusView { code, reason, user_message: um },
        ),
        _ => None,
    }
}

/// Decodes a status record, matching [`spec_decode_status`].
pub fn decode_status(v: &JsonValue) -> (r: Result<Status, DecodeError>)
    ensures
        match r {
            Ok(st) => spec_decode_status(v@) == Some(st@),
            Err(_) => spec_decode_status(v@) is None,
        },
{
    let code = match crate::json::get_field(v, "Code") {
        Some(JsonValue::Num(n)) => match n.as_u64() {
            Some(num) => match StatusCode::from_number(num) {
                Some(c) => c,
                None => {
                    return Err(DecodeError::UnknownCode { field: "Code".to_owned(), code: num });
                },
            },
            None => {
                return Err(DecodeError::WrongType { field: "Code".to_owned() });
            },
        },
        _ => {
            return Err(DecodeError::MissingField { field: "Code".to_owned() });
        },
    };
    let reason = match crate::json::get_field(v, "Reason") {
        Some(JsonValue::Str(s)) => s.clone(),
        _ => {
            return Err(DecodeError::MissingField { field: "Reason".to_owned() });
        },
    };
    let user_message = match crate::json::get_field(v, "UserMessage") {
        Some(JsonValue::Str(s)) => s.clone(),
        _ => {
            return Err(DecodeError::MissingField { field: "UserMessage".to_owned() });
        },
    };
    Ok(Status { code, reason, user_message })
}

} // verus!
