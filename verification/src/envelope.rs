//! The response envelope: the wrapper every API response decodes into.
//!
//! An envelope holds a head — echoed request arguments, the status
//! record, a response timestamp — and the payload body. The body counts
//! only when the status code is Okay; any other code is a protocol-level
//! failure even though the transport succeeded and the JSON parsed.

use vstd::prelude::*;
use vstd::string::*;
use crate::decode::{req_str, spec_req_str, spec_str_of};
use crate::error::{DecodeError, Error};
use crate::json::{get_field, jview, lemma_obj_view, spec_field, JsonValue, JsonView};
use crate::status::{decode_status, spec_decode_status, Status, StatusCode, StatusView};

verus! {

/// The head common to every response.
#[derive(Debug, PartialEq)]
pub struct CommonResponseHeader {
    /// The request arguments the device echoes back, as key/value pairs
    /// in response order.
    pub request_arguments: Vec<(String, String)>,
    /// The protocol-level outcome.
    pub status: Status,
    /// The response timestamp, as the device sent it.
    pub timestamp: String,
}

/// The mathematical content of a response head.
#[verifier::ext_equal]
pub ghost struct HeaderView {
    pub request_arguments: Seq<(Seq<char>, Seq<char>)>,
    pub status: StatusView,
    pub timestamp: Seq<char>,
}

/// Key/value views of a list of string pairs.
pub open spec fn str_pairs_view(s: Seq<(String, String)>) -> Seq<(Seq<char>, Seq<char>)> {
    Seq::new(s.len(), |i: int| (s[i].0@, s[i].1@))
}

impl View for CommonResponseHeader {
    type V = HeaderView;

    open spec fn view(&self) -> HeaderView {
        HeaderView {
            request_arguments: str_pairs_view(self.request_arguments@),
            status: self.status@,
            timestamp: self.timestamp@,
        }
    }
}

/// A decoded response: head and still-opaque body.
#[derive(Debug, PartialEq)]
pub struct FroniusResponse {
    pub head: CommonResponseHeader,
    pub body: JsonValue,
}

/// The mathematical content of a decoded response.
#[verifier::ext_equal]
pub ghost struct FroniusResponseView {
    pub head: HeaderView,
    pub body: JsonView,
}

impl View for FroniusResponse {
    type V = FroniusResponseView;

    open spec fn view(&self) -> FroniusResponseView {
        FroniusResponseView { head: self.head@, body: self.body@ }
    }
}

/// The body wrapper every payload arrives in: one `Data` field.
#[derive(Debug, PartialEq)]
pub struct CommonResponseBody<T> {
    pub data: T,
}

/// Every entry of `es` holds a string value.
pub open spec fn spec_str_entries_ok(es: Seq<(Seq<char>, JsonView)>) -> bool {
    forall|i: int| 0 <= i < es.len() ==> spec_str_of(#[trigger] es[i].1) is Some
}

/// The key/value pairs of `es`, each value a string.
pub open spec fn spec_str_entries(es: Seq<(Seq<char>, JsonView)>) -> Seq<(Seq<char>, Seq<char>)> {
    Seq::new(es.len(), |i: int| (es[i].0, spec_str_of(es[i].1)->Some_0))
}

/// The head `v` decodes to: echoed string arguments, a valid status
/// record, and a string timestamp, all mandatory.
pub open spec fn spec_decode_header(v: JsonView) -> Option<HeaderView> {
    match (spec_field(v, "RequestArguments"@), spec_field(v, "Status"@), spec_req_str(
        v,
        "Timestamp"@,
    )) {
        (Some(JsonView::Obj(args)), Some(sv), Some(ts)) => match spec_decode_status(sv) {
            Some(st) => if spec_str_entries_ok(args) {
                Some(
                    HeaderView {
                        request_arguments: spec_str_entries(args),
                        status: st,
                        timestamp: ts,
                    },
                )
            } else {
                None
            },
            None => None,
        },
        _ => None,
    }
}

/// Decodes a response head, matching [`spec_decode_header`].
pub fn decode_header(v: &JsonValue) -> (r: Result<CommonResponseHeader, DecodeError>)
    ensures
        match r {
            Ok(h) => spec_decode_header(v@) == Some(h@),
            Err(_) => spec_decode_header(v@) is None,
        },
{
    let args_field = match get_field(v, "RequestArguments") {
        Some(f) => f,
        None => {
            return Err(DecodeError::MissingField { field: "RequestArguments".to_owned() });
        },
    };
    let args_entries = match args_field {
        JsonValue::Obj(es) => es,
        _ => {
            return Err(DecodeError::WrongType { field: "RequestArguments".to_owned() });
        },
    };
    proof {
        lemma_obj_view(*args_entries);
    }
    let ghost ves = jview(*args_field)->Obj_0;
    let mut args: Vec<(String, String)> = Vec::new();
    let mut i: usize = 0;
    while i < args_entries.len()
        invariant
            i <= args_entries@.len(),
            args@.len() == i,
            spec_field(v@, "RequestArguments"@) == Some(JsonView::Obj(ves)),
            ves.len() == args_entries@.len(),
            forall|j: int|
                0 <= j < ves.len() ==> #[trigger] ves[j] == (
                args_entries@[j].0@,
                jview(args_entries@[j].1),
                ),
            forall|j: int|
                0 <= j < i ==> spec_str_of(#[trigger] ves[j].1) is Some && args@[j].0@ == ves[j].0
                    && args@[j].1@ == spec_str_of(ves[j].1)->Some_0,
        decreases args_entries@.len() - i,
    {
        match &args_entries[i].1 {
            JsonValue::Str(s) => {
                let key = args_entries[i].0.clone();
                args.push((key, s.clone()));
            },
            _ => {
                proof {
                    assert(spec_str_of(ves[i as int].1) is None);
                }
                return Err(DecodeError::WrongType { field: "RequestArguments".to_owned() });
            },
        }
        i += 1;
    }
    let status_field = match get_field(v, "Status") {
        Some(f) => f,
        None => {
            return Err(DecodeError::MissingField { field: "Status".to_owned() });
        },
    };
    let status = decode_status(status_field)?;
    let timestamp = req_str(v, "Timestamp")?;
    let header = CommonResponseHeader { request_arguments: args, status, timestamp };
    proof {
        assert(str_pairs_view(header.request_arguments@) =~= spec_str_entries(ves));
        assert(header@ =~= spec_decode_header(v@)->Some_0);
    }
    Ok(header)
}

/// The envelope `v` decodes to: a mandatory `Head` that decodes as a
/// response head, and a mandatory `Body` kept opaque.
pub open spec fn spec_decode_envelope(v: JsonView) -> Option<FroniusResponseView> {
    match (spec_field(v, "Head"@), spec_field(v, "Body"@)) {
        (Some(h), Some(b)) => match spec_decode_header(h) {
            Some(hv) => Some(FroniusResponseView { head: hv, body: b }),
            None => None,
        },
        _ => None,
    }
}

/// Decodes an envelope, matching [`spec_decode_envelope`].
pub fn decode_envelope(v: &JsonValue) -> (r: Result<FroniusResponse, DecodeError>)
    ensures
        match r {
            Ok(env) => spec_decode_envelope(v@) == Some(env@),
            Err(_) => spec_decode_envelope(v@) is None,
        },
{
    let head_field = match get_field(v, "Head") {
        Some(f) => f,
        None => {
            return Err(DecodeError::MissingField { field: "Head".to_owned() });
        },
    };
    let head = decode_header(head_field)?;
    let body_field = match get_field(v, "Body") {
        Some(f) => f,
        None => {
            return Err(DecodeError::MissingField { field: "Body".to_owned() });
        },
    };
    let env = FroniusResponse { head, body: body_field.clone() };
    proof {
        assert(env@ =~= spec_decode_envelope(v@)->Some_0);
    }
    Ok(env)
}

/// The status gate: hands the body out exactly when the status code is
/// Okay, and otherwise fails with the full status record, whatever the
/// body holds.
pub fn envelope_body(response: FroniusResponse) -> (r: Result<JsonValue, Error>)
    ensures
        response.head.status.code == StatusCode::Okay ==> r == Ok::<JsonValue, Error>(
            response.body,
        ),
        response.head.status.code != StatusCode::Okay ==> r == Err::<JsonValue, Error>(
            Error::Response(response.head.status),
        ),
{
    if response.head.status.code == StatusCode::Okay {
        Ok(response.body)
    } else {
        Err(Error::Response(response.head.status))
    }
}

/// Unwraps the `Data` field every payload arrives under.
pub fn decode_response_body(v: &JsonValue) -> (r: Result<
    CommonResponseBody<JsonValue>,
    DecodeError,
>)
    ensures
        match r {
            Ok(b) => spec_field(v@, "Data"@) == Some(b.data@),
            Err(_) => spec_field(v@, "Data"@) is None,
        },
{
    match get_field(v, "Data") {
        Some(f) => Ok(CommonResponseBody { data: f.clone() }),
        None => Err(DecodeError::MissingField { field: "Data".to_owned() }),
    }
}

/// The version handshake answer: `{APIVersion, BaseURL, CompatibilityRange}`.
#[derive(Debug, Clone, PartialEq)]
pub struct ApiVersion {
    pub api_version: u64,
    pub base_url: String,
    pub compatibility_range: String,
}

/// The mathematical content of a version handshake answer.
#[verifier::ext_equal]
pub ghost struct ApiVersionView {
    pub api_version: u64,
    pub base_url: Seq<char>,
    pub compatibility_range: Seq<char>,
}

impl View for ApiVersion {
    type V = ApiVersionView;

    open spec fn view(&self) -> ApiVersionView {
        ApiVersionView {
            api_version: self.api_version,
            base_url: self.base_url@,
            compatibility_range: self.compatibility_range@,
        }
    }
}

/// The handshake answer `v` decodes to; all three fields are mandatory.
pub open spec fn spec_decode_api_version(v: JsonView) -> Option<ApiVersionView> {
    match (crate::decode::spec_req_u64(v, "APIVersion"@), spec_req_str(v, "BaseURL"@), spec_req_str(
        v,
        "CompatibilityRange"@,
    )) {
        (Some(n), Some(b), Some(c)) => Some(
            ApiVersionView { api_version: n, base_url: b, compatibility_range: c },
        ),
        _ => None,
    }
}

/// Decodes a handshake answer, matching [`spec_decode_api_version`].
pub fn decode_api_version(v: &JsonValue) -> (r: Result<ApiVersion, DecodeError>)
    ensures
        match r {
            Ok(a) => spec_decode_api_version(v@) == Some(a@),
            Err(_) => spec_decode_api_version(v@) is None,
        },
{
    let api_version = crate::decode::req_u64(v, "APIVersion")?;
    let base_url = req_str(v, "BaseURL")?;
    let compatibility_range = req_str(v, "CompatibilityRange")?;
    Ok(ApiVersion { api_version, base_url, compatibility_range })
}

} // verus!
