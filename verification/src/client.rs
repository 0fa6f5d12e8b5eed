//! The endpoint client: request construction and response decoding.
//!
//! The client owns the versioned base path negotiated by the bootstrap
//! handshake. For every endpoint it builds the exact path-and-query to
//! fetch, and decodes the fetched body through the envelope, the status
//! gate and the endpoint's typed payload shape. The application around
//! the library performs the HTTP transfers and hands the body text back.

use vstd::prelude::*;
use vstd::string::*;
use crate::device::DeviceId;
use crate::info::{decode_device_infos, decode_inverter_infos, device_infos_pairs_view,
    inverter_infos_pairs_view, spec_decode_device_infos, spec_decode_inverter_infos, DeviceInfos,
    InverterInfos};
use crate::inverter::{
    decode_cumulation_inverter_data_system, spec_decode_cumulation_inverter_data_system,
    CumulationInverterDataSystem, DataCollection,
};
use crate::meter::{
    decode_meter_data, decode_meter_system, meter_system_pairs_view, spec_decode_meter_data,
    spec_decode_meter_system, MeterData, MeterDataSystem,
};
use crate::ohmpilot::{
    decode_ohm_pilot_data, decode_ohm_pilot_system, ohm_pilot_system_pairs_view,
    spec_decode_ohm_pilot_data, spec_decode_ohm_pilot_system, OhmPilotData, OhmPilotDataSystem,
};
use crate::powerflow::{decode_power_flow_data, spec_decode_power_flow_data, PowerFlowData};
use crate::storage::{
    decode_storage_data, decode_storage_system, spec_decode_storage_data,
    spec_decode_storage_system, storage_system_pairs_view, StorageData, StorageDataSystem,
};
use crate::envelope::{
    decode_api_version, decode_envelope, decode_response_body, envelope_body, str_pairs_view,
    ApiVersion,
};
use crate::error::Error;
use crate::json::{chars_to_string, spec_field, str_to_chars, JsonValue, JsonView};
use crate::parse::parse_json;
use crate::status::StatusCode;

verus! {

/// The decimal digit character of `d`.
pub open spec fn spec_digit_char(d: int) -> char {
    ((48 + d) as u8) as char
}

/// The decimal text of a raw identifier, without leading zeros.
pub open spec fn spec_u8_digits(n: u8) -> Seq<char> {
    if n < 10 {
        seq![spec_digit_char(n as int)]
    } else if n < 100 {
        seq![spec_digit_char(n as int / 10), spec_digit_char(n as int % 10)]
    } else {
        seq![
            spec_digit_char(n as int / 100),
            spec_digit_char((n as int / 10) % 10),
            spec_digit_char(n as int % 10),
        ]
    }
}

/// Formats a raw identifier in decimal.
pub fn u8_to_string(n: u8) -> (r: String)
    ensures
        r@ == spec_u8_digits(n),
{
    let mut cs: Vec<char> = Vec::new();
    if n >= 100 {
        cs.push((48 + n / 100) as char);
    }
    if n >= 10 {
        cs.push((48 + (n / 10) % 10) as char);
    }
    cs.push((48 + n % 10) as char);
    proof {
        assert(cs@ =~= spec_u8_digits(n));
    }
    chars_to_string(&cs)
}

/// The digits a request carries for a raw identifier stand for exactly
/// that identifier.
pub proof fn lemma_u8_digits_value(n: u8)
    ensures
        crate::json::spec_int_of(spec_u8_digits(n)) == Some(n as int),
{
    let s = spec_u8_digits(n);
    assert(crate::json::digits_value(Seq::<char>::empty()) == 0);
    assert forall|i: int| 0 <= i < s.len() implies crate::json::is_digit(#[trigger] s[i]) by {
        if n < 10 {
            assert(s[i] == spec_digit_char(n as int));
        } else if n < 100 {
            assert(i == 0 || i == 1);
        } else {
            assert(i == 0 || i == 1 || i == 2);
        }
    }
    if n < 10 {
        assert(s.drop_last() == Seq::<char>::empty()) by {
            assert(s.drop_last() =~= Seq::<char>::empty());
        }
        assert(crate::json::digits_value(s) == 10 * crate::json::digits_value(s.drop_last())
            + crate::json::digit_val(s.last()));
        assert(crate::json::digit_val(s.last()) == n as int);
    } else if n < 100 {
        let t = s.drop_last();
        assert(t =~= seq![spec_digit_char(n as int / 10)]);
        assert(t.drop_last() == Seq::<char>::empty()) by {
            assert(t.drop_last() =~= Seq::<char>::empty());
        }
        assert(crate::json::digits_value(t) == 10 * crate::json::digits_value(t.drop_last())
            + crate::json::digit_val(t.last()));
        assert(crate::json::digits_value(t) == n as int / 10);
        assert(crate::json::digits_value(s) == 10 * crate::json::digits_value(t)
            + crate::json::digit_val(s.last()));
        assert(crate::json::digit_val(s.last()) == n as int % 10);
    } else {
        let t = s.drop_last();
        let u = t.drop_last();
        assert(t =~= seq![
            spec_digit_char(n as int / 100),
            spec_digit_char((n as int / 10) % 10),
        ]);
        assert(u =~= seq![spec_digit_char(n as int / 100)]);
        assert(u.drop_last() == Seq::<char>::empty()) by {
            assert(u.drop_last() =~= Seq::<char>::empty());
        }
        assert(crate::json::digits_value(u) == 10 * crate::json::digits_value(u.drop_last())
            + crate::json::digit_val(u.last()));
        assert(crate::json::digits_value(u) == n as int / 100);
        assert(crate::json::digits_value(t) == 10 * crate::json::digits_value(u)
            + crate::json::digit_val(t.last()));
        assert(crate::json::digits_value(t) == 10 * (n as int / 100) + (n as int / 10) % 10);
        assert(crate::json::digits_value(s) == 10 * crate::json::digits_value(t)
            + crate::json::digit_val(s.last()));
    }
    assert(s[0] != '-');
}

/// A character an endpoint name may hold.
pub open spec fn spec_is_endpoint_char(c: char) -> bool {
    (48 <= c as u32 && c as u32 <= 57) || (65 <= c as u32 && c as u32 <= 90) || (97 <= c as u32
        && c as u32 <= 122) || c == '.' || c == '_' || c == '-'
}

/// A well-formed endpoint name: nonempty, one path segment, no
/// delimiters.
pub open spec fn spec_valid_endpoint(e: Seq<char>) -> bool {
    e.len() > 0 && (forall|i: int| 0 <= i < e.len() ==> spec_is_endpoint_char(#[trigger] e[i]))
}

/// The directory of a base path: everything up to and including its
/// last slash.
pub open spec fn spec_dir_of(b: Seq<char>) -> Option<Seq<char>>
    decreases b.len(),
{
    if b.len() == 0 {
        None
    } else if b.last() == '/' {
        Some(b)
    } else {
        spec_dir_of(b.drop_last())
    }
}

/// Resolution of an endpoint name against a base path: the name
/// replaces everything after the base's last slash. A malformed name,
/// or a base without a slash, does not resolve.
pub open spec fn spec_resolve(base: Seq<char>, e: Seq<char>) -> Option<Seq<char>> {
    if spec_valid_endpoint(e) {
        match spec_dir_of(base) {
            Some(dir) => Some(dir + e),
            None => None,
        }
    } else {
        None
    }
}

proof fn lemma_dir_of_found(b: Seq<char>, j: int)
    requires
        1 <= j <= b.len(),
        b[j - 1] == '/',
        forall|k: int| j <= k < b.len() ==> b[k] != '/',
    ensures
        spec_dir_of(b) == Some(b.subrange(0, j)),
    decreases b.len() - j,
{
    if j == b.len() {
        assert(b.subrange(0, j) =~= b);
    } else {
        assert(b.last() != '/');
        lemma_dir_of_found(b.drop_last(), j);
        assert(b.drop_last().subrange(0, j) =~= b.subrange(0, j));
    }
}

proof fn lemma_dir_of_none(b: Seq<char>)
    requires
        forall|k: int| 0 <= k < b.len() ==> b[k] != '/',
    ensures
        spec_dir_of(b) is None,
    decreases b.len(),
{
    if b.len() > 0 {
        lemma_dir_of_none(b.drop_last());
    }
}

/// The query text of a parameter list: `key=value` pairs joined by
/// ampersands, in caller order.
pub open spec fn spec_query_string(params: Seq<(Seq<char>, Seq<char>)>) -> Seq<char>
    decreases params.len(),
{
    if params.len() == 0 {
        Seq::empty()
    } else if params.len() == 1 {
        params[0].0 + "="@ + params[0].1
    } else {
        spec_query_string(params.drop_last()) + "&"@ + params.last().0 + "="@ + params.last().1
    }
}

/// Serializes a parameter list, matching [`spec_query_string`].
pub fn query_string(params: &Vec<(String, String)>) -> (r: String)
    ensures
        r@ == spec_query_string(str_pairs_view(params@)),
{
    let ghost vparams = str_pairs_view(params@);
    let mut out = String::new();
    let mut i: usize = 0;
    while i < params.len()
        invariant
            i <= params@.len(),
            vparams == str_pairs_view(params@),
            vparams.len() == params@.len(),
            forall|j: int|
                0 <= j < vparams.len() ==> #[trigger] vparams[j] == (
                params@[j].0@,
                params@[j].1@,
                ),
            out@ == spec_query_string(vparams.subrange(0, i as int)),
        decreases params@.len() - i,
    {
        if i > 0 {
            out.append("&");
        }
        out.append(params[i].0.as_str());
        out.append("=");
        out.append(params[i].1.as_str());
        proof {
            let prefix = vparams.subrange(0, i as int);
            let next = vparams.subrange(0, i + 1);
            assert(next.drop_last() =~= prefix);
            assert(next.last() == vparams[i as int]);
            assert(out@ =~= spec_query_string(next));
        }
        i += 1;
    }
    proof {
        assert(vparams.subrange(0, vparams.len() as int) =~= vparams);
    }
    out
}

/// The configured endpoint client: the transport lives with the
/// application; the client owns the negotiated base path.
#[derive(Debug, Clone)]
pub struct Fronius {
    base_path: String,
}

impl Fronius {
    /// The versioned base path all endpoint names are resolved against.
    pub closed spec fn spec_base_path(&self) -> Seq<char> {
        self.base_path@
    }

    /// Finishes the bootstrap handshake: accepts exactly protocol
    /// revision 1 and adopts the reported base path; any other revision
    /// is unsupported and constructs no client.
    pub fn connect(api_version: ApiVersion) -> (r: Result<Fronius, Error>)
        ensures
            api_version.api_version == 1 ==> (r matches Ok(f) && f.spec_base_path()
                == api_version.base_url@),
            api_version.api_version != 1 ==> r == Err::<Fronius, Error>(
                Error::UnsupportedApiVersion(api_version.api_version),
            ),
    {
        if api_version.api_version != 1 {
            return Err(Error::UnsupportedApiVersion(api_version.api_version));
        }
        Ok(Fronius { base_path: api_version.base_url })
    }

    /// The base path, as negotiated.
    pub fn base_path(&self) -> (r: &str)
        ensures
            r@ == self.spec_base_path(),
    {
        self.base_path.as_str()
    }

    /// Resolves an endpoint name against the base path, matching
    /// [`spec_resolve`].
    fn resolve_endpoint(&self, endpoint: &str) -> (r: Result<String, Error>)
        ensures
            match r {
                Ok(p) => spec_resolve(self.spec_base_path(), endpoint@) == Some(p@),
                Err(e) => spec_resolve(self.spec_base_path(), endpoint@) is None && (
                e matches Error::InvalidEndpoint(s) && s@ == endpoint@),
            },
    {
        let echars = str_to_chars(endpoint);
        if echars.len() == 0 {
            return Err(Error::InvalidEndpoint(endpoint.to_owned()));
        }
        let mut i: usize = 0;
        while i < echars.len()
            invariant
                i <= echars@.len(),
                echars@ == endpoint@,
                forall|j: int| 0 <= j < i ==> spec_is_endpoint_char(#[trigger] echars@[j]),
            decreases echars@.len() - i,
        {
            let c = echars[i];
            let u = c as u32;
            let ok = (48 <= u && u <= 57) || (65 <= u && u <= 90) || (97 <= u && u <= 122) || c
                == '.' || c == '_' || c == '-';
            if !ok {
                proof {
                    assert(!spec_is_endpoint_char(endpoint@[i as int]));
                }
                return Err(Error::InvalidEndpoint(endpoint.to_owned()));
            }
            i += 1;
        }
        let bchars = str_to_chars(self.base_path.as_str());
        let n = bchars.len();
        let mut cut: usize = 0;
        let mut found = false;
        let mut k: usize = 0;
        while k < n
            invariant
                k <= n,
                n == bchars@.len(),
                bchars@ == self.spec_base_path(),
                found ==> 1 <= cut <= k && bchars@[cut - 1] == '/' && (forall|m: int|
                    cut <= m < k ==> bchars@[m] != '/'),
                !found ==> cut == 0 && (forall|m: int| 0 <= m < k ==> bchars@[m] != '/'),
            decreases n - k,
        {
            if bchars[k] == '/' {
                cut = k + 1;
                found = true;
            }
            k += 1;
        }
        if !found {
            proof {
                lemma_dir_of_none(self.spec_base_path());
            }
            return Err(Error::InvalidEndpoint(endpoint.to_owned()));
        }
        proof {
            lemma_dir_of_found(self.spec_base_path(), cut as int);
        }
        let mut out: Vec<char> = Vec::new();
        let mut a: usize = 0;
        while a < cut
            invariant
                a <= cut <= bchars@.len(),
                out@ == bchars@.subrange(0, a as int),
            decreases cut - a,
        {
            out.push(bchars[a]);
            proof {
                assert(out@ =~= bchars@.subrange(0, a + 1));
            }
            a += 1;
        }
        let mut b: usize = 0;
        while b < echars.len()
            invariant
                b <= echars@.len(),
                cut <= bchars@.len(),
                out@ == bchars@.subrange(0, cut as int) + echars@.subrange(0, b as int),
            decreases echars@.len() - b,
        {
            out.push(echars[b]);
            proof {
                assert(out@ =~= bchars@.subrange(0, cut as int) + echars@.subrange(0, b + 1));
            }
            b += 1;
        }
        proof {
            assert(echars@.subrange(0, echars@.len() as int) =~= endpoint@);
            assert(out@ =~= self.spec_base_path().subrange(0, cut as int) + endpoint@);
        }
        Ok(chars_to_string(&out))
    }

    /// Builds the full path-and-query of one request: the endpoint name
    /// resolved against the base path, then the parameters in caller
    /// order. A name that does not resolve is a defect of the caller,
    /// reported as an invalid endpoint.
    pub fn make_request_url(&self, endpoint: &str, params: &Vec<(String, String)>) -> (r: Result<
        String,
        Error,
    >)
        ensures
            match r {
                Ok(u) => spec_resolve(self.spec_base_path(), endpoint@) matches Some(p) && (
                params@.len() == 0 ==> u@ == p) && (params@.len() > 0 ==> u@ == p + "?"@
                    + spec_query_string(str_pairs_view(params@))),
                Err(e) => spec_resolve(self.spec_base_path(), endpoint@) is None && (
                e matches Error::InvalidEndpoint(s) && s@ == endpoint@),
            },
    {
        let path = self.resolve_endpoint(endpoint)?;
        if params.len() == 0 {
            Ok(path)
        } else {
            let q = query_string(params);
            let mut u = path;
            u.append("?");
            u.append(q.as_str());
            Ok(u)
        }
    }
}

/// The fixed, unversioned path of the version handshake.
pub fn get_api_version_request() -> (r: &'static str)
    ensures
        r@ == "/solar_api/GetAPIVersion.cgi"@,
{
    "/solar_api/GetAPIVersion.cgi"
}

/// The handshake answer a response text decodes to, when it does.
pub open spec fn spec_api_version_of(body: Seq<char>) -> Option<
    crate::envelope::ApiVersionView,
> {
    match crate::parse::spec_document(body) {
        Some(doc) => crate::envelope::spec_decode_api_version(doc),
        None => None,
    }
}

/// Decodes the version handshake answer, matching
/// [`spec_api_version_of`]. Unlike every other response, it arrives
/// bare, not wrapped in an envelope.
pub fn get_api_version_response(body: &str) -> (r: Result<ApiVersion, Error>)
    ensures
        match r {
            Ok(a) => spec_api_version_of(body@) == Some(a@),
            Err(Error::Decode(_)) => spec_api_version_of(body@) is None,
            Err(_) => false,
        },
{
    let v = match parse_json(body) {
        Ok(v) => v,
        Err(e) => {
            return Err(Error::Decode(e));
        },
    };
    match decode_api_version(&v) {
        Ok(a) => Ok(a),
        Err(e) => Err(Error::Decode(e)),
    }
}

/// The payload a successful response carries: the envelope decodes,
/// its status code is Okay, and its body holds the `Data` field.
pub open spec fn spec_okay_payload(doc: JsonView) -> Option<JsonView> {
    match crate::envelope::spec_decode_envelope(doc) {
        Some(env) => if env.head.status.code == StatusCode::Okay {
            spec_field(env.body, "Data"@)
        } else {
            None
        },
        None => None,
    }
}

/// The whole response gate over one decoded document: decodes the
/// envelope, applies the status gate, and unwraps the payload. Fails
/// with the full status record on any non-Okay code, whatever the body
/// holds; fails as a decode error exactly when the document does not
/// carry an Okay envelope with a payload.
pub fn response_payload(v: &JsonValue) -> (r: Result<JsonValue, Error>)
    ensures
        match r {
            Ok(d) => spec_okay_payload(v@) == Some(d@),
            Err(Error::Response(st)) => crate::envelope::spec_decode_envelope(v@) matches Some(env)
                && env.head.status == st@ && st.code != StatusCode::Okay,
            Err(Error::Decode(_)) => spec_okay_payload(v@) is None && !(
            crate::envelope::spec_decode_envelope(v@) matches Some(env) && env.head.status.code
                != StatusCode::Okay),
            Err(_) => false,
        },
{
    let env = match decode_envelope(v) {
        Ok(env) => env,
        Err(e) => {
            return Err(Error::Decode(e));
        },
    };
    let body = match envelope_body(env) {
        Ok(b) => b,
        Err(e) => {
            return Err(e);
        },
    };
    match decode_response_body(&body) {
        Ok(wrapped) => Ok(wrapped.data),
        Err(e) => Err(Error::Decode(e)),
    }
}

/// The payload a response text carries, when the text is one JSON
/// document holding an Okay envelope with a payload.
pub open spec fn spec_response_payload(body: Seq<char>) -> Option<JsonView> {
    match crate::parse::spec_document(body) {
        Some(doc) => spec_okay_payload(doc),
        None => None,
    }
}

/// The status record of a response text whose envelope decodes with a
/// non-Okay code.
pub open spec fn spec_response_failure(body: Seq<char>) -> Option<crate::status::StatusView> {
    match crate::parse::spec_document(body) {
        Some(doc) => match crate::envelope::spec_decode_envelope(doc) {
            Some(env) => if env.head.status.code != StatusCode::Okay {
                Some(env.head.status)
            } else {
                None
            },
            None => None,
        },
        None => None,
    }
}

/// Parses a response body and applies the response gate: hands the
/// payload out exactly when the text carries an Okay envelope with a
/// payload; fails with the full status record exactly when it carries
/// a non-Okay envelope; and fails as a decode error otherwise.
pub fn make_request_body(body: &str) -> (r: Result<JsonValue, Error>)
    ensures
        match r {
            Ok(d) => spec_response_payload(body@) == Some(d@),
            Err(Error::Response(st)) => spec_response_failure(body@) == Some(st@),
            Err(Error::Decode(_)) => spec_response_payload(body@) is None
                && spec_response_failure(body@) is None,
            Err(_) => false,
        },
{
    let v = match parse_json(body) {
        Ok(v) => v,
        Err(e) => {
            return Err(Error::Decode(e));
        },
    };
    match response_payload(&v) {
        Ok(d) => Ok(d),
        Err(e) => Err(e),
    }
}

impl Fronius {
    /// Path-and-query of the device-scoped request to `GetInverterRealtimeData.cgi`
    /// for the shape `C`.
    pub fn get_inverter_realtime_data_device_request<C: DataCollection>(&self, device_id: &DeviceId) -> (r: Result<String, Error>)
        ensures
            match r {
                Ok(u) => spec_resolve(self.spec_base_path(), "GetInverterRealtimeData.cgi"@) matches Some(p) && u@
                    == p + "?Scope=Device&DeviceId="@ + spec_u8_digits(device_id.spec_raw())
                    + "&DataCollection="@ + C::spec_param_value(),
                Err(e) => spec_resolve(self.spec_base_path(), "GetInverterRealtimeData.cgi"@) is None && (
                e matches Error::InvalidEndpoint(s) && s@ == "GetInverterRealtimeData.cgi"@),
            },
    {
        let mut params: Vec<(String, String)> = Vec::new();
        params.push((String::from_str("Scope"), String::from_str("Device")));
        params.push((String::from_str("DeviceId"), u8_to_string(device_id.raw())));
        params.push((String::from_str("DataCollection"), String::from_str(C::param_value())));
        let u = self.make_request_url("GetInverterRealtimeData.cgi", &params)?;
        proof {
            reveal_strlit("Scope");
            reveal_strlit("Device");
            reveal_strlit("DeviceId");
            reveal_strlit("DataCollection");
            reveal_strlit("=");
            reveal_strlit("&");
            reveal_strlit("?");
            reveal_strlit("?Scope=Device&DeviceId=");
            reveal_strlit("&DataCollection=");
            let vp = str_pairs_view(params@);
            assert(vp.len() == 3);
            assert(vp[0] == ("Scope"@, "Device"@));
            assert(vp[1] == ("DeviceId"@, spec_u8_digits(device_id.spec_raw())));
            assert(vp[2] == ("DataCollection"@, C::spec_param_value()));
            assert(vp.drop_last().drop_last().len() == 1);
            assert(spec_query_string(vp.drop_last().drop_last()) == vp.drop_last().drop_last()[0].0
                + "="@ + vp.drop_last().drop_last()[0].1);
            assert(vp.drop_last().len() == 2);
            assert(spec_query_string(vp.drop_last()) == spec_query_string(
                vp.drop_last().drop_last(),
            ) + "&"@ + vp.drop_last().last().0 + "="@ + vp.drop_last().last().1);
            assert(spec_query_string(vp) == spec_query_string(vp.drop_last()) + "&"@ + vp.last().0
                + "="@ + vp.last().1);
            assert(vp.drop_last().drop_last()[0] == vp[0]);
            assert(vp.drop_last().last() == vp[1]);
            assert(vp.last() == vp[2]);
            assert("?"@ + spec_query_string(vp) =~= "?Scope=Device&DeviceId="@ + spec_u8_digits(
                device_id.spec_raw(),
            ) + "&DataCollection="@ + C::spec_param_value());
            assert(u@ =~= spec_resolve(self.spec_base_path(), "GetInverterRealtimeData.cgi"@)->Some_0
                + "?Scope=Device&DeviceId="@ + spec_u8_digits(device_id.spec_raw())
                + "&DataCollection="@ + C::spec_param_value());
        }
        Ok(u)
    }

    /// Path-and-query of the whole-system request to `GetInverterRealtimeData.cgi`.
    pub fn get_inverter_realtime_data_system_request(&self) -> (r: Result<String, Error>)
        ensures
            match r {
                Ok(u) => spec_resolve(self.spec_base_path(), "GetInverterRealtimeData.cgi"@) matches Some(p) && u@
                    == p + "?Scope=System"@,
                Err(e) => spec_resolve(self.spec_base_path(), "GetInverterRealtimeData.cgi"@) is None && (
                e matches Error::InvalidEndpoint(s) && s@ == "GetInverterRealtimeData.cgi"@),
            },
    {
        let mut params: Vec<(String, String)> = Vec::new();
        params.push((String::from_str("Scope"), String::from_str("System")));
        let u = self.make_request_url("GetInverterRealtimeData.cgi", &params)?;
        proof {
            reveal_strlit("Scope");
            reveal_strlit("System");
            reveal_strlit("=");
            reveal_strlit("?");
            reveal_strlit("?Scope=System");
            let vp = str_pairs_view(params@);
            assert(vp.len() == 1);
            assert(vp[0] == ("Scope"@, "System"@));
            assert(spec_query_string(vp) == vp[0].0 + "="@ + vp[0].1);
            assert("?"@ + spec_query_string(vp) =~= "?Scope=System"@);
            assert(u@ =~= spec_resolve(self.spec_base_path(), "GetInverterRealtimeData.cgi"@)->Some_0
                + "?Scope=System"@);
        }
        Ok(u)
    }

    /// Path of the parameterless request to `GetInverterInfo.cgi`.
    pub fn get_inverter_info_request(&self) -> (r: Result<String, Error>)
        ensures
            match r {
                Ok(u) => spec_resolve(self.spec_base_path(), "GetInverterInfo.cgi"@) == Some(u@),
                Err(e) => spec_resolve(self.spec_base_path(), "GetInverterInfo.cgi"@) is None && (
                e matches Error::InvalidEndpoint(s) && s@ == "GetInverterInfo.cgi"@),
            },
    {
        let params: Vec<(String, String)> = Vec::new();
        self.make_request_url("GetInverterInfo.cgi", &params)
    }

    /// Path of the parameterless request to `GetActiveDeviceInfo.cgi`.
    pub fn get_active_device_info_request(&self) -> (r: Result<String, Error>)
        ensures
            match r {
                Ok(u) => spec_resolve(self.spec_base_path(), "GetActiveDeviceInfo.cgi"@) == Some(u@),
                Err(e) => spec_resolve(self.spec_base_path(), "GetActiveDeviceInfo.cgi"@) is None && (
                e matches Error::InvalidEndpoint(s) && s@ == "GetActiveDeviceInfo.cgi"@),
            },
    {
        let params: Vec<(String, String)> = Vec::new();
        self.make_request_url("GetActiveDeviceInfo.cgi", &params)
    }

    /// Path-and-query of the whole-system request to `GetMeterRealtimeData.cgi`.
    pub fn get_meter_realtime_data_system_request(&self) -> (r: Result<String, Error>)
        ensures
            match r {
                Ok(u) => spec_resolve(self.spec_base_path(), "GetMeterRealtimeData.cgi"@) matches Some(p) && u@
                    == p + "?Scope=System"@,
                Err(e) => spec_resolve(self.spec_base_path(), "GetMeterRealtimeData.cgi"@) is None && (
                e matches Error::InvalidEndpoint(s) && s@ == "GetMeterRealtimeData.cgi"@),
            },
    {
        let mut params: Vec<(String, String)> = Vec::new();
        params.push((String::from_str("Scope"), String::from_str("System")));
        let u = self.make_request_url("GetMeterRealtimeData.cgi", &params)?;
        proof {
            reveal_strlit("Scope");
            reveal_strlit("System");
            reveal_strlit("=");
            reveal_strlit("?");
            reveal_strlit("?Scope=System");
            let vp = str_pairs_view(params@);
            assert(vp.len() == 1);
            assert(vp[0] == ("Scope"@, "System"@));
            assert(spec_query_string(vp) == vp[0].0 + "="@ + vp[0].1);
            assert("?"@ + spec_query_string(vp) =~= "?Scope=System"@);
            assert(u@ =~= spec_resolve(self.spec_base_path(), "GetMeterRealtimeData.cgi"@)->Some_0
                + "?Scope=System"@);
        }
        Ok(u)
    }

    /// Path-and-query of the device-scoped request to `GetMeterRealtimeData.cgi`.
    pub fn get_meter_realtime_data_device_request(&self, device_id: &DeviceId) -> (r: Result<String, Error>)
        ensures
            match r {
                Ok(u) => spec_resolve(self.spec_base_path(), "GetMeterRealtimeData.cgi"@) matches Some(p) && u@
                    == p + "?Scope=Device&DeviceId="@ + spec_u8_digits(device_id.spec_raw()),
                Err(e) => spec_resolve(self.spec_base_path(), "GetMeterRealtimeData.cgi"@) is None && (
                e matches Error::InvalidEndpoint(s) && s@ == "GetMeterRealtimeData.cgi"@),
            },
    {
        let mut params: Vec<(String, String)> = Vec::new();
        params.push((String::from_str("Scope"), String::from_str("Device")));
        params.push((String::from_str("DeviceId"), u8_to_string(device_id.raw())));
        let u = self.make_request_url("GetMeterRealtimeData.cgi", &params)?;
        proof {
            reveal_strlit("Scope");
            reveal_strlit("Device");
            reveal_strlit("DeviceId");
            reveal_strlit("=");
            reveal_strlit("&");
            reveal_strlit("?");
            reveal_strlit("?Scope=Device&DeviceId=");
            let vp = str_pairs_view(params@);
            assert(vp.len() == 2);
            assert(vp[0] == ("Scope"@, "Device"@));
            assert(vp[1] == ("DeviceId"@, spec_u8_digits(device_id.spec_raw())));
            assert(vp.drop_last().len() == 1);
            assert(spec_query_string(vp.drop_last()) == vp.drop_last()[0].0 + "="@
                + vp.drop_last()[0].1);
            assert(spec_query_string(vp) == spec_query_string(vp.drop_last()) + "&"@ + vp.last().0
                + "="@ + vp.last().1);
            assert(vp.drop_last()[0] == vp[0]);
            assert(vp.last() == vp[1]);
            assert("?"@ + spec_query_string(vp) =~= "?Scope=Device&DeviceId="@ + spec_u8_digits(
                device_id.spec_raw(),
            ));
            assert(u@ =~= spec_resolve(self.spec_base_path(), "GetMeterRealtimeData.cgi"@)->Some_0
                + "?Scope=Device&DeviceId="@ + spec_u8_digits(device_id.spec_raw()));
        }
        Ok(u)
    }

    /// Path-and-query of the whole-system request to `GetStorageRealtimeData.cgi`.
    pub fn get_storage_realtime_data_system_request(&self) -> (r: Result<String, Error>)
        ensures
            match r {
                Ok(u) => spec_resolve(self.spec_base_path(), "GetStorageRealtimeData.cgi"@) matches Some(p) && u@
                    == p + "?Scope=System"@,
                Err(e) => spec_resolve(self.spec_base_path(), "GetStorageRealtimeData.cgi"@) is None && (
                e matches Error::InvalidEndpoint(s) && s@ == "GetStorageRealtimeData.cgi"@),
            },
    {
        let mut params: Vec<(String, String)> = Vec::new();
        params.push((String::from_str("Scope"), String::from_str("System")));
        let u = self.make_request_url("GetStorageRealtimeData.cgi", &params)?;
        proof {
            reveal_strlit("Scope");
            reveal_strlit("System");
            reveal_strlit("=");
            reveal_strlit("?");
            reveal_strlit("?Scope=System");
            let vp = str_pairs_view(params@);
            assert(vp.len() == 1);
            assert(vp[0] == ("Scope"@, "System"@));
            assert(spec_query_string(vp) == vp[0].0 + "="@ + vp[0].1);
            assert("?"@ + spec_query_string(vp) =~= "?Scope=System"@);
            assert(u@ =~= spec_resolve(self.spec_base_path(), "GetStorageRealtimeData.cgi"@)->Some_0
                + "?Scope=System"@);
        }
        Ok(u)
    }

    /// Path-and-query of the device-scoped request to `GetStorageRealtimeData.cgi`.
    pub fn get_storage_realtime_data_device_request(&self, device_id: &DeviceId) -> (r: Result<String, Error>)
        ensures
            match r {
                Ok(u) => spec_resolve(self.spec_base_path(), "GetStorageRealtimeData.cgi"@) matches Some(p) && u@
                    == p + "?Scope=Device&DeviceId="@ + spec_u8_digits(device_id.spec_raw()),
                Err(e) => spec_resolve(self.spec_base_path(), "GetStorageRealtimeData.cgi"@) is None && (
                e matches Error::InvalidEndpoint(s) && s@ == "GetStorageRealtimeData.cgi"@),
            },
    {
        let mut params: Vec<(String, String)> = Vec::new();
        params.push((String::from_str("Scope"), String::from_str("Device")));
        params.push((String::from_str("DeviceId"), u8_to_string(device_id.raw())));
        let u = self.make_request_url("GetStorageRealtimeData.cgi", &params)?;
        proof {
            reveal_strlit("Scope");
            reveal_strlit("Device");
            reveal_strlit("DeviceId");
            reveal_strlit("=");
            reveal_strlit("&");
            reveal_strlit("?");
            reveal_strlit("?Scope=Device&DeviceId=");
            let vp = str_pairs_view(params@);
            assert(vp.len() == 2);
            assert(vp[0] == ("Scope"@, "Device"@));
            assert(vp[1] == ("DeviceId"@, spec_u8_digits(device_id.spec_raw())));
            assert(vp.drop_last().len() == 1);
            assert(spec_query_string(vp.drop_last()) == vp.drop_last()[0].0 + "="@
                + vp.drop_last()[0].1);
            assert(spec_query_string(vp) == spec_query_string(vp.drop_last()) + "&"@ + vp.last().0
                + "="@ + vp.last().1);
            assert(vp.drop_last()[0] == vp[0]);
            assert(vp.last() == vp[1]);
            assert("?"@ + spec_query_string(vp) =~= "?Scope=Device&DeviceId="@ + spec_u8_digits(
                device_id.spec_raw(),
            ));
            assert(u@ =~= spec_resolve(self.spec_base_path(), "GetStorageRealtimeData.cgi"@)->Some_0
                + "?Scope=Device&DeviceId="@ + spec_u8_digits(device_id.spec_raw()));
        }
        Ok(u)
    }

    /// Path-and-query of the whole-system request to `GetOhmPilotRealtimeData.cgi`.
    pub fn get_ohm_pilot_realtime_data_system_request(&self) -> (r: Result<String, Error>)
        ensures
            match r {
                Ok(u) => spec_resolve(self.spec_base_path(), "GetOhmPilotRealtimeData.cgi"@) matches Some(p) && u@
                    == p + "?Scope=System"@,
                Err(e) => spec_resolve(self.spec_base_path(), "GetOhmPilotRealtimeData.cgi"@) is None && (
                e matches Error::InvalidEndpoint(s) && s@ == "GetOhmPilotRealtimeData.cgi"@),
            },
    {
        let mut params: Vec<(String, String)> = Vec::new();
        params.push((String::from_str("Scope"), String::from_str("System")));
        let u = self.make_request_url("GetOhmPilotRealtimeData.cgi", &params)?;
        proof {
            reveal_strlit("Scope");
            reveal_strlit("System");
            reveal_strlit("=");
            reveal_strlit("?");
            reveal_strlit("?Scope=System");
            let vp = str_pairs_view(params@);
            assert(vp.len() == 1);
            assert(vp[0] == ("Scope"@, "System"@));
            assert(spec_query_string(vp) == vp[0].0 + "="@ + vp[0].1);
            assert("?"@ + spec_query_string(vp) =~= "?Scope=System"@);
            assert(u@ =~= spec_resolve(self.spec_base_path(), "GetOhmPilotRealtimeData.cgi"@)->Some_0
                + "?Scope=System"@);
        }
        Ok(u)
    }

    /// Path-and-query of the device-scoped request to `GetOhmPilotRealtimeData.cgi`.
    pub fn get_ohm_pilot_realtime_data_device_request(&self, device_id: &DeviceId) -> (r: Result<String, Error>)
        ensures
            match r {
                Ok(u) => spec_resolve(self.spec_base_path(), "GetOhmPilotRealtimeData.cgi"@) matches Some(p) && u@
                    == p + "?Scope=Device&DeviceId="@ + spec_u8_digits(device_id.spec_raw()),
                Err(e) => spec_resolve(self.spec_base_path(), "GetOhmPilotRealtimeData.cgi"@) is None && (
                e matches Error::InvalidEndpoint(s) && s@ == "GetOhmPilotRealtimeData.cgi"@),
            },
    {
        let mut params: Vec<(String, String)> = Vec::new();
        params.push((String::from_str("Scope"), String::from_str("Device")));
        params.push((String::from_str("DeviceId"), u8_to_string(device_id.raw())));
        let u = self.make_request_url("GetOhmPilotRealtimeData.cgi", &params)?;
        proof {
            reveal_strlit("Scope");
            reveal_strlit("Device");
            reveal_strlit("DeviceId");
            reveal_strlit("=");
            reveal_strlit("&");
            reveal_strlit("?");
            reveal_strlit("?Scope=Device&DeviceId=");
            let vp = str_pairs_view(params@);
            assert(vp.len() == 2);
            assert(vp[0] == ("Scope"@, "Device"@));
            assert(vp[1] == ("DeviceId"@, spec_u8_digits(device_id.spec_raw())));
            assert(vp.drop_last().len() == 1);
            assert(spec_query_string(vp.drop_last()) == vp.drop_last()[0].0 + "="@
                + vp.drop_last()[0].1);
            assert(spec_query_string(vp) == spec_query_string(vp.drop_last()) + "&"@ + vp.last().0
                + "="@ + vp.last().1);
            assert(vp.drop_last()[0] == vp[0]);
            assert(vp.last() == vp[1]);
            assert("?"@ + spec_query_string(vp) =~= "?Scope=Device&DeviceId="@ + spec_u8_digits(
                device_id.spec_raw(),
            ));
            assert(u@ =~= spec_resolve(self.spec_base_path(), "GetOhmPilotRealtimeData.cgi"@)->Some_0
                + "?Scope=Device&DeviceId="@ + spec_u8_digits(device_id.spec_raw()));
        }
        Ok(u)
    }

    /// Path of the parameterless request to `GetPowerFlowRealtimeData.fcgi`.
    pub fn get_power_flow_realtime_data_request(&self) -> (r: Result<String, Error>)
        ensures
            match r {
                Ok(u) => spec_resolve(self.spec_base_path(), "GetPowerFlowRealtimeData.fcgi"@) == Some(u@),
                Err(e) => spec_resolve(self.spec_base_path(), "GetPowerFlowRealtimeData.fcgi"@) is None && (
                e matches Error::InvalidEndpoint(s) && s@ == "GetPowerFlowRealtimeData.fcgi"@),
            },
    {
        let params: Vec<(String, String)> = Vec::new();
        self.make_request_url("GetPowerFlowRealtimeData.fcgi", &params)
    }

    /// Decodes the response of a device-scoped inverter realtime-data
    /// request for the shape `C`: succeeds exactly on a response
    /// carrying an Okay envelope whose payload decodes as `C`.
    pub fn get_inverter_realtime_data_device_response<C: DataCollection>(body: &str) -> (r: Result<
        C,
        Error,
    >)
        ensures
            match r {
                Ok(c) => spec_response_payload(body@) matches Some(d) && C::spec_decode(d) == Some(
                    c@,
                ),
                Err(Error::Response(st)) => spec_response_failure(body@) == Some(st@),
                Err(Error::Decode(_)) => spec_response_failure(body@) is None && (
                spec_response_payload(body@) is None || (spec_response_payload(body@) matches Some(
                    d,
                ) && C::spec_decode(d) is None)),
                Err(_) => false,
            },
    {
        let payload = make_request_body(body)?;
        match C::decode_data(&payload) {
            Ok(c) => Ok(c),
            Err(e) => {
                proof {
                    assert(spec_response_failure(body@) is None);
                }
                Err(Error::Decode(e))
            },
        }
    }

    /// Decodes the response of the whole-system inverter realtime-data request: succeeds exactly on a response
    /// carrying an Okay envelope whose payload decodes as this shape.
    pub fn get_inverter_realtime_data_system_response(body: &str) -> (r: Result<CumulationInverterDataSystem, Error>)
        ensures
            match r {
                Ok(m) => spec_response_payload(body@) matches Some(d) && spec_decode_cumulation_inverter_data_system(d) == Some(m@),
                Err(Error::Response(st)) => spec_response_failure(body@) == Some(st@),
                Err(Error::Decode(_)) => spec_response_failure(body@) is None && (
                spec_response_payload(body@) is None || (spec_response_payload(body@) matches Some(
                    d,
                ) && spec_decode_cumulation_inverter_data_system(d) is None)),
                Err(_) => false,
            },
    {
        let payload = make_request_body(body)?;
        match decode_cumulation_inverter_data_system(&payload) {
            Ok(m) => Ok(m),
            Err(e) => {
                proof {
                    assert(spec_response_failure(body@) is None);
                }
                Err(Error::Decode(e))
            },
        }
    }

    /// Decodes the response of the inverter inventory request: succeeds exactly on a response
    /// carrying an Okay envelope whose payload decodes as this shape.
    pub fn get_inverter_info_response(body: &str) -> (r: Result<InverterInfos, Error>)
        ensures
            match r {
                Ok(m) => spec_response_payload(body@) matches Some(d) && spec_decode_inverter_infos(d) == Some(inverter_infos_pairs_view(m@)),
                Err(Error::Response(st)) => spec_response_failure(body@) == Some(st@),
                Err(Error::Decode(_)) => spec_response_failure(body@) is None && (
                spec_response_payload(body@) is None || (spec_response_payload(body@) matches Some(
                    d,
                ) && spec_decode_inverter_infos(d) is None)),
                Err(_) => false,
            },
    {
        let payload = make_request_body(body)?;
        match decode_inverter_infos(&payload) {
            Ok(m) => Ok(m),
            Err(e) => {
                proof {
                    assert(spec_response_failure(body@) is None);
                }
                Err(Error::Decode(e))
            },
        }
    }

    /// Decodes the response of the active-device inventory request: succeeds exactly on a response
    /// carrying an Okay envelope whose payload decodes as this shape.
    pub fn get_active_device_info_response(body: &str) -> (r: Result<DeviceInfos, Error>)
        ensures
            match r {
                Ok(m) => spec_response_payload(body@) matches Some(d) && spec_decode_device_infos(d) == Some(device_infos_pairs_view(m@)),
                Err(Error::Response(st)) => spec_response_failure(body@) == Some(st@),
                Err(Error::Decode(_)) => spec_response_failure(body@) is None && (
                spec_response_payload(body@) is None || (spec_response_payload(body@) matches Some(
                    d,
                ) && spec_decode_device_infos(d) is None)),
                Err(_) => false,
            },
    {
        let payload = make_request_body(body)?;
        match decode_device_infos(&payload) {
            Ok(m) => Ok(m),
            Err(e) => {
                proof {
                    assert(spec_response_failure(body@) is None);
                }
                Err(Error::Decode(e))
            },
        }
    }

    /// Decodes the response of the whole-system meter request: succeeds exactly on a response
    /// carrying an Okay envelope whose payload decodes as this shape.
    pub fn get_meter_realtime_data_system_response(body: &str) -> (r: Result<MeterDataSystem, Error>)
        ensures
            match r {
                Ok(m) => spec_response_payload(body@) matches Some(d) && spec_decode_meter_system(d) == Some(meter_system_pairs_view(m@)),
                Err(Error::Response(st)) => spec_response_failure(body@) == Some(st@),
                Err(Error::Decode(_)) => spec_response_failure(body@) is None && (
                spec_response_payload(body@) is None || (spec_response_payload(body@) matches Some(
                    d,
                ) && spec_decode_meter_system(d) is None)),
                Err(_) => false,
            },
    {
        let payload = make_request_body(body)?;
        match decode_meter_system(&payload) {
            Ok(m) => Ok(m),
            Err(e) => {
                proof {
                    assert(spec_response_failure(body@) is None);
                }
                Err(Error::Decode(e))
            },
        }
    }

    /// Decodes the response of the device-scoped meter request: succeeds exactly on a response
    /// carrying an Okay envelope whose payload decodes as this shape.
    pub fn get_meter_realtime_data_device_response(body: &str) -> (r: Result<MeterData, Error>)
        ensures
            match r {
                Ok(m) => spec_response_payload(body@) matches Some(d) && spec_decode_meter_data(d) == Some(m@),
                Err(Error::Response(st)) => spec_response_failure(body@) == Some(st@),
                Err(Error::Decode(_)) => spec_response_failure(body@) is None && (
                spec_response_payload(body@) is None || (spec_response_payload(body@) matches Some(
                    d,
                ) && spec_decode_meter_data(d) is None)),
                Err(_) => false,
            },
    {
        let payload = make_request_body(body)?;
        match decode_meter_data(&payload) {
            Ok(m) => Ok(m),
            Err(e) => {
                proof {
                    assert(spec_response_failure(body@) is None);
                }
                Err(Error::Decode(e))
            },
        }
    }

    /// Decodes the response of the whole-system storage request: succeeds exactly on a response
    /// carrying an Okay envelope whose payload decodes as this shape.
    pub fn get_storage_realtime_data_system_response(body: &str) -> (r: Result<StorageDataSystem, Error>)
        ensures
            match r {
                Ok(m) => spec_response_payload(body@) matches Some(d) && spec_decode_storage_system(d) == Some(storage_system_pairs_view(m@)),
                Err(Error::Response(st)) => spec_response_failure(body@) == Some(st@),
                Err(Error::Decode(_)) => spec_response_failure(body@) is None && (
                spec_response_payload(body@) is None || (spec_response_payload(body@) matches Some(
                    d,
                ) && spec_decode_storage_system(d) is None)),
                Err(_) => false,
            },
    {
        let payload = make_request_body(body)?;
        match decode_storage_system(&payload) {
            Ok(m) => Ok(m),
            Err(e) => {
                proof {
                    assert(spec_response_failure(body@) is None);
                }
                Err(Error::Decode(e))
            },
        }
    }

    /// Decodes the response of the device-scoped storage request: succeeds exactly on a response
    /// carrying an Okay envelope whose payload decodes as this shape.
    pub fn get_storage_realtime_data_device_response(body: &str) -> (r: Result<StorageData, Error>)
        ensures
            match r {
                Ok(m) => spec_response_payload(body@) matches Some(d) && spec_decode_storage_data(d) == Some(m@),
                Err(Error::Response(st)) => spec_response_failure(body@) == Some(st@),
                Err(Error::Decode(_)) => spec_response_failure(body@) is None && (
                spec_response_payload(body@) is None || (spec_response_payload(body@) matches Some(
                    d,
                ) && spec_decode_storage_data(d) is None)),
                Err(_) => false,
            },
    {
        let payload = make_request_body(body)?;
        match decode_storage_data(&payload) {
            Ok(m) => Ok(m),
            Err(e) => {
                proof {
                    assert(spec_response_failure(body@) is None);
                }
                Err(Error::Decode(e))
            },
        }
    }

    /// Decodes the response of the whole-system heating-element request: succeeds exactly on a response
    /// carrying an Okay envelope whose payload decodes as this shape.
    pub fn get_ohm_pilot_realtime_data_system_response(body: &str) -> (r: Result<OhmPilotDataSystem, Error>)
        ensures
            match r {
                Ok(m) => spec_response_payload(body@) matches Some(d) && spec_decode_ohm_pilot_system(d) == Some(ohm_pilot_system_pairs_view(m@)),
                Err(Error::Response(st)) => spec_response_failure(body@) == Some(st@),
                Err(Error::Decode(_)) => spec_response_failure(body@) is None && (
                spec_response_payload(body@) is None || (spec_response_payload(body@) matches Some(
                    d,
                ) && spec_decode_ohm_pilot_system(d) is None)),
                Err(_) => false,
            },
    {
        let payload = make_request_body(body)?;
        match decode_ohm_pilot_system(&payload) {
            Ok(m) => Ok(m),
            Err(e) => {
                proof {
                    assert(spec_response_failure(body@) is None);
                }
                Err(Error::Decode(e))
            },
        }
    }

    /// Decodes the response of the device-scoped heating-element request: succeeds exactly on a response
    /// carrying an Okay envelope whose payload decodes as this shape.
    pub fn get_ohm_pilot_realtime_data_device_response(body: &str) -> (r: Result<OhmPilotData, Error>)
        ensures
            match r {
                Ok(m) => spec_response_payload(body@) matches Some(d) && spec_decode_ohm_pilot_data(d) == Some(m@),
                Err(Error::Response(st)) => spec_response_failure(body@) == Some(st@),
                Err(Error::Decode(_)) => spec_response_failure(body@) is None && (
                spec_response_payload(body@) is None || (spec_response_payload(body@) matches Some(
                    d,
                ) && spec_decode_ohm_pilot_data(d) is None)),
                Err(_) => false,
            },
    {
        let payload = make_request_body(body)?;
        match decode_ohm_pilot_data(&payload) {
            Ok(m) => Ok(m),
            Err(e) => {
                proof {
                    assert(spec_response_failure(body@) is None);
                }
                Err(Error::Decode(e))
            },
        }
    }

    /// Decodes the response of the site power-flow request: succeeds exactly on a response
    /// carrying an Okay envelope whose payload decodes as this shape.
    pub fn get_power_flow_realtime_data_response(body: &str) -> (r: Result<PowerFlowData, Error>)
        ensures
            match r {
                Ok(m) => spec_response_payload(body@) matches Some(d) && spec_decode_power_flow_data(d) == Some(m@),
                Err(Error::Response(st)) => spec_response_failure(body@) == Some(st@),
                Err(Error::Decode(_)) => spec_response_failure(body@) is None && (
                spec_response_payload(body@) is None || (spec_response_payload(body@) matches Some(
                    d,
                ) && spec_decode_power_flow_data(d) is None)),
                Err(_) => false,
            },
    {
        let payload = make_request_body(body)?;
        match decode_power_flow_data(&payload) {
            Ok(m) => Ok(m),
            Err(e) => {
                proof {
                    assert(spec_response_failure(body@) is None);
                }
                Err(Error::Decode(e))
            },
        }
    }
}

} // verus!
