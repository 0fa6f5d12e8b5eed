//! The inventory shapes: which devices an installation has.
//!
//! One map keyed by device identifier for the inverter inventory, and
//! one keyed first by device type for the active-device inventory. A
//! slot may be reserved but unpopulated: its value is null and decodes
//! as absent.

use vstd::prelude::*;
use vstd::string::*;
use crate::decode::{req_i64, req_str, req_u64, spec_req_i64, spec_req_str, spec_req_u64};
use crate::error::DecodeError;
use crate::json::{
    get_field, jview, lemma_obj_view, spec_field, str_eq, JsonValue, JsonView,
};

verus! {

/// The closed enumeration of inverter operating states.
#[derive(Debug, Clone, Copy, PartialEq, Eq, Structural)]
pub enum InverterStatusCode {
    Startup,
    Running,
    Standby,
    Bootloading,
    Error,
    Idle,
    Ready,
    Sleeping,
    Unknown,
}

/// The operating state a wire number stands for, if any.
pub open spec fn spec_inverter_status_of(n: u64) -> Option<InverterStatusCode> {
    if n == 0 {
        Some(InverterStatusCode::Startup)
    } else if n == 7 {
        Some(InverterStatusCode::Running)
    } else if n == 8 {
        Some(InverterStatusCode::Standby)
    } else if n == 9 {
        Some(InverterStatusCode::Bootloading)
    } else if n == 10 {
        Some(InverterStatusCode::Error)
    } else if n == 11 {
        Some(InverterStatusCode::Idle)
    } else if n == 12 {
        Some(InverterStatusCode::Ready)
    } else if n == 13 {
        Some(InverterStatusCode::Sleeping)
    } else if n == 255 {
        Some(InverterStatusCode::Unknown)
    } else {
        None
    }
}

/// The text shown for each operating state.
pub open spec fn spec_inverter_status_name(c: InverterStatusCode) -> Seq<char> {
    match c {
        InverterStatusCode::Startup => "Startup"@,
        InverterStatusCode::Running => "Running"@,
        InverterStatusCode::Standby => "Standby"@,
        InverterStatusCode::Bootloading => "Bootloading"@,
        InverterStatusCode::Error => "Error"@,
        InverterStatusCode::Idle => "Idle"@,
        InverterStatusCode::Ready => "Ready"@,
        InverterStatusCode::Sleeping => "Sleeping"@,
        InverterStatusCode::Unknown => "Unknown"@,
    }
}

impl InverterStatusCode {
    /// Reads a wire number; an unknown number is a decode error.
    pub fn from_number(n: u64) -> (r: Option<InverterStatusCode>)
        ensures
            r == spec_inverter_status_of(n),
    {
        if n == 0 {
            Some(InverterStatusCode::Startup)
        } else if n == 7 {
            Some(InverterStatusCode::Running)
        } else if n == 8 {
            Some(InverterStatusCode::Standby)
        } else if n == 9 {
            Some(InverterStatusCode::Bootloading)
        } else if n == 10 {
            Some(InverterStatusCode::Error)
        } else if n == 11 {
            Some(InverterStatusCode::Idle)
        } else if n == 12 {
            Some(InverterStatusCode::Ready)
        } else if n == 13 {
            Some(InverterStatusCode::Sleeping)
        } else if n == 255 {
            Some(InverterStatusCode::Unknown)
        } else {
            None
        }
    }

    /// The display text of this state.
    pub fn name(&self) -> (r: String)
        ensures
            r@ == spec_inverter_status_name(*self),
    {
        match self {
            InverterStatusCode::Startup => String::from_str("Startup"),
            InverterStatusCode::Running => String::from_str("Running"),
            InverterStatusCode::Standby => String::from_str("Standby"),
            InverterStatusCode::Bootloading => String::from_str("Bootloading"),
            InverterStatusCode::Error => String::from_str("Error"),
            InverterStatusCode::Idle => String::from_str("Idle"),
            InverterStatusCode::Ready => String::from_str("Ready"),
            InverterStatusCode::Sleeping => String::from_str("Sleeping"),
            InverterStatusCode::Unknown => String::from_str("Unknown"),
        }
    }
}

/// A mandatory operating-state field: an integer naming a state.
pub open spec fn spec_req_inverter_status(v: JsonView, key: Seq<char>) -> Option<
    InverterStatusCode,
> {
    match spec_req_u64(v, key) {
        Some(n) => spec_inverter_status_of(n),
        None => None,
    }
}

/// Reads a mandatory operating-state field.
pub fn req_inverter_status(v: &JsonValue, key: &str) -> (r: Result<
    InverterStatusCode,
    DecodeError,
>)
    ensures
        match r {
            Ok(c) => spec_req_inverter_status(v@, key@) == Some(c),
            Err(_) => spec_req_inverter_status(v@, key@) is None,
        },
{
    let n = req_u64(v, key)?;
    match InverterStatusCode::from_number(n) {
        Some(c) => Ok(c),
        None => Err(DecodeError::UnknownCode { field: key.to_owned(), code: n }),
    }
}

/// The inventory record of one inverter.
#[derive(Debug, PartialEq)]
pub struct InverterInfo {
    pub dt: i64,
    pub pv_power: i64,
    pub custom_name: String,
    pub show: u64,
    pub unique_id: String,
    pub error_code: i64,
    pub status_code: InverterStatusCode,
    pub inverter_state: String,
}

/// The mathematical content of [`InverterInfo`].
#[verifier::ext_equal]
pub ghost struct InverterInfoView {
    pub dt: i64,
    pub pv_power: i64,
    pub custom_name: Seq<char>,
    pub show: u64,
    pub unique_id: Seq<char>,
    pub error_code: i64,
    pub status_code: InverterStatusCode,
    pub inverter_state: Seq<char>,
}

impl View for InverterInfo {
    type V = InverterInfoView;

    open spec fn view(&self) -> InverterInfoView {
        InverterInfoView {
            dt: self.dt,
            pv_power: self.pv_power,
            custom_name: self.custom_name@,
            show: self.show,
            unique_id: self.unique_id@,
            error_code: self.error_code,
            status_code: self.status_code,
            inverter_state: self.inverter_state@,
        }
    }
}

/// Every field of a [`InverterInfo`] is readable from `v` under its contract.
pub open spec fn spec_inverter_info_ok(v: JsonView) -> bool {
    &&& spec_req_i64(v, "DT"@) is Some
    &&& spec_req_i64(v, "PVPower"@) is Some
    &&& spec_req_str(v, "CustomName"@) is Some
    &&& spec_req_u64(v, "Show"@) is Some
    &&& spec_req_str(v, "UniqueID"@) is Some
    &&& spec_req_i64(v, "ErrorCode"@) is Some
    &&& spec_req_inverter_status(v, "StatusCode"@) is Some
    &&& spec_req_str(v, "InverterState"@) is Some
}

/// The [`InverterInfo`] that `v` decodes to.
pub open spec fn spec_decode_inverter_info(v: JsonView) -> Option<InverterInfoView> {
    if spec_inverter_info_ok(v) {
        Some(InverterInfoView {
        dt: spec_req_i64(v, "DT"@)->Some_0,
        pv_power: spec_req_i64(v, "PVPower"@)->Some_0,
        custom_name: spec_req_str(v, "CustomName"@)->Some_0,
        show: spec_req_u64(v, "Show"@)->Some_0,
        unique_id: spec_req_str(v, "UniqueID"@)->Some_0,
        error_code: spec_req_i64(v, "ErrorCode"@)->Some_0,
        status_code: spec_req_inverter_status(v, "StatusCode"@)->Some_0,
        inverter_state: spec_req_str(v, "InverterState"@)->Some_0,
        })
    } else {
        None
    }
}

/// One unreadable field refuses the whole record.
proof fn lemma_inverter_info_bad(v: JsonView)
    requires
        (spec_req_i64(v, "DT"@) is None) ||
            (spec_req_i64(v, "PVPower"@) is None) ||
            (spec_req_str(v, "CustomName"@) is None) ||
            (spec_req_u64(v, "Show"@) is None) ||
            (spec_req_str(v, "UniqueID"@) is None) ||
            (spec_req_i64(v, "ErrorCode"@) is None) ||
            (spec_req_inverter_status(v, "StatusCode"@) is None) ||
            (spec_req_str(v, "InverterState"@) is None),
    ensures
        spec_decode_inverter_info(v) is None,
{
}

/// Decodes a [`InverterInfo`], matching [`spec_decode_inverter_info`].
pub fn decode_inverter_info(v: &JsonValue) -> (r: Result<InverterInfo, DecodeError>)
    ensures
        match r {
            Ok(d) => spec_decode_inverter_info(v@) == Some(d@),
            Err(_) => spec_decode_inverter_info(v@) is None,
        },
{
    let dt = match req_i64(v, "DT") {
        Ok(x) => x,
        Err(e) => {
            proof {
                lemma_inverter_info_bad(v@);
            }
            return Err(e);
        },
    };
    let pv_power = match req_i64(v, "PVPower") {
        Ok(x) => x,
        Err(e) => {
            proof {
                lemma_inverter_info_bad(v@);
            }
            return Err(e);
        },
    };
    let custom_name = match req_str(v, "CustomName") {
        Ok(x) => x,
        Err(e) => {
            proof {
                lemma_inverter_info_bad(v@);
            }
            return Err(e);
        },
    };
    let show = match req_u64(v, "Show") {
        Ok(x) => x,
        Err(e) => {
            proof {
                lemma_inverter_info_bad(v@);
            }
            return Err(e);
        },
    };
    let unique_id = match req_str(v, "UniqueID") {
        Ok(x) => x,
        Err(e) => {
            proof {
                lemma_inverter_info_bad(v@);
            }
            return Err(e);
        },
    };
    let error_code = match req_i64(v, "ErrorCode") {
        Ok(x) => x,
        Err(e) => {
            proof {
                lemma_inverter_info_bad(v@);
            }
            return Err(e);
        },
    };
    let status_code = match req_inverter_status(v, "StatusCode") {
        Ok(x) => x,
        Err(e) => {
            proof {
                lemma_inverter_info_bad(v@);
            }
            return Err(e);
        },
    };
    let inverter_state = match req_str(v, "InverterState") {
        Ok(x) => x,
        Err(e) => {
            proof {
                lemma_inverter_info_bad(v@);
            }
            return Err(e);
        },
    };
    let d = InverterInfo { dt, pv_power, custom_name, show, unique_id, error_code, status_code, inverter_state };
    proof {
        assert(d@ =~= spec_decode_inverter_info(v@)->Some_0);
    }
    Ok(d)
}

/// One slot of the map: null stands for a reserved, unpopulated slot.
pub open spec fn spec_opt_entry_inverter_infos(w: JsonView) -> Option<Option<InverterInfoView>> {
    match w {
        JsonView::Null => Some(None),
        _ => match spec_decode_inverter_info(w) {
            Some(x) => Some(Some(x)),
            None => None,
        },
    }
}

/// Every entry of `es` decodes as a map member.
pub open spec fn spec_inverter_infos_entries_ok(es: Seq<(Seq<char>, JsonView)>) -> bool {
    forall|i: int| 0 <= i < es.len() ==> spec_opt_entry_inverter_infos(#[trigger] es[i].1) is Some
}

/// The decoded members of `es`, in response order.
pub open spec fn spec_inverter_infos_entries(es: Seq<(Seq<char>, JsonView)>) -> Seq<
    (Seq<char>, Option<InverterInfoView>),
> {
    Seq::new(es.len(), |i: int| (es[i].0, spec_opt_entry_inverter_infos(es[i].1)->Some_0))
}

/// Key/value views of the decoded map.
pub open spec fn inverter_infos_pairs_view(s: Seq<(String, Option<InverterInfo>)>) -> Seq<(Seq<char>, Option<InverterInfoView>)> {
    Seq::new(s.len(), |i: int| (s[i].0@, match s[i].1 { Some(x) => Some(x@), None => None }))
}

/// The inverter inventory: one optionally populated slot per device
/// identifier.
pub open spec fn spec_decode_inverter_infos(v: JsonView) -> Option<Seq<(Seq<char>, Option<InverterInfoView>)>> {
    match v {
        JsonView::Obj(es) => if spec_inverter_infos_entries_ok(es) {
            Some(spec_inverter_infos_entries(es))
        } else {
            None
        },
        _ => None,
    }
}

/// Decodes the map, matching [`spec_decode_inverter_infos`].
pub fn decode_inverter_infos(v: &JsonValue) -> (r: Result<Vec<(String, Option<InverterInfo>)>, DecodeError>)
    ensures
        match r {
            Ok(m) => spec_decode_inverter_infos(v@) == Some(inverter_infos_pairs_view(m@)),
            Err(_) => spec_decode_inverter_infos(v@) is None,
        },
{
    let entries = match v {
        JsonValue::Obj(es) => es,
        _ => {
            return Err(DecodeError::WrongType { field: "Data".to_owned() });
        },
    };
    proof {
        lemma_obj_view(*entries);
    }
    let ghost ves = jview(*v)->Obj_0;
    let mut out: Vec<(String, Option<InverterInfo>)> = Vec::new();
    let mut i: usize = 0;
    while i < entries.len()
        invariant
            i <= entries@.len(),
            out@.len() == i,
            v@ == JsonView::Obj(ves),
            ves.len() == entries@.len(),
            forall|j: int|
                0 <= j < ves.len() ==> #[trigger] ves[j] == (
                entries@[j].0@,
                jview(entries@[j].1),
                ),
            forall|j: int|
                0 <= j < i ==> out@[j].0@ == ves[j].0 && spec_opt_entry_inverter_infos(#[trigger] ves[j].1) is Some && (match out@[j].1 {
                    Some(x) => Some(x@),
                    None => None,
                }) == spec_opt_entry_inverter_infos(ves[j].1)->Some_0,
        decreases entries@.len() - i,
    {
        let value = match &entries[i].1 {
            JsonValue::Null => None,
            other => match decode_inverter_info(other) {
                Ok(x) => Some(x),
                Err(e) => {
                    proof {
                        assert(spec_opt_entry_inverter_infos(ves[i as int].1) is None);
                    }
                    return Err(e);
                },
            },
        };
        let key = entries[i].0.clone();
        out.push((key, value));
        i += 1;
    }
    proof {
        assert(inverter_infos_pairs_view(out@) =~= spec_inverter_infos_entries(ves));
    }
    Ok(out)
}

/// The inverter inventory, keyed by device identifier in response order.
pub type InverterInfos = Vec<(String, Option<InverterInfo>)>;

/// The closed enumeration of device types an installation can hold.
#[derive(Debug, Clone, Copy, PartialEq, Eq, Hash, Structural)]
pub enum DeviceType {
    Inverter,
    Storage,
    Ohmpilot,
    SensorCard,
    StringControl,
    Meter,
    System,
}

/// The device type a wire name stands for, if any.
pub open spec fn spec_device_type_of(s: Seq<char>) -> Option<DeviceType> {
    if s == "Inverter"@ {
        Some(DeviceType::Inverter)
    } else if s == "Storage"@ {
        Some(DeviceType::Storage)
    } else if s == "Ohmpilot"@ {
        Some(DeviceType::Ohmpilot)
    } else if s == "SensorCard"@ {
        Some(DeviceType::SensorCard)
    } else if s == "StringControl"@ {
        Some(DeviceType::StringControl)
    } else if s == "Meter"@ {
        Some(DeviceType::Meter)
    } else if s == "System"@ {
        Some(DeviceType::System)
    } else {
        None
    }
}

impl DeviceType {
    /// Reads a wire name; an unknown name is a decode error.
    pub fn from_name(s: &str) -> (r: Option<DeviceType>)
        ensures
            r == spec_device_type_of(s@),
    {
        proof {
            reveal_strlit("Inverter");
            reveal_strlit("Storage");
            reveal_strlit("Ohmpilot");
            reveal_strlit("SensorCard");
            reveal_strlit("StringControl");
            reveal_strlit("Meter");
            reveal_strlit("System");
        }
        if str_eq(s, "Inverter") {
            Some(DeviceType::Inverter)
        } else if str_eq(s, "Storage") {
            Some(DeviceType::Storage)
        } else if str_eq(s, "Ohmpilot") {
            Some(DeviceType::Ohmpilot)
        } else if str_eq(s, "SensorCard") {
            Some(DeviceType::SensorCard)
        } else if str_eq(s, "StringControl") {
            Some(DeviceType::StringControl)
        } else if str_eq(s, "Meter") {
            Some(DeviceType::Meter)
        } else if str_eq(s, "System") {
            Some(DeviceType::System)
        } else {
            None
        }
    }
}

/// The inventory record of one active device.
#[derive(Debug, PartialEq)]
pub struct DeviceInfo {
    pub dt: i64,
    pub serial: String,
}

/// The mathematical content of [`DeviceInfo`].
#[verifier::ext_equal]
pub ghost struct DeviceInfoView {
    pub dt: i64,
    pub serial: Seq<char>,
}

impl View for DeviceInfo {
    type V = DeviceInfoView;

    open spec fn view(&self) -> DeviceInfoView {
        DeviceInfoView {
            dt: self.dt,
            serial: self.serial@,
        }
    }
}

/// Every field of a [`DeviceInfo`] is readable from `v` under its contract.
pub open spec fn spec_device_info_ok(v: JsonView) -> bool {
    &&& spec_req_i64(v, "DT"@) is Some
    &&& spec_req_str(v, "Serial"@) is Some
}

/// The [`DeviceInfo`] that `v` decodes to.
pub open spec fn spec_decode_device_info(v: JsonView) -> Option<DeviceInfoView> {
    if spec_device_info_ok(v) {
        Some(DeviceInfoView {
        dt: spec_req_i64(v, "DT"@)->Some_0,
        serial: spec_req_str(v, "Serial"@)->Some_0,
        })
    } else {
        None
    }
}

/// One unreadable field refuses the whole record.
proof fn lemma_device_info_bad(v: JsonView)
    requires
        (spec_req_i64(v, "DT"@) is None) ||
            (spec_req_str(v, "Serial"@) is None),
    ensures
        spec_decode_device_info(v) is None,
{
}

/// Decodes a [`DeviceInfo`], matching [`spec_decode_device_info`].
pub fn decode_device_info(v: &JsonValue) -> (r: Result<DeviceInfo, DecodeError>)
    ensures
        match r {
            Ok(d) => spec_decode_device_info(v@) == Some(d@),
            Err(_) => spec_decode_device_info(v@) is None,
        },
{
    let dt = match req_i64(v, "DT") {
        Ok(x) => x,
        Err(e) => {
            proof {
                lemma_device_info_bad(v@);
            }
            return Err(e);
        },
    };
    let serial = match req_str(v, "Serial") {
        Ok(x) => x,
        Err(e) => {
            proof {
                lemma_device_info_bad(v@);
            }
            return Err(e);
        },
    };
    let d = DeviceInfo { dt, serial };
    proof {
        assert(d@ =~= spec_decode_device_info(v@)->Some_0);
    }
    Ok(d)
}

/// One slot of the map: null stands for a reserved, unpopulated slot.
pub open spec fn spec_opt_entry_device_info_map(w: JsonView) -> Option<Option<DeviceInfoView>> {
    match w {
        JsonView::Null => Some(None),
        _ => match spec_decode_device_info(w) {
            Some(x) => Some(Some(x)),
            None => None,
        },
    }
}

/// Every entry of `es` decodes as a map member.
pub open spec fn spec_device_info_map_entries_ok(es: Seq<(Seq<char>, JsonView)>) -> bool {
    forall|i: int| 0 <= i < es.len() ==> spec_opt_entry_device_info_map(#[trigger] es[i].1) is Some
}

/// The decoded members of `es`, in response order.
pub open spec fn spec_device_info_map_entries(es: Seq<(Seq<char>, JsonView)>) -> Seq<
    (Seq<char>, Option<DeviceInfoView>),
> {
    Seq::new(es.len(), |i: int| (es[i].0, spec_opt_entry_device_info_map(es[i].1)->Some_0))
}

/// Key/value views of the decoded map.
pub open spec fn device_info_map_pairs_view(s: Seq<(String, Option<DeviceInfo>)>) -> Seq<(Seq<char>, Option<DeviceInfoView>)> {
    Seq::new(s.len(), |i: int| (s[i].0@, match s[i].1 { Some(x) => Some(x@), None => None }))
}

/// One device-type group: one optionally populated slot per device
/// identifier.
pub open spec fn spec_decode_device_info_map(v: JsonView) -> Option<Seq<(Seq<char>, Option<DeviceInfoView>)>> {
    match v {
        JsonView::Obj(es) => if spec_device_info_map_entries_ok(es) {
            Some(spec_device_info_map_entries(es))
        } else {
            None
        },
        _ => None,
    }
}

/// Decodes the map, matching [`spec_decode_device_info_map`].
pub fn decode_device_info_map(v: &JsonValue) -> (r: Result<Vec<(String, Option<DeviceInfo>)>, DecodeError>)
    ensures
        match r {
            Ok(m) => spec_decode_device_info_map(v@) == Some(device_info_map_pairs_view(m@)),
            Err(_) => spec_decode_device_info_map(v@) is None,
        },
{
    let entries = match v {
        JsonValue::Obj(es) => es,
        _ => {
            return Err(DecodeError::WrongType { field: "Data".to_owned() });
        },
    };
    proof {
        lemma_obj_view(*entries);
    }
    let ghost ves = jview(*v)->Obj_0;
    let mut out: Vec<(String, Option<DeviceInfo>)> = Vec::new();
    let mut i: usize = 0;
    while i < entries.len()
        invariant
            i <= entries@.len(),
            out@.len() == i,
            v@ == JsonView::Obj(ves),
            ves.len() == entries@.len(),
            forall|j: int|
                0 <= j < ves.len() ==> #[trigger] ves[j] == (
                entries@[j].0@,
                jview(entries@[j].1),
                ),
            forall|j: int|
                0 <= j < i ==> out@[j].0@ == ves[j].0 && spec_opt_entry_device_info_map(#[trigger] ves[j].1) is Some && (match out@[j].1 {
                    Some(x) => Some(x@),
                    None => None,
                }) == spec_opt_entry_device_info_map(ves[j].1)->Some_0,
        decreases entries@.len() - i,
    {
        let value = match &entries[i].1 {
            JsonValue::Null => None,
            other => match decode_device_info(other) {
                Ok(x) => Some(x),
                Err(e) => {
                    proof {
                        assert(spec_opt_entry_device_info_map(ves[i as int].1) is None);
                    }
                    return Err(e);
                },
            },
        };
        let key = entries[i].0.clone();
        out.push((key, value));
        i += 1;
    }
    proof {
        assert(device_info_map_pairs_view(out@) =~= spec_device_info_map_entries(ves));
    }
    Ok(out)
}

/// The active-device inventory, grouped by device type, then keyed by
/// device identifier, in response order.
pub type DeviceInfos = Vec<(DeviceType, Vec<(String, Option<DeviceInfo>)>)>;

/// Every entry of `es` names a device type and holds a device group.
pub open spec fn spec_device_infos_entries_ok(es: Seq<(Seq<char>, JsonView)>) -> bool {
    forall|i: int|
        0 <= i < es.len() ==> spec_device_type_of(#[trigger] es[i].0) is Some
            && spec_decode_device_info_map(es[i].1) is Some
}

/// The decoded device groups of `es`, in response order.
pub open spec fn spec_device_infos_entries(es: Seq<(Seq<char>, JsonView)>) -> Seq<
    (DeviceType, Seq<(Seq<char>, Option<DeviceInfoView>)>),
> {
    Seq::new(
        es.len(),
        |i: int|
            (spec_device_type_of(es[i].0)->Some_0, spec_decode_device_info_map(es[i].1)->Some_0),
    )
}

/// Type/group views of the decoded inventory.
pub open spec fn device_infos_pairs_view(s: Seq<(DeviceType, Vec<(String, Option<DeviceInfo>)>)>)
    -> Seq<(DeviceType, Seq<(Seq<char>, Option<DeviceInfoView>)>)> {
    Seq::new(s.len(), |i: int| (s[i].0, device_info_map_pairs_view(s[i].1@)))
}

/// The active-device inventory  decodes to.
pub open spec fn spec_decode_device_infos(v: JsonView) -> Option<
    Seq<(DeviceType, Seq<(Seq<char>, Option<DeviceInfoView>)>)>,
> {
    match v {
        JsonView::Obj(es) => if spec_device_infos_entries_ok(es) {
            Some(spec_device_infos_entries(es))
        } else {
            None
        },
        _ => None,
    }
}

/// Decodes the active-device inventory, matching
/// [].
pub fn decode_device_infos(v: &JsonValue) -> (r: Result<DeviceInfos, DecodeError>)
    ensures
        match r {
            Ok(m) => spec_decode_device_infos(v@) == Some(device_infos_pairs_view(m@)),
            Err(_) => spec_decode_device_infos(v@) is None,
        },
{
    let entries = match v {
        JsonValue::Obj(es) => es,
        _ => {
            return Err(DecodeError::WrongType { field: "Data".to_owned() });
        },
    };
    proof {
        lemma_obj_view(*entries);
    }
    let ghost ves = jview(*v)->Obj_0;
    let mut out: DeviceInfos = Vec::new();
    let mut i: usize = 0;
    while i < entries.len()
        invariant
            i <= entries@.len(),
            out@.len() == i,
            v@ == JsonView::Obj(ves),
            ves.len() == entries@.len(),
            forall|j: int|
                0 <= j < ves.len() ==> #[trigger] ves[j] == (
                entries@[j].0@,
                jview(entries@[j].1),
                ),
            forall|j: int|
                0 <= j < i ==> spec_device_type_of(#[trigger] ves[j].0) is Some
                    && spec_decode_device_info_map(ves[j].1) is Some && out@[j].0
                    == spec_device_type_of(ves[j].0)->Some_0 && device_info_map_pairs_view(
                    out@[j].1@,
                ) == spec_decode_device_info_map(ves[j].1)->Some_0,
        decreases entries@.len() - i,
    {
        let dtype = match DeviceType::from_name(entries[i].0.as_str()) {
            Some(t) => t,
            None => {
                proof {
                    assert(spec_device_type_of(ves[i as int].0) is None);
                }
                return Err(DecodeError::WrongType { field: entries[i].0.clone() });
            },
        };
        let group = match decode_device_info_map(&entries[i].1) {
            Ok(g) => g,
            Err(e) => {
                proof {
                    assert(spec_decode_device_info_map(ves[i as int].1) is None);
                }
                return Err(e);
            },
        };
        out.push((dtype, group));
        i += 1;
    }
    proof {
        assert(device_infos_pairs_view(out@) =~= spec_device_infos_entries(ves));
    }
    Ok(out)
}

} // verus!
