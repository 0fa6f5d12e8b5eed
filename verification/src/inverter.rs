//! The inverter realtime-data shapes.
//!
//! Three payload shapes serve one endpoint, selected by the literal
//! `DataCollection` request parameter each shape declares. Two small
//! value containers recur: a single `{Unit, Value}` pair for one device,
//! and a `{Unit, Values}` map keyed by device for whole-system
//! aggregation. A channel a device did not report decodes as absent,
//! never as a stand-in number.

use vstd::prelude::*;
use vstd::string::*;
use crate::decode::{opt_num, req_str, spec_opt_num, spec_opt_num_of, spec_req_str};
use crate::error::DecodeError;
use crate::json::{
    get_field, jview, lemma_obj_view, opt_num_view, spec_field, JsonNumber, JsonValue, JsonView,
};

verus! {

/// A single reported channel: its unit and its optionally absent value.
#[derive(Debug, PartialEq)]
pub struct UnitAndValue {
    pub unit: String,
    pub value: Option<JsonNumber>,
}

/// The mathematical content of a single reported channel.
#[verifier::ext_equal]
pub ghost struct UnitAndValueView {
    pub unit: Seq<char>,
    pub value: Option<Seq<char>>,
}

impl View for UnitAndValue {
    type V = UnitAndValueView;

    open spec fn view(&self) -> UnitAndValueView {
        UnitAndValueView { unit: self.unit@, value: opt_num_view(self.value) }
    }
}

/// The channel `w` decodes to: a mandatory string `Unit` and an
/// optional numeric `Value`.
pub open spec fn spec_uav_of(w: JsonView) -> Option<UnitAndValueView> {
    match (spec_req_str(w, "Unit"@), spec_opt_num(w, "Value"@)) {
        (Some(unit), Some(value)) => Some(UnitAndValueView { unit, value }),
        _ => None,
    }
}

/// Decodes a single reported channel, matching [`spec_uav_of`].
pub fn decode_unit_and_value(v: &JsonValue) -> (r: Result<UnitAndValue, DecodeError>)
    ensures
        match r {
            Ok(u) => spec_uav_of(v@) == Some(u@),
            Err(_) => spec_uav_of(v@) is None,
        },
{
    let unit = req_str(v, "Unit")?;
    let value = opt_num(v, "Value")?;
    Ok(UnitAndValue { unit, value })
}

/// A mandatory channel field.
pub open spec fn spec_req_uav(v: JsonView, key: Seq<char>) -> Option<UnitAndValueView> {
    match spec_field(v, key) {
        Some(w) => spec_uav_of(w),
        None => None,
    }
}

/// An optional channel field: absent or null reads as absent.
pub open spec fn spec_opt_uav(v: JsonView, key: Seq<char>) -> Option<Option<UnitAndValueView>> {
    match spec_field(v, key) {
        None => Some(None),
        Some(JsonView::Null) => Some(None),
        Some(w) => match spec_uav_of(w) {
            Some(u) => Some(Some(u)),
            None => None,
        },
    }
}

/// Reads a mandatory channel field.
pub fn req_uav(v: &JsonValue, key: &str) -> (r: Result<UnitAndValue, DecodeError>)
    ensures
        match r {
            Ok(u) => spec_req_uav(v@, key@) == Some(u@),
            Err(_) => spec_req_uav(v@, key@) is None,
        },
{
    match get_field(v, key) {
        Some(f) => decode_unit_and_value(f),
        None => Err(DecodeError::MissingField { field: key.to_owned() }),
    }
}

/// View of an optionally absent channel.
pub open spec fn opt_uav_view(o: Option<UnitAndValue>) -> Option<UnitAndValueView> {
    match o {
        Some(u) => Some(u@),
        None => None,
    }
}

/// Reads an optional channel field.
pub fn opt_uav(v: &JsonValue, key: &str) -> (r: Result<Option<UnitAndValue>, DecodeError>)
    ensures
        match r {
            Ok(ou) => spec_opt_uav(v@, key@) == Some(opt_uav_view(ou)),
            Err(_) => spec_opt_uav(v@, key@) is None,
        },
{
    match get_field(v, key) {
        None => Ok(None),
        Some(JsonValue::Null) => Ok(None),
        Some(f) => match decode_unit_and_value(f) {
            Ok(u) => Ok(Some(u)),
            Err(e) => Err(e),
        },
    }
}

/// A whole-system channel: its unit and one optionally absent value per
/// device, keyed by device in response order.
#[derive(Debug, PartialEq)]
pub struct UnitAndValues {
    pub unit: String,
    pub values: Vec<(String, Option<JsonNumber>)>,
}

/// The mathematical content of a whole-system channel.
#[verifier::ext_equal]
pub ghost struct UnitAndValuesView {
    pub unit: Seq<char>,
    pub values: Seq<(Seq<char>, Option<Seq<char>>)>,
}

/// Key/value views of a list of per-device readings.
pub open spec fn num_pairs_view(s: Seq<(String, Option<JsonNumber>)>) -> Seq<
    (Seq<char>, Option<Seq<char>>),
> {
    Seq::new(s.len(), |i: int| (s[i].0@, opt_num_view(s[i].1)))
}

impl View for UnitAndValues {
    type V = UnitAndValuesView;

    open spec fn view(&self) -> UnitAndValuesView {
        UnitAndValuesView { unit: self.unit@, values: num_pairs_view(self.values@) }
    }
}

/// Every entry of `es` holds a number or null.
pub open spec fn spec_num_entries_ok(es: Seq<(Seq<char>, JsonView)>) -> bool {
    forall|i: int| 0 <= i < es.len() ==> spec_opt_num_of(#[trigger] es[i].1) is Some
}

/// The per-device readings of `es`.
pub open spec fn spec_num_entries(es: Seq<(Seq<char>, JsonView)>) -> Seq<
    (Seq<char>, Option<Seq<char>>),
> {
    Seq::new(es.len(), |i: int| (es[i].0, spec_opt_num_of(es[i].1)->Some_0))
}

/// The whole-system channel `w` decodes to: a mandatory string `Unit`
/// and a mandatory `Values` object whose members are numbers or null.
pub open spec fn spec_uavs_of(w: JsonView) -> Option<UnitAndValuesView> {
    match (spec_req_str(w, "Unit"@), spec_field(w, "Values"@)) {
        (Some(unit), Some(JsonView::Obj(es))) => if spec_num_entries_ok(es) {
            Some(UnitAndValuesView { unit, values: spec_num_entries(es) })
        } else {
            None
        },
        _ => None,
    }
}

/// Decodes a whole-system channel, matching [`spec_uavs_of`].
pub fn decode_unit_and_values(v: &JsonValue) -> (r: Result<UnitAndValues, DecodeError>)
    ensures
        match r {
            Ok(u) => spec_uavs_of(v@) == Some(u@),
            Err(_) => spec_uavs_of(v@) is None,
        },
{
    let unit = req_str(v, "Unit")?;
    let values_field = match get_field(v, "Values") {
        Some(f) => f,
        None => {
            return Err(DecodeError::MissingField { field: "Values".to_owned() });
        },
    };
    let entries = match values_field {
        JsonValue::Obj(es) => es,
        _ => {
            return Err(DecodeError::WrongType { field: "Values".to_owned() });
        },
    };
    proof {
        lemma_obj_view(*entries);
    }
    let ghost ves = jview(*values_field)->Obj_0;
    let mut values: Vec<(String, Option<JsonNumber>)> = Vec::new();
    let mut i: usize = 0;
    while i < entries.len()
        invariant
            i <= entries@.len(),
            values@.len() == i,
            spec_field(v@, "Values"@) == Some(JsonView::Obj(ves)),
            ves.len() == entries@.len(),
            forall|j: int|
                0 <= j < ves.len() ==> #[trigger] ves[j] == (
                entries@[j].0@,
                jview(entries@[j].1),
                ),
            forall|j: int|
                0 <= j < i ==> spec_opt_num_of(#[trigger] ves[j].1) is Some && values@[j].0@
                    == ves[j].0 && opt_num_view(values@[j].1) == spec_opt_num_of(ves[j].1)->Some_0,
        decreases entries@.len() - i,
    {
        match &entries[i].1 {
            JsonValue::Num(n) => {
                let key = entries[i].0.clone();
                values.push((key, Some(n.clone())));
            },
            JsonValue::Null => {
                let key = entries[i].0.clone();
                values.push((key, None));
            },
            _ => {
                proof {
                    assert(spec_opt_num_of(ves[i as int].1) is None);
                }
                return Err(DecodeError::WrongType { field: "Values".to_owned() });
            },
        }
        i += 1;
    }
    let out = UnitAndValues { unit, values };
    proof {
        assert(num_pairs_view(out.values@) =~= spec_num_entries(ves));
        assert(out@ =~= spec_uavs_of(v@)->Some_0);
    }
    Ok(out)
}

/// A mandatory whole-system channel field.
pub open spec fn spec_req_uavs(v: JsonView, key: Seq<char>) -> Option<UnitAndValuesView> {
    match spec_field(v, key) {
        Some(w) => spec_uavs_of(w),
        None => None,
    }
}

/// Reads a mandatory whole-system channel field.
pub fn req_uavs(v: &JsonValue, key: &str) -> (r: Result<UnitAndValues, DecodeError>)
    ensures
        match r {
            Ok(u) => spec_req_uavs(v@, key@) == Some(u@),
            Err(_) => spec_req_uavs(v@, key@) is None,
        },
{
    match get_field(v, key) {
        Some(f) => decode_unit_and_values(f),
        None => Err(DecodeError::MissingField { field: key.to_owned() }),
    }
}

/// Key/value views of free-form object entries.
pub open spec fn obj_entries_view(s: Seq<(String, JsonValue)>) -> Seq<(Seq<char>, JsonView)> {
    Seq::new(s.len(), |i: int| (s[i].0@, jview(s[i].1)))
}

/// View of an optionally absent free-form device-status map.
pub open spec fn device_status_view(o: Option<Vec<(String, JsonValue)>>) -> Option<
    Seq<(Seq<char>, JsonView)>,
> {
    match o {
        Some(es) => Some(obj_entries_view(es@)),
        None => None,
    }
}

/// The free-form device-status field: absent or null reads as absent;
/// otherwise it must be an object, kept as its raw entries.
pub open spec fn spec_device_status(v: JsonView) -> Option<Option<Seq<(Seq<char>, JsonView)>>> {
    match spec_field(v, "DeviceStatus"@) {
        None => Some(None),
        Some(JsonView::Null) => Some(None),
        Some(JsonView::Obj(es)) => Some(Some(es)),
        Some(_) => None,
    }
}

/// Reads the free-form device-status field, matching [`spec_device_status`].
pub fn decode_device_status(v: &JsonValue) -> (r: Result<
    Option<Vec<(String, JsonValue)>>,
    DecodeError,
>)
    ensures
        match r {
            Ok(o) => spec_device_status(v@) == Some(device_status_view(o)),
            Err(_) => spec_device_status(v@) is None,
        },
{
    let field = match get_field(v, "DeviceStatus") {
        Some(f) => f,
        None => {
            return Ok(None);
        },
    };
    let entries = match field {
        JsonValue::Null => {
            return Ok(None);
        },
        JsonValue::Obj(es) => es,
        _ => {
            return Err(DecodeError::WrongType { field: "DeviceStatus".to_owned() });
        },
    };
    proof {
        lemma_obj_view(*entries);
    }
    let ghost ves = jview(*field)->Obj_0;
    let mut out: Vec<(String, JsonValue)> = Vec::new();
    let mut i: usize = 0;
    while i < entries.len()
        invariant
            i <= entries@.len(),
            out@.len() == i,
            ves.len() == entries@.len(),
            forall|j: int|
                0 <= j < ves.len() ==> #[trigger] ves[j] == (
                entries@[j].0@,
                jview(entries@[j].1),
                ),
            forall|j: int|
                0 <= j < i ==> out@[j].0@ == ves[j].0 && #[trigger] jview(out@[j].1) == ves[j].1,
        decreases entries@.len() - i,
    {
        let key = entries[i].0.clone();
        let val = entries[i].1.clone();
        out.push((key, val));
        i += 1;
    }
    proof {
        assert(obj_entries_view(out@) =~= ves);
    }
    Ok(Some(out))
}

/// Cumulated inverter telemetry for one device: power and energy counters.
#[derive(Debug, PartialEq)]
pub struct CumulationInverterData {
    pub pac: UnitAndValue,
    pub day_energy: UnitAndValue,
    pub year_energy: UnitAndValue,
    pub total_energy: UnitAndValue,
    pub device_status: Option<Vec<(String, JsonValue)>>,
}

/// The mathematical content of [`CumulationInverterData`].
#[verifier::ext_equal]
pub ghost struct CumulationInverterDataView {
    pub pac: UnitAndValueView,
    pub day_energy: UnitAndValueView,
    pub year_energy: UnitAndValueView,
    pub total_energy: UnitAndValueView,
    pub device_status: Option<Seq<(Seq<char>, JsonView)>>,
}

impl View for CumulationInverterData {
    type V = CumulationInverterDataView;

    open spec fn view(&self) -> CumulationInverterDataView {
        CumulationInverterDataView {
            pac: self.pac@,
            day_energy: self.day_energy@,
            year_energy: self.year_energy@,
            total_energy: self.total_energy@,
            device_status: device_status_view(self.device_status),
        }
    }
}

/// Every field of a [`CumulationInverterData`] is readable from `v` under its contract.
pub open spec fn spec_cumulation_inverter_data_ok(v: JsonView) -> bool {
    &&& spec_req_uav(v, "PAC"@) is Some
    &&& spec_req_uav(v, "DAY_ENERGY"@) is Some
    &&& spec_req_uav(v, "YEAR_ENERGY"@) is Some
    &&& spec_req_uav(v, "TOTAL_ENERGY"@) is Some
    &&& spec_device_status(v) is Some
}

/// The [`CumulationInverterData`] that `v` decodes to.
pub open spec fn spec_decode_cumulation_inverter_data(v: JsonView) -> Option<CumulationInverterDataView> {
    if spec_cumulation_inverter_data_ok(v) {
        Some(CumulationInverterDataView {
        pac: spec_req_uav(v, "PAC"@)->Some_0,
        day_energy: spec_req_uav(v, "DAY_ENERGY"@)->Some_0,
        year_energy: spec_req_uav(v, "YEAR_ENERGY"@)->Some_0,
        total_energy: spec_req_uav(v, "TOTAL_ENERGY"@)->Some_0,
        device_status: spec_device_status(v)->Some_0,
        })
    } else {
        None
    }
}

/// Decodes a [`CumulationInverterData`], matching [`spec_decode_cumulation_inverter_data`].
pub fn decode_cumulation_inverter_data(v: &JsonValue) -> (r: Result<CumulationInverterData, DecodeError>)
    ensures
        match r {
            Ok(d) => spec_decode_cumulation_inverter_data(v@) == Some(d@),
            Err(_) => spec_decode_cumulation_inverter_data(v@) is None,
        },
{
    let pac = req_uav(v, "PAC")?;
    let day_energy = req_uav(v, "DAY_ENERGY")?;
    let year_energy = req_uav(v, "YEAR_ENERGY")?;
    let total_energy = req_uav(v, "TOTAL_ENERGY")?;
    let device_status = decode_device_status(v)?;
    let d = CumulationInverterData { pac, day_energy, year_energy, total_energy, device_status };
    proof {
        assert(d@ =~= spec_decode_cumulation_inverter_data(v@)->Some_0);
    }
    Ok(d)
}

/// Cumulated inverter telemetry aggregated over the whole system, one
/// reading per device in each channel.
#[derive(Debug, PartialEq)]
pub struct CumulationInverterDataSystem {
    pub pac: UnitAndValues,
    pub day_energy: UnitAndValues,
    pub year_energy: UnitAndValues,
    pub total_energy: UnitAndValues,
    pub device_status: Option<Vec<(String, JsonValue)>>,
}

/// The mathematical content of [`CumulationInverterDataSystem`].
#[verifier::ext_equal]
pub ghost struct CumulationInverterDataSystemView {
    pub pac: UnitAndValuesView,
    pub day_energy: UnitAndValuesView,
    pub year_energy: UnitAndValuesView,
    pub total_energy: UnitAndValuesView,
    pub device_status: Option<Seq<(Seq<char>, JsonView)>>,
}

impl View for CumulationInverterDataSystem {
    type V = CumulationInverterDataSystemView;

    open spec fn view(&self) -> CumulationInverterDataSystemView {
        CumulationInverterDataSystemView {
            pac: self.pac@,
            day_energy: self.day_energy@,
            year_energy: self.year_energy@,
            total_energy: self.total_energy@,
            device_status: device_status_view(self.device_status),
        }
    }
}

/// Every field of a [`CumulationInverterDataSystem`] is readable from `v` under its contract.
pub open spec fn spec_cumulation_inverter_data_system_ok(v: JsonView) -> bool {
    &&& spec_req_uavs(v, "PAC"@) is Some
    &&& spec_req_uavs(v, "DAY_ENERGY"@) is Some
    &&& spec_req_uavs(v, "YEAR_ENERGY"@) is Some
    &&& spec_req_uavs(v, "TOTAL_ENERGY"@) is Some
    &&& spec_device_status(v) is Some
}

/// The [`CumulationInverterDataSystem`] that `v` decodes to.
pub open spec fn spec_decode_cumulation_inverter_data_system(v: JsonView) -> Option<CumulationInverterDataSystemView> {
    if spec_cumulation_inverter_data_system_ok(v) {
        Some(CumulationInverterDataSystemView {
        pac: spec_req_uavs(v, "PAC"@)->Some_0,
        day_energy: spec_req_uavs(v, "DAY_ENERGY"@)->Some_0,
        year_energy: spec_req_uavs(v, "YEAR_ENERGY"@)->Some_0,
        total_energy: spec_req_uavs(v, "TOTAL_ENERGY"@)->Some_0,
        device_status: spec_device_status(v)->Some_0,
        })
    } else {
        None
    }
}

/// Decodes a [`CumulationInverterDataSystem`], matching [`spec_decode_cumulation_inverter_data_system`].
pub fn decode_cumulation_inverter_data_system(v: &JsonValue) -> (r: Result<CumulationInverterDataSystem, DecodeError>)
    ensures
        match r {
            Ok(d) => spec_decode_cumulation_inverter_data_system(v@) == Some(d@),
            Err(_) => spec_decode_cumulation_inverter_data_system(v@) is None,
        },
{
    let pac = req_uavs(v, "PAC")?;
    let day_energy = req_uavs(v, "DAY_ENERGY")?;
    let year_energy = req_uavs(v, "YEAR_ENERGY")?;
    let total_energy = req_uavs(v, "TOTAL_ENERGY")?;
    let device_status = decode_device_status(v)?;
    let d = CumulationInverterDataSystem { pac, day_energy, year_energy, total_energy, device_status };
    proof {
        assert(d@ =~= spec_decode_cumulation_inverter_data_system(v@)->Some_0);
    }
    Ok(d)
}

/// The common inverter channels for one device, direct-current trackers
/// included; the frequency channel is optional.
#[derive(Debug, PartialEq)]
pub struct CommonInverterData {
    pub sac: UnitAndValue,
    pub pac: UnitAndValue,
    pub iac: UnitAndValue,
    pub uac: UnitAndValue,
    pub fac: Option<UnitAndValue>,
    pub idc: UnitAndValue,
    pub idc_2: UnitAndValue,
    pub idc_3: UnitAndValue,
    pub idc_4: UnitAndValue,
    pub udc: UnitAndValue,
    pub udc_2: UnitAndValue,
    pub udc_3: UnitAndValue,
    pub udc_4: UnitAndValue,
    pub day_energy: UnitAndValue,
    pub year_energy: UnitAndValue,
    pub total_energy: UnitAndValue,
    pub device_status: Option<Vec<(String, JsonValue)>>,
}

/// The mathematical content of [`CommonInverterData`].
#[verifier::ext_equal]
pub ghost struct CommonInverterDataView {
    pub sac: UnitAndValueView,
    pub pac: UnitAndValueView,
    pub iac: UnitAndValueView,
    pub uac: UnitAndValueView,
    pub fac: Option<UnitAndValueView>,
    pub idc: UnitAndValueView,
    pub idc_2: UnitAndValueView,
    pub idc_3: UnitAndValueView,
    pub idc_4: UnitAndValueView,
    pub udc: UnitAndValueView,
    pub udc_2: UnitAndValueView,
    pub udc_3: UnitAndValueView,
    pub udc_4: UnitAndValueView,
    pub day_energy: UnitAndValueView,
    pub year_energy: UnitAndValueView,
    pub total_energy: UnitAndValueView,
    pub device_status: Option<Seq<(Seq<char>, JsonView)>>,
}

impl View for CommonInverterData {
    type V = CommonInverterDataView;

    open spec fn view(&self) -> CommonInverterDataView {
        CommonInverterDataView {
            sac: self.sac@,
            pac: self.pac@,
            iac: self.iac@,
            uac: self.uac@,
            fac: opt_uav_view(self.fac),
            idc: self.idc@,
            idc_2: self.idc_2@,
            idc_3: self.idc_3@,
            idc_4: self.idc_4@,
            udc: self.udc@,
            udc_2: self.udc_2@,
            udc_3: self.udc_3@,
            udc_4: self.udc_4@,
            day_energy: self.day_energy@,
            year_energy: self.year_energy@,
            total_energy: self.total_energy@,
            device_status: device_status_view(self.device_status),
        }
    }
}

/// Every field of a [`CommonInverterData`] is readable from `v` under its contract.
pub open spec fn spec_common_inverter_data_ok(v: JsonView) -> bool {
    &&& spec_req_uav(v, "SAC"@) is Some
    &&& spec_req_uav(v, "PAC"@) is Some
    &&& spec_req_uav(v, "IAC"@) is Some
    &&& spec_req_uav(v, "UAC"@) is Some
    &&& spec_opt_uav(v, "FAC"@) is Some
    &&& spec_req_uav(v, "IDC"@) is Some
    &&& spec_req_uav(v, "IDC_2"@) is Some
    &&& spec_req_uav(v, "IDC_3"@) is Some
    &&& spec_req_uav(v, "IDC_4"@) is Some
    &&& spec_req_uav(v, "UDC"@) is Some
    &&& spec_req_uav(v, "UDC_2"@) is Some
    &&& spec_req_uav(v, "UDC_3"@) is Some
    &&& spec_req_uav(v, "UDC_4"@) is Some
    &&& spec_req_uav(v, "DAY_ENERGY"@) is Some
    &&& spec_req_uav(v, "YEAR_ENERGY"@) is Some
    &&& spec_req_uav(v, "TOTAL_ENERGY"@) is Some
    &&& spec_device_status(v) is Some
}

/// The [`CommonInverterData`] that `v` decodes to.
pub open spec fn spec_decode_common_inverter_data(v: JsonView) -> Option<CommonInverterDataView> {
    if spec_common_inverter_data_ok(v) {
        Some(CommonInverterDataView {
        sac: spec_req_uav(v, "SAC"@)->Some_0,
        pac: spec_req_uav(v, "PAC"@)->Some_0,
        iac: spec_req_uav(v, "IAC"@)->Some_0,
        uac: spec_req_uav(v, "UAC"@)->Some_0,
        fac: spec_opt_uav(v, "FAC"@)->Some_0,
        idc: spec_req_uav(v, "IDC"@)->Some_0,
        idc_2: spec_req_uav(v, "IDC_2"@)->Some_0,
        idc_3: spec_req_uav(v, "IDC_3"@)->Some_0,
        idc_4: spec_req_uav(v, "IDC_4"@)->Some_0,
        udc: spec_req_uav(v, "UDC"@)->Some_0,
        udc_2: spec_req_uav(v, "UDC_2"@)->Some_0,
        udc_3: spec_req_uav(v, "UDC_3"@)->Some_0,
        udc_4: spec_req_uav(v, "UDC_4"@)->Some_0,
        day_energy: spec_req_uav(v, "DAY_ENERGY"@)->Some_0,
        year_energy: spec_req_uav(v, "YEAR_ENERGY"@)->Some_0,
        total_energy: spec_req_uav(v, "TOTAL_ENERGY"@)->Some_0,
        device_status: spec_device_status(v)->Some_0,
        })
    } else {
        None
    }
}

/// Decodes a [`CommonInverterData`], matching [`spec_decode_common_inverter_data`].
pub fn decode_common_inverter_data(v: &JsonValue) -> (r: Result<CommonInverterData, DecodeError>)
    ensures
        match r {
            Ok(d) => spec_decode_common_inverter_data(v@) == Some(d@),
            Err(_) => spec_decode_common_inverter_data(v@) is None,
        },
{
    let sac = req_uav(v, "SAC")?;
    let pac = req_uav(v, "PAC")?;
    let iac = req_uav(v, "IAC")?;
    let uac = req_uav(v, "UAC")?;
    let fac = opt_uav(v, "FAC")?;
    let idc = req_uav(v, "IDC")?;
    let idc_2 = req_uav(v, "IDC_2")?;
    let idc_3 = req_uav(v, "IDC_3")?;
    let idc_4 = req_uav(v, "IDC_4")?;
    let udc = req_uav(v, "UDC")?;
    let udc_2 = req_uav(v, "UDC_2")?;
    let udc_3 = req_uav(v, "UDC_3")?;
    let udc_4 = req_uav(v, "UDC_4")?;
    let day_energy = req_uav(v, "DAY_ENERGY")?;
    let year_energy = req_uav(v, "YEAR_ENERGY")?;
    let total_energy = req_uav(v, "TOTAL_ENERGY")?;
    let device_status = decode_device_status(v)?;
    let d = CommonInverterData { sac, pac, iac, uac, fac, idc, idc_2, idc_3, idc_4, udc, udc_2, udc_3, udc_4, day_energy, year_energy, total_energy, device_status };
    proof {
        assert(d@ =~= spec_decode_common_inverter_data(v@)->Some_0);
    }
    Ok(d)
}

/// Per-phase inverter channels; ambient and fan sensors are optional.
#[derive(Debug, PartialEq)]
pub struct ThreePhaseInverterData {
    pub iac_l1: UnitAndValue,
    pub iac_l2: UnitAndValue,
    pub iac_l3: UnitAndValue,
    pub uac_l1: UnitAndValue,
    pub uac_l2: UnitAndValue,
    pub uac_l3: UnitAndValue,
    pub t_ambient: Option<UnitAndValue>,
    pub rotation_speed_fan_fl: Option<UnitAndValue>,
    pub rotation_speed_fan_fr: Option<UnitAndValue>,
    pub rotation_speed_fan_bl: Option<UnitAndValue>,
    pub rotation_speed_fan_br: Option<UnitAndValue>,
}

/// The mathematical content of [`ThreePhaseInverterData`].
#[verifier::ext_equal]
pub ghost struct ThreePhaseInverterDataView {
    pub iac_l1: UnitAndValueView,
    pub iac_l2: UnitAndValueView,
    pub iac_l3: UnitAndValueView,
    pub uac_l1: UnitAndValueView,
    pub uac_l2: UnitAndValueView,
    pub uac_l3: UnitAndValueView,
    pub t_ambient: Option<UnitAndValueView>,
    pub rotation_speed_fan_fl: Option<UnitAndValueView>,
    pub rotation_speed_fan_fr: Option<UnitAndValueView>,
    pub rotation_speed_fan_bl: Option<UnitAndValueView>,
    pub rotation_speed_fan_br: Option<UnitAndValueView>,
}

impl View for ThreePhaseInverterData {
    type V = ThreePhaseInverterDataView;

    open spec fn view(&self) -> ThreePhaseInverterDataView {
        ThreePhaseInverterDataView {
            iac_l1: self.iac_l1@,
            iac_l2: self.iac_l2@,
            iac_l3: self.iac_l3@,
            uac_l1: self.uac_l1@,
            uac_l2: self.uac_l2@,
            uac_l3: self.uac_l3@,
            t_ambient: opt_uav_view(self.t_ambient),
            rotation_speed_fan_fl: opt_uav_view(self.rotation_speed_fan_fl),
            rotation_speed_fan_fr: opt_uav_view(self.rotation_speed_fan_fr),
            rotation_speed_fan_bl: opt_uav_view(self.rotation_speed_fan_bl),
            rotation_speed_fan_br: opt_uav_view(self.rotation_speed_fan_br),
        }
    }
}

/// Every field of a [`ThreePhaseInverterData`] is readable from `v` under its contract.
pub open spec fn spec_three_phase_inverter_data_ok(v: JsonView) -> bool {
    &&& spec_req_uav(v, "IAC_L1"@) is Some
    &&& spec_req_uav(v, "IAC_L2"@) is Some
    &&& spec_req_uav(v, "IAC_L3"@) is Some
    &&& spec_req_uav(v, "UAC_L1"@) is Some
    &&& spec_req_uav(v, "UAC_L2"@) is Some
    &&& spec_req_uav(v, "UAC_L3"@) is Some
    &&& spec_opt_uav(v, "T_AMBIENT"@) is Some
    &&& spec_opt_uav(v, "ROTATION_SPEED_FAN_FL"@) is Some
    &&& spec_opt_uav(v, "ROTATION_SPEED_FAN_FR"@) is Some
    &&& spec_opt_uav(v, "ROTATION_SPEED_FAN_BL"@) is Some
    &&& spec_opt_uav(v, "ROTATION_SPEED_FAN_BR"@) is Some
}

/// The [`ThreePhaseInverterData`] that `v` decodes to.
pub open spec fn spec_decode_three_phase_inverter_data(v: JsonView) -> Option<ThreePhaseInverterDataView> {
    if spec_three_phase_inverter_data_ok(v) {
        Some(ThreePhaseInverterDataView {
        iac_l1: spec_req_uav(v, "IAC_L1"@)->Some_0,
        iac_l2: spec_req_uav(v, "IAC_L2"@)->Some_0,
        iac_l3: spec_req_uav(v, "IAC_L3"@)->Some_0,
        uac_l1: spec_req_uav(v, "UAC_L1"@)->Some_0,
        uac_l2: spec_req_uav(v, "UAC_L2"@)->Some_0,
        uac_l3: spec_req_uav(v, "UAC_L3"@)->Some_0,
        t_ambient: spec_opt_uav(v, "T_AMBIENT"@)->Some_0,
        rotation_speed_fan_fl: spec_opt_uav(v, "ROTATION_SPEED_FAN_FL"@)->Some_0,
        rotation_speed_fan_fr: spec_opt_uav(v, "ROTATION_SPEED_FAN_FR"@)->Some_0,
        rotation_speed_fan_bl: spec_opt_uav(v, "ROTATION_SPEED_FAN_BL"@)->Some_0,
        rotation_speed_fan_br: spec_opt_uav(v, "ROTATION_SPEED_FAN_BR"@)->Some_0,
        })
    } else {
        None
    }
}

/// Decodes a [`ThreePhaseInverterData`], matching [`spec_decode_three_phase_inverter_data`].
pub fn decode_three_phase_inverter_data(v: &JsonValue) -> (r: Result<ThreePhaseInverterData, DecodeError>)
    ensures
        match r {
            Ok(d) => spec_decode_three_phase_inverter_data(v@) == Some(d@),
            Err(_) => spec_decode_three_phase_inverter_data(v@) is None,
        },
{
    let iac_l1 = req_uav(v, "IAC_L1")?;
    let iac_l2 = req_uav(v, "IAC_L2")?;
    let iac_l3 = req_uav(v, "IAC_L3")?;
    let uac_l1 = req_uav(v, "UAC_L1")?;
    let uac_l2 = req_uav(v, "UAC_L2")?;
    let uac_l3 = req_uav(v, "UAC_L3")?;
    let t_ambient = opt_uav(v, "T_AMBIENT")?;
    let rotation_speed_fan_fl = opt_uav(v, "ROTATION_SPEED_FAN_FL")?;
    let rotation_speed_fan_fr = opt_uav(v, "ROTATION_SPEED_FAN_FR")?;
    let rotation_speed_fan_bl = opt_uav(v, "ROTATION_SPEED_FAN_BL")?;
    let rotation_speed_fan_br = opt_uav(v, "ROTATION_SPEED_FAN_BR")?;
    let d = ThreePhaseInverterData { iac_l1, iac_l2, iac_l3, uac_l1, uac_l2, uac_l3, t_ambient, rotation_speed_fan_fl, rotation_speed_fan_fr, rotation_speed_fan_bl, rotation_speed_fan_br };
    proof {
        assert(d@ =~= spec_decode_three_phase_inverter_data(v@)->Some_0);
    }
    Ok(d)
}

/// The per-phase shape under the name its selector uses.
pub type ThreePInverterData = ThreePhaseInverterData;

/// A requestable inverter realtime-data shape: the literal selector it
/// is requested under, and its own decode contract.
pub trait DataCollection: Sized + View {
    /// The literal `DataCollection` request parameter naming this shape.
    spec fn spec_param_value() -> Seq<char>;

    /// The shape `v` decodes to.
    spec fn spec_decode(v: JsonView) -> Option<Self::V>;

    /// The `DataCollection` request parameter for this shape.
    fn param_value() -> (r: &'static str)
        ensures
            r@ == Self::spec_param_value(),
    ;

    /// Decodes this shape, matching [`Self::spec_decode`].
    fn decode_data(v: &JsonValue) -> (r: Result<Self, DecodeError>)
        ensures
            match r {
                Ok(d) => Self::spec_decode(v@) == Some(d@),
                Err(_) => Self::spec_decode(v@) is None,
            },
    ;
}

impl DataCollection for CumulationInverterData {
    open spec fn spec_param_value() -> Seq<char> {
        "CumulationInverterData"@
    }

    open spec fn spec_decode(v: JsonView) -> Option<CumulationInverterDataView> {
        spec_decode_cumulation_inverter_data(v)
    }

    fn param_value() -> (r: &'static str) {
        "CumulationInverterData"
    }

    fn decode_data(v: &JsonValue) -> (r: Result<Self, DecodeError>) {
        decode_cumulation_inverter_data(v)
    }
}

impl DataCollection for CommonInverterData {
    open spec fn spec_param_value() -> Seq<char> {
        "CommonInverterData"@
    }

    open spec fn spec_decode(v: JsonView) -> Option<CommonInverterDataView> {
        spec_decode_common_inverter_data(v)
    }

    fn param_value() -> (r: &'static str) {
        "CommonInverterData"
    }

    fn decode_data(v: &JsonValue) -> (r: Result<Self, DecodeError>) {
        decode_common_inverter_data(v)
    }
}

impl DataCollection for ThreePhaseInverterData {
    open spec fn spec_param_value() -> Seq<char> {
        "3PInverterData"@
    }

    open spec fn spec_decode(v: JsonView) -> Option<ThreePhaseInverterDataView> {
        spec_decode_three_phase_inverter_data(v)
    }

    fn param_value() -> (r: &'static str) {
        "3PInverterData"
    }

    fn decode_data(v: &JsonValue) -> (r: Result<Self, DecodeError>) {
        decode_three_phase_inverter_data(v)
    }
}

/// A payload whose optional frequency channel is missing still decodes
/// — whenever its other fields are readable — and decodes with that
/// channel absent, never as a stand-in value.
pub proof fn lemma_common_inverter_optional_absent(v: JsonView)
    requires
        spec_common_inverter_data_ok(v),
        spec_field(v, "FAC"@) is None,
    ensures
        spec_decode_common_inverter_data(v) matches Some(d) && d.fac is None,
{
}

/// A payload missing the mandatory power channel does not decode at
/// all.
pub proof fn lemma_common_inverter_mandatory_missing(v: JsonView)
    requires
        spec_field(v, "PAC"@) is None,
    ensures
        spec_decode_common_inverter_data(v) is None,
{
}

} // verus!
