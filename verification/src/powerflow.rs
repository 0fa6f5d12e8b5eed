//! The site power-flow summary shape.
//!
//! One whole-site snapshot: the site balance, one record per inverter,
//! the smart loads grouped by kind, and optional secondary meters.

use vstd::prelude::*;
use vstd::string::*;
use crate::decode::{
    opt_bool, opt_num, opt_str, opt_str_view, opt_u32, req_i64, req_num, req_str, spec_opt_bool,
    spec_opt_num, spec_opt_str, spec_opt_u32, spec_req_i64, spec_req_num, spec_req_str,
};
use crate::error::DecodeError;
use crate::json::{
    get_field, jview, lemma_obj_view, opt_num_view, spec_field, JsonNumber, JsonValue, JsonView,
};

verus! {

/// The whole-site instantaneous balance.
#[derive(Debug, PartialEq)]
pub struct PowerFlowSite {
    pub mode: String,
    pub battery_standby: Option<bool>,
    pub backup_mode: Option<bool>,
    pub p_grid: Option<JsonNumber>,
    pub p_load: Option<JsonNumber>,
    pub p_akku: Option<JsonNumber>,
    pub p_pv: JsonNumber,
    pub rel_self_consumption: Option<JsonNumber>,
    pub rel_autonomy: Option<JsonNumber>,
    pub meter_location: Option<String>,
    pub e_day: Option<JsonNumber>,
    pub e_year: Option<JsonNumber>,
    pub e_total: Option<JsonNumber>,
}

/// The mathematical content of [`PowerFlowSite`].
#[verifier::ext_equal]
pub ghost struct PowerFlowSiteView {
    pub mode: Seq<char>,
    pub battery_standby: Option<bool>,
    pub backup_mode: Option<bool>,
    pub p_grid: Option<Seq<char>>,
    pub p_load: Option<Seq<char>>,
    pub p_akku: Option<Seq<char>>,
    pub p_pv: Seq<char>,
    pub rel_self_consumption: Option<Seq<char>>,
    pub rel_autonomy: Option<Seq<char>>,
    pub meter_location: Option<Seq<char>>,
    pub e_day: Option<Seq<char>>,
    pub e_year: Option<Seq<char>>,
    pub e_total: Option<Seq<char>>,
}

impl View for PowerFlowSite {
    type V = PowerFlowSiteView;

    open spec fn view(&self) -> PowerFlowSiteView {
        PowerFlowSiteView {
            mode: self.mode@,
            battery_standby: self.battery_standby,
            backup_mode: self.backup_mode,
            p_grid: opt_num_view(self.p_grid),
            p_load: opt_num_view(self.p_load),
            p_akku: opt_num_view(self.p_akku),
            p_pv: self.p_pv@,
            rel_self_consumption: opt_num_view(self.rel_self_consumption),
            rel_autonomy: opt_num_view(self.rel_autonomy),
            meter_location: opt_str_view(self.meter_location),
            e_day: opt_num_view(self.e_day),
            e_year: opt_num_view(self.e_year),
            e_total: opt_num_view(self.e_total),
        }
    }
}

/// Every field of a [`PowerFlowSite`] is readable from `v` under its contract.
pub open spec fn spec_power_flow_site_ok(v: JsonView) -> bool {
    &&& spec_req_str(v, "Mode"@) is Some
    &&& spec_opt_bool(v, "BatteryStandby"@) is Some
    &&& spec_opt_bool(v, "BackupMode"@) is Some
    &&& spec_opt_num(v, "P_Grid"@) is Some
    &&& spec_opt_num(v, "P_Load"@) is Some
    &&& spec_opt_num(v, "P_Akku"@) is Some
    &&& spec_req_num(v, "P_PV"@) is Some
    &&& spec_opt_num(v, "rel_SelfConsumption"@) is Some
    &&& spec_opt_num(v, "rel_Autonomy"@) is Some
    &&& spec_opt_str(v, "Meter_Location"@) is Some
    &&& spec_opt_num(v, "E_Day"@) is Some
    &&& spec_opt_num(v, "E_Year"@) is Some
    &&& spec_opt_num(v, "E_Total"@) is Some
}

/// The [`PowerFlowSite`] that `v` decodes to.
pub open spec fn spec_decode_power_flow_site(v: JsonView) -> Option<PowerFlowSiteView> {
    if spec_power_flow_site_ok(v) {
        Some(PowerFlowSiteView {
        mode: spec_req_str(v, "Mode"@)->Some_0,
        battery_standby: spec_opt_bool(v, "BatteryStandby"@)->Some_0,
        backup_mode: spec_opt_bool(v, "BackupMode"@)->Some_0,
        p_grid: spec_opt_num(v, "P_Grid"@)->Some_0,
        p_load: spec_opt_num(v, "P_Load"@)->Some_0,
        p_akku: spec_opt_num(v, "P_Akku"@)->Some_0,
        p_pv: spec_req_num(v, "P_PV"@)->Some_0,
        rel_self_consumption: spec_opt_num(v, "rel_SelfConsumption"@)->Some_0,
        rel_autonomy: spec_opt_num(v, "rel_Autonomy"@)->Some_0,
        meter_location: spec_opt_str(v, "Meter_Location"@)->Some_0,
        e_day: spec_opt_num(v, "E_Day"@)->Some_0,
        e_year: spec_opt_num(v, "E_Year"@)->Some_0,
        e_total: spec_opt_num(v, "E_Total"@)->Some_0,
        })
    } else {
        None
    }
}

/// One unreadable field refuses the whole record.
proof fn lemma_power_flow_site_bad(v: JsonView)
    requires
        (spec_req_str(v, "Mode"@) is None) ||
            (spec_opt_bool(v, "BatteryStandby"@) is None) ||
            (spec_opt_bool(v, "BackupMode"@) is None) ||
            (spec_opt_num(v, "P_Grid"@) is None) ||
            (spec_opt_num(v, "P_Load"@) is None) ||
            (spec_opt_num(v, "P_Akku"@) is None) ||
            (spec_req_num(v, "P_PV"@) is None) ||
            (spec_opt_num(v, "rel_SelfConsumption"@) is None) ||
            (spec_opt_num(v, "rel_Autonomy"@) is None) ||
            (spec_opt_str(v, "Meter_Location"@) is None) ||
            (spec_opt_num(v, "E_Day"@) is None) ||
            (spec_opt_num(v, "E_Year"@) is None) ||
            (spec_opt_num(v, "E_Total"@) is None),
    ensures
        spec_decode_power_flow_site(v) is None,
{
}

/// Decodes a [`PowerFlowSite`], matching [`spec_decode_power_flow_site`].
pub fn decode_power_flow_site(v: &JsonValue) -> (r: Result<PowerFlowSite, DecodeError>)
    ensures
        match r {
            Ok(d) => spec_decode_power_flow_site(v@) == Some(d@),
            Err(_) => spec_decode_power_flow_site(v@) is None,
        },
{
    let mode = match req_str(v, "Mode") {
        Ok(x) => x,
        Err(e) => {
            proof {
                lemma_power_flow_site_bad(v@);
            }
            return Err(e);
        },
    };
    let battery_standby = match opt_bool(v, "BatteryStandby") {
        Ok(x) => x,
        Err(e) => {
            proof {
                lemma_power_flow_site_bad(v@);
            }
            return Err(e);
        },
    };
    let backup_mode = match opt_bool(v, "BackupMode") {
        Ok(x) => x,
        Err(e) => {
            proof {
                lemma_power_flow_site_bad(v@);
            }
            return Err(e);
        },
    };
    let p_grid = match opt_num(v, "P_Grid") {
        Ok(x) => x,
        Err(e) => {
            proof {
                lemma_power_flow_site_bad(v@);
            }
            return Err(e);
        },
    };
    let p_load = match opt_num(v, "P_Load") {
        Ok(x) => x,
        Err(e) => {
            proof {
                lemma_power_flow_site_bad(v@);
            }
            return Err(e);
        },
    };
    let p_akku = match opt_num(v, "P_Akku") {
        Ok(x) => x,
        Err(e) => {
            proof {
                lemma_power_flow_site_bad(v@);
            }
            return Err(e);
        },
    };
    let p_pv = match req_num(v, "P_PV") {
        Ok(x) => x,
        Err(e) => {
            proof {
                lemma_power_flow_site_bad(v@);
            }
            return Err(e);
        },
    };
    let rel_self_consumption = match opt_num(v, "rel_SelfConsumption") {
        Ok(x) => x,
        Err(e) => {
            proof {
                lemma_power_flow_site_bad(v@);
            }
            return Err(e);
        },
    };
    let rel_autonomy = match opt_num(v, "rel_Autonomy") {
        Ok(x) => x,
        Err(e) => {
            proof {
                lemma_power_flow_site_bad(v@);
            }
            return Err(e);
        },
    };
    let meter_location = match opt_str(v, "Meter_Location") {
        Ok(x) => x,
        Err(e) => {
            proof {
                lemma_power_flow_site_bad(v@);
            }
            return Err(e);
        },
    };
    let e_day = match opt_num(v, "E_Day") {
        Ok(x) => x,
        Err(e) => {
            proof {
                lemma_power_flow_site_bad(v@);
            }
            return Err(e);
        },
    };
    let e_year = match opt_num(v, "E_Year") {
        Ok(x) => x,
        Err(e) => {
            proof {
                lemma_power_flow_site_bad(v@);
            }
            return Err(e);
        },
    };
    let e_total = match opt_num(v, "E_Total") {
        Ok(x) => x,
        Err(e) => {
            proof {
                lemma_power_flow_site_bad(v@);
            }
            return Err(e);
        },
    };
    let d = PowerFlowSite { mode, battery_standby, backup_mode, p_grid, p_load, p_akku, p_pv, rel_self_consumption, rel_autonomy, meter_location, e_day, e_year, e_total };
    proof {
        assert(d@ =~= spec_decode_power_flow_site(v@)->Some_0);
    }
    Ok(d)
}

/// One inverter in the power-flow summary.
#[derive(Debug, PartialEq)]
pub struct PowerFlowInverter {
    pub dt: i64,
    pub p: JsonNumber,
    pub soc: Option<JsonNumber>,
    pub cid: Option<u32>,
    pub battery_mode: Option<String>,
    pub e_day: Option<JsonNumber>,
    pub e_year: Option<JsonNumber>,
    pub e_total: Option<JsonNumber>,
}

/// The mathematical content of [`PowerFlowInverter`].
#[verifier::ext_equal]
pub ghost struct PowerFlowInverterView {
    pub dt: i64,
    pub p: Seq<char>,
    pub soc: Option<Seq<char>>,
    pub cid: Option<u32>,
    pub battery_mode: Option<Seq<char>>,
    pub e_day: Option<Seq<char>>,
    pub e_year: Option<Seq<char>>,
    pub e_total: Option<Seq<char>>,
}

impl View for PowerFlowInverter {
    type V = PowerFlowInverterView;

    open spec fn view(&self) -> PowerFlowInverterView {
        PowerFlowInverterView {
            dt: self.dt,
            p: self.p@,
            soc: opt_num_view(self.soc),
            cid: self.cid,
            battery_mode: opt_str_view(self.battery_mode),
            e_day: opt_num_view(self.e_day),
            e_year: opt_num_view(self.e_year),
            e_total: opt_num_view(self.e_total),
        }
    }
}

/// Every field of a [`PowerFlowInverter`] is readable from `v` under its contract.
pub open spec fn spec_power_flow_inverter_ok(v: JsonView) -> bool {
    &&& spec_req_i64(v, "DT"@) is Some
    &&& spec_req_num(v, "P"@) is Some
    &&& spec_opt_num(v, "SOC"@) is Some
    &&& spec_opt_u32(v, "CID"@) is Some
    &&& spec_opt_str(v, "Battery_Mode"@) is Some
    &&& spec_opt_num(v, "E_Day"@) is Some
    &&& spec_opt_num(v, "E_Year"@) is Some
    &&& spec_opt_num(v, "E_Total"@) is Some
}

/// The [`PowerFlowInverter`] that `v` decodes to.
pub open spec fn spec_decode_power_flow_inverter(v: JsonView) -> Option<PowerFlowInverterView> {
    if spec_power_flow_inverter_ok(v) {
        Some(PowerFlowInverterView {
        dt: spec_req_i64(v, "DT"@)->Some_0,
        p: spec_req_num(v, "P"@)->Some_0,
        soc: spec_opt_num(v, "SOC"@)->Some_0,
        cid: spec_opt_u32(v, "CID"@)->Some_0,
        battery_mode: spec_opt_str(v, "Battery_Mode"@)->Some_0,
        e_day: spec_opt_num(v, "E_Day"@)->Some_0,
        e_year: spec_opt_num(v, "E_Year"@)->Some_0,
        e_total: spec_opt_num(v, "E_Total"@)->Some_0,
        })
    } else {
        None
    }
}

/// One unreadable field refuses the whole record.
proof fn lemma_power_flow_inverter_bad(v: JsonView)
    requires
        (spec_req_i64(v, "DT"@) is None) ||
            (spec_req_num(v, "P"@) is None) ||
            (spec_opt_num(v, "SOC"@) is None) ||
            (spec_opt_u32(v, "CID"@) is None) ||
            (spec_opt_str(v, "Battery_Mode"@) is None) ||
            (spec_opt_num(v, "E_Day"@) is None) ||
            (spec_opt_num(v, "E_Year"@) is None) ||
            (spec_opt_num(v, "E_Total"@) is None),
    ensures
        spec_decode_power_flow_inverter(v) is None,
{
}

/// Decodes a [`PowerFlowInverter`], matching [`spec_decode_power_flow_inverter`].
pub fn decode_power_flow_inverter(v: &JsonValue) -> (r: Result<PowerFlowInverter, DecodeError>)
    ensures
        match r {
            Ok(d) => spec_decode_power_flow_inverter(v@) == Some(d@),
            Err(_) => spec_decode_power_flow_inverter(v@) is None,
        },
{
    let dt = match req_i64(v, "DT") {
        Ok(x) => x,
        Err(e) => {
            proof {
                lemma_power_flow_inverter_bad(v@);
            }
            return Err(e);
        },
    };
    let p = match req_num(v, "P") {
        Ok(x) => x,
        Err(e) => {
            proof {
                lemma_power_flow_inverter_bad(v@);
            }
            return Err(e);
        },
    };
    let soc = match opt_num(v, "SOC") {
        Ok(x) => x,
        Err(e) => {
            proof {
                lemma_power_flow_inverter_bad(v@);
            }
            return Err(e);
        },
    };
    let cid = match opt_u32(v, "CID") {
        Ok(x) => x,
        Err(e) => {
            proof {
                lemma_power_flow_inverter_bad(v@);
            }
            return Err(e);
        },
    };
    let battery_mode = match opt_str(v, "Battery_Mode") {
        Ok(x) => x,
        Err(e) => {
            proof {
                lemma_power_flow_inverter_bad(v@);
            }
            return Err(e);
        },
    };
    let e_day = match opt_num(v, "E_Day") {
        Ok(x) => x,
        Err(e) => {
            proof {
                lemma_power_flow_inverter_bad(v@);
            }
            return Err(e);
        },
    };
    let e_year = match opt_num(v, "E_Year") {
        Ok(x) => x,
        Err(e) => {
            proof {
                lemma_power_flow_inverter_bad(v@);
            }
            return Err(e);
        },
    };
    let e_total = match opt_num(v, "E_Total") {
        Ok(x) => x,
        Err(e) => {
            proof {
                lemma_power_flow_inverter_bad(v@);
            }
            return Err(e);
        },
    };
    let d = PowerFlowInverter { dt, p, soc, cid, battery_mode, e_day, e_year, e_total };
    proof {
        assert(d@ =~= spec_decode_power_flow_inverter(v@)->Some_0);
    }
    Ok(d)
}

/// One smart heating load in the power-flow summary.
#[derive(Debug, PartialEq)]
pub struct PowerFlowOhmPilots {
    pub p_ac_total: JsonNumber,
    pub state: String,
    pub temperature: JsonNumber,
}

/// The mathematical content of [`PowerFlowOhmPilots`].
#[verifier::ext_equal]
pub ghost struct PowerFlowOhmPilotsView {
    pub p_ac_total: Seq<char>,
    pub state: Seq<char>,
    pub temperature: Seq<char>,
}

impl View for PowerFlowOhmPilots {
    type V = PowerFlowOhmPilotsView;

    open spec fn view(&self) -> PowerFlowOhmPilotsView {
        PowerFlowOhmPilotsView {
            p_ac_total: self.p_ac_total@,
            state: self.state@,
            temperature: self.temperature@,
        }
    }
}

/// Every field of a [`PowerFlowOhmPilots`] is readable from `v` under its contract.
pub open spec fn spec_power_flow_ohm_pilots_ok(v: JsonView) -> bool {
    &&& spec_req_num(v, "P_AC_Total"@) is Some
    &&& spec_req_str(v, "State"@) is Some
    &&& spec_req_num(v, "Temperature"@) is Some
}

/// The [`PowerFlowOhmPilots`] that `v` decodes to.
pub open spec fn spec_decode_power_flow_ohm_pilots(v: JsonView) -> Option<PowerFlowOhmPilotsView> {
    if spec_power_flow_ohm_pilots_ok(v) {
        Some(PowerFlowOhmPilotsView {
        p_ac_total: spec_req_num(v, "P_AC_Total"@)->Some_0,
        state: spec_req_str(v, "State"@)->Some_0,
        temperature: spec_req_num(v, "Temperature"@)->Some_0,
        })
    } else {
        None
    }
}

/// One unreadable field refuses the whole record.
proof fn lemma_power_flow_ohm_pilots_bad(v: JsonView)
    requires
        (spec_req_num(v, "P_AC_Total"@) is None) ||
            (spec_req_str(v, "State"@) is None) ||
            (spec_req_num(v, "Temperature"@) is None),
    ensures
        spec_decode_power_flow_ohm_pilots(v) is None,
{
}

/// Decodes a [`PowerFlowOhmPilots`], matching [`spec_decode_power_flow_ohm_pilots`].
pub fn decode_power_flow_ohm_pilots(v: &JsonValue) -> (r: Result<PowerFlowOhmPilots, DecodeError>)
    ensures
        match r {
            Ok(d) => spec_decode_power_flow_ohm_pilots(v@) == Some(d@),
            Err(_) => spec_decode_power_flow_ohm_pilots(v@) is None,
        },
{
    let p_ac_total = match req_num(v, "P_AC_Total") {
        Ok(x) => x,
        Err(e) => {
            proof {
                lemma_power_flow_ohm_pilots_bad(v@);
            }
            return Err(e);
        },
    };
    let state = match req_str(v, "State") {
        Ok(x) => x,
        Err(e) => {
            proof {
                lemma_power_flow_ohm_pilots_bad(v@);
            }
            return Err(e);
        },
    };
    let temperature = match req_num(v, "Temperature") {
        Ok(x) => x,
        Err(e) => {
            proof {
                lemma_power_flow_ohm_pilots_bad(v@);
            }
            return Err(e);
        },
    };
    let d = PowerFlowOhmPilots { p_ac_total, state, temperature };
    proof {
        assert(d@ =~= spec_decode_power_flow_ohm_pilots(v@)->Some_0);
    }
    Ok(d)
}

/// One secondary meter in the power-flow summary.
#[derive(Debug, PartialEq)]
pub struct PowerFlowSecondaryMeters {
    pub p: JsonNumber,
    pub m_loc: JsonNumber,
    pub label: String,
    pub category: String,
}

/// The mathematical content of [`PowerFlowSecondaryMeters`].
#[verifier::ext_equal]
pub ghost struct PowerFlowSecondaryMetersView {
    pub p: Seq<char>,
    pub m_loc: Seq<char>,
    pub label: Seq<char>,
    pub category: Seq<char>,
}

impl View for PowerFlowSecondaryMeters {
    type V = PowerFlowSecondaryMetersView;

    open spec fn view(&self) -> PowerFlowSecondaryMetersView {
        PowerFlowSecondaryMetersView {
            p: self.p@,
            m_loc: self.m_loc@,
            label: self.label@,
            category: self.category@,
        }
    }
}

/// Every field of a [`PowerFlowSecondaryMeters`] is readable from `v` under its contract.
pub open spec fn spec_power_flow_secondary_meters_ok(v: JsonView) -> bool {
    &&& spec_req_num(v, "P"@) is Some
    &&& spec_req_num(v, "MLoc"@) is Some
    &&& spec_req_str(v, "Label"@) is Some
    &&& spec_req_str(v, "Category"@) is Some
}

/// The [`PowerFlowSecondaryMeters`] that `v` decodes to.
pub open spec fn spec_decode_power_flow_secondary_meters(v: JsonView) -> Option<PowerFlowSecondaryMetersView> {
    if spec_power_flow_secondary_meters_ok(v) {
        Some(PowerFlowSecondaryMetersView {
        p: spec_req_num(v, "P"@)->Some_0,
        m_loc: spec_req_num(v, "MLoc"@)->Some_0,
        label: spec_req_str(v, "Label"@)->Some_0,
        category: spec_req_str(v, "Category"@)->Some_0,
        })
    } else {
        None
    }
}

/// One unreadable field refuses the whole record.
proof fn lemma_power_flow_secondary_meters_bad(v: JsonView)
    requires
        (spec_req_num(v, "P"@) is None) ||
            (spec_req_num(v, "MLoc"@) is None) ||
            (spec_req_str(v, "Label"@) is None) ||
            (spec_req_str(v, "Category"@) is None),
    ensures
        spec_decode_power_flow_secondary_meters(v) is None,
{
}

/// Decodes a [`PowerFlowSecondaryMeters`], matching [`spec_decode_power_flow_secondary_meters`].
pub fn decode_power_flow_secondary_meters(v: &JsonValue) -> (r: Result<PowerFlowSecondaryMeters, DecodeError>)
    ensures
        match r {
            Ok(d) => spec_decode_power_flow_secondary_meters(v@) == Some(d@),
            Err(_) => spec_decode_power_flow_secondary_meters(v@) is None,
        },
{
    let p = match req_num(v, "P") {
        Ok(x) => x,
        Err(e) => {
            proof {
                lemma_power_flow_secondary_meters_bad(v@);
            }
            return Err(e);
        },
    };
    let m_loc = match req_num(v, "MLoc") {
        Ok(x) => x,
        Err(e) => {
            proof {
                lemma_power_flow_secondary_meters_bad(v@);
            }
            return Err(e);
        },
    };
    let label = match req_str(v, "Label") {
        Ok(x) => x,
        Err(e) => {
            proof {
                lemma_power_flow_secondary_meters_bad(v@);
            }
            return Err(e);
        },
    };
    let category = match req_str(v, "Category") {
        Ok(x) => x,
        Err(e) => {
            proof {
                lemma_power_flow_secondary_meters_bad(v@);
            }
            return Err(e);
        },
    };
    let d = PowerFlowSecondaryMeters { p, m_loc, label, category };
    proof {
        assert(d@ =~= spec_decode_power_flow_secondary_meters(v@)->Some_0);
    }
    Ok(d)
}

/// Every entry of `es` decodes as a map member.
pub open spec fn spec_pf_inverters_entries_ok(es: Seq<(Seq<char>, JsonView)>) -> bool {
    forall|i: int| 0 <= i < es.len() ==> spec_decode_power_flow_inverter(#[trigger] es[i].1) is Some
}

/// The decoded members of `es`, in response order.
pub open spec fn spec_pf_inverters_entries(es: Seq<(Seq<char>, JsonView)>) -> Seq<
    (Seq<char>, PowerFlowInverterView),
> {
    Seq::new(es.len(), |i: int| (es[i].0, spec_decode_power_flow_inverter(es[i].1)->Some_0))
}

/// Key/value views of the decoded map.
pub open spec fn pf_inverters_pairs_view(s: Seq<(String, PowerFlowInverter)>) -> Seq<(Seq<char>, PowerFlowInverterView)> {
    Seq::new(s.len(), |i: int| (s[i].0@, s[i].1@))
}

/// The per-inverter records, keyed by inverter.
pub open spec fn spec_decode_pf_inverters(v: JsonView) -> Option<Seq<(Seq<char>, PowerFlowInverterView)>> {
    match v {
        JsonView::Obj(es) => if spec_pf_inverters_entries_ok(es) {
            Some(spec_pf_inverters_entries(es))
        } else {
            None
        },
        _ => None,
    }
}

/// Decodes the map, matching [`spec_decode_pf_inverters`].
pub fn decode_pf_inverters(v: &JsonValue) -> (r: Result<Vec<(String, PowerFlowInverter)>, DecodeError>)
    ensures
        match r {
            Ok(m) => spec_decode_pf_inverters(v@) == Some(pf_inverters_pairs_view(m@)),
            Err(_) => spec_decode_pf_inverters(v@) is None,
        },
{
    let entries = match v {
        JsonValue::Obj(es) => es,
        _ => {
            return Err(DecodeError::WrongType { field: "Data".to_owned() });
        },
    };
    proof {
        lemma_obj_view(*entries);
    }
    let ghost ves = jview(*v)->Obj_0;
    let mut out: Vec<(String, PowerFlowInverter)> = Vec::new();
    let mut i: usize = 0;
    while i < entries.len()
        invariant
            i <= entries@.len(),
            out@.len() == i,
            v@ == JsonView::Obj(ves),
            ves.len() == entries@.len(),
            forall|j: int|
                0 <= j < ves.len() ==> #[trigger] ves[j] == (
                entries@[j].0@,
                jview(entries@[j].1),
                ),
            forall|j: int|
                0 <= j < i ==> out@[j].0@ == ves[j].0 && spec_decode_power_flow_inverter(#[trigger] ves[j].1) is Some && out@[j].1@ == spec_decode_power_flow_inverter(ves[j].1)->Some_0,
        decreases entries@.len() - i,
    {
        let value = match decode_power_flow_inverter(&entries[i].1) {
            Ok(x) => x,
            Err(e) => {
                proof {
                    assert(spec_decode_power_flow_inverter(ves[i as int].1) is None);
                }
                return Err(e);
            },
        };
        let key = entries[i].0.clone();
        out.push((key, value));
        i += 1;
    }
    proof {
        assert(pf_inverters_pairs_view(out@) =~= spec_pf_inverters_entries(ves));
    }
    Ok(out)
}

/// Every entry of `es` decodes as a map member.
pub open spec fn spec_ohm_pilots_map_entries_ok(es: Seq<(Seq<char>, JsonView)>) -> bool {
    forall|i: int| 0 <= i < es.len() ==> spec_decode_power_flow_ohm_pilots(#[trigger] es[i].1) is Some
}

/// The decoded members of `es`, in response order.
pub open spec fn spec_ohm_pilots_map_entries(es: Seq<(Seq<char>, JsonView)>) -> Seq<
    (Seq<char>, PowerFlowOhmPilotsView),
> {
    Seq::new(es.len(), |i: int| (es[i].0, spec_decode_power_flow_ohm_pilots(es[i].1)->Some_0))
}

/// Key/value views of the decoded map.
pub open spec fn ohm_pilots_map_pairs_view(s: Seq<(String, PowerFlowOhmPilots)>) -> Seq<(Seq<char>, PowerFlowOhmPilotsView)> {
    Seq::new(s.len(), |i: int| (s[i].0@, s[i].1@))
}

/// One smart-load group, keyed by load.
pub open spec fn spec_decode_ohm_pilots_map(v: JsonView) -> Option<Seq<(Seq<char>, PowerFlowOhmPilotsView)>> {
    match v {
        JsonView::Obj(es) => if spec_ohm_pilots_map_entries_ok(es) {
            Some(spec_ohm_pilots_map_entries(es))
        } else {
            None
        },
        _ => None,
    }
}

/// Decodes the map, matching [`spec_decode_ohm_pilots_map`].
pub fn decode_ohm_pilots_map(v: &JsonValue) -> (r: Result<Vec<(String, PowerFlowOhmPilots)>, DecodeError>)
    ensures
        match r {
            Ok(m) => spec_decode_ohm_pilots_map(v@) == Some(ohm_pilots_map_pairs_view(m@)),
            Err(_) => spec_decode_ohm_pilots_map(v@) is None,
        },
{
    let entries = match v {
        JsonValue::Obj(es) => es,
        _ => {
            return Err(DecodeError::WrongType { field: "Data".to_owned() });
        },
    };
    proof {
        lemma_obj_view(*entries);
    }
    let ghost ves = jview(*v)->Obj_0;
    let mut out: Vec<(String, PowerFlowOhmPilots)> = Vec::new();
    let mut i: usize = 0;
    while i < entries.len()
        invariant
            i <= entries@.len(),
            out@.len() == i,
            v@ == JsonView::Obj(ves),
            ves.len() == entries@.len(),
            forall|j: int|
                0 <= j < ves.len() ==> #[trigger] ves[j] == (
                entries@[j].0@,
                jview(entries@[j].1),
                ),
            forall|j: int|
                0 <= j < i ==> out@[j].0@ == ves[j].0 && spec_decode_power_flow_ohm_pilots(#[trigger] ves[j].1) is Some && out@[j].1@ == spec_decode_power_flow_ohm_pilots(ves[j].1)->Some_0,
        decreases entries@.len() - i,
    {
        let value = match decode_power_flow_ohm_pilots(&entries[i].1) {
            Ok(x) => x,
            Err(e) => {
                proof {
                    assert(spec_decode_power_flow_ohm_pilots(ves[i as int].1) is None);
                }
                return Err(e);
            },
        };
        let key = entries[i].0.clone();
        out.push((key, value));
        i += 1;
    }
    proof {
        assert(ohm_pilots_map_pairs_view(out@) =~= spec_ohm_pilots_map_entries(ves));
    }
    Ok(out)
}

/// Every entry of `es` decodes as a map member.
pub open spec fn spec_smartloads_entries_ok(es: Seq<(Seq<char>, JsonView)>) -> bool {
    forall|i: int| 0 <= i < es.len() ==> spec_decode_ohm_pilots_map(#[trigger] es[i].1) is Some
}

/// The decoded members of `es`, in response order.
pub open spec fn spec_smartloads_entries(es: Seq<(Seq<char>, JsonView)>) -> Seq<
    (Seq<char>, Seq<(Seq<char>, PowerFlowOhmPilotsView)>),
> {
    Seq::new(es.len(), |i: int| (es[i].0, spec_decode_ohm_pilots_map(es[i].1)->Some_0))
}

/// Key/value views of the decoded map.
pub open spec fn smartloads_pairs_view(s: Seq<(String, Vec<(String, PowerFlowOhmPilots)>)>) -> Seq<(Seq<char>, Seq<(Seq<char>, PowerFlowOhmPilotsView)>)> {
    Seq::new(s.len(), |i: int| (s[i].0@, ohm_pilots_map_pairs_view(s[i].1@)))
}

/// The smart loads, grouped by kind, each group keyed by load.
pub open spec fn spec_decode_smartloads(v: JsonView) -> Option<Seq<(Seq<char>, Seq<(Seq<char>, PowerFlowOhmPilotsView)>)>> {
    match v {
        JsonView::Obj(es) => if spec_smartloads_entries_ok(es) {
            Some(spec_smartloads_entries(es))
        } else {
            None
        },
        _ => None,
    }
}

/// Decodes the map, matching [`spec_decode_smartloads`].
pub fn decode_smartloads(v: &JsonValue) -> (r: Result<Vec<(String, Vec<(String, PowerFlowOhmPilots)>)>, DecodeError>)
    ensures
        match r {
            Ok(m) => spec_decode_smartloads(v@) == Some(smartloads_pairs_view(m@)),
            Err(_) => spec_decode_smartloads(v@) is None,
        },
{
    let entries = match v {
        JsonValue::Obj(es) => es,
        _ => {
            return Err(DecodeError::WrongType { field: "Data".to_owned() });
        },
    };
    proof {
        lemma_obj_view(*entries);
    }
    let ghost ves = jview(*v)->Obj_0;
    let mut out: Vec<(String, Vec<(String, PowerFlowOhmPilots)>)> = Vec::new();
    let mut i: usize = 0;
    while i < entries.len()
        invariant
            i <= entries@.len(),
            out@.len() == i,
            v@ == JsonView::Obj(ves),
            ves.len() == entries@.len(),
            forall|j: int|
                0 <= j < ves.len() ==> #[trigger] ves[j] == (
                entries@[j].0@,
                jview(entries@[j].1),
                ),
            forall|j: int|
                0 <= j < i ==> out@[j].0@ == ves[j].0 && spec_decode_ohm_pilots_map(#[trigger] ves[j].1) is Some && ohm_pilots_map_pairs_view(out@[j].1@) == spec_decode_ohm_pilots_map(ves[j].1)->Some_0,
        decreases entries@.len() - i,
    {
        let value = match decode_ohm_pilots_map(&entries[i].1) {
            Ok(x) => x,
            Err(e) => {
                proof {
                    assert(spec_decode_ohm_pilots_map(ves[i as int].1) is None);
                }
                return Err(e);
            },
        };
        let key = entries[i].0.clone();
        out.push((key, value));
        i += 1;
    }
    proof {
        assert(smartloads_pairs_view(out@) =~= spec_smartloads_entries(ves));
    }
    Ok(out)
}

/// Every entry of `es` decodes as a map member.
pub open spec fn spec_secondary_meters_map_entries_ok(es: Seq<(Seq<char>, JsonView)>) -> bool {
    forall|i: int| 0 <= i < es.len() ==> spec_decode_power_flow_secondary_meters(#[trigger] es[i].1) is Some
}

/// The decoded members of `es`, in response order.
pub open spec fn spec_secondary_meters_map_entries(es: Seq<(Seq<char>, JsonView)>) -> Seq<
    (Seq<char>, PowerFlowSecondaryMetersView),
> {
    Seq::new(es.len(), |i: int| (es[i].0, spec_decode_power_flow_secondary_meters(es[i].1)->Some_0))
}

/// Key/value views of the decoded map.
pub open spec fn secondary_meters_map_pairs_view(s: Seq<(String, PowerFlowSecondaryMeters)>) -> Seq<(Seq<char>, PowerFlowSecondaryMetersView)> {
    Seq::new(s.len(), |i: int| (s[i].0@, s[i].1@))
}

/// The secondary meters, keyed by meter.
pub open spec fn spec_decode_secondary_meters_map(v: JsonView) -> Option<Seq<(Seq<char>, PowerFlowSecondaryMetersView)>> {
    match v {
        JsonView::Obj(es) => if spec_secondary_meters_map_entries_ok(es) {
            Some(spec_secondary_meters_map_entries(es))
        } else {
            None
        },
        _ => None,
    }
}

/// Decodes the map, matching [`spec_decode_secondary_meters_map`].
pub fn decode_secondary_meters_map(v: &JsonValue) -> (r: Result<Vec<(String, PowerFlowSecondaryMeters)>, DecodeError>)
    ensures
        match r {
            Ok(m) => spec_decode_secondary_meters_map(v@) == Some(secondary_meters_map_pairs_view(m@)),
            Err(_) => spec_decode_secondary_meters_map(v@) is None,
        },
{
    let entries = match v {
        JsonValue::Obj(es) => es,
        _ => {
            return Err(DecodeError::WrongType { field: "Data".to_owned() });
        },
    };
    proof {
        lemma_obj_view(*entries);
    }
    let ghost ves = jview(*v)->Obj_0;
    let mut out: Vec<(String, PowerFlowSecondaryMeters)> = Vec::new();
    let mut i: usize = 0;
    while i < entries.len()
        invariant
            i <= entries@.len(),
            out@.len() == i,
            v@ == JsonView::Obj(ves),
            ves.len() == entries@.len(),
            forall|j: int|
                0 <= j < ves.len() ==> #[trigger] ves[j] == (
                entries@[j].0@,
                jview(entries@[j].1),
                ),
            forall|j: int|
                0 <= j < i ==> out@[j].0@ == ves[j].0 && spec_decode_power_flow_secondary_meters(#[trigger] ves[j].1) is Some && out@[j].1@ == spec_decode_power_flow_secondary_meters(ves[j].1)->Some_0,
        decreases entries@.len() - i,
    {
        let value = match decode_power_flow_secondary_meters(&entries[i].1) {
            Ok(x) => x,
            Err(e) => {
                proof {
                    assert(spec_decode_power_flow_secondary_meters(ves[i as int].1) is None);
                }
                return Err(e);
            },
        };
        let key = entries[i].0.clone();
        out.push((key, value));
        i += 1;
    }
    proof {
        assert(secondary_meters_map_pairs_view(out@) =~= spec_secondary_meters_map_entries(ves));
    }
    Ok(out)
}

/// A mandatory site-balance field.
pub open spec fn spec_req_site(v: JsonView, key: Seq<char>) -> Option<PowerFlowSiteView> {
    match spec_field(v, key) {
        Some(w) => spec_decode_power_flow_site(w),
        None => None,
    }
}

/// Reads a mandatory site-balance field.
pub fn req_site(v: &JsonValue, key: &str) -> (r: Result<PowerFlowSite, DecodeError>)
    ensures
        match r {
            Ok(s) => spec_req_site(v@, key@) == Some(s@),
            Err(_) => spec_req_site(v@, key@) is None,
        },
{
    match get_field(v, key) {
        Some(f) => decode_power_flow_site(f),
        None => Err(DecodeError::MissingField { field: key.to_owned() }),
    }
}

/// A mandatory per-inverter map field.
pub open spec fn spec_req_pf_inverters(v: JsonView, key: Seq<char>) -> Option<
    Seq<(Seq<char>, PowerFlowInverterView)>,
> {
    match spec_field(v, key) {
        Some(w) => spec_decode_pf_inverters(w),
        None => None,
    }
}

/// Reads a mandatory per-inverter map field.
pub fn req_pf_inverters(v: &JsonValue, key: &str) -> (r: Result<
    Vec<(String, PowerFlowInverter)>,
    DecodeError,
>)
    ensures
        match r {
            Ok(m) => spec_req_pf_inverters(v@, key@) == Some(pf_inverters_pairs_view(m@)),
            Err(_) => spec_req_pf_inverters(v@, key@) is None,
        },
{
    match get_field(v, key) {
        Some(f) => decode_pf_inverters(f),
        None => Err(DecodeError::MissingField { field: key.to_owned() }),
    }
}

/// A mandatory smart-loads field.
pub open spec fn spec_req_smartloads(v: JsonView, key: Seq<char>) -> Option<
    Seq<(Seq<char>, Seq<(Seq<char>, PowerFlowOhmPilotsView)>)>,
> {
    match spec_field(v, key) {
        Some(w) => spec_decode_smartloads(w),
        None => None,
    }
}

/// Reads a mandatory smart-loads field.
pub fn req_smartloads(v: &JsonValue, key: &str) -> (r: Result<
    Vec<(String, Vec<(String, PowerFlowOhmPilots)>)>,
    DecodeError,
>)
    ensures
        match r {
            Ok(m) => spec_req_smartloads(v@, key@) == Some(smartloads_pairs_view(m@)),
            Err(_) => spec_req_smartloads(v@, key@) is None,
        },
{
    match get_field(v, key) {
        Some(f) => decode_smartloads(f),
        None => Err(DecodeError::MissingField { field: key.to_owned() }),
    }
}

/// View of the optional secondary-meters map.
pub open spec fn opt_sec_meters_view(o: Option<Vec<(String, PowerFlowSecondaryMeters)>>) -> Option<
    Seq<(Seq<char>, PowerFlowSecondaryMetersView)>,
> {
    match o {
        Some(m) => Some(secondary_meters_map_pairs_view(m@)),
        None => None,
    }
}

/// An optional secondary-meters field: absent or null reads as absent.
pub open spec fn spec_opt_secondary_meters(v: JsonView, key: Seq<char>) -> Option<
    Option<Seq<(Seq<char>, PowerFlowSecondaryMetersView)>>,
> {
    match spec_field(v, key) {
        None => Some(None),
        Some(JsonView::Null) => Some(None),
        Some(w) => match spec_decode_secondary_meters_map(w) {
            Some(m) => Some(Some(m)),
            None => None,
        },
    }
}

/// Reads an optional secondary-meters field.
pub fn opt_secondary_meters(v: &JsonValue, key: &str) -> (r: Result<
    Option<Vec<(String, PowerFlowSecondaryMeters)>>,
    DecodeError,
>)
    ensures
        match r {
            Ok(om) => spec_opt_secondary_meters(v@, key@) == Some(opt_sec_meters_view(om)),
            Err(_) => spec_opt_secondary_meters(v@, key@) is None,
        },
{
    match get_field(v, key) {
        None => Ok(None),
        Some(JsonValue::Null) => Ok(None),
        Some(f) => match decode_secondary_meters_map(f) {
            Ok(m) => Ok(Some(m)),
            Err(e) => Err(e),
        },
    }
}

/// The whole power-flow summary.
#[derive(Debug, PartialEq)]
pub struct PowerFlowData {
    pub version: String,
    pub site: PowerFlowSite,
    pub inverters: Vec<(String, PowerFlowInverter)>,
    pub smartloads: Vec<(String, Vec<(String, PowerFlowOhmPilots)>)>,
    pub secondary_meters: Option<Vec<(String, PowerFlowSecondaryMeters)>>,
}

/// The mathematical content of [`PowerFlowData`].
#[verifier::ext_equal]
pub ghost struct PowerFlowDataView {
    pub version: Seq<char>,
    pub site: PowerFlowSiteView,
    pub inverters: Seq<(Seq<char>, PowerFlowInverterView)>,
    pub smartloads: Seq<(Seq<char>, Seq<(Seq<char>, PowerFlowOhmPilotsView)>)>,
    pub secondary_meters: Option<Seq<(Seq<char>, PowerFlowSecondaryMetersView)>>,
}

impl View for PowerFlowData {
    type V = PowerFlowDataView;

    open spec fn view(&self) -> PowerFlowDataView {
        PowerFlowDataView {
            version: self.version@,
            site: self.site@,
            inverters: pf_inverters_pairs_view(self.inverters@),
            smartloads: smartloads_pairs_view(self.smartloads@),
            secondary_meters: opt_sec_meters_view(self.secondary_meters),
        }
    }
}

/// Every field of a [`PowerFlowData`] is readable from `v` under its contract.
pub open spec fn spec_power_flow_data_ok(v: JsonView) -> bool {
    &&& spec_req_str(v, "Version"@) is Some
    &&& spec_req_site(v, "Site"@) is Some
    &&& spec_req_pf_inverters(v, "Inverters"@) is Some
    &&& spec_req_smartloads(v, "Smartloads"@) is Some
    &&& spec_opt_secondary_meters(v, "SecondaryMeters"@) is Some
}

/// The [`PowerFlowData`] that `v` decodes to.
pub open spec fn spec_decode_power_flow_data(v: JsonView) -> Option<PowerFlowDataView> {
    if spec_power_flow_data_ok(v) {
        Some(PowerFlowDataView {
        version: spec_req_str(v, "Version"@)->Some_0,
        site: spec_req_site(v, "Site"@)->Some_0,
        inverters: spec_req_pf_inverters(v, "Inverters"@)->Some_0,
        smartloads: spec_req_smartloads(v, "Smartloads"@)->Some_0,
        secondary_meters: spec_opt_secondary_meters(v, "SecondaryMeters"@)->Some_0,
        })
    } else {
        None
    }
}

/// One unreadable field refuses the whole record.
proof fn lemma_power_flow_data_bad(v: JsonView)
    requires
        (spec_req_str(v, "Version"@) is None) ||
            (spec_req_site(v, "Site"@) is None) ||
            (spec_req_pf_inverters(v, "Inverters"@) is None) ||
            (spec_req_smartloads(v, "Smartloads"@) is None) ||
            (spec_opt_secondary_meters(v, "SecondaryMeters"@) is None),
    ensures
        spec_decode_power_flow_data(v) is None,
{
}

/// Decodes a [`PowerFlowData`], matching [`spec_decode_power_flow_data`].
pub fn decode_power_flow_data(v: &JsonValue) -> (r: Result<PowerFlowData, DecodeError>)
    ensures
        match r {
            Ok(d) => spec_decode_power_flow_data(v@) == Some(d@),
            Err(_) => spec_decode_power_flow_data(v@) is None,
        },
{
    let version = match req_str(v, "Version") {
        Ok(x) => x,
        Err(e) => {
            proof {
                lemma_power_flow_data_bad(v@);
            }
            return Err(e);
        },
    };
    let site = match req_site(v, "Site") {
        Ok(x) => x,
        Err(e) => {
            proof {
                lemma_power_flow_data_bad(v@);
            }
            return Err(e);
        },
    };
    let inverters = match req_pf_inverters(v, "Inverters") {
        Ok(x) => x,
        Err(e) => {
            proof {
                lemma_power_flow_data_bad(v@);
            }
            return Err(e);
        },
    };
    let smartloads = match req_smartloads(v, "Smartloads") {
        Ok(x) => x,
        Err(e) => {
            proof {
                lemma_power_flow_data_bad(v@);
            }
            return Err(e);
        },
    };
    let secondary_meters = match opt_secondary_meters(v, "SecondaryMeters") {
        Ok(x) => x,
        Err(e) => {
            proof {
                lemma_power_flow_data_bad(v@);
            }
            return Err(e);
        },
    };
    let d = PowerFlowData { version, site, inverters, smartloads, secondary_meters };
    proof {
        assert(d@ =~= spec_decode_power_flow_data(v@)->Some_0);
    }
    Ok(d)
}

} // verus!
