//! The auxiliary heating-element controller realtime-data shape.
//!
//! One record per controller: identity details, consumed energy, the
//! controller state code, and the heating channel temperature.

use vstd::prelude::*;
use vstd::string::*;
use crate::decode::{
    opt_i64, req_num, req_str, req_u8, spec_opt_i64, spec_req_num, spec_req_str, spec_req_u8,
};
use crate::error::DecodeError;
use crate::json::{
    get_field, jview, lemma_obj_view, spec_field, JsonNumber, JsonValue, JsonView,
};

verus! {

/// Identity of one heating-element controller.
#[derive(Debug, PartialEq)]
pub struct OhmPilotDetails {
    pub serial: String,
    pub model: String,
    pub manufacturer: String,
    pub software: String,
    pub hardware: String,
}

/// The mathematical content of [`OhmPilotDetails`].
#[verifier::ext_equal]
pub ghost struct OhmPilotDetailsView {
    pub serial: Seq<char>,
    pub model: Seq<char>,
    pub manufacturer: Seq<char>,
    pub software: Seq<char>,
    pub hardware: Seq<char>,
}

impl View for OhmPilotDetails {
    type V = OhmPilotDetailsView;

    open spec fn view(&self) -> OhmPilotDetailsView {
        OhmPilotDetailsView {
            serial: self.serial@,
            model: self.model@,
            manufacturer: self.manufacturer@,
            software: self.software@,
            hardware: self.hardware@,
        }
    }
}

/// Every field of a [`OhmPilotDetails`] is readable from `v` under its contract.
pub open spec fn spec_ohm_pilot_details_ok(v: JsonView) -> bool {
    &&& spec_req_str(v, "Serial"@) is Some
    &&& spec_req_str(v, "Model"@) is Some
    &&& spec_req_str(v, "Manufacturer"@) is Some
    &&& spec_req_str(v, "Software"@) is Some
    &&& spec_req_str(v, "Hardware"@) is Some
}

/// The [`OhmPilotDetails`] that `v` decodes to.
pub open spec fn spec_decode_ohm_pilot_details(v: JsonView) -> Option<OhmPilotDetailsView> {
    if spec_ohm_pilot_details_ok(v) {
        Some(OhmPilotDetailsView {
        serial: spec_req_str(v, "Serial"@)->Some_0,
        model: spec_req_str(v, "Model"@)->Some_0,
        manufacturer: spec_req_str(v, "Manufacturer"@)->Some_0,
        software: spec_req_str(v, "Software"@)->Some_0,
        hardware: spec_req_str(v, "Hardware"@)->Some_0,
        })
    } else {
        None
    }
}

/// One unreadable field refuses the whole record.
proof fn lemma_ohm_pilot_details_bad(v: JsonView)
    requires
        (spec_req_str(v, "Serial"@) is None) ||
            (spec_req_str(v, "Model"@) is None) ||
            (spec_req_str(v, "Manufacturer"@) is None) ||
            (spec_req_str(v, "Software"@) is None) ||
            (spec_req_str(v, "Hardware"@) is None),
    ensures
        spec_decode_ohm_pilot_details(v) is None,
{
}

/// Decodes a [`OhmPilotDetails`], matching [`spec_decode_ohm_pilot_details`].
pub fn decode_ohm_pilot_details(v: &JsonValue) -> (r: Result<OhmPilotDetails, DecodeError>)
    ensures
        match r {
            Ok(d) => spec_decode_ohm_pilot_details(v@) == Some(d@),
            Err(_) => spec_decode_ohm_pilot_details(v@) is None,
        },
{
    let serial = match req_str(v, "Serial") {
        Ok(x) => x,
        Err(e) => {
            proof {
                lemma_ohm_pilot_details_bad(v@);
            }
            return Err(e);
        },
    };
    let model = match req_str(v, "Model") {
        Ok(x) => x,
        Err(e) => {
            proof {
                lemma_ohm_pilot_details_bad(v@);
            }
            return Err(e);
        },
    };
    let manufacturer = match req_str(v, "Manufacturer") {
        Ok(x) => x,
        Err(e) => {
            proof {
                lemma_ohm_pilot_details_bad(v@);
            }
            return Err(e);
        },
    };
    let software = match req_str(v, "Software") {
        Ok(x) => x,
        Err(e) => {
            proof {
                lemma_ohm_pilot_details_bad(v@);
            }
            return Err(e);
        },
    };
    let hardware = match req_str(v, "Hardware") {
        Ok(x) => x,
        Err(e) => {
            proof {
                lemma_ohm_pilot_details_bad(v@);
            }
            return Err(e);
        },
    };
    let d = OhmPilotDetails { serial, model, manufacturer, software, hardware };
    proof {
        assert(d@ =~= spec_decode_ohm_pilot_details(v@)->Some_0);
    }
    Ok(d)
}

/// A mandatory controller-details field.
pub open spec fn spec_req_ohm_details(v: JsonView, key: Seq<char>) -> Option<OhmPilotDetailsView> {
    match spec_field(v, key) {
        Some(w) => spec_decode_ohm_pilot_details(w),
        None => None,
    }
}

/// Reads a mandatory controller-details field.
pub fn req_ohm_details(v: &JsonValue, key: &str) -> (r: Result<OhmPilotDetails, DecodeError>)
    ensures
        match r {
            Ok(d) => spec_req_ohm_details(v@, key@) == Some(d@),
            Err(_) => spec_req_ohm_details(v@, key@) is None,
        },
{
    match get_field(v, key) {
        Some(f) => decode_ohm_pilot_details(f),
        None => Err(DecodeError::MissingField { field: key.to_owned() }),
    }
}

/// The closed enumeration of controller states.
#[derive(Debug, Clone, Copy, PartialEq, Eq, Structural)]
pub enum OhmPilotCodeOfState {
    UpAndRunning,
    KeepMinimumTemperature,
    LegionellaProtection,
    CriticalFault,
    Fault,
    BoostMode,
}

/// The controller state a wire number stands for, if any.
pub open spec fn spec_ohm_state_of(n: u8) -> Option<OhmPilotCodeOfState> {
    if n == 0 {
        Some(OhmPilotCodeOfState::UpAndRunning)
    } else if n == 1 {
        Some(OhmPilotCodeOfState::KeepMinimumTemperature)
    } else if n == 2 {
        Some(OhmPilotCodeOfState::LegionellaProtection)
    } else if n == 3 {
        Some(OhmPilotCodeOfState::CriticalFault)
    } else if n == 4 {
        Some(OhmPilotCodeOfState::Fault)
    } else if n == 5 {
        Some(OhmPilotCodeOfState::BoostMode)
    } else {
        None
    }
}

/// The text shown for each controller state.
pub open spec fn spec_ohm_state_name(c: OhmPilotCodeOfState) -> Seq<char> {
    match c {
        OhmPilotCodeOfState::UpAndRunning => "Up and Running"@,
        OhmPilotCodeOfState::KeepMinimumTemperature => "Keeping minimum Temperature"@,
        OhmPilotCodeOfState::LegionellaProtection => "Legionella Protection"@,
        OhmPilotCodeOfState::CriticalFault => "Critical Fault"@,
        OhmPilotCodeOfState::Fault => "Fault"@,
        OhmPilotCodeOfState::BoostMode => "Boost Mode"@,
    }
}

impl OhmPilotCodeOfState {
    /// Reads a wire number; an unknown number is a decode error.
    pub fn from_number(n: u8) -> (r: Option<OhmPilotCodeOfState>)
        ensures
            r == spec_ohm_state_of(n),
    {
        if n == 0 {
            Some(OhmPilotCodeOfState::UpAndRunning)
        } else if n == 1 {
            Some(OhmPilotCodeOfState::KeepMinimumTemperature)
        } else if n == 2 {
            Some(OhmPilotCodeOfState::LegionellaProtection)
        } else if n == 3 {
            Some(OhmPilotCodeOfState::CriticalFault)
        } else if n == 4 {
            Some(OhmPilotCodeOfState::Fault)
        } else if n == 5 {
            Some(OhmPilotCodeOfState::BoostMode)
        } else {
            None
        }
    }

    /// The display text of this state.
    pub fn name(&self) -> (r: String)
        ensures
            r@ == spec_ohm_state_name(*self),
    {
        match self {
            OhmPilotCodeOfState::UpAndRunning => String::from_str("Up and Running"),
            OhmPilotCodeOfState::KeepMinimumTemperature => String::from_str(
                "Keeping minimum Temperature",
            ),
            OhmPilotCodeOfState::LegionellaProtection => String::from_str("Legionella Protection"),
            OhmPilotCodeOfState::CriticalFault => String::from_str("Critical Fault"),
            OhmPilotCodeOfState::Fault => String::from_str("Fault"),
            OhmPilotCodeOfState::BoostMode => String::from_str("Boost Mode"),
        }
    }
}

/// A mandatory controller-state field: an integer naming a state.
pub open spec fn spec_req_ohm_state(v: JsonView, key: Seq<char>) -> Option<OhmPilotCodeOfState> {
    match spec_req_u8(v, key) {
        Some(n) => spec_ohm_state_of(n),
        None => None,
    }
}

/// Reads a mandatory controller-state field.
pub fn req_ohm_state(v: &JsonValue, key: &str) -> (r: Result<OhmPilotCodeOfState, DecodeError>)
    ensures
        match r {
            Ok(c) => spec_req_ohm_state(v@, key@) == Some(c),
            Err(_) => spec_req_ohm_state(v@, key@) is None,
        },
{
    let n = req_u8(v, key)?;
    match OhmPilotCodeOfState::from_number(n) {
        Some(c) => Ok(c),
        None => Err(DecodeError::UnknownCode { field: key.to_owned(), code: n as u64 }),
    }
}

/// The heating-element controller record for one device.
#[derive(Debug, PartialEq)]
pub struct OhmPilotData {
    pub details: OhmPilotDetails,
    pub energy_real_wac_sum_consumed: JsonNumber,
    pub code_of_state: OhmPilotCodeOfState,
    pub code_of_error: Option<i64>,
    pub power_real_pac_sum: JsonNumber,
    pub temperature_channel_1: JsonNumber,
}

/// The mathematical content of [`OhmPilotData`].
#[verifier::ext_equal]
pub ghost struct OhmPilotDataView {
    pub details: OhmPilotDetailsView,
    pub energy_real_wac_sum_consumed: Seq<char>,
    pub code_of_state: OhmPilotCodeOfState,
    pub code_of_error: Option<i64>,
    pub power_real_pac_sum: Seq<char>,
    pub temperature_channel_1: Seq<char>,
}

impl View for OhmPilotData {
    type V = OhmPilotDataView;

    open spec fn view(&self) -> OhmPilotDataView {
        OhmPilotDataView {
            details: self.details@,
            energy_real_wac_sum_consumed: self.energy_real_wac_sum_consumed@,
            code_of_state: self.code_of_state,
            code_of_error: self.code_of_error,
            power_real_pac_sum: self.power_real_pac_sum@,
            temperature_channel_1: self.temperature_channel_1@,
        }
    }
}

/// Every field of a [`OhmPilotData`] is readable from `v` under its contract.
pub open spec fn spec_ohm_pilot_data_ok(v: JsonView) -> bool {
    &&& spec_req_ohm_details(v, "Details"@) is Some
    &&& spec_req_num(v, "EnergyReal_WAC_Sum_Consumed"@) is Some
    &&& spec_req_ohm_state(v, "CodeOfState"@) is Some
    &&& spec_opt_i64(v, "CodeOfError"@) is Some
    &&& spec_req_num(v, "PowerReal_PAC_Sum"@) is Some
    &&& spec_req_num(v, "Temperature_Channel_1"@) is Some
}

/// The [`OhmPilotData`] that `v` decodes to.
pub open spec fn spec_decode_ohm_pilot_data(v: JsonView) -> Option<OhmPilotDataView> {
    if spec_ohm_pilot_data_ok(v) {
        Some(OhmPilotDataView {
        details: spec_req_ohm_details(v, "Details"@)->Some_0,
        energy_real_wac_sum_consumed: spec_req_num(v, "EnergyReal_WAC_Sum_Consumed"@)->Some_0,
        code_of_state: spec_req_ohm_state(v, "CodeOfState"@)->Some_0,
        code_of_error: spec_opt_i64(v, "CodeOfError"@)->Some_0,
        power_real_pac_sum: spec_req_num(v, "PowerReal_PAC_Sum"@)->Some_0,
        temperature_channel_1: spec_req_num(v, "Temperature_Channel_1"@)->Some_0,
        })
    } else {
        None
    }
}

/// One unreadable field refuses the whole record.
proof fn lemma_ohm_pilot_data_bad(v: JsonView)
    requires
        (spec_req_ohm_details(v, "Details"@) is None) ||
            (spec_req_num(v, "EnergyReal_WAC_Sum_Consumed"@) is None) ||
            (spec_req_ohm_state(v, "CodeOfState"@) is None) ||
            (spec_opt_i64(v, "CodeOfError"@) is None) ||
            (spec_req_num(v, "PowerReal_PAC_Sum"@) is None) ||
            (spec_req_num(v, "Temperature_Channel_1"@) is None),
    ensures
        spec_decode_ohm_pilot_data(v) is None,
{
}

/// Decodes a [`OhmPilotData`], matching [`spec_decode_ohm_pilot_data`].
pub fn decode_ohm_pilot_data(v: &JsonValue) -> (r: Result<OhmPilotData, DecodeError>)
    ensures
        match r {
            Ok(d) => spec_decode_ohm_pilot_data(v@) == Some(d@),
            Err(_) => spec_decode_ohm_pilot_data(v@) is None,
        },
{
    let details = match req_ohm_details(v, "Details") {
        Ok(x) => x,
        Err(e) => {
            proof {
                lemma_ohm_pilot_data_bad(v@);
            }
            return Err(e);
        },
    };
    let energy_real_wac_sum_consumed = match req_num(v, "EnergyReal_WAC_Sum_Consumed") {
        Ok(x) => x,
        Err(e) => {
            proof {
                lemma_ohm_pilot_data_bad(v@);
            }
            return Err(e);
        },
    };
    let code_of_state = match req_ohm_state(v, "CodeOfState") {
        Ok(x) => x,
        Err(e) => {
            proof {
                lemma_ohm_pilot_data_bad(v@);
            }
            return Err(e);
        },
    };
    let code_of_error = match opt_i64(v, "CodeOfError") {
        Ok(x) => x,
        Err(e) => {
            proof {
                lemma_ohm_pilot_data_bad(v@);
            }
            return Err(e);
        },
    };
    let power_real_pac_sum = match req_num(v, "PowerReal_PAC_Sum") {
        Ok(x) => x,
        Err(e) => {
            proof {
                lemma_ohm_pilot_data_bad(v@);
            }
            return Err(e);
        },
    };
    let temperature_channel_1 = match req_num(v, "Temperature_Channel_1") {
        Ok(x) => x,
        Err(e) => {
            proof {
                lemma_ohm_pilot_data_bad(v@);
            }
            return Err(e);
        },
    };
    let d = OhmPilotData { details, energy_real_wac_sum_consumed, code_of_state, code_of_error, power_real_pac_sum, temperature_channel_1 };
    proof {
        assert(d@ =~= spec_decode_ohm_pilot_data(v@)->Some_0);
    }
    Ok(d)
}

/// Per-device controller records, keyed by device in response order.
pub type OhmPilotDataSystem = Vec<(String, OhmPilotData)>;

/// Every entry of `es` decodes as a map member.
pub open spec fn spec_ohm_pilot_system_entries_ok(es: Seq<(Seq<char>, JsonView)>) -> bool {
    forall|i: int| 0 <= i < es.len() ==> spec_decode_ohm_pilot_data(#[trigger] es[i].1) is Some
}

/// The decoded members of `es`, in response order.
pub open spec fn spec_ohm_pilot_system_entries(es: Seq<(Seq<char>, JsonView)>) -> Seq<
    (Seq<char>, OhmPilotDataView),
> {
    Seq::new(es.len(), |i: int| (es[i].0, spec_decode_ohm_pilot_data(es[i].1)->Some_0))
}

/// Key/value views of the decoded map.
pub open spec fn ohm_pilot_system_pairs_view(s: Seq<(String, OhmPilotData)>) -> Seq<(Seq<char>, OhmPilotDataView)> {
    Seq::new(s.len(), |i: int| (s[i].0@, s[i].1@))
}

/// The whole-system result: one controller record per device, keyed by
/// device.
pub open spec fn spec_decode_ohm_pilot_system(v: JsonView) -> Option<Seq<(Seq<char>, OhmPilotDataView)>> {
    match v {
        JsonView::Obj(es) => if spec_ohm_pilot_system_entries_ok(es) {
            Some(spec_ohm_pilot_system_entries(es))
        } else {
            None
        },
        _ => None,
    }
}

/// Decodes the map, matching [`spec_decode_ohm_pilot_system`].
pub fn decode_ohm_pilot_system(v: &JsonValue) -> (r: Result<Vec<(String, OhmPilotData)>, DecodeError>)
    ensures
        match r {
            Ok(m) => spec_decode_ohm_pilot_system(v@) == Some(ohm_pilot_system_pairs_view(m@)),
            Err(_) => spec_decode_ohm_pilot_system(v@) is None,
        },
{
    let entries = match v {
        JsonValue::Obj(es) => es,
        _ => {
            return Err(DecodeError::WrongType { field: "Data".to_owned() });
        },
    };
    proof {
        lemma_obj_view(*entries);
    }
    let ghost ves = jview(*v)->Obj_0;
    let mut out: Vec<(String, OhmPilotData)> = Vec::new();
    let mut i: usize = 0;
    while i < entries.len()
        invariant
            i <= entries@.len(),
            out@.len() == i,
            v@ == JsonView::Obj(ves),
            ves.len() == entries@.len(),
            forall|j: int|
                0 <= j < ves.len() ==> #[trigger] ves[j] == (
                entries@[j].0@,
                jview(entries@[j].1),
                ),
            forall|j: int|
                0 <= j < i ==> out@[j].0@ == ves[j].0 && spec_decode_ohm_pilot_data(#[trigger] ves[j].1) is Some && out@[j].1@ == spec_decode_ohm_pilot_data(ves[j].1)->Some_0,
        decreases entries@.len() - i,
    {
        let value = match decode_ohm_pilot_data(&entries[i].1) {
            Ok(x) => x,
            Err(e) => {
                proof {
                    assert(spec_decode_ohm_pilot_data(ves[i as int].1) is None);
                }
                return Err(e);
            },
        };
        let key = entries[i].0.clone();
        out.push((key, value));
        i += 1;
    }
    proof {
        assert(ohm_pilot_system_pairs_view(out@) =~= spec_ohm_pilot_system_entries(ves));
    }
    Ok(out)
}

} // verus!
