//! The grid meter realtime-data shape.
//!
//! One flat record of alternating-current channels per meter, with the
//! shared device-details block. Many channels are optional: which are
//! populated depends on the meter model and firmware.

use vstd::prelude::*;
use vstd::string::*;
use crate::decode::{
    opt_num, opt_str_view, req_i64, req_num, req_str, req_u8, spec_opt_num, spec_req_i64,
    spec_req_num, spec_req_str, spec_req_u8,
};
use crate::error::DecodeError;
use crate::json::{
    get_field, jview, lemma_obj_view, opt_num_view, spec_field, JsonNumber, JsonValue, JsonView,
};

verus! {

/// Manufacturer, model and serial of one device.
#[derive(Debug, PartialEq)]
pub struct DeviceDetails {
    pub manufacturer: String,
    pub model: String,
    pub serial: String,
}

/// The mathematical content of [`DeviceDetails`].
#[verifier::ext_equal]
pub ghost struct DeviceDetailsView {
    pub manufacturer: Seq<char>,
    pub model: Seq<char>,
    pub serial: Seq<char>,
}

impl View for DeviceDetails {
    type V = DeviceDetailsView;

    open spec fn view(&self) -> DeviceDetailsView {
        DeviceDetailsView {
            manufacturer: self.manufacturer@,
            model: self.model@,
            serial: self.serial@,
        }
    }
}

/// Every field of a [`DeviceDetails`] is readable from `v` under its contract.
pub open spec fn spec_device_details_ok(v: JsonView) -> bool {
    &&& spec_req_str(v, "Manufacturer"@) is Some
    &&& spec_req_str(v, "Model"@) is Some
    &&& spec_req_str(v, "Serial"@) is Some
}

/// The [`DeviceDetails`] that `v` decodes to.
pub open spec fn spec_decode_device_details(v: JsonView) -> Option<DeviceDetailsView> {
    if spec_device_details_ok(v) {
        Some(DeviceDetailsView {
        manufacturer: spec_req_str(v, "Manufacturer"@)->Some_0,
        model: spec_req_str(v, "Model"@)->Some_0,
        serial: spec_req_str(v, "Serial"@)->Some_0,
        })
    } else {
        None
    }
}

/// Decodes a [`DeviceDetails`], matching [`spec_decode_device_details`].
pub fn decode_device_details(v: &JsonValue) -> (r: Result<DeviceDetails, DecodeError>)
    ensures
        match r {
            Ok(d) => spec_decode_device_details(v@) == Some(d@),
            Err(_) => spec_decode_device_details(v@) is None,
        },
{
    let manufacturer = req_str(v, "Manufacturer")?;
    let model = req_str(v, "Model")?;
    let serial = req_str(v, "Serial")?;
    let d = DeviceDetails { manufacturer, model, serial };
    proof {
        assert(d@ =~= spec_decode_device_details(v@)->Some_0);
    }
    Ok(d)
}

/// A mandatory device-details field.
pub open spec fn spec_req_details(v: JsonView, key: Seq<char>) -> Option<DeviceDetailsView> {
    match spec_field(v, key) {
        Some(w) => spec_decode_device_details(w),
        None => None,
    }
}

/// Reads a mandatory device-details field.
pub fn req_details(v: &JsonValue, key: &str) -> (r: Result<DeviceDetails, DecodeError>)
    ensures
        match r {
            Ok(d) => spec_req_details(v@, key@) == Some(d@),
            Err(_) => spec_req_details(v@, key@) is None,
        },
{
    match get_field(v, key) {
        Some(f) => decode_device_details(f),
        None => Err(DecodeError::MissingField { field: key.to_owned() }),
    }
}

/// View of an optionally absent device-details block.
pub open spec fn opt_details_view(o: Option<DeviceDetails>) -> Option<DeviceDetailsView> {
    match o {
        Some(d) => Some(d@),
        None => None,
    }
}

/// An optional device-details field: absent or null reads as absent.
pub open spec fn spec_opt_details(v: JsonView, key: Seq<char>) -> Option<
    Option<DeviceDetailsView>,
> {
    match spec_field(v, key) {
        None => Some(None),
        Some(JsonView::Null) => Some(None),
        Some(w) => match spec_decode_device_details(w) {
            Some(d) => Some(Some(d)),
            None => None,
        },
    }
}

/// Reads an optional device-details field.
pub fn opt_details(v: &JsonValue, key: &str) -> (r: Result<Option<DeviceDetails>, DecodeError>)
    ensures
        match r {
            Ok(od) => spec_opt_details(v@, key@) == Some(opt_details_view(od)),
            Err(_) => spec_opt_details(v@, key@) is None,
        },
{
    match get_field(v, key) {
        None => Ok(None),
        Some(JsonValue::Null) => Ok(None),
        Some(f) => match decode_device_details(f) {
            Ok(d) => Ok(Some(d)),
            Err(e) => Err(e),
        },
    }
}

/// The meter channels for one device.
#[derive(Debug, PartialEq)]
pub struct MeterData {
    pub details: DeviceDetails,
    pub current_ac_phase_1: Option<JsonNumber>,
    pub current_ac_phase_2: Option<JsonNumber>,
    pub current_ac_phase_3: Option<JsonNumber>,
    pub current_ac_sum: Option<JsonNumber>,
    pub enable: u8,
    pub energy_reactive_va_r_ac_phase_1_consumed: Option<JsonNumber>,
    pub energy_reactive_va_r_ac_phase_1_produced: Option<JsonNumber>,
    pub energy_reactive_va_r_ac_sum_consumed: Option<JsonNumber>,
    pub energy_reactive_va_r_ac_sum_produced: Option<JsonNumber>,
    pub energy_real_wac_minus_absolute: Option<JsonNumber>,
    pub energy_real_wac_phase_1_consumed: Option<JsonNumber>,
    pub energy_real_wac_phase_1_produced: Option<JsonNumber>,
    pub energy_real_wac_phase_2_consumed: Option<JsonNumber>,
    pub energy_real_wac_phase_2_produced: Option<JsonNumber>,
    pub energy_real_wac_phase_3_consumed: Option<JsonNumber>,
    pub energy_real_wac_phase_3_produced: Option<JsonNumber>,
    pub energy_real_wac_plus_absolute: JsonNumber,
    pub energy_real_wac_sum_consumed: JsonNumber,
    pub energy_real_wac_sum_produced: JsonNumber,
    pub frequency_phase_average: JsonNumber,
    pub meter_location_current: JsonNumber,
    pub power_apparent_s_phase_1: Option<JsonNumber>,
    pub power_apparent_s_phase_2: Option<JsonNumber>,
    pub power_apparent_s_phase_3: Option<JsonNumber>,
    pub power_apparent_s_sum: JsonNumber,
    pub power_factor_phase_1: Option<JsonNumber>,
    pub power_factor_phase_2: Option<JsonNumber>,
    pub power_factor_phase_3: Option<JsonNumber>,
    pub power_factor_sum: JsonNumber,
    pub power_reactive_q_phase_1: Option<JsonNumber>,
    pub power_reactive_q_phase_2: Option<JsonNumber>,
    pub power_reactive_q_phase_3: Option<JsonNumber>,
    pub power_reactive_q_sum: JsonNumber,
    pub power_real_p_phase_1: Option<JsonNumber>,
    pub power_real_p_phase_2: Option<JsonNumber>,
    pub power_real_p_phase_3: Option<JsonNumber>,
    pub power_real_p_sum: JsonNumber,
    pub time_stamp: i64,
    pub visible: u8,
    pub voltage_ac_phase_to_phase_12: Option<JsonNumber>,
    pub voltage_ac_phase_to_phase_23: Option<JsonNumber>,
    pub voltage_ac_phase_to_phase_31: Option<JsonNumber>,
    pub voltage_ac_phase_1: Option<JsonNumber>,
    pub voltage_ac_phase_2: Option<JsonNumber>,
    pub voltage_ac_phase_3: Option<JsonNumber>,
    pub voltage_ac_phase_average: Option<JsonNumber>,
}

/// The mathematical content of [`MeterData`].
#[verifier::ext_equal]
pub ghost struct MeterDataView {
    pub details: DeviceDetailsView,
    pub current_ac_phase_1: Option<Seq<char>>,
    pub current_ac_phase_2: Option<Seq<char>>,
    pub current_ac_phase_3: Option<Seq<char>>,
    pub current_ac_sum: Option<Seq<char>>,
    pub enable: u8,
    pub energy_reactive_va_r_ac_phase_1_consumed: Option<Seq<char>>,
    pub energy_reactive_va_r_ac_phase_1_produced: Option<Seq<char>>,
    pub energy_reactive_va_r_ac_sum_consumed: Option<Seq<char>>,
    pub energy_reactive_va_r_ac_sum_produced: Option<Seq<char>>,
    pub energy_real_wac_minus_absolute: Option<Seq<char>>,
    pub energy_real_wac_phase_1_consumed: Option<Seq<char>>,
    pub energy_real_wac_phase_1_produced: Option<Seq<char>>,
    pub energy_real_wac_phase_2_consumed: Option<Seq<char>>,
    pub energy_real_wac_phase_2_produced: Option<Seq<char>>,
    pub energy_real_wac_phase_3_consumed: Option<Seq<char>>,
    pub energy_real_wac_phase_3_produced: Option<Seq<char>>,
    pub energy_real_wac_plus_absolute: Seq<char>,
    pub energy_real_wac_sum_consumed: Seq<char>,
    pub energy_real_wac_sum_produced: Seq<char>,
    pub frequency_phase_average: Seq<char>,
    pub meter_location_current: Seq<char>,
    pub power_apparent_s_phase_1: Option<Seq<char>>,
    pub power_apparent_s_phase_2: Option<Seq<char>>,
    pub power_apparent_s_phase_3: Option<Seq<char>>,
    pub power_apparent_s_sum: Seq<char>,
    pub power_factor_phase_1: Option<Seq<char>>,
    pub power_factor_phase_2: Option<Seq<char>>,
    pub power_factor_phase_3: Option<Seq<char>>,
    pub power_factor_sum: Seq<char>,
    pub power_reactive_q_phase_1: Option<Seq<char>>,
    pub power_reactive_q_phase_2: Option<Seq<char>>,
    pub power_reactive_q_phase_3: Option<Seq<char>>,
    pub power_reactive_q_sum: Seq<char>,
    pub power_real_p_phase_1: Option<Seq<char>>,
    pub power_real_p_phase_2: Option<Seq<char>>,
    pub power_real_p_phase_3: Option<Seq<char>>,
    pub power_real_p_sum: Seq<char>,
    pub time_stamp: i64,
    pub visible: u8,
    pub voltage_ac_phase_to_phase_12: Option<Seq<char>>,
    pub voltage_ac_phase_to_phase_23: Option<Seq<char>>,
    pub voltage_ac_phase_to_phase_31: Option<Seq<char>>,
    pub voltage_ac_phase_1: Option<Seq<char>>,
    pub voltage_ac_phase_2: Option<Seq<char>>,
    pub voltage_ac_phase_3: Option<Seq<char>>,
    pub voltage_ac_phase_average: Option<Seq<char>>,
}

impl View for MeterData {
    type V = MeterDataView;

    open spec fn view(&self) -> MeterDataView {
        MeterDataView {
            details: self.details@,
            current_ac_phase_1: opt_num_view(self.current_ac_phase_1),
            current_ac_phase_2: opt_num_view(self.current_ac_phase_2),
            current_ac_phase_3: opt_num_view(self.current_ac_phase_3),
            current_ac_sum: opt_num_view(self.current_ac_sum),
            enable: self.enable,
            energy_reactive_va_r_ac_phase_1_consumed: opt_num_view(self.energy_reactive_va_r_ac_phase_1_consumed),
            energy_reactive_va_r_ac_phase_1_produced: opt_num_view(self.energy_reactive_va_r_ac_phase_1_produced),
            energy_reactive_va_r_ac_sum_consumed: opt_num_view(self.energy_reactive_va_r_ac_sum_consumed),
            energy_reactive_va_r_ac_sum_produced: opt_num_view(self.energy_reactive_va_r_ac_sum_produced),
            energy_real_wac_minus_absolute: opt_num_view(self.energy_real_wac_minus_absolute),
            energy_real_wac_phase_1_consumed: opt_num_view(self.energy_real_wac_phase_1_consumed),
            energy_real_wac_phase_1_produced: opt_num_view(self.energy_real_wac_phase_1_produced),
            energy_real_wac_phase_2_consumed: opt_num_view(self.energy_real_wac_phase_2_consumed),
            energy_real_wac_phase_2_produced: opt_num_view(self.energy_real_wac_phase_2_produced),
            energy_real_wac_phase_3_consumed: opt_num_view(self.energy_real_wac_phase_3_consumed),
            energy_real_wac_phase_3_produced: opt_num_view(self.energy_real_wac_phase_3_produced),
            energy_real_wac_plus_absolute: self.energy_real_wac_plus_absolute@,
            energy_real_wac_sum_consumed: self.energy_real_wac_sum_consumed@,
            energy_real_wac_sum_produced: self.energy_real_wac_sum_produced@,
            frequency_phase_average: self.frequency_phase_average@,
            meter_location_current: self.meter_location_current@,
            power_apparent_s_phase_1: opt_num_view(self.power_apparent_s_phase_1),
            power_apparent_s_phase_2: opt_num_view(self.power_apparent_s_phase_2),
            power_apparent_s_phase_3: opt_num_view(self.power_apparent_s_phase_3),
            power_apparent_s_sum: self.power_apparent_s_sum@,
            power_factor_phase_1: opt_num_view(self.power_factor_phase_1),
            power_factor_phase_2: opt_num_view(self.power_factor_phase_2),
            power_factor_phase_3: opt_num_view(self.power_factor_phase_3),
            power_factor_sum: self.power_factor_sum@,
            power_reactive_q_phase_1: opt_num_view(self.power_reactive_q_phase_1),
            power_reactive_q_phase_2: opt_num_view(self.power_reactive_q_phase_2),
            power_reactive_q_phase_3: opt_num_view(self.power_reactive_q_phase_3),
            power_reactive_q_sum: self.power_reactive_q_sum@,
            power_real_p_phase_1: opt_num_view(self.power_real_p_phase_1),
            power_real_p_phase_2: opt_num_view(self.power_real_p_phase_2),
            power_real_p_phase_3: opt_num_view(self.power_real_p_phase_3),
            power_real_p_sum: self.power_real_p_sum@,
            time_stamp: self.time_stamp,
            visible: self.visible,
            voltage_ac_phase_to_phase_12: opt_num_view(self.voltage_ac_phase_to_phase_12),
            voltage_ac_phase_to_phase_23: opt_num_view(self.voltage_ac_phase_to_phase_23),
            voltage_ac_phase_to_phase_31: opt_num_view(self.voltage_ac_phase_to_phase_31),
            voltage_ac_phase_1: opt_num_view(self.voltage_ac_phase_1),
            voltage_ac_phase_2: opt_num_view(self.voltage_ac_phase_2),
            voltage_ac_phase_3: opt_num_view(self.voltage_ac_phase_3),
            voltage_ac_phase_average: opt_num_view(self.voltage_ac_phase_average),
        }
    }
}

/// Every field of a [`MeterData`] is readable from `v` under its contract.
#[verifier::opaque]
pub open spec fn spec_meter_data_ok(v: JsonView) -> bool {
    &&& spec_req_details(v, "Details"@) is Some
    &&& spec_opt_num(v, "Current_AC_Phase_1"@) is Some
    &&& spec_opt_num(v, "Current_AC_Phase_2"@) is Some
    &&& spec_opt_num(v, "Current_AC_Phase_3"@) is Some
    &&& spec_opt_num(v, "Current_AC_Sum"@) is Some
    &&& spec_req_u8(v, "Enable"@) is Some
    &&& spec_opt_num(v, "EnergyReactive_VArAC_Phase_1_Consumed"@) is Some
    &&& spec_opt_num(v, "EnergyReactive_VArAC_Phase_1_Produced"@) is Some
    &&& spec_opt_num(v, "EnergyReactive_VArAC_Sum_Consumed"@) is Some
    &&& spec_opt_num(v, "EnergyReactive_VArAC_Sum_Produced"@) is Some
    &&& spec_opt_num(v, "EnergyReal_WAC_Minus_Absolute"@) is Some
    &&& spec_opt_num(v, "EnergyReal_WAC_Phase_1_Consumed"@) is Some
    &&& spec_opt_num(v, "EnergyReal_WAC_Phase_1_Produced"@) is Some
    &&& spec_opt_num(v, "EnergyReal_WAC_Phase_2_Consumed"@) is Some
    &&& spec_opt_num(v, "EnergyReal_WAC_Phase_2_Produced"@) is Some
    &&& spec_opt_num(v, "EnergyReal_WAC_Phase_3_Consumed"@) is Some
    &&& spec_opt_num(v, "EnergyReal_WAC_Phase_3_Produced"@) is Some
    &&& spec_req_num(v, "EnergyReal_WAC_Plus_Absolute"@) is Some
    &&& spec_req_num(v, "EnergyReal_WAC_Sum_Consumed"@) is Some
    &&& spec_req_num(v, "EnergyReal_WAC_Sum_Produced"@) is Some
    &&& spec_req_num(v, "Frequency_Phase_Average"@) is Some
    &&& spec_req_num(v, "Meter_Location_Current"@) is Some
    &&& spec_opt_num(v, "PowerApparent_S_Phase_1"@) is Some
    &&& spec_opt_num(v, "PowerApparent_S_Phase_2"@) is Some
    &&& spec_opt_num(v, "PowerApparent_S_Phase_3"@) is Some
    &&& spec_req_num(v, "PowerApparent_S_Sum"@) is Some
    &&& spec_opt_num(v, "PowerFactor_Phase_1"@) is Some
    &&& spec_opt_num(v, "PowerFactor_Phase_2"@) is Some
    &&& spec_opt_num(v, "PowerFactor_Phase_3"@) is Some
    &&& spec_req_num(v, "PowerFactor_Sum"@) is Some
    &&& spec_opt_num(v, "PowerReactive_Q_Phase_1"@) is Some
    &&& spec_opt_num(v, "PowerReactive_Q_Phase_2"@) is Some
    &&& spec_opt_num(v, "PowerReactive_Q_Phase_3"@) is Some
    &&& spec_req_num(v, "PowerReactive_Q_Sum"@) is Some
    &&& spec_opt_num(v, "PowerReal_P_Phase_1"@) is Some
    &&& spec_opt_num(v, "PowerReal_P_Phase_2"@) is Some
    &&& spec_opt_num(v, "PowerReal_P_Phase_3"@) is Some
    &&& spec_req_num(v, "PowerReal_P_Sum"@) is Some
    &&& spec_req_i64(v, "TimeStamp"@) is Some
    &&& spec_req_u8(v, "Visible"@) is Some
    &&& spec_opt_num(v, "Voltage_AC_PhaseToPhase_12"@) is Some
    &&& spec_opt_num(v, "Voltage_AC_PhaseToPhase_23"@) is Some
    &&& spec_opt_num(v, "Voltage_AC_PhaseToPhase_31"@) is Some
    &&& spec_opt_num(v, "Voltage_AC_Phase_1"@) is Some
    &&& spec_opt_num(v, "Voltage_AC_Phase_2"@) is Some
    &&& spec_opt_num(v, "Voltage_AC_Phase_3"@) is Some
    &&& spec_opt_num(v, "Voltage_AC_Phase_Average"@) is Some
}

/// The [`MeterData`] that `v` decodes to.
#[verifier::opaque]
pub open spec fn spec_decode_meter_data(v: JsonView) -> Option<MeterDataView> {
    if spec_meter_data_ok(v) {
        Some(MeterDataView {
        details: spec_req_details(v, "Details"@)->Some_0,
        current_ac_phase_1: spec_opt_num(v, "Current_AC_Phase_1"@)->Some_0,
        current_ac_phase_2: spec_opt_num(v, "Current_AC_Phase_2"@)->Some_0,
        current_ac_phase_3: spec_opt_num(v, "Current_AC_Phase_3"@)->Some_0,
        current_ac_sum: spec_opt_num(v, "Current_AC_Sum"@)->Some_0,
        enable: spec_req_u8(v, "Enable"@)->Some_0,
        energy_reactive_va_r_ac_phase_1_consumed: spec_opt_num(v, "EnergyReactive_VArAC_Phase_1_Consumed"@)->Some_0,
        energy_reactive_va_r_ac_phase_1_produced: spec_opt_num(v, "EnergyReactive_VArAC_Phase_1_Produced"@)->Some_0,
        energy_reactive_va_r_ac_sum_consumed: spec_opt_num(v, "EnergyReactive_VArAC_Sum_Consumed"@)->Some_0,
        energy_reactive_va_r_ac_sum_produced: spec_opt_num(v, "EnergyReactive_VArAC_Sum_Produced"@)->Some_0,
        energy_real_wac_minus_absolute: spec_opt_num(v, "EnergyReal_WAC_Minus_Absolute"@)->Some_0,
        energy_real_wac_phase_1_consumed: spec_opt_num(v, "EnergyReal_WAC_Phase_1_Consumed"@)->Some_0,
        energy_real_wac_phase_1_produced: spec_opt_num(v, "EnergyReal_WAC_Phase_1_Produced"@)->Some_0,
        energy_real_wac_phase_2_consumed: spec_opt_num(v, "EnergyReal_WAC_Phase_2_Consumed"@)->Some_0,
        energy_real_wac_phase_2_produced: spec_opt_num(v, "EnergyReal_WAC_Phase_2_Produced"@)->Some_0,
        energy_real_wac_phase_3_consumed: spec_opt_num(v, "EnergyReal_WAC_Phase_3_Consumed"@)->Some_0,
        energy_real_wac_phase_3_produced: spec_opt_num(v, "EnergyReal_WAC_Phase_3_Produced"@)->Some_0,
        energy_real_wac_plus_absolute: spec_req_num(v, "EnergyReal_WAC_Plus_Absolute"@)->Some_0,
        energy_real_wac_sum_consumed: spec_req_num(v, "EnergyReal_WAC_Sum_Consumed"@)->Some_0,
        energy_real_wac_sum_produced: spec_req_num(v, "EnergyReal_WAC_Sum_Produced"@)->Some_0,
        frequency_phase_average: spec_req_num(v, "Frequency_Phase_Average"@)->Some_0,
        meter_location_current: spec_req_num(v, "Meter_Location_Current"@)->Some_0,
        power_apparent_s_phase_1: spec_opt_num(v, "PowerApparent_S_Phase_1"@)->Some_0,
        power_apparent_s_phase_2: spec_opt_num(v, "PowerApparent_S_Phase_2"@)->Some_0,
        power_apparent_s_phase_3: spec_opt_num(v, "PowerApparent_S_Phase_3"@)->Some_0,
        power_apparent_s_sum: spec_req_num(v, "PowerApparent_S_Sum"@)->Some_0,
        power_factor_phase_1: spec_opt_num(v, "PowerFactor_Phase_1"@)->Some_0,
        power_factor_phase_2: spec_opt_num(v, "PowerFactor_Phase_2"@)->Some_0,
        power_factor_phase_3: spec_opt_num(v, "PowerFactor_Phase_3"@)->Some_0,
        power_factor_sum: spec_req_num(v, "PowerFactor_Sum"@)->Some_0,
        power_reactive_q_phase_1: spec_opt_num(v, "PowerReactive_Q_Phase_1"@)->Some_0,
        power_reactive_q_phase_2: spec_opt_num(v, "PowerReactive_Q_Phase_2"@)->Some_0,
        power_reactive_q_phase_3: spec_opt_num(v, "PowerReactive_Q_Phase_3"@)->Some_0,
        power_reactive_q_sum: spec_req_num(v, "PowerReactive_Q_Sum"@)->Some_0,
        power_real_p_phase_1: spec_opt_num(v, "PowerReal_P_Phase_1"@)->Some_0,
        power_real_p_phase_2: spec_opt_num(v, "PowerReal_P_Phase_2"@)->Some_0,
        power_real_p_phase_3: spec_opt_num(v, "PowerReal_P_Phase_3"@)->Some_0,
        power_real_p_sum: spec_req_num(v, "PowerReal_P_Sum"@)->Some_0,
        time_stamp: spec_req_i64(v, "TimeStamp"@)->Some_0,
        visible: spec_req_u8(v, "Visible"@)->Some_0,
        voltage_ac_phase_to_phase_12: spec_opt_num(v, "Voltage_AC_PhaseToPhase_12"@)->Some_0,
        voltage_ac_phase_to_phase_23: spec_opt_num(v, "Voltage_AC_PhaseToPhase_23"@)->Some_0,
        voltage_ac_phase_to_phase_31: spec_opt_num(v, "Voltage_AC_PhaseToPhase_31"@)->Some_0,
        voltage_ac_phase_1: spec_opt_num(v, "Voltage_AC_Phase_1"@)->Some_0,
        voltage_ac_phase_2: spec_opt_num(v, "Voltage_AC_Phase_2"@)->Some_0,
        voltage_ac_phase_3: spec_opt_num(v, "Voltage_AC_Phase_3"@)->Some_0,
        voltage_ac_phase_average: spec_opt_num(v, "Voltage_AC_Phase_Average"@)->Some_0,
        })
    } else {
        None
    }
}

/// One unreadable field refuses the whole record.
proof fn lemma_meter_data_bad(v: JsonView)
    requires
        (spec_req_details(v, "Details"@) is None) ||
            (spec_opt_num(v, "Current_AC_Phase_1"@) is None) ||
            (spec_opt_num(v, "Current_AC_Phase_2"@) is None) ||
            (spec_opt_num(v, "Current_AC_Phase_3"@) is None) ||
            (spec_opt_num(v, "Current_AC_Sum"@) is None) ||
            (spec_req_u8(v, "Enable"@) is None) ||
            (spec_opt_num(v, "EnergyReactive_VArAC_Phase_1_Consumed"@) is None) ||
            (spec_opt_num(v, "EnergyReactive_VArAC_Phase_1_Produced"@) is None) ||
            (spec_opt_num(v, "EnergyReactive_VArAC_Sum_Consumed"@) is None) ||
            (spec_opt_num(v, "EnergyReactive_VArAC_Sum_Produced"@) is None) ||
            (spec_opt_num(v, "EnergyReal_WAC_Minus_Absolute"@) is None) ||
            (spec_opt_num(v, "EnergyReal_WAC_Phase_1_Consumed"@) is None) ||
            (spec_opt_num(v, "EnergyReal_WAC_Phase_1_Produced"@) is None) ||
            (spec_opt_num(v, "EnergyReal_WAC_Phase_2_Consumed"@) is None) ||
            (spec_opt_num(v, "EnergyReal_WAC_Phase_2_Produced"@) is None) ||
            (spec_opt_num(v, "EnergyReal_WAC_Phase_3_Consumed"@) is None) ||
            (spec_opt_num(v, "EnergyReal_WAC_Phase_3_Produced"@) is None) ||
            (spec_req_num(v, "EnergyReal_WAC_Plus_Absolute"@) is None) ||
            (spec_req_num(v, "EnergyReal_WAC_Sum_Consumed"@) is None) ||
            (spec_req_num(v, "EnergyReal_WAC_Sum_Produced"@) is None) ||
            (spec_req_num(v, "Frequency_Phase_Average"@) is None) ||
            (spec_req_num(v, "Meter_Location_Current"@) is None) ||
            (spec_opt_num(v, "PowerApparent_S_Phase_1"@) is None) ||
            (spec_opt_num(v, "PowerApparent_S_Phase_2"@) is None) ||
            (spec_opt_num(v, "PowerApparent_S_Phase_3"@) is None) ||
            (spec_req_num(v, "PowerApparent_S_Sum"@) is None) ||
            (spec_opt_num(v, "PowerFactor_Phase_1"@) is None) ||
            (spec_opt_num(v, "PowerFactor_Phase_2"@) is None) ||
            (spec_opt_num(v, "PowerFactor_Phase_3"@) is None) ||
            (spec_req_num(v, "PowerFactor_Sum"@) is None) ||
            (spec_opt_num(v, "PowerReactive_Q_Phase_1"@) is None) ||
            (spec_opt_num(v, "PowerReactive_Q_Phase_2"@) is None) ||
            (spec_opt_num(v, "PowerReactive_Q_Phase_3"@) is None) ||
            (spec_req_num(v, "PowerReactive_Q_Sum"@) is None) ||
            (spec_opt_num(v, "PowerReal_P_Phase_1"@) is None) ||
            (spec_opt_num(v, "PowerReal_P_Phase_2"@) is None) ||
            (spec_opt_num(v, "PowerReal_P_Phase_3"@) is None) ||
            (spec_req_num(v, "PowerReal_P_Sum"@) is None) ||
            (spec_req_i64(v, "TimeStamp"@) is None) ||
            (spec_req_u8(v, "Visible"@) is None) ||
            (spec_opt_num(v, "Voltage_AC_PhaseToPhase_12"@) is None) ||
            (spec_opt_num(v, "Voltage_AC_PhaseToPhase_23"@) is None) ||
            (spec_opt_num(v, "Voltage_AC_PhaseToPhase_31"@) is None) ||
            (spec_opt_num(v, "Voltage_AC_Phase_1"@) is None) ||
            (spec_opt_num(v, "Voltage_AC_Phase_2"@) is None) ||
            (spec_opt_num(v, "Voltage_AC_Phase_3"@) is None) ||
            (spec_opt_num(v, "Voltage_AC_Phase_Average"@) is None),
    ensures
        spec_decode_meter_data(v) is None,
{
    reveal(spec_meter_data_ok);
    reveal(spec_decode_meter_data);
}

/// Decodes a [`MeterData`], matching [`spec_decode_meter_data`].
#[verifier::rlimit(100)]
pub fn decode_meter_data(v: &JsonValue) -> (r: Result<MeterData, DecodeError>)
    ensures
        match r {
            Ok(d) => spec_decode_meter_data(v@) == Some(d@),
            Err(_) => spec_decode_meter_data(v@) is None,
        },
{
    let details = match req_details(v, "Details") {
        Ok(x) => x,
        Err(e) => {
            proof {
                lemma_meter_data_bad(v@);
            }
            return Err(e);
        },
    };
    let current_ac_phase_1 = match opt_num(v, "Current_AC_Phase_1") {
        Ok(x) => x,
        Err(e) => {
            proof {
                lemma_meter_data_bad(v@);
            }
            return Err(e);
        },
    };
    let current_ac_phase_2 = match opt_num(v, "Current_AC_Phase_2") {
        Ok(x) => x,
        Err(e) => {
            proof {
                lemma_meter_data_bad(v@);
            }
            return Err(e);
        },
    };
    let current_ac_phase_3 = match opt_num(v, "Current_AC_Phase_3") {
        Ok(x) => x,
        Err(e) => {
            proof {
                lemma_meter_data_bad(v@);
            }
            return Err(e);
        },
    };
    let current_ac_sum = match opt_num(v, "Current_AC_Sum") {
        Ok(x) => x,
        Err(e) => {
            proof {
                lemma_meter_data_bad(v@);
            }
            return Err(e);
        },
    };
    let enable = match req_u8(v, "Enable") {
        Ok(x) => x,
        Err(e) => {
            proof {
                lemma_meter_data_bad(v@);
            }
            return Err(e);
        },
    };
    let energy_reactive_va_r_ac_phase_1_consumed = match opt_num(v, "EnergyReactive_VArAC_Phase_1_Consumed") {
        Ok(x) => x,
        Err(e) => {
            proof {
                lemma_meter_data_bad(v@);
            }
            return Err(e);
        },
    };
    let energy_reactive_va_r_ac_phase_1_produced = match opt_num(v, "EnergyReactive_VArAC_Phase_1_Produced") {
        Ok(x) => x,
        Err(e) => {
            proof {
                lemma_meter_data_bad(v@);
            }
            return Err(e);
        },
    };
    let energy_reactive_va_r_ac_sum_consumed = match opt_num(v, "EnergyReactive_VArAC_Sum_Consumed") {
        Ok(x) => x,
        Err(e) => {
            proof {
                lemma_meter_data_bad(v@);
            }
            return Err(e);
        },
    };
    let energy_reactive_va_r_ac_sum_produced = match opt_num(v, "EnergyReactive_VArAC_Sum_Produced") {
        Ok(x) => x,
        Err(e) => {
            proof {
                lemma_meter_data_bad(v@);
            }
            return Err(e);
        },
    };
    let energy_real_wac_minus_absolute = match opt_num(v, "EnergyReal_WAC_Minus_Absolute") {
        Ok(x) => x,
        Err(e) => {
            proof {
                lemma_meter_data_bad(v@);
            }
            return Err(e);
        },
    };
    let energy_real_wac_phase_1_consumed = match opt_num(v, "EnergyReal_WAC_Phase_1_Consumed") {
        Ok(x) => x,
        Err(e) => {
            proof {
                lemma_meter_data_bad(v@);
            }
            return Err(e);
        },
    };
    let energy_real_wac_phase_1_produced = match opt_num(v, "EnergyReal_WAC_Phase_1_Produced") {
        Ok(x) => x,
        Err(e) => {
            proof {
                lemma_meter_data_bad(v@);
            }
            return Err(e);
        },
    };
    let energy_real_wac_phase_2_consumed = match opt_num(v, "EnergyReal_WAC_Phase_2_Consumed") {
        Ok(x) => x,
        Err(e) => {
            proof {
                lemma_meter_data_bad(v@);
            }
            return Err(e);
        },
    };
    let energy_real_wac_phase_2_produced = match opt_num(v, "EnergyReal_WAC_Phase_2_Produced") {
        Ok(x) => x,
        Err(e) => {
            proof {
                lemma_meter_data_bad(v@);
            }
            return Err(e);
        },
    };
    let energy_real_wac_phase_3_consumed = match opt_num(v, "EnergyReal_WAC_Phase_3_Consumed") {
        Ok(x) => x,
        Err(e) => {
            proof {
                lemma_meter_data_bad(v@);
            }
            return Err(e);
        },
    };
    let energy_real_wac_phase_3_produced = match opt_num(v, "EnergyReal_WAC_Phase_3_Produced") {
        Ok(x) => x,
        Err(e) => {
            proof {
                lemma_meter_data_bad(v@);
            }
            return Err(e);
        },
    };
    let energy_real_wac_plus_absolute = match req_num(v, "EnergyReal_WAC_Plus_Absolute") {
        Ok(x) => x,
        Err(e) => {
            proof {
                lemma_meter_data_bad(v@);
            }
            return Err(e);
        },
    };
    let energy_real_wac_sum_consumed = match req_num(v, "EnergyReal_WAC_Sum_Consumed") {
        Ok(x) => x,
        Err(e) => {
            proof {
                lemma_meter_data_bad(v@);
            }
            return Err(e);
        },
    };
    let energy_real_wac_sum_produced = match req_num(v, "EnergyReal_WAC_Sum_Produced") {
        Ok(x) => x,
        Err(e) => {
            proof {
                lemma_meter_data_bad(v@);
            }
            return Err(e);
        },
    };
    let frequency_phase_average = match req_num(v, "Frequency_Phase_Average") {
        Ok(x) => x,
        Err(e) => {
            proof {
                lemma_meter_data_bad(v@);
            }
            return Err(e);
        },
    };
    let meter_location_current = match req_num(v, "Meter_Location_Current") {
        Ok(x) => x,
        Err(e) => {
            proof {
                lemma_meter_data_bad(v@);
            }
            return Err(e);
        },
    };
    let power_apparent_s_phase_1 = match opt_num(v, "PowerApparent_S_Phase_1") {
        Ok(x) => x,
        Err(e) => {
            proof {
                lemma_meter_data_bad(v@);
            }
            return Err(e);
        },
    };
    let power_apparent_s_phase_2 = match opt_num(v, "PowerApparent_S_Phase_2") {
        Ok(x) => x,
        Err(e) => {
            proof {
                lemma_meter_data_bad(v@);
            }
            return Err(e);
        },
    };
    let power_apparent_s_phase_3 = match opt_num(v, "PowerApparent_S_Phase_3") {
        Ok(x) => x,
        Err(e) => {
            proof {
                lemma_meter_data_bad(v@);
            }
            return Err(e);
        },
    };
    let power_apparent_s_sum = match req_num(v, "PowerApparent_S_Sum") {
        Ok(x) => x,
        Err(e) => {
            proof {
                lemma_meter_data_bad(v@);
            }
            return Err(e);
        },
    };
    let power_factor_phase_1 = match opt_num(v, "PowerFactor_Phase_1") {
        Ok(x) => x,
        Err(e) => {
            proof {
                lemma_meter_data_bad(v@);
            }
            return Err(e);
        },
    };
    let power_factor_phase_2 = match opt_num(v, "PowerFactor_Phase_2") {
        Ok(x) => x,
        Err(e) => {
            proof {
                lemma_meter_data_bad(v@);
            }
            return Err(e);
        },
    };
    let power_factor_phase_3 = match opt_num(v, "PowerFactor_Phase_3") {
        Ok(x) => x,
        Err(e) => {
            proof {
                lemma_meter_data_bad(v@);
            }
            return Err(e);
        },
    };
    let power_factor_sum = match req_num(v, "PowerFactor_Sum") {
        Ok(x) => x,
        Err(e) => {
            proof {
                lemma_meter_data_bad(v@);
            }
            return Err(e);
        },
    };
    let power_reactive_q_phase_1 = match opt_num(v, "PowerReactive_Q_Phase_1") {
        Ok(x) => x,
        Err(e) => {
            proof {
                lemma_meter_data_bad(v@);
            }
            return Err(e);
        },
    };
    let power_reactive_q_phase_2 = match opt_num(v, "PowerReactive_Q_Phase_2") {
        Ok(x) => x,
        Err(e) => {
            proof {
                lemma_meter_data_bad(v@);
            }
            return Err(e);
        },
    };
    let power_reactive_q_phase_3 = match opt_num(v, "PowerReactive_Q_Phase_3") {
        Ok(x) => x,
        Err(e) => {
            proof {
                lemma_meter_data_bad(v@);
            }
            return Err(e);
        },
    };
    let power_reactive_q_sum = match req_num(v, "PowerReactive_Q_Sum") {
        Ok(x) => x,
        Err(e) => {
            proof {
                lemma_meter_data_bad(v@);
            }
            return Err(e);
        },
    };
    let power_real_p_phase_1 = match opt_num(v, "PowerReal_P_Phase_1") {
        Ok(x) => x,
        Err(e) => {
            proof {
                lemma_meter_data_bad(v@);
            }
            return Err(e);
        },
    };
    let power_real_p_phase_2 = match opt_num(v, "PowerReal_P_Phase_2") {
        Ok(x) => x,
        Err(e) => {
            proof {
                lemma_meter_data_bad(v@);
            }
            return Err(e);
        },
    };
    let power_real_p_phase_3 = match opt_num(v, "PowerReal_P_Phase_3") {
        Ok(x) => x,
        Err(e) => {
            proof {
                lemma_meter_data_bad(v@);
            }
            return Err(e);
        },
    };
    let power_real_p_sum = match req_num(v, "PowerReal_P_Sum") {
        Ok(x) => x,
        Err(e) => {
            proof {
                lemma_meter_data_bad(v@);
            }
            return Err(e);
        },
    };
    let time_stamp = match req_i64(v, "TimeStamp") {
        Ok(x) => x,
        Err(e) => {
            proof {
                lemma_meter_data_bad(v@);
            }
            return Err(e);
        },
    };
    let visible = match req_u8(v, "Visible") {
        Ok(x) => x,
        Err(e) => {
            proof {
                lemma_meter_data_bad(v@);
            }
            return Err(e);
        },
    };
    let voltage_ac_phase_to_phase_12 = match opt_num(v, "Voltage_AC_PhaseToPhase_12") {
        Ok(x) => x,
        Err(e) => {
            proof {
                lemma_meter_data_bad(v@);
            }
            return Err(e);
        },
    };
    let voltage_ac_phase_to_phase_23 = match opt_num(v, "Voltage_AC_PhaseToPhase_23") {
        Ok(x) => x,
        Err(e) => {
            proof {
                lemma_meter_data_bad(v@);
            }
            return Err(e);
        },
    };
    let voltage_ac_phase_to_phase_31 = match opt_num(v, "Voltage_AC_PhaseToPhase_31") {
        Ok(x) => x,
        Err(e) => {
            proof {
                lemma_meter_data_bad(v@);
            }
            return Err(e);
        },
    };
    let voltage_ac_phase_1 = match opt_num(v, "Voltage_AC_Phase_1") {
        Ok(x) => x,
        Err(e) => {
            proof {
                lemma_meter_data_bad(v@);
            }
            return Err(e);
        },
    };
    let voltage_ac_phase_2 = match opt_num(v, "Voltage_AC_Phase_2") {
        Ok(x) => x,
        Err(e) => {
            proof {
                lemma_meter_data_bad(v@);
            }
            return Err(e);
        },
    };
    let voltage_ac_phase_3 = match opt_num(v, "Voltage_AC_Phase_3") {
        Ok(x) => x,
        Err(e) => {
            proof {
                lemma_meter_data_bad(v@);
            }
            return Err(e);
        },
    };
    let voltage_ac_phase_average = match opt_num(v, "Voltage_AC_Phase_Average") {
        Ok(x) => x,
        Err(e) => {
            proof {
                lemma_meter_data_bad(v@);
            }
            return Err(e);
        },
    };
    proof {
        reveal(spec_meter_data_ok);
        reveal(spec_decode_meter_data);
    }
    let d = MeterData { details, current_ac_phase_1, current_ac_phase_2, current_ac_phase_3, current_ac_sum, enable, energy_reactive_va_r_ac_phase_1_consumed, energy_reactive_va_r_ac_phase_1_produced, energy_reactive_va_r_ac_sum_consumed, energy_reactive_va_r_ac_sum_produced, energy_real_wac_minus_absolute, energy_real_wac_phase_1_consumed, energy_real_wac_phase_1_produced, energy_real_wac_phase_2_consumed, energy_real_wac_phase_2_produced, energy_real_wac_phase_3_consumed, energy_real_wac_phase_3_produced, energy_real_wac_plus_absolute, energy_real_wac_sum_consumed, energy_real_wac_sum_produced, frequency_phase_average, meter_location_current, power_apparent_s_phase_1, power_apparent_s_phase_2, power_apparent_s_phase_3, power_apparent_s_sum, power_factor_phase_1, power_factor_phase_2, power_factor_phase_3, power_factor_sum, power_reactive_q_phase_1, power_reactive_q_phase_2, power_reactive_q_phase_3, power_reactive_q_sum, power_real_p_phase_1, power_real_p_phase_2, power_real_p_phase_3, power_real_p_sum, time_stamp, visible, voltage_ac_phase_to_phase_12, voltage_ac_phase_to_phase_23, voltage_ac_phase_to_phase_31, voltage_ac_phase_1, voltage_ac_phase_2, voltage_ac_phase_3, voltage_ac_phase_average };
    proof {
        assert(d@ =~= spec_decode_meter_data(v@)->Some_0);
    }
    Ok(d)
}

/// Per-device meter records, keyed by device in response order.
pub type MeterDataSystem = Vec<(String, MeterData)>;

/// Every entry of `es` decodes as a map member.
pub open spec fn spec_meter_system_entries_ok(es: Seq<(Seq<char>, JsonView)>) -> bool {
    forall|i: int| 0 <= i < es.len() ==> spec_decode_meter_data(#[trigger] es[i].1) is Some
}

/// The decoded members of `es`, in response order.
pub open spec fn spec_meter_system_entries(es: Seq<(Seq<char>, JsonView)>) -> Seq<
    (Seq<char>, MeterDataView),
> {
    Seq::new(es.len(), |i: int| (es[i].0, spec_decode_meter_data(es[i].1)->Some_0))
}

/// Key/value views of the decoded map.
pub open spec fn meter_system_pairs_view(s: Seq<(String, MeterData)>) -> Seq<(Seq<char>, MeterDataView)> {
    Seq::new(s.len(), |i: int| (s[i].0@, s[i].1@))
}

/// The whole-system meter result `v` decodes to: one meter record per
/// device, keyed by device.
pub open spec fn spec_decode_meter_system(v: JsonView) -> Option<Seq<(Seq<char>, MeterDataView)>> {
    match v {
        JsonView::Obj(es) => if spec_meter_system_entries_ok(es) {
            Some(spec_meter_system_entries(es))
        } else {
            None
        },
        _ => None,
    }
}

/// Decodes the map, matching [`spec_decode_meter_system`].
pub fn decode_meter_system(v: &JsonValue) -> (r: Result<Vec<(String, MeterData)>, DecodeError>)
    ensures
        match r {
            Ok(m) => spec_decode_meter_system(v@) == Some(meter_system_pairs_view(m@)),
            Err(_) => spec_decode_meter_system(v@) is None,
        },
{
    let entries = match v {
        JsonValue::Obj(es) => es,
        _ => {
            return Err(DecodeError::WrongType { field: "Data".to_owned() });
        },
    };
    proof {
        lemma_obj_view(*entries);
    }
    let ghost ves = jview(*v)->Obj_0;
    let mut out: Vec<(String, MeterData)> = Vec::new();
    let mut i: usize = 0;
    while i < entries.len()
        invariant
            i <= entries@.len(),
            out@.len() == i,
            v@ == JsonView::Obj(ves),
            ves.len() == entries@.len(),
            forall|j: int|
                0 <= j < ves.len() ==> #[trigger] ves[j] == (
                entries@[j].0@,
                jview(entries@[j].1),
                ),
            forall|j: int|
                0 <= j < i ==> out@[j].0@ == ves[j].0 && spec_decode_meter_data(#[trigger] ves[j].1) is Some && out@[j].1@ == spec_decode_meter_data(ves[j].1)->Some_0,
        decreases entries@.len() - i,
    {
        let value = match decode_meter_data(&entries[i].1) {
            Ok(x) => x,
            Err(e) => {
                proof {
                    assert(spec_decode_meter_data(ves[i as int].1) is None);
                }
                return Err(e);
            },
        };
        let key = entries[i].0.clone();
        out.push((key, value));
        i += 1;
    }
    proof {
        assert(meter_system_pairs_view(out@) =~= spec_meter_system_entries(ves));
    }
    Ok(out)
}

} // verus!
