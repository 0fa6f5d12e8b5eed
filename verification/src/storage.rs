//! The battery storage realtime-data shape.
//!
//! A storage system reports one controller record and an ordered list of
//! expansion modules; a module may report reduced telemetry, so all of
//! its channels are optional.

use vstd::prelude::*;
use vstd::string::*;
use crate::decode::{
    opt_num, opt_u64, opt_u8, req_i64, req_num, req_u8, spec_opt_num, spec_opt_u64, spec_opt_u8,
    spec_req_i64, spec_req_num, spec_req_u8,
};
use crate::error::DecodeError;
use crate::json::{
    get_field, jview, lemma_arr_view, lemma_obj_view, opt_num_view, spec_field, JsonNumber,
    JsonValue, JsonView,
};
use crate::meter::{
    decode_device_details, opt_details, opt_details_view, req_details, spec_decode_device_details,
    spec_opt_details, spec_req_details, DeviceDetails, DeviceDetailsView,
};

verus! {

/// The storage controller record.
#[derive(Debug, PartialEq)]
pub struct StorageController {
    pub details: DeviceDetails,
    pub time_stamp: i64,
    pub enable: u8,
    pub state_of_charge_relative: JsonNumber,
    pub capacity_maximum: JsonNumber,
    pub current_dc: JsonNumber,
    pub voltage_dc: JsonNumber,
    pub temperature_cell: JsonNumber,
}

/// The mathematical content of [`StorageController`].
#[verifier::ext_equal]
pub ghost struct StorageControllerView {
    pub details: DeviceDetailsView,
    pub time_stamp: i64,
    pub enable: u8,
    pub state_of_charge_relative: Seq<char>,
    pub capacity_maximum: Seq<char>,
    pub current_dc: Seq<char>,
    pub voltage_dc: Seq<char>,
    pub temperature_cell: Seq<char>,
}

impl View for StorageController {
    type V = StorageControllerView;

    open spec fn view(&self) -> StorageControllerView {
        StorageControllerView {
            details: self.details@,
            time_stamp: self.time_stamp,
            enable: self.enable,
            state_of_charge_relative: self.state_of_charge_relative@,
            capacity_maximum: self.capacity_maximum@,
            current_dc: self.current_dc@,
            voltage_dc: self.voltage_dc@,
            temperature_cell: self.temperature_cell@,
        }
    }
}

/// Every field of a [`StorageController`] is readable from `v` under its contract.
pub open spec fn spec_storage_controller_ok(v: JsonView) -> bool {
    &&& spec_req_details(v, "Details"@) is Some
    &&& spec_req_i64(v, "TimeStamp"@) is Some
    &&& spec_req_u8(v, "Enable"@) is Some
    &&& spec_req_num(v, "StateOfCharge_Relative"@) is Some
    &&& spec_req_num(v, "Capacity_Maximum"@) is Some
    &&& spec_req_num(v, "Current_DC"@) is Some
    &&& spec_req_num(v, "Voltage_DC"@) is Some
    &&& spec_req_num(v, "Temperature_Cell"@) is Some
}

/// The [`StorageController`] that `v` decodes to.
pub open spec fn spec_decode_storage_controller(v: JsonView) -> Option<StorageControllerView> {
    if spec_storage_controller_ok(v) {
        Some(StorageControllerView {
        details: spec_req_details(v, "Details"@)->Some_0,
        time_stamp: spec_req_i64(v, "TimeStamp"@)->Some_0,
        enable: spec_req_u8(v, "Enable"@)->Some_0,
        state_of_charge_relative: spec_req_num(v, "StateOfCharge_Relative"@)->Some_0,
        capacity_maximum: spec_req_num(v, "Capacity_Maximum"@)->Some_0,
        current_dc: spec_req_num(v, "Current_DC"@)->Some_0,
        voltage_dc: spec_req_num(v, "Voltage_DC"@)->Some_0,
        temperature_cell: spec_req_num(v, "Temperature_Cell"@)->Some_0,
        })
    } else {
        None
    }
}

/// One unreadable field refuses the whole record.
proof fn lemma_storage_controller_bad(v: JsonView)
    requires
        (spec_req_details(v, "Details"@) is None) ||
            (spec_req_i64(v, "TimeStamp"@) is None) ||
            (spec_req_u8(v, "Enable"@) is None) ||
            (spec_req_num(v, "StateOfCharge_Relative"@) is None) ||
            (spec_req_num(v, "Capacity_Maximum"@) is None) ||
            (spec_req_num(v, "Current_DC"@) is None) ||
            (spec_req_num(v, "Voltage_DC"@) is None) ||
            (spec_req_num(v, "Temperature_Cell"@) is None),
    ensures
        spec_decode_storage_controller(v) is None,
{
}

/// Decodes a [`StorageController`], matching [`spec_decode_storage_controller`].
pub fn decode_storage_controller(v: &JsonValue) -> (r: Result<StorageController, DecodeError>)
    ensures
        match r {
            Ok(d) => spec_decode_storage_controller(v@) == Some(d@),
            Err(_) => spec_decode_storage_controller(v@) is None,
        },
{
    let details = match req_details(v, "Details") {
        Ok(x) => x,
        Err(e) => {
            proof {
                lemma_storage_controller_bad(v@);
            }
            return Err(e);
        },
    };
    let time_stamp = match req_i64(v, "TimeStamp") {
        Ok(x) => x,
        Err(e) => {
            proof {
                lemma_storage_controller_bad(v@);
            }
            return Err(e);
        },
    };
    let enable = match req_u8(v, "Enable") {
        Ok(x) => x,
        Err(e) => {
            proof {
                lemma_storage_controller_bad(v@);
            }
            return Err(e);
        },
    };
    let state_of_charge_relative = match req_num(v, "StateOfCharge_Relative") {
        Ok(x) => x,
        Err(e) => {
            proof {
                lemma_storage_controller_bad(v@);
            }
            return Err(e);
        },
    };
    let capacity_maximum = match req_num(v, "Capacity_Maximum") {
        Ok(x) => x,
        Err(e) => {
            proof {
                lemma_storage_controller_bad(v@);
            }
            return Err(e);
        },
    };
    let current_dc = match req_num(v, "Current_DC") {
        Ok(x) => x,
        Err(e) => {
            proof {
                lemma_storage_controller_bad(v@);
            }
            return Err(e);
        },
    };
    let voltage_dc = match req_num(v, "Voltage_DC") {
        Ok(x) => x,
        Err(e) => {
            proof {
                lemma_storage_controller_bad(v@);
            }
            return Err(e);
        },
    };
    let temperature_cell = match req_num(v, "Temperature_Cell") {
        Ok(x) => x,
        Err(e) => {
            proof {
                lemma_storage_controller_bad(v@);
            }
            return Err(e);
        },
    };
    let d = StorageController { details, time_stamp, enable, state_of_charge_relative, capacity_maximum, current_dc, voltage_dc, temperature_cell };
    proof {
        assert(d@ =~= spec_decode_storage_controller(v@)->Some_0);
    }
    Ok(d)
}

/// One storage expansion module; every channel is optional but the
/// timestamp.
#[derive(Debug, PartialEq)]
pub struct StorageModule {
    pub details: Option<DeviceDetails>,
    pub capacity_maximum: Option<JsonNumber>,
    pub current_dc: Option<JsonNumber>,
    pub cycle_count_battery_cell: Option<JsonNumber>,
    pub designed_capacity: Option<JsonNumber>,
    pub enable: Option<u8>,
    pub state_of_charge_relative: Option<JsonNumber>,
    pub status_battery_cell: Option<u64>,
    pub temperature_cell: Option<JsonNumber>,
    pub temperature_cell_maximum: Option<JsonNumber>,
    pub temperature_cell_minimum: Option<JsonNumber>,
    pub time_stamp: i64,
    pub voltage_dc: Option<JsonNumber>,
    pub voltage_dc_maximum_cell: Option<JsonNumber>,
    pub voltage_dc_minimum_cell: Option<JsonNumber>,
}

/// The mathematical content of [`StorageModule`].
#[verifier::ext_equal]
pub ghost struct StorageModuleView {
    pub details: Option<DeviceDetailsView>,
    pub capacity_maximum: Option<Seq<char>>,
    pub current_dc: Option<Seq<char>>,
    pub cycle_count_battery_cell: Option<Seq<char>>,
    pub designed_capacity: Option<Seq<char>>,
    pub enable: Option<u8>,
    pub state_of_charge_relative: Option<Seq<char>>,
    pub status_battery_cell: Option<u64>,
    pub temperature_cell: Option<Seq<char>>,
    pub temperature_cell_maximum: Option<Seq<char>>,
    pub temperature_cell_minimum: Option<Seq<char>>,
    pub time_stamp: i64,
    pub voltage_dc: Option<Seq<char>>,
    pub voltage_dc_maximum_cell: Option<Seq<char>>,
    pub voltage_dc_minimum_cell: Option<Seq<char>>,
}

impl View for StorageModule {
    type V = StorageModuleView;

    open spec fn view(&self) -> StorageModuleView {
        StorageModuleView {
            details: opt_details_view(self.details),
            capacity_maximum: opt_num_view(self.capacity_maximum),
            current_dc: opt_num_view(self.current_dc),
            cycle_count_battery_cell: opt_num_view(self.cycle_count_battery_cell),
            designed_capacity: opt_num_view(self.designed_capacity),
            enable: self.enable,
            state_of_charge_relative: opt_num_view(self.state_of_charge_relative),
            status_battery_cell: self.status_battery_cell,
            temperature_cell: opt_num_view(self.temperature_cell),
            temperature_cell_maximum: opt_num_view(self.temperature_cell_maximum),
            temperature_cell_minimum: opt_num_view(self.temperature_cell_minimum),
            time_stamp: self.time_stamp,
            voltage_dc: opt_num_view(self.voltage_dc),
            voltage_dc_maximum_cell: opt_num_view(self.voltage_dc_maximum_cell),
            voltage_dc_minimum_cell: opt_num_view(self.voltage_dc_minimum_cell),
        }
    }
}

/// Every field of a [`StorageModule`] is readable from `v` under its contract.
pub open spec fn spec_storage_module_ok(v: JsonView) -> bool {
    &&& spec_opt_details(v, "Details"@) is Some
    &&& spec_opt_num(v, "Capacity_Maximum"@) is Some
    &&& spec_opt_num(v, "Current_DC"@) is Some
    &&& spec_opt_num(v, "CycleCount_BatteryCell"@) is Some
    &&& spec_opt_num(v, "DesignedCapacity"@) is Some
    &&& spec_opt_u8(v, "Enable"@) is Some
    &&& spec_opt_num(v, "StateOfCharge_Relative"@) is Some
    &&& spec_opt_u64(v, "Status_BatteryCell"@) is Some
    &&& spec_opt_num(v, "Temperature_Cell"@) is Some
    &&& spec_opt_num(v, "Temperature_Cell_Maximum"@) is Some
    &&& spec_opt_num(v, "Temperature_Cell_Minimum"@) is Some
    &&& spec_req_i64(v, "TimeStamp"@) is Some
    &&& spec_opt_num(v, "Voltage_DC"@) is Some
    &&& spec_opt_num(v, "Voltage_DC_Maximum_Cell"@) is Some
    &&& spec_opt_num(v, "Voltage_DC_Minimum_Cell"@) is Some
}

/// The [`StorageModule`] that `v` decodes to.
pub open spec fn spec_decode_storage_module(v: JsonView) -> Option<StorageModuleView> {
    if spec_storage_module_ok(v) {
        Some(StorageModuleView {
        details: spec_opt_details(v, "Details"@)->Some_0,
        capacity_maximum: spec_opt_num(v, "Capacity_Maximum"@)->Some_0,
        current_dc: spec_opt_num(v, "Current_DC"@)->Some_0,
        cycle_count_battery_cell: spec_opt_num(v, "CycleCount_BatteryCell"@)->Some_0,
        designed_capacity: spec_opt_num(v, "DesignedCapacity"@)->Some_0,
        enable: spec_opt_u8(v, "Enable"@)->Some_0,
        state_of_charge_relative: spec_opt_num(v, "StateOfCharge_Relative"@)->Some_0,
        status_battery_cell: spec_opt_u64(v, "Status_BatteryCell"@)->Some_0,
        temperature_cell: spec_opt_num(v, "Temperature_Cell"@)->Some_0,
        temperature_cell_maximum: spec_opt_num(v, "Temperature_Cell_Maximum"@)->Some_0,
        temperature_cell_minimum: spec_opt_num(v, "Temperature_Cell_Minimum"@)->Some_0,
        time_stamp: spec_req_i64(v, "TimeStamp"@)->Some_0,
        voltage_dc: spec_opt_num(v, "Voltage_DC"@)->Some_0,
        voltage_dc_maximum_cell: spec_opt_num(v, "Voltage_DC_Maximum_Cell"@)->Some_0,
        voltage_dc_minimum_cell: spec_opt_num(v, "Voltage_DC_Minimum_Cell"@)->Some_0,
        })
    } else {
        None
    }
}

/// One unreadable field refuses the whole record.
proof fn lemma_storage_module_bad(v: JsonView)
    requires
        (spec_opt_details(v, "Details"@) is None) ||
            (spec_opt_num(v, "Capacity_Maximum"@) is None) ||
            (spec_opt_num(v, "Current_DC"@) is None) ||
            (spec_opt_num(v, "CycleCount_BatteryCell"@) is None) ||
            (spec_opt_num(v, "DesignedCapacity"@) is None) ||
            (spec_opt_u8(v, "Enable"@) is None) ||
            (spec_opt_num(v, "StateOfCharge_Relative"@) is None) ||
            (spec_opt_u64(v, "Status_BatteryCell"@) is None) ||
            (spec_opt_num(v, "Temperature_Cell"@) is None) ||
            (spec_opt_num(v, "Temperature_Cell_Maximum"@) is None) ||
            (spec_opt_num(v, "Temperature_Cell_Minimum"@) is None) ||
            (spec_req_i64(v, "TimeStamp"@) is None) ||
            (spec_opt_num(v, "Voltage_DC"@) is None) ||
            (spec_opt_num(v, "Voltage_DC_Maximum_Cell"@) is None) ||
            (spec_opt_num(v, "Voltage_DC_Minimum_Cell"@) is None),
    ensures
        spec_decode_storage_module(v) is None,
{
}

/// Decodes a [`StorageModule`], matching [`spec_decode_storage_module`].
pub fn decode_storage_module(v: &JsonValue) -> (r: Result<StorageModule, DecodeError>)
    ensures
        match r {
            Ok(d) => spec_decode_storage_module(v@) == Some(d@),
            Err(_) => spec_decode_storage_module(v@) is None,
        },
{
    let details = match opt_details(v, "Details") {
        Ok(x) => x,
        Err(e) => {
            proof {
                lemma_storage_module_bad(v@);
            }
            return Err(e);
        },
    };
    let capacity_maximum = match opt_num(v, "Capacity_Maximum") {
        Ok(x) => x,
        Err(e) => {
            proof {
                lemma_storage_module_bad(v@);
            }
            return Err(e);
        },
    };
    let current_dc = match opt_num(v, "Current_DC") {
        Ok(x) => x,
        Err(e) => {
            proof {
                lemma_storage_module_bad(v@);
            }
            return Err(e);
        },
    };
    let cycle_count_battery_cell = match opt_num(v, "CycleCount_BatteryCell") {
        Ok(x) => x,
        Err(e) => {
            proof {
                lemma_storage_module_bad(v@);
            }
            return Err(e);
        },
    };
    let designed_capacity = match opt_num(v, "DesignedCapacity") {
        Ok(x) => x,
        Err(e) => {
            proof {
                lemma_storage_module_bad(v@);
            }
            return Err(e);
        },
    };
    let enable = match opt_u8(v, "Enable") {
        Ok(x) => x,
        Err(e) => {
            proof {
                lemma_storage_module_bad(v@);
            }
            return Err(e);
        },
    };
    let state_of_charge_relative = match opt_num(v, "StateOfCharge_Relative") {
        Ok(x) => x,
        Err(e) => {
            proof {
                lemma_storage_module_bad(v@);
            }
            return Err(e);
        },
    };
    let status_battery_cell = match opt_u64(v, "Status_BatteryCell") {
        Ok(x) => x,
        Err(e) => {
            proof {
                lemma_storage_module_bad(v@);
            }
            return Err(e);
        },
    };
    let temperature_cell = match opt_num(v, "Temperature_Cell") {
        Ok(x) => x,
        Err(e) => {
            proof {
                lemma_storage_module_bad(v@);
            }
            return Err(e);
        },
    };
    let temperature_cell_maximum = match opt_num(v, "Temperature_Cell_Maximum") {
        Ok(x) => x,
        Err(e) => {
            proof {
                lemma_storage_module_bad(v@);
            }
            return Err(e);
        },
    };
    let temperature_cell_minimum = match opt_num(v, "Temperature_Cell_Minimum") {
        Ok(x) => x,
        Err(e) => {
            proof {
                lemma_storage_module_bad(v@);
            }
            return Err(e);
        },
    };
    let time_stamp = match req_i64(v, "TimeStamp") {
        Ok(x) => x,
        Err(e) => {
            proof {
                lemma_storage_module_bad(v@);
            }
            return Err(e);
        },
    };
    let voltage_dc = match opt_num(v, "Voltage_DC") {
        Ok(x) => x,
        Err(e) => {
            proof {
                lemma_storage_module_bad(v@);
            }
            return Err(e);
        },
    };
    let voltage_dc_maximum_cell = match opt_num(v, "Voltage_DC_Maximum_Cell") {
        Ok(x) => x,
        Err(e) => {
            proof {
                lemma_storage_module_bad(v@);
            }
            return Err(e);
        },
    };
    let voltage_dc_minimum_cell = match opt_num(v, "Voltage_DC_Minimum_Cell") {
        Ok(x) => x,
        Err(e) => {
            proof {
                lemma_storage_module_bad(v@);
            }
            return Err(e);
        },
    };
    let d = StorageModule { details, capacity_maximum, current_dc, cycle_count_battery_cell, designed_capacity, enable, state_of_charge_relative, status_battery_cell, temperature_cell, temperature_cell_maximum, temperature_cell_minimum, time_stamp, voltage_dc, voltage_dc_maximum_cell, voltage_dc_minimum_cell };
    proof {
        assert(d@ =~= spec_decode_storage_module(v@)->Some_0);
    }
    Ok(d)
}

/// Views of the expansion modules, in list order.
pub open spec fn modules_view(s: Seq<StorageModule>) -> Seq<StorageModuleView> {
    Seq::new(s.len(), |i: int| s[i]@)
}

/// Every element of `items` decodes as an expansion module.
pub open spec fn spec_modules_ok(items: Seq<JsonView>) -> bool {
    forall|i: int| 0 <= i < items.len() ==> spec_decode_storage_module(#[trigger] items[i]) is Some
}

/// The decoded expansion modules of `items`.
pub open spec fn spec_modules(items: Seq<JsonView>) -> Seq<StorageModuleView> {
    Seq::new(items.len(), |i: int| spec_decode_storage_module(items[i])->Some_0)
}

/// A mandatory list of expansion modules.
pub open spec fn spec_req_modules(v: JsonView, key: Seq<char>) -> Option<Seq<StorageModuleView>> {
    match spec_field(v, key) {
        Some(JsonView::Arr(items)) => if spec_modules_ok(items) {
            Some(spec_modules(items))
        } else {
            None
        },
        _ => None,
    }
}

/// Reads a mandatory list of expansion modules.
pub fn req_modules(v: &JsonValue, key: &str) -> (r: Result<Vec<StorageModule>, DecodeError>)
    ensures
        match r {
            Ok(m) => spec_req_modules(v@, key@) == Some(modules_view(m@)),
            Err(_) => spec_req_modules(v@, key@) is None,
        },
{
    let field = match get_field(v, key) {
        Some(f) => f,
        None => {
            return Err(DecodeError::MissingField { field: key.to_owned() });
        },
    };
    let items = match field {
        JsonValue::Arr(xs) => xs,
        _ => {
            return Err(DecodeError::WrongType { field: key.to_owned() });
        },
    };
    proof {
        lemma_arr_view(*items);
    }
    let ghost vitems = jview(*field)->Arr_0;
    let mut out: Vec<StorageModule> = Vec::new();
    let mut i: usize = 0;
    while i < items.len()
        invariant
            i <= items@.len(),
            out@.len() == i,
            spec_field(v@, key@) == Some(JsonView::Arr(vitems)),
            vitems.len() == items@.len(),
            forall|j: int| 0 <= j < vitems.len() ==> #[trigger] vitems[j] == jview(items@[j]),
            forall|j: int|
                0 <= j < i ==> spec_decode_storage_module(#[trigger] vitems[j]) is Some
                    && out@[j]@ == spec_decode_storage_module(vitems[j])->Some_0,
        decreases items@.len() - i,
    {
        let m = match decode_storage_module(&items[i]) {
            Ok(m) => m,
            Err(e) => {
                proof {
                    assert(spec_decode_storage_module(vitems[i as int]) is None);
                }
                return Err(e);
            },
        };
        out.push(m);
        i += 1;
    }
    proof {
        assert(modules_view(out@) =~= spec_modules(vitems));
    }
    Ok(out)
}

/// A mandatory storage controller field.
pub open spec fn spec_req_controller(v: JsonView, key: Seq<char>) -> Option<
    StorageControllerView,
> {
    match spec_field(v, key) {
        Some(w) => spec_decode_storage_controller(w),
        None => None,
    }
}

/// Reads a mandatory storage controller field.
pub fn req_controller(v: &JsonValue, key: &str) -> (r: Result<StorageController, DecodeError>)
    ensures
        match r {
            Ok(c) => spec_req_controller(v@, key@) == Some(c@),
            Err(_) => spec_req_controller(v@, key@) is None,
        },
{
    match get_field(v, key) {
        Some(f) => decode_storage_controller(f),
        None => Err(DecodeError::MissingField { field: key.to_owned() }),
    }
}

/// The storage record for one device: its controller and its expansion
/// modules.
#[derive(Debug, PartialEq)]
pub struct StorageData {
    pub controller: StorageController,
    pub modules: Vec<StorageModule>,
}

/// The mathematical content of [`StorageData`].
#[verifier::ext_equal]
pub ghost struct StorageDataView {
    pub controller: StorageControllerView,
    pub modules: Seq<StorageModuleView>,
}

impl View for StorageData {
    type V = StorageDataView;

    open spec fn view(&self) -> StorageDataView {
        StorageDataView {
            controller: self.controller@,
            modules: modules_view(self.modules@),
        }
    }
}

/// Every field of a [`StorageData`] is readable from `v` under its contract.
pub open spec fn spec_storage_data_ok(v: JsonView) -> bool {
    &&& spec_req_controller(v, "Controller"@) is Some
    &&& spec_req_modules(v, "Modules"@) is Some
}

/// The [`StorageData`] that `v` decodes to.
pub open spec fn spec_decode_storage_data(v: JsonView) -> Option<StorageDataView> {
    if spec_storage_data_ok(v) {
        Some(StorageDataView {
        controller: spec_req_controller(v, "Controller"@)->Some_0,
        modules: spec_req_modules(v, "Modules"@)->Some_0,
        })
    } else {
        None
    }
}

/// One unreadable field refuses the whole record.
proof fn lemma_storage_data_bad(v: JsonView)
    requires
        (spec_req_controller(v, "Controller"@) is None) ||
            (spec_req_modules(v, "Modules"@) is None),
    ensures
        spec_decode_storage_data(v) is None,
{
}

/// Decodes a [`StorageData`], matching [`spec_decode_storage_data`].
pub fn decode_storage_data(v: &JsonValue) -> (r: Result<StorageData, DecodeError>)
    ensures
        match r {
            Ok(d) => spec_decode_storage_data(v@) == Some(d@),
            Err(_) => spec_decode_storage_data(v@) is None,
        },
{
    let controller = match req_controller(v, "Controller") {
        Ok(x) => x,
        Err(e) => {
            proof {
                lemma_storage_data_bad(v@);
            }
            return Err(e);
        },
    };
    let modules = match req_modules(v, "Modules") {
        Ok(x) => x,
        Err(e) => {
            proof {
                lemma_storage_data_bad(v@);
            }
            return Err(e);
        },
    };
    let d = StorageData { controller, modules };
    proof {
        assert(d@ =~= spec_decode_storage_data(v@)->Some_0);
    }
    Ok(d)
}

/// Per-device storage records, keyed by device in response order.
pub type StorageDataSystem = Vec<(String, StorageData)>;

/// Every entry of `es` decodes as a map member.
pub open spec fn spec_storage_system_entries_ok(es: Seq<(Seq<char>, JsonView)>) -> bool {
    forall|i: int| 0 <= i < es.len() ==> spec_decode_storage_data(#[trigger] es[i].1) is Some
}

/// The decoded members of `es`, in response order.
pub open spec fn spec_storage_system_entries(es: Seq<(Seq<char>, JsonView)>) -> Seq<
    (Seq<char>, StorageDataView),
> {
    Seq::new(es.len(), |i: int| (es[i].0, spec_decode_storage_data(es[i].1)->Some_0))
}

/// Key/value views of the decoded map.
pub open spec fn storage_system_pairs_view(s: Seq<(String, StorageData)>) -> Seq<(Seq<char>, StorageDataView)> {
    Seq::new(s.len(), |i: int| (s[i].0@, s[i].1@))
}

/// The whole-system storage result `v` decodes to: one storage record
/// per device, keyed by device.
pub open spec fn spec_decode_storage_system(v: JsonView) -> Option<Seq<(Seq<char>, StorageDataView)>> {
    match v {
        JsonView::Obj(es) => if spec_storage_system_entries_ok(es) {
            Some(spec_storage_system_entries(es))
        } else {
            None
        },
        _ => None,
    }
}

/// Decodes the map, matching [`spec_decode_storage_system`].
pub fn decode_storage_system(v: &JsonValue) -> (r: Result<Vec<(String, StorageData)>, DecodeError>)
    ensures
        match r {
            Ok(m) => spec_decode_storage_system(v@) == Some(storage_system_pairs_view(m@)),
            Err(_) => spec_decode_storage_system(v@) is None,
        },
{
    let entries = match v {
        JsonValue::Obj(es) => es,
        _ => {
            return Err(DecodeError::WrongType { field: "Data".to_owned() });
        },
    };
    proof {
        lemma_obj_view(*entries);
    }
    let ghost ves = jview(*v)->Obj_0;
    let mut out: Vec<(String, StorageData)> = Vec::new();
    let mut i: usize = 0;
    while i < entries.len()
        invariant
            i <= entries@.len(),
            out@.len() == i,
            v@ == JsonView::Obj(ves),
            ves.len() == entries@.len(),
            forall|j: int|
                0 <= j < ves.len() ==> #[trigger] ves[j] == (
                entries@[j].0@,
                jview(entries@[j].1),
                ),
            forall|j: int|
                0 <= j < i ==> out@[j].0@ == ves[j].0 && spec_decode_storage_data(#[trigger] ves[j].1) is Some && out@[j].1@ == spec_decode_storage_data(ves[j].1)->Some_0,
        decreases entries@.len() - i,
    {
        let value = match decode_storage_data(&entries[i].1) {
            Ok(x) => x,
            Err(e) => {
                proof {
                    assert(spec_decode_storage_data(ves[i as int].1) is None);
                }
                return Err(e);
            },
        };
        let key = entries[i].0.clone();
        out.push((key, value));
        i += 1;
    }
    proof {
        assert(storage_system_pairs_view(out@) =~= spec_storage_system_entries(ves));
    }
    Ok(out)
}

} // verus!
