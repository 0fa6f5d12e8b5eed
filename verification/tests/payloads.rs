//! The typed payload shapes, decoded through the whole response path:
//! field-presence contracts, absent channels, and one exact end-to-end
//! fixture per shape family.

use fronius::info::InverterStatusCode;
use fronius::inverter::{CommonInverterData, CumulationInverterData, CumulationInverterDataSystem};
use fronius::ohmpilot::OhmPilotCodeOfState;
use fronius::{DeviceType, Error, Fronius};

fn wrap(data: &str) -> String {
    let mut s = String::new();
    s.push_str("{\"Head\":{\"RequestArguments\":{},\"Status\":{\"Code\":0,\"Reason\":\"\",");
    s.push_str("\"UserMessage\":\"\"},\"Timestamp\":\"2024-05-11T12:00:00+02:00\"},");
    s.push_str("\"Body\":{\"Data\":");
    s.push_str(data);
    s.push_str("}}");
    s
}

#[test]
fn cumulation_fixture_decodes_exactly() {
    let body = wrap(
        "{\"PAC\":{\"Unit\":\"W\",\"Value\":1500},\
         \"DAY_ENERGY\":{\"Unit\":\"Wh\",\"Value\":2000},\
         \"YEAR_ENERGY\":{\"Unit\":\"Wh\",\"Value\":500000},\
         \"TOTAL_ENERGY\":{\"Unit\":\"Wh\",\"Value\":9000000},\
         \"DeviceStatus\":null}",
    );
    let d: CumulationInverterData =
        Fronius::get_inverter_realtime_data_device_response(&body).unwrap();
    assert_eq!(d.pac.value.as_ref().unwrap().as_i64(), Some(1500));
    assert_eq!(d.device_status, None);
}

fn common_data(with_fac: bool, with_pac: bool) -> String {
    let mut fields: Vec<String> = Vec::new();
    for key in [
        "SAC", "IAC", "UAC", "IDC", "IDC_2", "IDC_3", "IDC_4", "UDC", "UDC_2", "UDC_3", "UDC_4",
        "DAY_ENERGY", "YEAR_ENERGY", "TOTAL_ENERGY",
    ] {
        fields.push(format!("\"{}\":{{\"Unit\":\"x\",\"Value\":1}}", key));
    }
    if with_pac {
        fields.push("\"PAC\":{\"Unit\":\"W\",\"Value\":123}".to_string());
    }
    if with_fac {
        fields.push("\"FAC\":{\"Unit\":\"Hz\",\"Value\":50}".to_string());
    }
    let mut s = String::new();
    s.push('{');
    s.push_str(&fields.join(","));
    s.push('}');
    s
}

#[test]
fn missing_optional_channel_decodes_as_absent() {
    let body = wrap(&common_data(false, true));
    let d: CommonInverterData = Fronius::get_inverter_realtime_data_device_response(&body).unwrap();
    assert_eq!(d.fac, None);
    assert_eq!(d.pac.value.as_ref().unwrap().as_i64(), Some(123));
}

#[test]
fn present_optional_channel_decodes_as_present() {
    let body = wrap(&common_data(true, true));
    let d: CommonInverterData = Fronius::get_inverter_realtime_data_device_response(&body).unwrap();
    assert_eq!(d.fac.as_ref().unwrap().value.as_ref().unwrap().as_i64(), Some(50));
}

#[test]
fn missing_mandatory_channel_is_a_decode_error() {
    let body = wrap(&common_data(true, false));
    let r: Result<CommonInverterData, Error> =
        Fronius::get_inverter_realtime_data_device_response(&body);
    assert!(matches!(r, Err(Error::Decode(_))));
}

#[test]
fn absent_channel_value_is_absent_not_zero() {
    let body = wrap(
        "{\"PAC\":{\"Unit\":\"W\"},\
         \"DAY_ENERGY\":{\"Unit\":\"Wh\",\"Value\":null},\
         \"YEAR_ENERGY\":{\"Unit\":\"Wh\",\"Value\":1},\
         \"TOTAL_ENERGY\":{\"Unit\":\"Wh\",\"Value\":1}}",
    );
    let d: CumulationInverterData =
        Fronius::get_inverter_realtime_data_device_response(&body).unwrap();
    assert_eq!(d.pac.value, None);
    assert_eq!(d.day_energy.value, None);
    assert_eq!(d.device_status, None);
}

#[test]
fn system_scope_uses_the_many_values_container() {
    let body = wrap(
        "{\"PAC\":{\"Unit\":\"W\",\"Values\":{\"1\":1000,\"2\":null}},\
         \"DAY_ENERGY\":{\"Unit\":\"Wh\",\"Values\":{}},\
         \"YEAR_ENERGY\":{\"Unit\":\"Wh\",\"Values\":{}},\
         \"TOTAL_ENERGY\":{\"Unit\":\"Wh\",\"Values\":{}}}",
    );
    let d: CumulationInverterDataSystem =
        Fronius::get_inverter_realtime_data_system_response(&body).unwrap();
    assert_eq!(d.pac.values.len(), 2);
    assert_eq!(d.pac.values[0].0, "1");
    assert_eq!(d.pac.values[0].1.as_ref().unwrap().as_i64(), Some(1000));
    assert_eq!(d.pac.values[1], ("2".to_string(), None));
    assert_eq!(d.day_energy.values.len(), 0);
}

#[test]
fn meter_record_decodes_with_optional_channels_absent() {
    let body = wrap(
        "{\"Details\":{\"Manufacturer\":\"Acme\",\"Model\":\"Smart Meter 63A\",\"Serial\":\"S1\"},\
         \"Enable\":1,\
         \"EnergyReal_WAC_Plus_Absolute\":10561.5,\
         \"EnergyReal_WAC_Sum_Consumed\":10561.5,\
         \"EnergyReal_WAC_Sum_Produced\":2071,\
         \"Frequency_Phase_Average\":50,\
         \"Meter_Location_Current\":0,\
         \"PowerApparent_S_Sum\":211.66,\
         \"PowerFactor_Sum\":1,\
         \"PowerReactive_Q_Sum\":-122.48,\
         \"PowerReal_P_Sum\":172.71,\
         \"TimeStamp\":1560430330,\
         \"Visible\":1,\
         \"Current_AC_Phase_1\":0.662}",
    );
    let d = Fronius::get_meter_realtime_data_device_response(&body).unwrap();
    assert_eq!(d.details.manufacturer, "Acme");
    assert_eq!(d.enable, 1);
    assert_eq!(d.time_stamp, 1560430330);
    assert_eq!(d.current_ac_phase_1.as_ref().unwrap().text, "0.662");
    assert_eq!(d.current_ac_phase_2, None);
    assert_eq!(d.power_real_p_sum.text, "172.71");
}

#[test]
fn meter_without_its_details_is_a_decode_error() {
    let body = wrap("{\"Enable\":1}");
    assert!(matches!(
        Fronius::get_meter_realtime_data_device_response(&body),
        Err(Error::Decode(_))
    ));
}

#[test]
fn storage_record_decodes_controller_and_modules() {
    let body = wrap(
        "{\"Controller\":{\
            \"Details\":{\"Manufacturer\":\"BYD\",\"Model\":\"BOX\",\"Serial\":\"B1\"},\
            \"TimeStamp\":1560430330,\"Enable\":1,\
            \"StateOfCharge_Relative\":54.5,\"Capacity_Maximum\":10240,\
            \"Current_DC\":1.5,\"Voltage_DC\":220.9,\"Temperature_Cell\":28.1},\
          \"Modules\":[{\"TimeStamp\":1560430330},\
                       {\"TimeStamp\":1560430331,\"Enable\":1,\"Status_BatteryCell\":3}]}",
    );
    let d = Fronius::get_storage_realtime_data_device_response(&body).unwrap();
    assert_eq!(d.controller.details.manufacturer, "BYD");
    assert_eq!(d.controller.enable, 1);
    assert_eq!(d.controller.state_of_charge_relative.text, "54.5");
    assert_eq!(d.modules.len(), 2);
    assert_eq!(d.modules[0].details, None);
    assert_eq!(d.modules[0].enable, None);
    assert_eq!(d.modules[1].enable, Some(1));
    assert_eq!(d.modules[1].status_battery_cell, Some(3));
}

#[test]
fn ohm_pilot_record_decodes_with_its_state() {
    let body = wrap(
        "{\"Details\":{\"Serial\":\"O1\",\"Model\":\"OhmPilot\",\"Manufacturer\":\"Fronius\",\
            \"Software\":\"1.0.25-1\",\"Hardware\":\"3\"},\
          \"EnergyReal_WAC_Sum_Consumed\":2964307,\
          \"CodeOfState\":0,\
          \"PowerReal_PAC_Sum\":0,\
          \"Temperature_Channel_1\":23.9}",
    );
    let d = Fronius::get_ohm_pilot_realtime_data_device_response(&body).unwrap();
    assert_eq!(d.details.serial, "O1");
    assert_eq!(d.code_of_state, OhmPilotCodeOfState::UpAndRunning);
    assert_eq!(d.code_of_state.name(), "Up and Running");
    assert_eq!(d.code_of_error, None);
}

#[test]
fn ohm_pilot_state_names_match_their_codes() {
    let pairs = [
        (0u8, OhmPilotCodeOfState::UpAndRunning, "Up and Running"),
        (1, OhmPilotCodeOfState::KeepMinimumTemperature, "Keeping minimum Temperature"),
        (2, OhmPilotCodeOfState::LegionellaProtection, "Legionella Protection"),
        (3, OhmPilotCodeOfState::CriticalFault, "Critical Fault"),
        (4, OhmPilotCodeOfState::Fault, "Fault"),
        (5, OhmPilotCodeOfState::BoostMode, "Boost Mode"),
    ];
    for (n, code, name) in pairs {
        assert_eq!(OhmPilotCodeOfState::from_number(n), Some(code));
        assert_eq!(code.name(), name);
    }
    assert_eq!(OhmPilotCodeOfState::from_number(6), None);
}

#[test]
fn unknown_ohm_pilot_state_is_a_decode_error() {
    let body = wrap(
        "{\"Details\":{\"Serial\":\"O1\",\"Model\":\"M\",\"Manufacturer\":\"F\",\
            \"Software\":\"s\",\"Hardware\":\"h\"},\
          \"EnergyReal_WAC_Sum_Consumed\":1,\"CodeOfState\":9,\
          \"PowerReal_PAC_Sum\":0,\"Temperature_Channel_1\":1}",
    );
    assert!(matches!(
        Fronius::get_ohm_pilot_realtime_data_device_response(&body),
        Err(Error::Decode(_))
    ));
}

#[test]
fn power_flow_summary_decodes() {
    let body = wrap(
        "{\"Version\":\"12\",\
          \"Site\":{\"Mode\":\"bidirectional\",\"P_Grid\":-1000.2,\"P_Load\":-500,\
                    \"P_Akku\":null,\"P_PV\":1500.8,\"rel_SelfConsumption\":33.3,\
                    \"rel_Autonomy\":100,\"E_Day\":8000,\"E_Year\":9000000,\"E_Total\":9000000},\
          \"Inverters\":{\"1\":{\"DT\":123,\"P\":1500,\"SOC\":54.5,\"E_Day\":8000}},\
          \"Smartloads\":{\"Ohmpilots\":{\"720575\":{\"P_AC_Total\":300,\
                    \"State\":\"normal\",\"Temperature\":23.9}}}}",
    );
    let d = Fronius::get_power_flow_realtime_data_response(&body).unwrap();
    assert_eq!(d.version, "12");
    assert_eq!(d.site.mode, "bidirectional");
    assert_eq!(d.site.p_akku, None);
    assert_eq!(d.site.p_pv.text, "1500.8");
    assert_eq!(d.site.battery_standby, None);
    assert_eq!(d.inverters.len(), 1);
    assert_eq!(d.inverters[0].0, "1");
    assert_eq!(d.inverters[0].1.dt, 123);
    assert_eq!(d.smartloads.len(), 1);
    assert_eq!(d.smartloads[0].0, "Ohmpilots");
    assert_eq!(d.smartloads[0].1[0].1.state, "normal");
    assert_eq!(d.secondary_meters, None);
}

#[test]
fn inverter_inventory_decodes_with_reserved_slots() {
    let body = wrap(
        "{\"1\":{\"DT\":123,\"PVPower\":5000,\"CustomName\":\"Roof\",\"Show\":1,\
            \"UniqueID\":\"1234567\",\"ErrorCode\":0,\"StatusCode\":7,\
            \"InverterState\":\"Running\"},\
          \"2\":null}",
    );
    let d = Fronius::get_inverter_info_response(&body).unwrap();
    assert_eq!(d.len(), 2);
    assert_eq!(d[0].0, "1");
    let info = d[0].1.as_ref().unwrap();
    assert_eq!(info.dt, 123);
    assert_eq!(info.pv_power, 5000);
    assert_eq!(info.custom_name, "Roof");
    assert_eq!(info.show, 1);
    assert_eq!(info.status_code, InverterStatusCode::Running);
    assert_eq!(info.status_code.name(), "Running");
    assert_eq!(d[1], ("2".to_string(), None));
}

#[test]
fn inverter_status_codes_map_to_their_wire_numbers() {
    let pairs = [
        (0u64, InverterStatusCode::Startup),
        (7, InverterStatusCode::Running),
        (8, InverterStatusCode::Standby),
        (9, InverterStatusCode::Bootloading),
        (10, InverterStatusCode::Error),
        (11, InverterStatusCode::Idle),
        (12, InverterStatusCode::Ready),
        (13, InverterStatusCode::Sleeping),
        (255, InverterStatusCode::Unknown),
    ];
    for (n, code) in pairs {
        assert_eq!(InverterStatusCode::from_number(n), Some(code));
    }
    assert_eq!(InverterStatusCode::from_number(3), None);
}

#[test]
fn active_device_inventory_groups_by_device_type() {
    let body = wrap(
        "{\"Inverter\":{\"1\":{\"DT\":123,\"Serial\":\"I1\"},\"2\":null},\
          \"Meter\":{}}",
    );
    let d = Fronius::get_active_device_info_response(&body).unwrap();
    assert_eq!(d.len(), 2);
    assert_eq!(d[0].0, DeviceType::Inverter);
    assert_eq!(d[0].1.len(), 2);
    assert_eq!(d[0].1[0].0, "1");
    assert_eq!(d[0].1[0].1.as_ref().unwrap().serial, "I1");
    assert_eq!(d[0].1[1].1, None);
    assert_eq!(d[1].0, DeviceType::Meter);
    assert_eq!(d[1].1.len(), 0);
}

#[test]
fn unknown_device_type_is_a_decode_error() {
    let body = wrap("{\"Toaster\":{}}");
    assert!(matches!(
        Fronius::get_active_device_info_response(&body),
        Err(Error::Decode(_))
    ));
}

#[test]
fn device_status_map_carries_its_raw_entries() {
    let body = wrap(
        "{\"PAC\":{\"Unit\":\"W\",\"Value\":1},\
         \"DAY_ENERGY\":{\"Unit\":\"Wh\",\"Value\":1},\
         \"YEAR_ENERGY\":{\"Unit\":\"Wh\",\"Value\":1},\
         \"TOTAL_ENERGY\":{\"Unit\":\"Wh\",\"Value\":1},\
         \"DeviceStatus\":{\"StatusCode\":7,\"MgmtTimerRemainingTime\":-1}}",
    );
    let d: CumulationInverterData =
        Fronius::get_inverter_realtime_data_device_response(&body).unwrap();
    let status = d.device_status.unwrap();
    assert_eq!(status.len(), 2);
    assert_eq!(status[0].0, "StatusCode");
}
