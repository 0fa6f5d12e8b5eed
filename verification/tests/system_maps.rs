//! Whole-system results and the remaining shape families: per-device
//! maps keyed in response order, and the per-phase inverter shape.

use fronius::inverter::ThreePhaseInverterData;
use fronius::{Error, Fronius};

fn wrap(data: &str) -> String {
    let mut s = String::new();
    s.push_str("{\"Head\":{\"RequestArguments\":{},\"Status\":{\"Code\":0,\"Reason\":\"\",");
    s.push_str("\"UserMessage\":\"\"},\"Timestamp\":\"2024-05-11T12:00:00+02:00\"},");
    s.push_str("\"Body\":{\"Data\":");
    s.push_str(data);
    s.push_str("}}");
    s
}

fn meter_record(serial: &str) -> String {
    format!(
        "{{\"Details\":{{\"Manufacturer\":\"Acme\",\"Model\":\"M\",\"Serial\":\"{}\"}},\
          \"Enable\":1,\"EnergyReal_WAC_Plus_Absolute\":1,\"EnergyReal_WAC_Sum_Consumed\":1,\
          \"EnergyReal_WAC_Sum_Produced\":1,\"Frequency_Phase_Average\":50,\
          \"Meter_Location_Current\":0,\"PowerApparent_S_Sum\":1,\"PowerFactor_Sum\":1,\
          \"PowerReactive_Q_Sum\":1,\"PowerReal_P_Sum\":1,\"TimeStamp\":1,\"Visible\":1}}",
        serial
    )
}

#[test]
fn meter_system_result_keeps_response_order() {
    let body = wrap(&format!("{{\"0\":{},\"1\":{}}}", meter_record("A"), meter_record("B")));
    let m = Fronius::get_meter_realtime_data_system_response(&body).unwrap();
    assert_eq!(m.len(), 2);
    assert_eq!(m[0].0, "0");
    assert_eq!(m[0].1.details.serial, "A");
    assert_eq!(m[1].0, "1");
    assert_eq!(m[1].1.details.serial, "B");
}

#[test]
fn meter_system_result_with_one_bad_member_fails_whole() {
    let body = wrap(&format!("{{\"0\":{},\"1\":{{}}}}", meter_record("A")));
    assert!(matches!(
        Fronius::get_meter_realtime_data_system_response(&body),
        Err(Error::Decode(_))
    ));
}

#[test]
fn storage_system_result_decodes() {
    let body = wrap(
        "{\"0\":{\"Controller\":{\
            \"Details\":{\"Manufacturer\":\"BYD\",\"Model\":\"BOX\",\"Serial\":\"B1\"},\
            \"TimeStamp\":1,\"Enable\":1,\"StateOfCharge_Relative\":50,\
            \"Capacity_Maximum\":10240,\"Current_DC\":0,\"Voltage_DC\":220,\
            \"Temperature_Cell\":28},\"Modules\":[]}}",
    );
    let m = Fronius::get_storage_realtime_data_system_response(&body).unwrap();
    assert_eq!(m.len(), 1);
    assert_eq!(m[0].0, "0");
    assert_eq!(m[0].1.modules.len(), 0);
}

#[test]
fn ohm_pilot_system_result_decodes() {
    let body = wrap(
        "{\"720575\":{\"Details\":{\"Serial\":\"O1\",\"Model\":\"M\",\"Manufacturer\":\"F\",\
            \"Software\":\"s\",\"Hardware\":\"h\"},\"EnergyReal_WAC_Sum_Consumed\":1,\
            \"CodeOfState\":5,\"PowerReal_PAC_Sum\":0,\"Temperature_Channel_1\":1}}",
    );
    let m = Fronius::get_ohm_pilot_realtime_data_system_response(&body).unwrap();
    assert_eq!(m.len(), 1);
    assert_eq!(m[0].0, "720575");
    assert_eq!(m[0].1.code_of_state.name(), "Boost Mode");
}

#[test]
fn three_phase_shape_decodes_with_optional_sensors_absent() {
    let mut fields: Vec<String> = Vec::new();
    for key in ["IAC_L1", "IAC_L2", "IAC_L3", "UAC_L1", "UAC_L2", "UAC_L3"] {
        fields.push(format!("\"{}\":{{\"Unit\":\"x\",\"Value\":2}}", key));
    }
    let body = wrap(&format!("{{{}}}", fields.join(",")));
    let d: ThreePhaseInverterData =
        Fronius::get_inverter_realtime_data_device_response(&body).unwrap();
    assert_eq!(d.iac_l1.value.as_ref().unwrap().as_i64(), Some(2));
    assert_eq!(d.t_ambient, None);
    assert_eq!(d.rotation_speed_fan_fl, None);
}

#[test]
fn a_payload_without_the_data_field_is_a_decode_error() {
    let body = "{\"Head\":{\"RequestArguments\":{},\"Status\":{\"Code\":0,\"Reason\":\"\",\
        \"UserMessage\":\"\"},\"Timestamp\":\"t\"},\"Body\":{}}";
    assert!(matches!(
        Fronius::get_power_flow_realtime_data_response(body),
        Err(Error::Decode(_))
    ));
}

#[test]
fn echoed_request_arguments_must_be_strings() {
    let body = "{\"Head\":{\"RequestArguments\":{\"DeviceId\":1},\"Status\":{\"Code\":0,\
        \"Reason\":\"\",\"UserMessage\":\"\"},\"Timestamp\":\"t\"},\"Body\":{\"Data\":{}}}";
    assert!(matches!(
        Fronius::get_power_flow_realtime_data_response(body),
        Err(Error::Decode(_))
    ));
}
