//! The envelope and its status gate: an Okay envelope hands its payload
//! through unchanged; any other status code fails with the full status
//! record, whatever the body holds.

use fronius::inverter::CumulationInverterData;
use fronius::{Error, Fronius, Status, StatusCode};

fn envelope(code: u32, reason: &str, user_message: &str) -> String {
    let mut s = String::new();
    s.push_str("{\"Head\":{\"RequestArguments\":{\"Scope\":\"Device\",\"DeviceId\":\"1\"},");
    s.push_str("\"Status\":{\"Code\":");
    s.push_str(&code.to_string());
    s.push_str(",\"Reason\":\"");
    s.push_str(reason);
    s.push_str("\",\"UserMessage\":\"");
    s.push_str(user_message);
    s.push_str("\"},\"Timestamp\":\"2024-05-11T12:00:00+02:00\"},\"Body\":{\"Data\":{");
    s.push_str("\"PAC\":{\"Unit\":\"W\",\"Value\":1500},");
    s.push_str("\"DAY_ENERGY\":{\"Unit\":\"Wh\",\"Value\":2000},");
    s.push_str("\"YEAR_ENERGY\":{\"Unit\":\"Wh\",\"Value\":500000},");
    s.push_str("\"TOTAL_ENERGY\":{\"Unit\":\"Wh\",\"Value\":9000000},");
    s.push_str("\"DeviceStatus\":null}}}");
    s
}

#[test]
fn okay_envelope_hands_the_payload_through() {
    let body = envelope(0, "", "");
    let data: CumulationInverterData =
        Fronius::get_inverter_realtime_data_device_response(&body).unwrap();
    assert_eq!(data.pac.unit, "W");
    assert_eq!(data.pac.value.as_ref().unwrap().as_i64(), Some(1500));
    assert_eq!(data.day_energy.value.as_ref().unwrap().as_i64(), Some(2000));
    assert_eq!(data.year_energy.value.as_ref().unwrap().as_i64(), Some(500000));
    assert_eq!(data.total_energy.value.as_ref().unwrap().as_i64(), Some(9000000));
    assert_eq!(data.device_status, None);
}

#[test]
fn non_okay_envelope_fails_with_the_full_status() {
    let body = envelope(12, "device offline", "The device is not reachable");
    let r: Result<CumulationInverterData, Error> =
        Fronius::get_inverter_realtime_data_device_response(&body);
    assert_eq!(
        r,
        Err(Error::Response(Status {
            code: StatusCode::DeviceNotAvailable,
            reason: "device offline".to_string(),
            user_message: "The device is not reachable".to_string(),
        }))
    );
}

#[test]
fn every_non_okay_code_is_a_response_error() {
    for code in [1u32, 2, 3, 4, 5, 6, 7, 8, 9, 10, 11, 12, 255] {
        let body = envelope(code, "r", "u");
        let r: Result<CumulationInverterData, Error> =
            Fronius::get_inverter_realtime_data_device_response(&body);
        match r {
            Err(Error::Response(st)) => {
                assert_ne!(st.code, StatusCode::Okay);
                assert_eq!(st.reason, "r");
            },
            other => panic!("expected a response error, got {:?}", other),
        }
    }
}

#[test]
fn unknown_status_code_is_a_decode_error_not_a_crash() {
    let body = envelope(13, "", "");
    let r: Result<CumulationInverterData, Error> =
        Fronius::get_inverter_realtime_data_device_response(&body);
    assert!(matches!(r, Err(Error::Decode(_))));
}

#[test]
fn status_codes_map_to_their_wire_numbers() {
    let pairs = [
        (0u64, StatusCode::Okay),
        (1, StatusCode::NotImplemented),
        (2, StatusCode::Uninitialized),
        (3, StatusCode::Initialized),
        (4, StatusCode::Running),
        (5, StatusCode::Timeout),
        (6, StatusCode::ArgumentError),
        (7, StatusCode::LNRequestError),
        (8, StatusCode::LNRequestTimeout),
        (9, StatusCode::LNParseError),
        (10, StatusCode::ConfigIOError),
        (11, StatusCode::NotSupported),
        (12, StatusCode::DeviceNotAvailable),
        (255, StatusCode::UnknownError),
    ];
    for (n, code) in pairs {
        assert_eq!(StatusCode::from_number(n), Some(code));
        assert_eq!(code.number(), n);
    }
    assert_eq!(StatusCode::from_number(13), None);
    assert_eq!(StatusCode::from_number(254), None);
}

#[test]
fn missing_envelope_parts_are_decode_errors() {
    let r: Result<CumulationInverterData, Error> =
        Fronius::get_inverter_realtime_data_device_response("{\"Body\":{\"Data\":{}}}");
    assert!(matches!(r, Err(Error::Decode(_))));
    let r: Result<CumulationInverterData, Error> =
        Fronius::get_inverter_realtime_data_device_response("not json at all");
    assert!(matches!(r, Err(Error::Decode(_))));
}
