//! Request construction: the bootstrap handshake and the exact
//! path-and-query of every endpoint request.

use fronius::device::DeviceId;
use fronius::envelope::ApiVersion;
use fronius::inverter::{
    CommonInverterData, CumulationInverterData, ThreePhaseInverterData,
};
use fronius::{Error, Fronius};

fn client() -> Fronius {
    Fronius::connect(ApiVersion {
        api_version: 1,
        base_url: "/solar_api/v1/".to_string(),
        compatibility_range: "1.5-3".to_string(),
    })
    .unwrap()
}

#[test]
fn bootstrap_accepts_revision_one_and_adopts_the_base_path() {
    let body =
        "{\"APIVersion\":1,\"BaseURL\":\"/solar_api/v1/\",\"CompatibilityRange\":\"1.5-3\"}";
    let api = fronius::client::get_api_version_response(body).unwrap();
    assert_eq!(api.api_version, 1);
    let f = Fronius::connect(api).unwrap();
    assert_eq!(f.base_path(), "/solar_api/v1/");
}

#[test]
fn bootstrap_refuses_revision_two_and_constructs_no_client() {
    let body = "{\"APIVersion\":2,\"BaseURL\":\"/solar_api/v2/\",\"CompatibilityRange\":\"3\"}";
    let api = fronius::client::get_api_version_response(body).unwrap();
    assert_eq!(Fronius::connect(api).unwrap_err(), Error::UnsupportedApiVersion(2));
}

#[test]
fn bootstrap_refuses_a_malformed_handshake_answer() {
    let r = fronius::client::get_api_version_response("{\"BaseURL\":\"/solar_api/v1/\"}");
    assert!(matches!(r, Err(Error::Decode(_))));
}

#[test]
fn handshake_path_is_fixed_and_unversioned() {
    assert_eq!(fronius::client::get_api_version_request(), "/solar_api/GetAPIVersion.cgi");
}

#[test]
fn device_scoped_inverter_request_carries_scope_id_and_collection() {
    let f = client();
    let id = DeviceId::try_from(1).unwrap();
    let u = f.get_inverter_realtime_data_device_request::<CommonInverterData>(&id).unwrap();
    assert_eq!(
        u,
        "/solar_api/v1/GetInverterRealtimeData.cgi?Scope=Device&DeviceId=1&DataCollection=CommonInverterData"
    );
    let u = f.get_inverter_realtime_data_device_request::<CumulationInverterData>(&id).unwrap();
    assert_eq!(
        u,
        "/solar_api/v1/GetInverterRealtimeData.cgi?Scope=Device&DeviceId=1&DataCollection=CumulationInverterData"
    );
    let u = f.get_inverter_realtime_data_device_request::<ThreePhaseInverterData>(&id).unwrap();
    assert_eq!(
        u,
        "/solar_api/v1/GetInverterRealtimeData.cgi?Scope=Device&DeviceId=1&DataCollection=3PInverterData"
    );
}

#[test]
fn system_scoped_requests_carry_exactly_the_system_scope() {
    let f = client();
    assert_eq!(
        f.get_inverter_realtime_data_system_request().unwrap(),
        "/solar_api/v1/GetInverterRealtimeData.cgi?Scope=System"
    );
    assert_eq!(
        f.get_meter_realtime_data_system_request().unwrap(),
        "/solar_api/v1/GetMeterRealtimeData.cgi?Scope=System"
    );
    assert_eq!(
        f.get_storage_realtime_data_system_request().unwrap(),
        "/solar_api/v1/GetStorageRealtimeData.cgi?Scope=System"
    );
    assert_eq!(
        f.get_ohm_pilot_realtime_data_system_request().unwrap(),
        "/solar_api/v1/GetOhmPilotRealtimeData.cgi?Scope=System"
    );
}

#[test]
fn device_scoped_requests_carry_the_identifier() {
    let f = client();
    let id0 = DeviceId::try_from(0).unwrap();
    let id99 = DeviceId::try_from(99).unwrap();
    assert_eq!(
        f.get_meter_realtime_data_device_request(&id0).unwrap(),
        "/solar_api/v1/GetMeterRealtimeData.cgi?Scope=Device&DeviceId=0"
    );
    assert_eq!(
        f.get_storage_realtime_data_device_request(&id99).unwrap(),
        "/solar_api/v1/GetStorageRealtimeData.cgi?Scope=Device&DeviceId=99"
    );
    assert_eq!(
        f.get_ohm_pilot_realtime_data_device_request(&id0).unwrap(),
        "/solar_api/v1/GetOhmPilotRealtimeData.cgi?Scope=Device&DeviceId=0"
    );
}

#[test]
fn parameterless_requests_carry_no_query() {
    let f = client();
    assert_eq!(f.get_inverter_info_request().unwrap(), "/solar_api/v1/GetInverterInfo.cgi");
    assert_eq!(
        f.get_active_device_info_request().unwrap(),
        "/solar_api/v1/GetActiveDeviceInfo.cgi"
    );
    assert_eq!(
        f.get_power_flow_realtime_data_request().unwrap(),
        "/solar_api/v1/GetPowerFlowRealtimeData.fcgi"
    );
}

#[test]
fn a_base_path_without_a_directory_does_not_resolve() {
    let f = Fronius::connect(ApiVersion {
        api_version: 1,
        base_url: "solar".to_string(),
        compatibility_range: String::new(),
    })
    .unwrap();
    assert_eq!(
        f.get_inverter_info_request().unwrap_err(),
        Error::InvalidEndpoint("GetInverterInfo.cgi".to_string())
    );
}

#[test]
fn a_base_path_without_a_trailing_slash_resolves_at_its_directory() {
    let f = Fronius::connect(ApiVersion {
        api_version: 1,
        base_url: "/solar_api/v1".to_string(),
        compatibility_range: String::new(),
    })
    .unwrap();
    assert_eq!(f.get_inverter_info_request().unwrap(), "/solar_api/GetInverterInfo.cgi");
}

#[test]
fn caller_supplied_parameters_keep_their_order() {
    let f = client();
    let params = vec![
        ("b".to_string(), "2".to_string()),
        ("a".to_string(), "1".to_string()),
    ];
    assert_eq!(
        f.make_request_url("GetInverterInfo.cgi", &params).unwrap(),
        "/solar_api/v1/GetInverterInfo.cgi?b=2&a=1"
    );
}
