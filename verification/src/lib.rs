//! Typed client core for the Fronius Solar API: device identifiers, the
//! response envelope with its status contract, the typed realtime-data
//! payload shapes, and the construction of endpoint requests.
//!
//! The library is the computational half of a poller: it builds the
//! path-and-query of every request and decodes every response body, while
//! the surrounding application performs the HTTP transfers and forwards
//! the decoded readings to a sink.

pub mod client;
pub mod decode;
pub mod device;
pub mod envelope;
pub mod error;
pub mod info;
pub mod inverter;
pub mod json;
pub mod meter;
pub mod ohmpilot;
pub mod parse;
pub mod powerflow;
pub mod status;
pub mod storage;

pub use client::Fronius;
pub use device::DeviceId;
pub use device::InvalidDeviceId;
pub use envelope::ApiVersion;
pub use envelope::CommonResponseBody;
pub use envelope::CommonResponseHeader;
pub use envelope::FroniusResponse;
pub use error::DecodeError;
pub use error::Error;
pub use info::DeviceInfo;
pub use info::DeviceInfos;
pub use info::DeviceType;
pub use info::InverterInfo;
pub use info::InverterInfos;
pub use info::InverterStatusCode;
pub use inverter::CommonInverterData;
pub use inverter::CumulationInverterData;
pub use inverter::CumulationInverterDataSystem;
pub use inverter::DataCollection;
pub use inverter::ThreePInverterData;
pub use inverter::ThreePhaseInverterData;
pub use inverter::UnitAndValue;
pub use inverter::UnitAndValues;
pub use json::JsonNumber;
pub use json::JsonValue;
pub use meter::DeviceDetails;
pub use meter::MeterData;
pub use meter::MeterDataSystem;
pub use ohmpilot::OhmPilotCodeOfState;
pub use ohmpilot::OhmPilotData;
pub use ohmpilot::OhmPilotDataSystem;
pub use ohmpilot::OhmPilotDetails;
pub use powerflow::PowerFlowData;
pub use powerflow::PowerFlowInverter;
pub use powerflow::PowerFlowOhmPilots;
pub use powerflow::PowerFlowSecondaryMeters;
pub use powerflow::PowerFlowSite;
pub use status::Status;
pub use status::StatusCode;
pub use storage::StorageController;
pub use storage::StorageData;
pub use storage::StorageDataSystem;
pub use storage::StorageModule;
