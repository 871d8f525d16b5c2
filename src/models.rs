//! Request and response shapes of the SOVD (REST) side.

use vstd::prelude::*;
use crate::dtc::DtcRecord;
use crate::value::SovdValue;

verus! {

/// A point in time, in milliseconds since the Unix epoch (UTC).
#[derive(Debug, Clone, Copy, PartialEq, Eq, Structural)]
pub struct Timestamp {
    pub unix_millis: i64,
}

/// Relies on `chrono::Utc::now` and `DateTime::timestamp_millis`: the
/// current UTC time in milliseconds since the epoch. Nothing is promised
/// of the value; chrono panics only when the system clock reads a time
/// before the epoch.
#[verifier::external_body]
fn utc_now_millis() -> (r: i64) {
    chrono::Utc::now().timestamp_millis()
}

impl Timestamp {
    /// The current time.
    pub fn now() -> (r: Timestamp) {
        Timestamp { unix_millis: utc_now_millis() }
    }
}

/// A diagnosable component.
#[derive(Debug, Clone)]
pub struct Component {
    pub id: String,
    pub name: String,
    pub description: Option<String>,
}

#[derive(Debug)]
pub struct ComponentsResponse {
    pub components: Vec<Component>,
}

/// A catalogued data item.
#[derive(Debug, Clone)]
pub struct DataItem {
    pub id: String,
    pub name: String,
    pub category: String,
    pub data_type: Option<String>,
    pub description: Option<String>,
}

#[derive(Debug)]
pub struct DataItemsResponse {
    pub items: Vec<DataItem>,
}

/// The value read for a data item.
#[derive(Debug)]
pub struct DataItemValue {
    pub id: String,
    pub name: String,
    pub category: String,
    pub data: SovdValue,
    pub timestamp: Option<Timestamp>,
    pub quality: Option<String>,
}

#[derive(Debug)]
pub struct ActuatorControlRequest {
    pub actuator_id: String,
    pub action: String,
    pub value: Option<SovdValue>,
    pub duration: Option<u32>,
}

#[derive(Debug)]
pub struct ActuatorControlResponse {
    pub actuator_id: String,
    pub action: String,
    pub status: String,
    pub value: Option<SovdValue>,
    pub message: Option<String>,
    pub timestamp: Option<Timestamp>,
}

#[derive(Debug)]
pub struct DtcManagementRequest {
    /// One of `clear`, `read`, `freeze_frame`.
    pub action: String,
    pub dtcs: Option<Vec<String>>,
}

/// Results of a DTC operation.
#[derive(Debug)]
pub enum DtcResults {
    /// Parsed records of a read.
    Dtcs(Vec<DtcRecord>),
    /// Freeze-frame data as upper-case hex.
    FreezeFrame(String),
}

#[derive(Debug)]
pub struct DtcManagementResponse {
    pub action: String,
    pub status: String,
    pub results: Option<DtcResults>,
    pub message: Option<String>,
    pub timestamp: Option<Timestamp>,
}

/// A generic service request; `parameters` holds named values.
#[derive(Debug)]
pub struct ServiceRequest {
    pub service_type: String,
    pub parameters: Option<Vec<(String, SovdValue)>>,
}

#[derive(Debug)]
pub struct ServiceResponse {
    pub service_type: String,
    pub status: String,
    pub results: Option<Vec<(String, SovdValue)>>,
    pub message: Option<String>,
    pub timestamp: Option<Timestamp>,
}

/// Query of the data-item listing: a comma-separated category list.
#[derive(Debug, Clone)]
pub struct DataQuery {
    pub categories: Option<String>,
}

} // verus!
