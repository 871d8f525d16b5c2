//! Well-known UDS data identifiers (DIDs).

use vstd::prelude::*;

verus! {

pub const VIN: u16 = 0xF190;
pub const ECU_SERIAL_NUMBER: u16 = 0xF18C;
pub const ECU_MANUFACTURING_DATE: u16 = 0xF18B;
pub const ECU_HARDWARE_VERSION: u16 = 0xF191;
pub const ECU_SOFTWARE_VERSION: u16 = 0xF194;
pub const SYSTEM_SUPPLIER_ID: u16 = 0xF18A;
pub const ECU_HARDWARE_NUMBER: u16 = 0xF191;
pub const ECU_SOFTWARE_NUMBER: u16 = 0xF194;
pub const VEHICLE_MANUFACTURER_ECU_SOFTWARE_NUMBER: u16 = 0xF195;

} // verus!
