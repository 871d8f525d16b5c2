//! Verified core of an adapter that serves vehicle diagnostics over a
//! REST/JSON surface (SOVD) while speaking ISO 14229 UDS to the ECUs.

pub mod bytes;
pub mod config;
pub mod data_identifiers;
pub mod dtc;
pub mod error;
pub mod hex;
pub mod models;
pub mod pool;
pub mod query;
pub mod service;
pub mod session;
pub mod table;
pub mod text;
pub mod translator;
pub mod uds;
pub mod value;
