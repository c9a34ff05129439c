//! Core of a patient room monitor: classification of sensor readings into
//! alert states, parsing of the device line protocol, an ordered in-memory
//! event store, a bounded lossy broadcast hub, a shared settings store, and
//! the pure decision logic of the live-viewer sessions.

pub mod activity;
pub mod alert;
pub mod api;
pub mod fhir;
pub mod hub;
pub mod monitor;
pub mod parse;
pub mod reading;
pub mod session;
pub mod settings;
pub mod store;
pub mod text;
pub mod timefmt;
