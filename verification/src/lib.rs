//! Verified acquisition pipeline for a wireless water-meter receiver.
//!
//! The library covers the three layers of the pipeline: a register-level
//! model of the sub-GHz transceiver (`radio`), the wMBus frame decoder with
//! its counter-mode decryption (`wmbus`), and the vendor payload parser
//! (`multical21`), together with the persisted configuration (`config`) and
//! the wire encoding of the home-automation API (`esphome`).

pub mod config;
pub mod esphome;
pub mod multical21;
pub mod radio;
pub mod wmbus;
