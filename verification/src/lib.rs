//! Session controller for an interactive Bluetooth Low Energy (BLE)
//! REPL.
//!
//! The controller owns the decision logic of a single-connection BLE
//! session: building the scan table from observed advertisements,
//! resolving user identifiers to peripherals, tracking connection
//! state, normalizing GATT capability flags, and planning
//! characteristic I/O. All hardware interaction — the adapter, the
//! radio, the actual reads and writes — happens outside the library:
//! operations take plain snapshots of what the adapter currently
//! reports and return plain decisions for the caller to carry out.

pub mod adapter;
pub mod controller;
pub mod error;
pub mod flags;
pub mod matching;
pub mod model;
