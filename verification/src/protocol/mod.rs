//! OBD-II and J1939 protocol types and decoding.

pub mod dtc_table;
pub mod dtc;
pub mod pid;
pub mod j1939;
pub mod service;
pub mod enhanced;
