//! Cross-platform OBD-II diagnostic library: protocol decoding, DTC handling,
//! adapter response interpretation and session decisions, with contracts
//! checked by Verus.

pub mod text;
pub mod error;
pub mod protocol;
pub mod vehicle;
pub mod session;
pub mod transport;
pub mod adapter;
pub mod hwtest;
