//! Session decisions: decoding of mode responses, DTC intelligence, discovery,
//! polling configuration and the state a session keeps.

pub mod modes;
pub mod diag_session;
pub mod poller;
pub mod diagnostics;
pub mod discovery;
pub mod routing;
pub mod state;
pub mod capture;
pub mod responses;
pub mod threshold;
pub mod enhanced;

pub use state::ConnectionState;
