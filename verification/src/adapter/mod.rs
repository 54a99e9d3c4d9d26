//! Adapter-side types: routing of requests, protocol probing, adapter events,
//! chipset detection and the ELM327 and mock adapters' logic.

pub mod detect;
pub mod elm327;
pub mod mock;
pub mod init;

use vstd::prelude::*;
use crate::vehicle::{KLineInit, PhysicalAddress, Protocol};

verus! {

/// Physical request target resolved from discovery/profile data.
#[derive(Debug, Clone)]
pub enum PhysicalTarget {
    Broadcast,
    Addressed(PhysicalAddress),
}

/// Diagnostic request with resolved physical routing.
#[derive(Debug, Clone)]
pub struct RoutedRequest {
    pub service_id: u8,
    pub data: Vec<u8>,
    pub target: PhysicalTarget,
}

/// How the active protocol was chosen.
#[derive(Debug, Clone, Copy, PartialEq, Eq, Structural)]
pub enum ProtocolSelectionSource {
    AutoDetect,
    ExplicitProbe,
    SpecPreference,
}

/// Outcome of probing one protocol.
#[derive(Debug, Clone, Copy, PartialEq, Eq, Structural)]
pub enum ProbeResult {
    Success,
    NoResponse,
    BusInitFailure,
    BusError,
    CanError,
    UnableToConnect,
    UnsupportedProtocol,
    AdapterFault,
}

/// One protocol probe and its outcome.
#[derive(Debug, Clone, PartialEq, Eq)]
pub struct ProbeAttempt {
    pub protocol: Protocol,
    pub source: ProtocolSelectionSource,
    pub result: ProbeResult,
    pub detail: Option<String>,
}

/// Something the adapter reported or did.
#[derive(Debug, Clone, PartialEq, Eq)]
pub enum AdapterEventKind {
    Reset,
    ProtocolSearching,
    ProtocolSelected(Protocol),
    HeaderChanged { header: String },
    HeaderReset { header: String },
    NullBytesFiltered { count: usize },
    SearchingDisplayed,
    BusBusy,
    BusError,
    CanError,
    DataError,
    RxError,
    Stopped,
    Err94,
    LowVoltageReset,
    UnknownCommand,
    UnsupportedProtocol,
    RecoveryAction { action: String },
}

/// An adapter event with optional detail text.
#[derive(Debug, Clone, PartialEq, Eq)]
pub struct AdapterEvent {
    pub kind: AdapterEventKind,
    pub detail: Option<String>,
}

/// What adapter initialization found.
#[derive(Debug, Clone)]
pub struct InitializationReport {
    pub info: AdapterInfo,
    pub probe_attempts: Vec<ProbeAttempt>,
    pub events: Vec<AdapterEvent>,
}

/// Information about the connected OBD-II adapter hardware.
#[derive(Debug, Clone)]
pub struct AdapterInfo {
    /// Detected chipset type.
    pub chipset: Chipset,
    /// Firmware version string from adapter.
    pub firmware: String,
    /// Detected OBD-II protocol.
    pub protocol: Protocol,
    /// Adapter capabilities.
    pub capabilities: Capabilities,
}

/// Known OBD-II adapter chipset types.
#[derive(Debug, Clone, Copy, PartialEq, Eq, Structural)]
pub enum Chipset {
    /// ELM327 clone (v1.0-v1.5) — limited features.
    Elm327Clone,
    /// Genuine ELM327 (v2.0+) — full feature set.
    Elm327Genuine,
    /// STN chip (STN1110, STN2120) — enhanced features.
    Stn,
    /// Unknown or undetected chipset.
    Unknown,
}

/// Adapter hardware capabilities.
#[derive(Debug, Clone, Copy, PartialEq, Eq, Structural)]
pub struct Capabilities {
    /// Can clear DTCs (Mode 04).
    pub can_clear_dtcs: bool,
    /// Supports dual CAN buses.
    pub dual_can: bool,
    /// Supports enhanced diagnostics (Mode 22, etc.).
    pub enhanced_diag: bool,
    /// Can read battery voltage (AT RV).
    pub battery_voltage: bool,
    /// Supports adaptive timing (AT AT).
    pub adaptive_timing: bool,
    /// Supports K-line initialization control.
    pub kline_init: bool,
    /// Supports K-line wakeup configuration.
    pub kline_wakeup: bool,
    /// Supports CAN receive filtering.
    pub can_filtering: bool,
    /// Supports CAN flow control configuration.
    pub can_flow_control: bool,
    /// Supports CAN extended addressing.
    pub can_extended_addressing: bool,
    /// Supports CAN silent mode configuration.
    pub can_silent_mode: bool,
}

impl Default for Capabilities {
    /// No capabilities at all.
    fn default() -> (c: Self)
        ensures
            !c.can_clear_dtcs && !c.dual_can && !c.enhanced_diag && !c.battery_voltage
                && !c.adaptive_timing && !c.kline_init && !c.kline_wakeup && !c.can_filtering
                && !c.can_flow_control && !c.can_extended_addressing && !c.can_silent_mode,
    {
        Capabilities {
            can_clear_dtcs: false,
            dual_can: false,
            enhanced_diag: false,
            battery_voltage: false,
            adaptive_timing: false,
            kline_init: false,
            kline_wakeup: false,
            can_filtering: false,
            can_flow_control: false,
            can_extended_addressing: false,
            can_silent_mode: false,
        }
    }
}

/// A copy of adapter information.
pub(crate) fn copy_info(info: &AdapterInfo) -> (r: AdapterInfo)
    ensures
        r.chipset == info.chipset,
        r.firmware@ == info.firmware@,
        r.protocol == info.protocol,
        r.capabilities == info.capabilities,
{
    AdapterInfo {
        chipset: info.chipset,
        firmware: info.firmware.clone(),
        protocol: info.protocol,
        capabilities: info.capabilities,
    }
}

/// The protocol named by an ELM327 protocol number.
pub open spec fn protocol_of_elm_code(code: char) -> Option<Protocol> {
    match code {
        '1' => Some(Protocol::J1850Pwm),
        '2' => Some(Protocol::J1850Vpw),
        '3' => Some(Protocol::Iso9141(KLineInit::SlowInit)),
        '4' => Some(Protocol::Kwp2000(KLineInit::SlowInit)),
        '5' => Some(Protocol::Kwp2000(KLineInit::FastInit)),
        '6' => Some(Protocol::Can11Bit500),
        '7' => Some(Protocol::Can29Bit500),
        '8' => Some(Protocol::Can11Bit250),
        '9' => Some(Protocol::Can29Bit250),
        _ => None,
    }
}

impl Protocol {
    pub fn from_elm_code(code: char) -> (r: Option<Self>)
        ensures
            r == protocol_of_elm_code(code),
    {
        match code {
            '1' => Some(Self::J1850Pwm),
            '2' => Some(Self::J1850Vpw),
            '3' => Some(Self::Iso9141(KLineInit::SlowInit)),
            '4' => Some(Self::Kwp2000(KLineInit::SlowInit)),
            '5' => Some(Self::Kwp2000(KLineInit::FastInit)),
            '6' => Some(Self::Can11Bit500),
            '7' => Some(Self::Can29Bit500),
            '8' => Some(Self::Can11Bit250),
            '9' => Some(Self::Can29Bit250),
            _ => None,
        }
    }
}

} // verus!
