//! Diagnostic service definitions.

use vstd::prelude::*;
use crate::protocol::pid::Pid;

verus! {

/// Diagnostic session type (Mode 10).
#[derive(Debug, Clone, Copy, PartialEq, Eq, Structural)]
pub enum DiagSession {
    Default,
    Programming,
    Extended,
}

/// Actuator command for Mode 2F.
#[derive(Debug, Clone)]
pub enum ActuatorCommand {
    ReturnToEcu,
    Adjust(Vec<u8>),
    Activate,
}

/// Readiness monitor status (decoded from Mode 01 PID 01).
#[derive(Debug, Clone)]
pub struct ReadinessStatus {
    pub mil_on: bool,
    pub dtc_count: u8,
    pub compression_ignition: bool,
    pub monitors: Vec<MonitorStatus>,
}

/// Status of a single readiness monitor.
#[derive(Debug, Clone)]
pub struct MonitorStatus {
    pub name: String,
    pub supported: bool,
    pub complete: bool,
}

/// Vehicle identification info (Mode 09).
#[derive(Debug, Clone)]
pub struct VehicleInfo {
    pub vin: String,
    pub calibration_ids: Vec<String>,
    pub cvns: Vec<u32>,
    pub ecu_name: Option<String>,
}

/// Extended DTC detail (Mode 19 sub-function 06).
#[derive(Debug, Clone)]
pub struct DtcDetail {
    pub code: String,
    pub occurrence_count: u16,
    pub aging_counter: u16,
}

/// O2 sensor location encoding for Mode 05.
#[derive(Debug, Clone, Copy, PartialEq, Eq, Structural)]
pub enum O2SensorLocation {
    Bank1Sensor1,
    Bank1Sensor2,
    Bank2Sensor1,
    Bank2Sensor2,
    Bank3Sensor1,
    Bank3Sensor2,
    Bank4Sensor1,
    Bank4Sensor2,
}

/// The sensor named by a Mode 05 sensor number byte.
pub open spec fn o2_location_of(b: u8) -> Option<O2SensorLocation> {
    match b {
        0x01 => Some(O2SensorLocation::Bank1Sensor1),
        0x02 => Some(O2SensorLocation::Bank1Sensor2),
        0x03 => Some(O2SensorLocation::Bank2Sensor1),
        0x04 => Some(O2SensorLocation::Bank2Sensor2),
        0x05 => Some(O2SensorLocation::Bank3Sensor1),
        0x06 => Some(O2SensorLocation::Bank3Sensor2),
        0x07 => Some(O2SensorLocation::Bank4Sensor1),
        0x08 => Some(O2SensorLocation::Bank4Sensor2),
        _ => None,
    }
}

/// Short label of a sensor location (`B1S1` .. `B4S2`).
pub open spec fn o2_label(l: O2SensorLocation) -> &'static str {
    match l {
        O2SensorLocation::Bank1Sensor1 => "B1S1",
        O2SensorLocation::Bank1Sensor2 => "B1S2",
        O2SensorLocation::Bank2Sensor1 => "B2S1",
        O2SensorLocation::Bank2Sensor2 => "B2S2",
        O2SensorLocation::Bank3Sensor1 => "B3S1",
        O2SensorLocation::Bank3Sensor2 => "B3S2",
        O2SensorLocation::Bank4Sensor1 => "B4S1",
        O2SensorLocation::Bank4Sensor2 => "B4S2",
    }
}

impl O2SensorLocation {
    /// Decode from the Mode 05 sensor number byte.
    pub fn from_byte(b: u8) -> (r: Option<Self>)
        ensures
            r == o2_location_of(b),
            r is Some <==> 0x01 <= b <= 0x08,
    {
        match b {
            0x01 => Some(Self::Bank1Sensor1),
            0x02 => Some(Self::Bank1Sensor2),
            0x03 => Some(Self::Bank2Sensor1),
            0x04 => Some(Self::Bank2Sensor2),
            0x05 => Some(Self::Bank3Sensor1),
            0x06 => Some(Self::Bank3Sensor2),
            0x07 => Some(Self::Bank4Sensor1),
            0x08 => Some(Self::Bank4Sensor2),
            _ => None,
        }
    }

    /// Display label (`B1S1` .. `B4S2`).
    pub fn to_string(&self) -> (s: String)
        ensures
            s@ == o2_label(*self)@,
    {
        let l: &'static str = match self {
            Self::Bank1Sensor1 => "B1S1",
            Self::Bank1Sensor2 => "B1S2",
            Self::Bank2Sensor1 => "B2S1",
            Self::Bank2Sensor2 => "B2S2",
            Self::Bank3Sensor1 => "B3S1",
            Self::Bank3Sensor2 => "B3S2",
            Self::Bank4Sensor1 => "B4S1",
            Self::Bank4Sensor2 => "B4S2",
        };
        String::from_str(l)
    }
}

/// How the raw value of a Mode 05 test is scaled.
#[derive(Debug, Clone, Copy, PartialEq, Eq, Structural)]
pub enum O2Scale {
    /// 0.005 V per bit.
    Volts5mV,
    /// 0.004 s per bit.
    Seconds4ms,
    /// 0.04 s per bit.
    Seconds40ms,
    /// The raw value itself.
    Unscaled,
}

/// Name, unit and scaling of a Mode 05 test id.
pub open spec fn o2_test(tid: u8) -> (&'static str, &'static str, O2Scale) {
    match tid {
        0x01 => ("Rich-to-Lean Threshold Voltage", "V", O2Scale::Volts5mV),
        0x02 => ("Lean-to-Rich Threshold Voltage", "V", O2Scale::Volts5mV),
        0x03 => ("Low Sensor Voltage for Switch Time", "V", O2Scale::Volts5mV),
        0x04 => ("High Sensor Voltage for Switch Time", "V", O2Scale::Volts5mV),
        0x05 => ("Rich-to-Lean Switch Time", "s", O2Scale::Seconds4ms),
        0x06 => ("Lean-to-Rich Switch Time", "s", O2Scale::Seconds4ms),
        0x07 => ("Minimum Sensor Voltage", "V", O2Scale::Volts5mV),
        0x08 => ("Maximum Sensor Voltage", "V", O2Scale::Volts5mV),
        0x09 => ("Time Between Transitions", "s", O2Scale::Seconds40ms),
        _ => ("Unknown O2 Test", "", O2Scale::Unscaled),
    }
}

/// Return the test name, unit and scaling for a Mode 05 TID.
pub fn o2_test_spec(tid: u8) -> (r: (&'static str, &'static str, O2Scale))
    ensures
        r == o2_test(tid),
{
    match tid {
        0x01 => ("Rich-to-Lean Threshold Voltage", "V", O2Scale::Volts5mV),
        0x02 => ("Lean-to-Rich Threshold Voltage", "V", O2Scale::Volts5mV),
        0x03 => ("Low Sensor Voltage for Switch Time", "V", O2Scale::Volts5mV),
        0x04 => ("High Sensor Voltage for Switch Time", "V", O2Scale::Volts5mV),
        0x05 => ("Rich-to-Lean Switch Time", "s", O2Scale::Seconds4ms),
        0x06 => ("Lean-to-Rich Switch Time", "s", O2Scale::Seconds4ms),
        0x07 => ("Minimum Sensor Voltage", "V", O2Scale::Volts5mV),
        0x08 => ("Maximum Sensor Voltage", "V", O2Scale::Volts5mV),
        0x09 => ("Time Between Transitions", "s", O2Scale::Seconds40ms),
        _ => ("Unknown O2 Test", "", O2Scale::Unscaled),
    }
}

/// Request targeting.
#[derive(Debug, Clone, PartialEq, Eq)]
pub enum Target {
    Broadcast,
    Module(String),
}

/// A raw diagnostic service request.
#[derive(Debug, Clone)]
pub struct ServiceRequest {
    pub service_id: u8,
    pub data: Vec<u8>,
    pub target: Target,
}

impl ServiceRequest {
    /// Create a Mode 01 read PID request.
    pub fn read_pid(pid: Pid) -> (r: Self)
        ensures
            r.service_id == 0x01,
            r.data@ == seq![pid.0],
            r.target == Target::Broadcast,
    {
        Self { service_id: 0x01, data: vec![pid.0], target: Target::Broadcast }
    }

    /// Create a Mode 09 read VIN request.
    pub fn read_vin() -> (r: Self)
        ensures
            r.service_id == 0x09,
            r.data@ == seq![0x02u8],
            r.target == Target::Broadcast,
    {
        Self { service_id: 0x09, data: vec![0x02], target: Target::Broadcast }
    }

    /// Create a Mode 03 read stored DTCs request.
    pub fn read_dtcs() -> (r: Self)
        ensures
            r.service_id == 0x03,
            r.data@ == Seq::<u8>::empty(),
            r.target == Target::Broadcast,
    {
        Self { service_id: 0x03, data: Vec::new(), target: Target::Broadcast }
    }

    /// Create a Mode 22 (or 21) enhanced PID read: the DID big-endian.
    pub fn enhanced_read(service_id: u8, did: u16, target: Target) -> (r: Self)
        ensures
            r.service_id == service_id,
            r.data@ == seq![(did / 256) as u8, (did % 256) as u8],
            r.target == target,
    {
        Self { service_id, data: vec![(did / 256) as u8, (did % 256) as u8], target }
    }
}

} // verus!
