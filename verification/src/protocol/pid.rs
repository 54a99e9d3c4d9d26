//! Standard OBD-II PID definitions.

use vstd::prelude::*;
use crate::error::Obd2Error;
use crate::text::{byte_hex_upper, decimal, push_byte_hex_upper, push_decimal};

verus! {

/// The type of value a PID returns.
#[derive(Debug, Clone, Copy, PartialEq, Eq, Structural)]
pub enum ValueType {
    /// Numeric measurement (temperature, pressure, RPM, %)
    Scalar,
    /// Bitfield with named flags (readiness monitors, solenoid state)
    Bitfield,
    /// Enumerated state (gear position, key position)
    State,
}

/// Standard OBD-II PID (Mode 01/02). Newtype over u8 for type safety.
#[derive(Debug, Clone, Copy, PartialEq, Eq, Hash, Structural)]
pub struct Pid(pub u8);

/// Human-readable name of a PID code.
pub open spec fn pid_name(code: u8) -> &'static str {
    match code {
        0x00 => "Supported PIDs [01-20]",
        0x01 => "Monitor Status",
        0x03 => "Fuel System Status",
        0x04 => "Engine Load",
        0x05 => "Coolant Temperature",
        0x06 => "Short Term Fuel Trim (Bank 1)",
        0x07 => "Long Term Fuel Trim (Bank 1)",
        0x08 => "Short Term Fuel Trim (Bank 2)",
        0x09 => "Long Term Fuel Trim (Bank 2)",
        0x0A => "Fuel Pressure",
        0x0B => "Intake MAP",
        0x0C => "Engine RPM",
        0x0D => "Vehicle Speed",
        0x0E => "Timing Advance",
        0x0F => "Intake Air Temperature",
        0x10 => "MAF Air Flow Rate",
        0x11 => "Throttle Position",
        0x1C => "OBD Standard",
        0x1F => "Run Time Since Start",
        0x20 => "Supported PIDs [21-40]",
        0x21 => "Distance with MIL On",
        0x23 => "Fuel Rail Gauge Pressure",
        0x2C => "Commanded EGR",
        0x2D => "EGR Error",
        0x2E => "Commanded Evaporative Purge",
        0x2F => "Fuel Tank Level",
        0x30 => "Warm-ups Since Clear",
        0x31 => "Distance Since DTC Clear",
        0x33 => "Barometric Pressure",
        0x3C => "Catalyst Temp B1S1",
        0x3D => "Catalyst Temp B2S1",
        0x3E => "Catalyst Temp B1S2",
        0x3F => "Catalyst Temp B2S2",
        0x40 => "Supported PIDs [41-60]",
        0x42 => "Control Module Voltage",
        0x43 => "Absolute Load",
        0x44 => "Commanded Equivalence Ratio",
        0x45 => "Relative Throttle Position",
        0x46 => "Ambient Air Temperature",
        0x47 => "Absolute Throttle Position B",
        0x49 => "Accelerator Pedal Position D",
        0x4A => "Accelerator Pedal Position E",
        0x4C => "Commanded Throttle Actuator",
        0x59 => "Fuel Rail Absolute Pressure",
        0x5C => "Engine Oil Temperature",
        0x5E => "Engine Fuel Rate",
        0x60 => "Supported PIDs [61-80]",
        0x61 => "Demanded Torque",
        0x62 => "Actual Torque",
        0x63 => "Reference Torque",
        _ => "Unknown PID",
    }
}

/// Whether the name table lists a PID code.
pub open spec fn pid_is_named(code: u8) -> bool {
    match code {
        0x00|0x01|0x03|0x04|0x05|0x06|0x07|0x08|0x09|0x0A|0x0B|0x0C|0x0D|0x0E|0x0F|0x10|0x11|0x1C|0x1F|0x20|0x21|0x23|0x2C|0x2D|0x2E|0x2F|0x30|0x31|0x33|0x3C|0x3D|0x3E|0x3F|0x40|0x42|0x43|0x44|0x45|0x46|0x47|0x49|0x4A|0x4C|0x59|0x5C|0x5E|0x60|0x61|0x62|0x63 => true,
        _ => false,
    }
}

/// Measurement unit of a PID code.
pub open spec fn pid_unit(code: u8) -> &'static str {
    match code {
        0x00 | 0x01 | 0x03 | 0x20 | 0x40 | 0x60 => "bitfield",
        0x04 | 0x06 | 0x07 | 0x08 | 0x09 | 0x11 | 0x2C | 0x2D | 0x2E | 0x2F | 0x43 | 0x45 | 0x47 | 0x49 | 0x4A
        | 0x4C | 0x61 | 0x62 => "%",
        0x05 | 0x0F | 0x3C | 0x3D | 0x3E | 0x3F | 0x46 | 0x5C => "\u{00B0}C",
        0x0A | 0x0B | 0x23 | 0x33 | 0x59 => "kPa",
        0x0C => "RPM",
        0x0D => "km/h",
        0x0E => "\u{00B0}",
        0x10 => "g/s",
        0x1F => "s",
        0x21 | 0x31 => "km",
        0x30 => "count",
        0x42 => "V",
        0x44 => "\u{03BB}",
        0x5E => "L/h",
        0x63 => "Nm",
        _ => "",
    }
}

/// Number of response data bytes of a PID code.
pub open spec fn pid_response_bytes(code: u8) -> u8 {
    match code {
        0x00 | 0x01 | 0x20 | 0x40 | 0x60 => 4,
        0x0C | 0x10 | 0x1F | 0x21 | 0x23 | 0x31 | 0x3C | 0x3D | 0x3E | 0x3F | 0x42 | 0x43 | 0x44 | 0x59 | 0x5E
        | 0x63 => 2,
        _ => 1,
    }
}

/// Kind of value a PID code returns.
pub open spec fn pid_value_type(code: u8) -> ValueType {
    match code {
        0x00 | 0x01 | 0x03 | 0x20 | 0x40 | 0x60 => ValueType::Bitfield,
        0x1C => ValueType::State,
        _ => ValueType::Scalar,
    }
}

/// All known standard PIDs, in the order the library lists them.
pub open spec fn all_pids() -> Seq<Pid> {
    seq![Pid(0x00), Pid(0x01), Pid(0x03), Pid(0x04), Pid(0x05), Pid(0x06), Pid(0x07), Pid(0x08), Pid(0x09), Pid(0x0A), Pid(0x0B), Pid(0x0C), Pid(0x0D), Pid(0x0E), Pid(0x0F), Pid(0x10), Pid(0x11), Pid(0x1C), Pid(0x1F), Pid(0x20), Pid(0x21), Pid(0x23), Pid(0x2C), Pid(0x2D), Pid(0x2E), Pid(0x2F), Pid(0x30), Pid(0x31), Pid(0x33), Pid(0x3C), Pid(0x3D), Pid(0x3E), Pid(0x3F), Pid(0x40), Pid(0x42), Pid(0x43), Pid(0x44), Pid(0x45), Pid(0x46), Pid(0x47), Pid(0x49), Pid(0x4A), Pid(0x4C), Pid(0x59), Pid(0x5C), Pid(0x5E), Pid(0x60), Pid(0x61), Pid(0x62), Pid(0x63)]
}

/// Display text of a PID: its name and code, `Name (0xHH)`.
pub open spec fn pid_display(p: Pid) -> Seq<char> {
    pid_name(p.0)@ + " (0x"@ + byte_hex_upper(p.0) + ")"@
}

impl Pid {
    #[allow(non_snake_case)]
    pub fn SUPPORTED_PIDS_01_20() -> (p: Pid)
        ensures
            p == Pid(0x00),
    {
        Pid(0x00)
    }
    #[allow(non_snake_case)]
    pub fn MONITOR_STATUS() -> (p: Pid)
        ensures
            p == Pid(0x01),
    {
        Pid(0x01)
    }
    #[allow(non_snake_case)]
    pub fn FUEL_SYSTEM_STATUS() -> (p: Pid)
        ensures
            p == Pid(0x03),
    {
        Pid(0x03)
    }
    #[allow(non_snake_case)]
    pub fn ENGINE_LOAD() -> (p: Pid)
        ensures
            p == Pid(0x04),
    {
        Pid(0x04)
    }
    #[allow(non_snake_case)]
    pub fn COOLANT_TEMP() -> (p: Pid)
        ensures
            p == Pid(0x05),
    {
        Pid(0x05)
    }
    #[allow(non_snake_case)]
    pub fn SHORT_FUEL_TRIM_B1() -> (p: Pid)
        ensures
            p == Pid(0x06),
    {
        Pid(0x06)
    }
    #[allow(non_snake_case)]
    pub fn LONG_FUEL_TRIM_B1() -> (p: Pid)
        ensures
            p == Pid(0x07),
    {
        Pid(0x07)
    }
    #[allow(non_snake_case)]
    pub fn SHORT_FUEL_TRIM_B2() -> (p: Pid)
        ensures
            p == Pid(0x08),
    {
        Pid(0x08)
    }
    #[allow(non_snake_case)]
    pub fn LONG_FUEL_TRIM_B2() -> (p: Pid)
        ensures
            p == Pid(0x09),
    {
        Pid(0x09)
    }
    #[allow(non_snake_case)]
    pub fn FUEL_PRESSURE() -> (p: Pid)
        ensures
            p == Pid(0x0A),
    {
        Pid(0x0A)
    }
    #[allow(non_snake_case)]
    pub fn INTAKE_MAP() -> (p: Pid)
        ensures
            p == Pid(0x0B),
    {
        Pid(0x0B)
    }
    #[allow(non_snake_case)]
    pub fn ENGINE_RPM() -> (p: Pid)
        ensures
            p == Pid(0x0C),
    {
        Pid(0x0C)
    }
    #[allow(non_snake_case)]
    pub fn VEHICLE_SPEED() -> (p: Pid)
        ensures
            p == Pid(0x0D),
    {
        Pid(0x0D)
    }
    #[allow(non_snake_case)]
    pub fn TIMING_ADVANCE() -> (p: Pid)
        ensures
            p == Pid(0x0E),
    {
        Pid(0x0E)
    }
    #[allow(non_snake_case)]
    pub fn INTAKE_AIR_TEMP() -> (p: Pid)
        ensures
            p == Pid(0x0F),
    {
        Pid(0x0F)
    }
    #[allow(non_snake_case)]
    pub fn MAF() -> (p: Pid)
        ensures
            p == Pid(0x10),
    {
        Pid(0x10)
    }
    #[allow(non_snake_case)]
    pub fn THROTTLE_POSITION() -> (p: Pid)
        ensures
            p == Pid(0x11),
    {
        Pid(0x11)
    }
    #[allow(non_snake_case)]
    pub fn OBD_STANDARD() -> (p: Pid)
        ensures
            p == Pid(0x1C),
    {
        Pid(0x1C)
    }
    #[allow(non_snake_case)]
    pub fn RUN_TIME() -> (p: Pid)
        ensures
            p == Pid(0x1F),
    {
        Pid(0x1F)
    }
    #[allow(non_snake_case)]
    pub fn SUPPORTED_PIDS_21_40() -> (p: Pid)
        ensures
            p == Pid(0x20),
    {
        Pid(0x20)
    }
    #[allow(non_snake_case)]
    pub fn DISTANCE_WITH_MIL() -> (p: Pid)
        ensures
            p == Pid(0x21),
    {
        Pid(0x21)
    }
    #[allow(non_snake_case)]
    pub fn FUEL_RAIL_GAUGE_PRESSURE() -> (p: Pid)
        ensures
            p == Pid(0x23),
    {
        Pid(0x23)
    }
    #[allow(non_snake_case)]
    pub fn COMMANDED_EGR() -> (p: Pid)
        ensures
            p == Pid(0x2C),
    {
        Pid(0x2C)
    }
    #[allow(non_snake_case)]
    pub fn EGR_ERROR() -> (p: Pid)
        ensures
            p == Pid(0x2D),
    {
        Pid(0x2D)
    }
    #[allow(non_snake_case)]
    pub fn COMMANDED_EVAP_PURGE() -> (p: Pid)
        ensures
            p == Pid(0x2E),
    {
        Pid(0x2E)
    }
    #[allow(non_snake_case)]
    pub fn FUEL_TANK_LEVEL() -> (p: Pid)
        ensures
            p == Pid(0x2F),
    {
        Pid(0x2F)
    }
    #[allow(non_snake_case)]
    pub fn WARMUPS_SINCE_CLEAR() -> (p: Pid)
        ensures
            p == Pid(0x30),
    {
        Pid(0x30)
    }
    #[allow(non_snake_case)]
    pub fn DISTANCE_SINCE_CLEAR() -> (p: Pid)
        ensures
            p == Pid(0x31),
    {
        Pid(0x31)
    }
    #[allow(non_snake_case)]
    pub fn BAROMETRIC_PRESSURE() -> (p: Pid)
        ensures
            p == Pid(0x33),
    {
        Pid(0x33)
    }
    #[allow(non_snake_case)]
    pub fn CATALYST_TEMP_B1S1() -> (p: Pid)
        ensures
            p == Pid(0x3C),
    {
        Pid(0x3C)
    }
    #[allow(non_snake_case)]
    pub fn CATALYST_TEMP_B2S1() -> (p: Pid)
        ensures
            p == Pid(0x3D),
    {
        Pid(0x3D)
    }
    #[allow(non_snake_case)]
    pub fn CATALYST_TEMP_B1S2() -> (p: Pid)
        ensures
            p == Pid(0x3E),
    {
        Pid(0x3E)
    }
    #[allow(non_snake_case)]
    pub fn CATALYST_TEMP_B2S2() -> (p: Pid)
        ensures
            p == Pid(0x3F),
    {
        Pid(0x3F)
    }
    #[allow(non_snake_case)]
    pub fn SUPPORTED_PIDS_41_60() -> (p: Pid)
        ensures
            p == Pid(0x40),
    {
        Pid(0x40)
    }
    #[allow(non_snake_case)]
    pub fn CONTROL_MODULE_VOLTAGE() -> (p: Pid)
        ensures
            p == Pid(0x42),
    {
        Pid(0x42)
    }
    #[allow(non_snake_case)]
    pub fn ABSOLUTE_LOAD() -> (p: Pid)
        ensures
            p == Pid(0x43),
    {
        Pid(0x43)
    }
    #[allow(non_snake_case)]
    pub fn COMMANDED_EQUIV_RATIO() -> (p: Pid)
        ensures
            p == Pid(0x44),
    {
        Pid(0x44)
    }
    #[allow(non_snake_case)]
    pub fn RELATIVE_THROTTLE_POS() -> (p: Pid)
        ensures
            p == Pid(0x45),
    {
        Pid(0x45)
    }
    #[allow(non_snake_case)]
    pub fn AMBIENT_AIR_TEMP() -> (p: Pid)
        ensures
            p == Pid(0x46),
    {
        Pid(0x46)
    }
    #[allow(non_snake_case)]
    pub fn ABS_THROTTLE_POS_B() -> (p: Pid)
        ensures
            p == Pid(0x47),
    {
        Pid(0x47)
    }
    #[allow(non_snake_case)]
    pub fn ACCEL_PEDAL_POS_D() -> (p: Pid)
        ensures
            p == Pid(0x49),
    {
        Pid(0x49)
    }
    #[allow(non_snake_case)]
    pub fn ACCEL_PEDAL_POS_E() -> (p: Pid)
        ensures
            p == Pid(0x4A),
    {
        Pid(0x4A)
    }
    #[allow(non_snake_case)]
    pub fn COMMANDED_THROTTLE_ACTUATOR() -> (p: Pid)
        ensures
            p == Pid(0x4C),
    {
        Pid(0x4C)
    }
    #[allow(non_snake_case)]
    pub fn ENGINE_OIL_TEMP() -> (p: Pid)
        ensures
            p == Pid(0x5C),
    {
        Pid(0x5C)
    }
    #[allow(non_snake_case)]
    pub fn ENGINE_FUEL_RATE() -> (p: Pid)
        ensures
            p == Pid(0x5E),
    {
        Pid(0x5E)
    }
    #[allow(non_snake_case)]
    pub fn FUEL_RAIL_ABS_PRESSURE() -> (p: Pid)
        ensures
            p == Pid(0x59),
    {
        Pid(0x59)
    }
    #[allow(non_snake_case)]
    pub fn SUPPORTED_PIDS_61_80() -> (p: Pid)
        ensures
            p == Pid(0x60),
    {
        Pid(0x60)
    }
    #[allow(non_snake_case)]
    pub fn DEMANDED_TORQUE() -> (p: Pid)
        ensures
            p == Pid(0x61),
    {
        Pid(0x61)
    }
    #[allow(non_snake_case)]
    pub fn ACTUAL_TORQUE() -> (p: Pid)
        ensures
            p == Pid(0x62),
    {
        Pid(0x62)
    }
    #[allow(non_snake_case)]
    pub fn REFERENCE_TORQUE() -> (p: Pid)
        ensures
            p == Pid(0x63),
    {
        Pid(0x63)
    }

    /// Human-readable name for this PID.
    pub fn name(&self) -> (s: &'static str)
        ensures
            s == pid_name(self.0),
            !pid_is_named(self.0) ==> s == "Unknown PID",
    {
        match self.0 {
        0x00 => "Supported PIDs [01-20]",
        0x01 => "Monitor Status",
        0x03 => "Fuel System Status",
        0x04 => "Engine Load",
        0x05 => "Coolant Temperature",
        0x06 => "Short Term Fuel Trim (Bank 1)",
        0x07 => "Long Term Fuel Trim (Bank 1)",
        0x08 => "Short Term Fuel Trim (Bank 2)",
        0x09 => "Long Term Fuel Trim (Bank 2)",
        0x0A => "Fuel Pressure",
        0x0B => "Intake MAP",
        0x0C => "Engine RPM",
        0x0D => "Vehicle Speed",
        0x0E => "Timing Advance",
        0x0F => "Intake Air Temperature",
        0x10 => "MAF Air Flow Rate",
        0x11 => "Throttle Position",
        0x1C => "OBD Standard",
        0x1F => "Run Time Since Start",
        0x20 => "Supported PIDs [21-40]",
        0x21 => "Distance with MIL On",
        0x23 => "Fuel Rail Gauge Pressure",
        0x2C => "Commanded EGR",
        0x2D => "EGR Error",
        0x2E => "Commanded Evaporative Purge",
        0x2F => "Fuel Tank Level",
        0x30 => "Warm-ups Since Clear",
        0x31 => "Distance Since DTC Clear",
        0x33 => "Barometric Pressure",
        0x3C => "Catalyst Temp B1S1",
        0x3D => "Catalyst Temp B2S1",
        0x3E => "Catalyst Temp B1S2",
        0x3F => "Catalyst Temp B2S2",
        0x40 => "Supported PIDs [41-60]",
        0x42 => "Control Module Voltage",
        0x43 => "Absolute Load",
        0x44 => "Commanded Equivalence Ratio",
        0x45 => "Relative Throttle Position",
        0x46 => "Ambient Air Temperature",
        0x47 => "Absolute Throttle Position B",
        0x49 => "Accelerator Pedal Position D",
        0x4A => "Accelerator Pedal Position E",
        0x4C => "Commanded Throttle Actuator",
        0x59 => "Fuel Rail Absolute Pressure",
        0x5C => "Engine Oil Temperature",
        0x5E => "Engine Fuel Rate",
        0x60 => "Supported PIDs [61-80]",
        0x61 => "Demanded Torque",
        0x62 => "Actual Torque",
        0x63 => "Reference Torque",
            _ => "Unknown PID",
        }
    }

    /// Measurement unit for this PID.
    pub fn unit(&self) -> (s: &'static str)
        ensures
            s == pid_unit(self.0),
    {
        match self.0 {
        0x00 | 0x01 | 0x03 | 0x20 | 0x40 | 0x60 => "bitfield",
        0x04 | 0x06 | 0x07 | 0x08 | 0x09 | 0x11 | 0x2C | 0x2D | 0x2E | 0x2F | 0x43 | 0x45 | 0x47 | 0x49 | 0x4A
        | 0x4C | 0x61 | 0x62 => "%",
        0x05 | 0x0F | 0x3C | 0x3D | 0x3E | 0x3F | 0x46 | 0x5C => "\u{00B0}C",
        0x0A | 0x0B | 0x23 | 0x33 | 0x59 => "kPa",
        0x0C => "RPM",
        0x0D => "km/h",
        0x0E => "\u{00B0}",
        0x10 => "g/s",
        0x1F => "s",
        0x21 | 0x31 => "km",
        0x30 => "count",
        0x42 => "V",
        0x44 => "\u{03BB}",
        0x5E => "L/h",
        0x63 => "Nm",
        _ => "",
        }
    }

    /// Check that a response carries the bytes this PID needs before its
    /// value is decoded: a parse error naming the PID and both counts when
    /// fewer are given.
    pub fn check_response_length(&self, data: &[u8]) -> (r: Result<(), Obd2Error>)
        ensures
            r is Ok <==> data@.len() >= pid_response_bytes(self.0),
            r matches Err(e) ==> e matches Obd2Error::ParseError(m) && m@ == "PID 0x"@ + byte_hex_upper(self.0)
                + " expects "@ + decimal(pid_response_bytes(self.0) as nat) + " bytes, got "@
                + decimal(data@.len()),
    {
        let expected = self.response_bytes();
        if data.len() < expected as usize {
            let mut m = String::from_str("PID 0x");
            push_byte_hex_upper(&mut m, self.0);
            m.append(" expects ");
            push_decimal(&mut m, expected as u64);
            m.append(" bytes, got ");
            push_decimal(&mut m, data.len() as u64);
            return Err(Obd2Error::ParseError(m));
        }
        Ok(())
    }

    /// Number of response data bytes expected for this PID.
    pub fn response_bytes(&self) -> (n: u8)
        ensures
            n == pid_response_bytes(self.0),
            1 <= n <= 4,
    {
        match self.0 {
        0x00 | 0x01 | 0x20 | 0x40 | 0x60 => 4,
        0x0C | 0x10 | 0x1F | 0x21 | 0x23 | 0x31 | 0x3C | 0x3D | 0x3E | 0x3F | 0x42 | 0x43 | 0x44 | 0x59 | 0x5E
        | 0x63 => 2,
        _ => 1,
        }
    }

    /// The type of value this PID returns.
    pub fn value_type(&self) -> (t: ValueType)
        ensures
            t == pid_value_type(self.0),
    {
        match self.0 {
        0x00 | 0x01 | 0x03 | 0x20 | 0x40 | 0x60 => ValueType::Bitfield,
        0x1C => ValueType::State,
        _ => ValueType::Scalar,
        }
    }

    /// Returns a slice of all known standard PIDs.
    pub fn all() -> (r: &'static [Pid])
        ensures
            r@ == all_pids(),
    {
        let r: &'static [Pid] = &[
            Pid(0x00),
            Pid(0x01),
            Pid(0x03),
            Pid(0x04),
            Pid(0x05),
            Pid(0x06),
            Pid(0x07),
            Pid(0x08),
            Pid(0x09),
            Pid(0x0A),
            Pid(0x0B),
            Pid(0x0C),
            Pid(0x0D),
            Pid(0x0E),
            Pid(0x0F),
            Pid(0x10),
            Pid(0x11),
            Pid(0x1C),
            Pid(0x1F),
            Pid(0x20),
            Pid(0x21),
            Pid(0x23),
            Pid(0x2C),
            Pid(0x2D),
            Pid(0x2E),
            Pid(0x2F),
            Pid(0x30),
            Pid(0x31),
            Pid(0x33),
            Pid(0x3C),
            Pid(0x3D),
            Pid(0x3E),
            Pid(0x3F),
            Pid(0x40),
            Pid(0x42),
            Pid(0x43),
            Pid(0x44),
            Pid(0x45),
            Pid(0x46),
            Pid(0x47),
            Pid(0x49),
            Pid(0x4A),
            Pid(0x4C),
            Pid(0x59),
            Pid(0x5C),
            Pid(0x5E),
            Pid(0x60),
            Pid(0x61),
            Pid(0x62),
            Pid(0x63),
        ];
        proof {
            assert(r@ =~= all_pids());
        }
        r
    }

    /// Convert a raw byte code to a Pid.
    pub fn from_code(code: u8) -> (p: Pid)
        ensures
            p == Pid(code),
    {
        Pid(code)
    }

    /// Display text: `Name (0xHH)`.
    pub fn to_string(&self) -> (s: String)
        ensures
            s@ == pid_display(*self),
    {
        let mut s = String::from_str(self.name());
        s.append(" (0x");
        push_byte_hex_upper(&mut s, self.0);
        s.append(")");
        s
    }
}

/// Every PID that [`Pid::all`] lists has a name in the name table.
pub proof fn lemma_all_pids_named(i: int)
    requires
        0 <= i < all_pids().len(),
    ensures
        pid_is_named(all_pids()[i].0),
{
}

/// A PID code has a name other than `Unknown PID` exactly when the name
/// table lists it, and no two listed codes share a name.
#[verifier::rlimit(100)]
pub proof fn lemma_pid_names_distinct(a: u8, b: u8)
    ensures
        pid_name(a)@ != "Unknown PID"@ <==> pid_is_named(a),
        pid_is_named(a) && pid_is_named(b) && a != b ==> pid_name(a)@ != pid_name(b)@,
{
    reveal_strlit("Supported PIDs [01-20]");
    reveal_strlit("Monitor Status");
    reveal_strlit("Fuel System Status");
    reveal_strlit("Engine Load");
    reveal_strlit("Coolant Temperature");
    reveal_strlit("Short Term Fuel Trim (Bank 1)");
    reveal_strlit("Long Term Fuel Trim (Bank 1)");
    reveal_strlit("Short Term Fuel Trim (Bank 2)");
    reveal_strlit("Long Term Fuel Trim (Bank 2)");
    reveal_strlit("Fuel Pressure");
    reveal_strlit("Intake MAP");
    reveal_strlit("Engine RPM");
    reveal_strlit("Vehicle Speed");
    reveal_strlit("Timing Advance");
    reveal_strlit("Intake Air Temperature");
    reveal_strlit("MAF Air Flow Rate");
    reveal_strlit("Throttle Position");
    reveal_strlit("OBD Standard");
    reveal_strlit("Run Time Since Start");
    reveal_strlit("Supported PIDs [21-40]");
    reveal_strlit("Distance with MIL On");
    reveal_strlit("Fuel Rail Gauge Pressure");
    reveal_strlit("Commanded EGR");
    reveal_strlit("EGR Error");
    reveal_strlit("Commanded Evaporative Purge");
    reveal_strlit("Fuel Tank Level");
    reveal_strlit("Warm-ups Since Clear");
    reveal_strlit("Distance Since DTC Clear");
    reveal_strlit("Barometric Pressure");
    reveal_strlit("Catalyst Temp B1S1");
    reveal_strlit("Catalyst Temp B2S1");
    reveal_strlit("Catalyst Temp B1S2");
    reveal_strlit("Catalyst Temp B2S2");
    reveal_strlit("Supported PIDs [41-60]");
    reveal_strlit("Control Module Voltage");
    reveal_strlit("Absolute Load");
    reveal_strlit("Commanded Equivalence Ratio");
    reveal_strlit("Relative Throttle Position");
    reveal_strlit("Ambient Air Temperature");
    reveal_strlit("Absolute Throttle Position B");
    reveal_strlit("Accelerator Pedal Position D");
    reveal_strlit("Accelerator Pedal Position E");
    reveal_strlit("Commanded Throttle Actuator");
    reveal_strlit("Fuel Rail Absolute Pressure");
    reveal_strlit("Engine Oil Temperature");
    reveal_strlit("Engine Fuel Rate");
    reveal_strlit("Supported PIDs [61-80]");
    reveal_strlit("Demanded Torque");
    reveal_strlit("Actual Torque");
    reveal_strlit("Reference Torque");
    reveal_strlit("Unknown PID");
    assert("Supported PIDs [01-20]"@.len() == 22);
    assert("Monitor Status"@.len() == 14);
    assert("Fuel System Status"@.len() == 18);
    assert("Engine Load"@.len() == 11);
    assert("Coolant Temperature"@.len() == 19);
    assert("Short Term Fuel Trim (Bank 1)"@.len() == 29);
    assert("Long Term Fuel Trim (Bank 1)"@.len() == 28);
    assert("Short Term Fuel Trim (Bank 2)"@.len() == 29);
    assert("Long Term Fuel Trim (Bank 2)"@.len() == 28);
    assert("Fuel Pressure"@.len() == 13);
    assert("Intake MAP"@.len() == 10);
    assert("Engine RPM"@.len() == 10);
    assert("Vehicle Speed"@.len() == 13);
    assert("Timing Advance"@.len() == 14);
    assert("Intake Air Temperature"@.len() == 22);
    assert("MAF Air Flow Rate"@.len() == 17);
    assert("Throttle Position"@.len() == 17);
    assert("OBD Standard"@.len() == 12);
    assert("Run Time Since Start"@.len() == 20);
    assert("Supported PIDs [21-40]"@.len() == 22);
    assert("Distance with MIL On"@.len() == 20);
    assert("Fuel Rail Gauge Pressure"@.len() == 24);
    assert("Commanded EGR"@.len() == 13);
    assert("EGR Error"@.len() == 9);
    assert("Commanded Evaporative Purge"@.len() == 27);
    assert("Fuel Tank Level"@.len() == 15);
    assert("Warm-ups Since Clear"@.len() == 20);
    assert("Distance Since DTC Clear"@.len() == 24);
    assert("Barometric Pressure"@.len() == 19);
    assert("Catalyst Temp B1S1"@.len() == 18);
    assert("Catalyst Temp B2S1"@.len() == 18);
    assert("Catalyst Temp B1S2"@.len() == 18);
    assert("Catalyst Temp B2S2"@.len() == 18);
    assert("Supported PIDs [41-60]"@.len() == 22);
    assert("Control Module Voltage"@.len() == 22);
    assert("Absolute Load"@.len() == 13);
    assert("Commanded Equivalence Ratio"@.len() == 27);
    assert("Relative Throttle Position"@.len() == 26);
    assert("Ambient Air Temperature"@.len() == 23);
    assert("Absolute Throttle Position B"@.len() == 28);
    assert("Accelerator Pedal Position D"@.len() == 28);
    assert("Accelerator Pedal Position E"@.len() == 28);
    assert("Commanded Throttle Actuator"@.len() == 27);
    assert("Fuel Rail Absolute Pressure"@.len() == 27);
    assert("Engine Oil Temperature"@.len() == 22);
    assert("Engine Fuel Rate"@.len() == 16);
    assert("Supported PIDs [61-80]"@.len() == 22);
    assert("Demanded Torque"@.len() == 15);
    assert("Actual Torque"@.len() == 13);
    assert("Reference Torque"@.len() == 16);
    assert("Unknown PID"@.len() == 11);
    assert("Absolute Load"@[0] == 'A');
    assert("Absolute Load"@[1] == 'b');
    assert("Absolute Throttle Position B"@[0] == 'A');
    assert("Absolute Throttle Position B"@[1] == 'b');
    assert("Accelerator Pedal Position D"@[0] == 'A');
    assert("Accelerator Pedal Position D"@[1] == 'c');
    assert("Accelerator Pedal Position D"@[27] == 'D');
    assert("Accelerator Pedal Position E"@[0] == 'A');
    assert("Accelerator Pedal Position E"@[1] == 'c');
    assert("Accelerator Pedal Position E"@[27] == 'E');
    assert("Actual Torque"@[0] == 'A');
    assert("Actual Torque"@[1] == 'c');
    assert("Barometric Pressure"@[0] == 'B');
    assert("Catalyst Temp B1S1"@[0] == 'C');
    assert("Catalyst Temp B1S1"@[15] == '1');
    assert("Catalyst Temp B1S1"@[17] == '1');
    assert("Catalyst Temp B1S2"@[0] == 'C');
    assert("Catalyst Temp B1S2"@[15] == '1');
    assert("Catalyst Temp B1S2"@[17] == '2');
    assert("Catalyst Temp B2S1"@[0] == 'C');
    assert("Catalyst Temp B2S1"@[15] == '2');
    assert("Catalyst Temp B2S1"@[17] == '1');
    assert("Catalyst Temp B2S2"@[0] == 'C');
    assert("Catalyst Temp B2S2"@[15] == '2');
    assert("Catalyst Temp B2S2"@[17] == '2');
    assert("Commanded EGR"@[0] == 'C');
    assert("Commanded Equivalence Ratio"@[0] == 'C');
    assert("Commanded Equivalence Ratio"@[10] == 'E');
    assert("Commanded Equivalence Ratio"@[11] == 'q');
    assert("Commanded Evaporative Purge"@[0] == 'C');
    assert("Commanded Evaporative Purge"@[10] == 'E');
    assert("Commanded Evaporative Purge"@[11] == 'v');
    assert("Commanded Throttle Actuator"@[0] == 'C');
    assert("Commanded Throttle Actuator"@[10] == 'T');
    assert("Control Module Voltage"@[0] == 'C');
    assert("Coolant Temperature"@[0] == 'C');
    assert("Demanded Torque"@[0] == 'D');
    assert("Distance Since DTC Clear"@[0] == 'D');
    assert("Distance with MIL On"@[0] == 'D');
    assert("Engine Fuel Rate"@[0] == 'E');
    assert("Engine Load"@[0] == 'E');
    assert("Engine Oil Temperature"@[0] == 'E');
    assert("Engine RPM"@[0] == 'E');
    assert("Fuel Pressure"@[0] == 'F');
    assert("Fuel Rail Absolute Pressure"@[0] == 'F');
    assert("Fuel Rail Gauge Pressure"@[0] == 'F');
    assert("Fuel System Status"@[0] == 'F');
    assert("Fuel Tank Level"@[0] == 'F');
    assert("Intake Air Temperature"@[0] == 'I');
    assert("Intake MAP"@[0] == 'I');
    assert("Long Term Fuel Trim (Bank 1)"@[0] == 'L');
    assert("Long Term Fuel Trim (Bank 1)"@[26] == '1');
    assert("Long Term Fuel Trim (Bank 2)"@[0] == 'L');
    assert("Long Term Fuel Trim (Bank 2)"@[26] == '2');
    assert("MAF Air Flow Rate"@[0] == 'M');
    assert("Monitor Status"@[0] == 'M');
    assert("Reference Torque"@[0] == 'R');
    assert("Run Time Since Start"@[0] == 'R');
    assert("Short Term Fuel Trim (Bank 1)"@[27] == '1');
    assert("Short Term Fuel Trim (Bank 2)"@[27] == '2');
    assert("Supported PIDs [01-20]"@[0] == 'S');
    assert("Supported PIDs [01-20]"@[16] == '0');
    assert("Supported PIDs [21-40]"@[0] == 'S');
    assert("Supported PIDs [21-40]"@[16] == '2');
    assert("Supported PIDs [41-60]"@[0] == 'S');
    assert("Supported PIDs [41-60]"@[16] == '4');
    assert("Supported PIDs [61-80]"@[0] == 'S');
    assert("Supported PIDs [61-80]"@[16] == '6');
    assert("Throttle Position"@[0] == 'T');
    assert("Timing Advance"@[0] == 'T');
    assert("Unknown PID"@[0] == 'U');
    assert("Vehicle Speed"@[0] == 'V');
    assert("Warm-ups Since Clear"@[0] == 'W');
}

/// The name table lists exactly the PIDs that [`Pid::all`] lists.
pub proof fn lemma_named_iff_listed(code: u8)
    ensures
        pid_is_named(code) <==> all_pids().contains(Pid(code)),
{
    let s = all_pids();
    if s.contains(Pid(code)) {
        let i = choose|i: int| 0 <= i < s.len() && s[i] == Pid(code);
        lemma_all_pids_named(i);
    }
    match code {
        0x00 => assert(s[0] == Pid(0x00)),
        0x01 => assert(s[1] == Pid(0x01)),
        0x03 => assert(s[2] == Pid(0x03)),
        0x04 => assert(s[3] == Pid(0x04)),
        0x05 => assert(s[4] == Pid(0x05)),
        0x06 => assert(s[5] == Pid(0x06)),
        0x07 => assert(s[6] == Pid(0x07)),
        0x08 => assert(s[7] == Pid(0x08)),
        0x09 => assert(s[8] == Pid(0x09)),
        0x0A => assert(s[9] == Pid(0x0A)),
        0x0B => assert(s[10] == Pid(0x0B)),
        0x0C => assert(s[11] == Pid(0x0C)),
        0x0D => assert(s[12] == Pid(0x0D)),
        0x0E => assert(s[13] == Pid(0x0E)),
        0x0F => assert(s[14] == Pid(0x0F)),
        0x10 => assert(s[15] == Pid(0x10)),
        0x11 => assert(s[16] == Pid(0x11)),
        0x1C => assert(s[17] == Pid(0x1C)),
        0x1F => assert(s[18] == Pid(0x1F)),
        0x20 => assert(s[19] == Pid(0x20)),
        0x21 => assert(s[20] == Pid(0x21)),
        0x23 => assert(s[21] == Pid(0x23)),
        0x2C => assert(s[22] == Pid(0x2C)),
        0x2D => assert(s[23] == Pid(0x2D)),
        0x2E => assert(s[24] == Pid(0x2E)),
        0x2F => assert(s[25] == Pid(0x2F)),
        0x30 => assert(s[26] == Pid(0x30)),
        0x31 => assert(s[27] == Pid(0x31)),
        0x33 => assert(s[28] == Pid(0x33)),
        0x3C => assert(s[29] == Pid(0x3C)),
        0x3D => assert(s[30] == Pid(0x3D)),
        0x3E => assert(s[31] == Pid(0x3E)),
        0x3F => assert(s[32] == Pid(0x3F)),
        0x40 => assert(s[33] == Pid(0x40)),
        0x42 => assert(s[34] == Pid(0x42)),
        0x43 => assert(s[35] == Pid(0x43)),
        0x44 => assert(s[36] == Pid(0x44)),
        0x45 => assert(s[37] == Pid(0x45)),
        0x46 => assert(s[38] == Pid(0x46)),
        0x47 => assert(s[39] == Pid(0x47)),
        0x49 => assert(s[40] == Pid(0x49)),
        0x4A => assert(s[41] == Pid(0x4A)),
        0x4C => assert(s[42] == Pid(0x4C)),
        0x59 => assert(s[43] == Pid(0x59)),
        0x5C => assert(s[44] == Pid(0x5C)),
        0x5E => assert(s[45] == Pid(0x5E)),
        0x60 => assert(s[46] == Pid(0x60)),
        0x61 => assert(s[47] == Pid(0x61)),
        0x62 => assert(s[48] == Pid(0x62)),
        0x63 => assert(s[49] == Pid(0x63)),
        _ => {},
    }
}

} // verus!
