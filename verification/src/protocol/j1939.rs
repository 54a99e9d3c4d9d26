//! J1939 heavy-duty vehicle protocol support.
//!
//! SAE J1939 is the standard for heavy-duty truck communication over CAN bus
//! (29-bit extended identifiers, 250 kbps). This module provides the [`Pgn`]
//! type with the common parameter groups, decoders for the fleet-critical
//! parameter groups, and [`J1939Dtc`] (SPN + FMI trouble codes).
//!
//! The parameter-group decoders return the raw field values, with `None` for
//! the "not available" sentinels (0xFF / 0xFFFF); scaling to engineering
//! units (RPM, km/h, degrees, kPa, L/h) is left to the caller.

use vstd::prelude::*;
use crate::text::{decimal, push_decimal};

verus! {

/// A J1939 Parameter Group Number.
#[derive(Debug, Clone, Copy, PartialEq, Eq, Hash, Structural)]
pub struct Pgn(pub u32);

/// The name of a parameter group number.
pub open spec fn pgn_name(n: u32) -> &'static str {
    match n {
        61444 => "EEC1 (Electronic Engine Controller 1)",
        65262 => "ET1 (Engine Temperature 1)",
        65263 => "EFLP1 (Engine Fluid Level/Pressure 1)",
        65265 => "CCVS (Cruise Control/Vehicle Speed)",
        65266 => "LFE (Fuel Economy - Liquid)",
        65226 => "DM1 (Active DTCs)",
        65227 => "DM2 (Previously Active DTCs)",
        _ => "Unknown PGN",
    }
}

/// Display text of a PGN: `PGN <number> (<name>)`.
pub open spec fn pgn_display(p: Pgn) -> Seq<char> {
    "PGN "@ + decimal(p.0 as nat) + " ("@ + pgn_name(p.0)@ + ")"@
}

impl Pgn {
    /// Electronic Engine Controller 1 — engine speed, torque.
    #[allow(non_snake_case)]
    pub fn EEC1() -> (p: Pgn)
        ensures p == Pgn(61444),
    {
        Pgn(61444)
    }

    /// Engine Temperature 1 — coolant temp, fuel temp.
    #[allow(non_snake_case)]
    pub fn ET1() -> (p: Pgn)
        ensures p == Pgn(65262),
    {
        Pgn(65262)
    }

    /// Engine Fluid Level/Pressure 1 — oil pressure, coolant pressure.
    #[allow(non_snake_case)]
    pub fn EFLP1() -> (p: Pgn)
        ensures p == Pgn(65263),
    {
        Pgn(65263)
    }

    /// Fuel Economy (Liquid) — fuel rate, instantaneous fuel economy.
    #[allow(non_snake_case)]
    pub fn LFE() -> (p: Pgn)
        ensures p == Pgn(65266),
    {
        Pgn(65266)
    }

    /// Cruise Control/Vehicle Speed — vehicle speed, brake, cruise control.
    #[allow(non_snake_case)]
    pub fn CCVS() -> (p: Pgn)
        ensures p == Pgn(65265),
    {
        Pgn(65265)
    }

    /// DM1 — Active Diagnostic Trouble Codes.
    #[allow(non_snake_case)]
    pub fn DM1() -> (p: Pgn)
        ensures p == Pgn(65226),
    {
        Pgn(65226)
    }

    /// DM2 — Previously Active Diagnostic Trouble Codes.
    #[allow(non_snake_case)]
    pub fn DM2() -> (p: Pgn)
        ensures p == Pgn(65227),
    {
        Pgn(65227)
    }

    /// Return the PGN name, if known.
    pub fn name(&self) -> (s: &'static str)
        ensures
            s == pgn_name(self.0),
    {
        match self.0 {
            61444 => "EEC1 (Electronic Engine Controller 1)",
            65262 => "ET1 (Engine Temperature 1)",
            65263 => "EFLP1 (Engine Fluid Level/Pressure 1)",
            65265 => "CCVS (Cruise Control/Vehicle Speed)",
            65266 => "LFE (Fuel Economy - Liquid)",
            65226 => "DM1 (Active DTCs)",
            65227 => "DM2 (Previously Active DTCs)",
            _ => "Unknown PGN",
        }
    }

    /// Display text: `PGN <number> (<name>)`.
    pub fn to_string(&self) -> (s: String)
        ensures
            s@ == pgn_display(*self),
    {
        let mut s = String::from_str("PGN ");
        push_decimal(&mut s, self.0 as u64);
        s.append(" (");
        s.append(self.name());
        s.append(")");
        s
    }
}

/// A J1939 Diagnostic Trouble Code (SPN + FMI format).
#[derive(Debug, Clone, PartialEq, Eq, Structural)]
pub struct J1939Dtc {
    /// Suspect Parameter Number — identifies the parameter at fault.
    pub spn: u32,
    /// Failure Mode Identifier — describes the type of failure (0-31).
    pub fmi: u8,
    /// Occurrence count (0-126, 127 = not available).
    pub occurrence_count: u8,
    /// SPN Conversion Method (0 = standard, 1 = extended).
    pub conversion_method: u8,
}

/// The DTC encoded by four DM1/DM2 bytes: SPN bits 0-15 little-endian in
/// bytes 0-1 and bits 16-18 in bits 5-7 of byte 2, FMI in bits 0-4 of byte 2,
/// conversion method in bit 7 of byte 3, occurrence count in bits 0-6.
pub open spec fn j1939_dtc_of(b0: u8, b1: u8, b2: u8, b3: u8) -> J1939Dtc {
    J1939Dtc {
        spn: (b0 as int + 256 * (b1 as int) + 65536 * (b2 as int / 32)) as u32,
        fmi: (b2 as int % 32) as u8,
        occurrence_count: (b3 as int % 128) as u8,
        conversion_method: (b3 as int / 128) as u8,
    }
}

/// The FMI description table.
pub open spec fn fmi_text(fmi: u8) -> &'static str {
    match fmi {
        0 => "Data Valid But Above Normal Operational Range - Most Severe",
        1 => "Data Valid But Below Normal Operational Range - Most Severe",
        2 => "Data Erratic, Intermittent Or Incorrect",
        3 => "Voltage Above Normal, Or Shorted To High Source",
        4 => "Voltage Below Normal, Or Shorted To Low Source",
        5 => "Current Below Normal Or Open Circuit",
        6 => "Current Above Normal Or Grounded Circuit",
        7 => "Mechanical System Not Responding Or Out Of Adjustment",
        8 => "Abnormal Frequency Or Pulse Width Or Period",
        9 => "Abnormal Update Rate",
        10 => "Abnormal Rate Of Change",
        11 => "Root Cause Not Known",
        12 => "Bad Intelligent Device Or Component",
        13 => "Out Of Calibration",
        14 => "Special Instructions",
        15 => "Data Valid But Above Normal Operating Range - Least Severe",
        16 => "Data Valid But Above Normal Operating Range - Moderately Severe",
        17 => "Data Valid But Below Normal Operating Range - Least Severe",
        18 => "Data Valid But Below Normal Operating Range - Moderately Severe",
        19 => "Received Network Data In Error",
        20 => "Data Drifted High",
        21 => "Data Drifted Low",
        31 => "Condition Exists",
        _ => "Reserved",
    }
}

/// Display text of a J1939 DTC: `SPN <spn> FMI <fmi> (<description>)`.
pub open spec fn j1939_dtc_display(d: J1939Dtc) -> Seq<char> {
    "SPN "@ + decimal(d.spn as nat) + " FMI "@ + decimal(d.fmi as nat) + " ("@ + fmi_text(d.fmi)@
        + ")"@
}

impl J1939Dtc {
    /// Decode a J1939 DTC from the 4-byte DM1/DM2 format; `None` when fewer
    /// than four bytes are given (bytes after the fourth are ignored).
    pub fn from_bytes(data: &[u8]) -> (r: Option<Self>)
        ensures
            data.len() < 4 ==> r is None,
            data.len() >= 4 ==> r == Some(j1939_dtc_of(data[0], data[1], data[2], data[3])),
    {
        if data.len() < 4 {
            return None;
        }
        let spn: u32 = (data[0] as u32) + 256 * (data[1] as u32) + 65536 * ((data[2] / 32) as u32);
        let fmi: u8 = data[2] % 32;
        let conversion_method: u8 = data[3] / 128;
        let occurrence_count: u8 = data[3] % 128;
        Some(Self { spn, fmi, occurrence_count, conversion_method })
    }

    /// Human-readable FMI description.
    pub fn fmi_description(&self) -> (s: &'static str)
        ensures
            s == fmi_text(self.fmi),
    {
        match self.fmi {
            0 => "Data Valid But Above Normal Operational Range - Most Severe",
            1 => "Data Valid But Below Normal Operational Range - Most Severe",
            2 => "Data Erratic, Intermittent Or Incorrect",
            3 => "Voltage Above Normal, Or Shorted To High Source",
            4 => "Voltage Below Normal, Or Shorted To Low Source",
            5 => "Current Below Normal Or Open Circuit",
            6 => "Current Above Normal Or Grounded Circuit",
            7 => "Mechanical System Not Responding Or Out Of Adjustment",
            8 => "Abnormal Frequency Or Pulse Width Or Period",
            9 => "Abnormal Update Rate",
            10 => "Abnormal Rate Of Change",
            11 => "Root Cause Not Known",
            12 => "Bad Intelligent Device Or Component",
            13 => "Out Of Calibration",
            14 => "Special Instructions",
            15 => "Data Valid But Above Normal Operating Range - Least Severe",
            16 => "Data Valid But Above Normal Operating Range - Moderately Severe",
            17 => "Data Valid But Below Normal Operating Range - Least Severe",
            18 => "Data Valid But Below Normal Operating Range - Moderately Severe",
            19 => "Received Network Data In Error",
            20 => "Data Drifted High",
            21 => "Data Drifted Low",
            31 => "Condition Exists",
            _ => "Reserved",
        }
    }

    /// Display text: `SPN <spn> FMI <fmi> (<description>)`.
    pub fn to_string(&self) -> (s: String)
        ensures
            s@ == j1939_dtc_display(*self),
    {
        let mut s = String::from_str("SPN ");
        push_decimal(&mut s, self.spn as u64);
        s.append(" FMI ");
        push_decimal(&mut s, self.fmi as u64);
        s.append(" (");
        s.append(self.fmi_description());
        s.append(")");
        s
    }
}

/// Every decoded J1939 DTC has its fields within their bit widths.
pub proof fn lemma_j1939_dtc_fields_in_range(b0: u8, b1: u8, b2: u8, b3: u8)
    ensures
        j1939_dtc_of(b0, b1, b2, b3).spn < 0x80000,
        j1939_dtc_of(b0, b1, b2, b3).fmi < 32,
        j1939_dtc_of(b0, b1, b2, b3).occurrence_count < 128,
        j1939_dtc_of(b0, b1, b2, b3).conversion_method < 2,
{
}

/// A single-byte J1939 value, `None` when the byte is 0xFF ("not available").
pub open spec fn byte_avail(b: u8) -> Option<u8> {
    if b == 0xFF { None } else { Some(b) }
}

/// A two-byte J1939 value, `None` when the word is 0xFFFF ("not available").
pub open spec fn word_avail(w: u16) -> Option<u16> {
    if w == 0xFFFF { None } else { Some(w) }
}

/// Little-endian word of two bytes.
pub open spec fn le_word(lo: u8, hi: u8) -> u16 {
    (lo as int + 256 * (hi as int)) as u16
}

/// Convert a single-byte J1939 value, returning `None` if the byte is `0xFF`.
pub(crate) fn byte_available(b: u8) -> (r: Option<u8>)
    ensures
        r == byte_avail(b),
{
    if b == 0xFF { None } else { Some(b) }
}

/// Convert a two-byte J1939 value, returning `None` if the word is `0xFFFF`.
pub(crate) fn word_available(w: u16) -> (r: Option<u16>)
    ensures
        r == word_avail(w),
{
    if w == 0xFFFF { None } else { Some(w) }
}

fn le_u16(lo: u8, hi: u8) -> (w: u16)
    ensures
        w == le_word(lo, hi),
{
    (lo as u16) + 256 * (hi as u16)
}

/// Raw fields of Electronic Engine Controller 1 (PGN 61444).
#[derive(Debug, Clone, Copy, PartialEq, Eq, Structural)]
pub struct Eec1Raw {
    /// SPN 899 torque mode, byte 1 bits 0-3.
    pub torque_mode: u8,
    /// SPN 512 driver's demand torque, byte 2 (percent + 125).
    pub driver_demand_torque: Option<u8>,
    /// SPN 513 actual engine torque, byte 3 (percent + 125).
    pub actual_torque: Option<u8>,
    /// SPN 190 engine speed, bytes 4-5 (0.125 RPM per bit).
    pub engine_speed: Option<u16>,
}

/// Raw fields of Cruise Control/Vehicle Speed (PGN 65265).
#[derive(Debug, Clone, Copy, PartialEq, Eq, Structural)]
pub struct CcvsRaw {
    /// SPN 84 vehicle speed, bytes 2-3 (1/256 km/h per bit).
    pub vehicle_speed: Option<u16>,
    /// SPN 597 brake switch, byte 4 bits 2-3.
    pub brake_switch: Option<bool>,
    /// SPN 595 cruise control active, byte 1 bits 0-1.
    pub cruise_active: Option<bool>,
}

/// Raw fields of Engine Temperature 1 (PGN 65262).
#[derive(Debug, Clone, Copy, PartialEq, Eq, Structural)]
pub struct Et1Raw {
    /// SPN 110 coolant temperature, byte 1 (degrees C + 40).
    pub coolant_temp: Option<u8>,
    /// SPN 174 fuel temperature, byte 2 (degrees C + 40).
    pub fuel_temp: Option<u8>,
    /// SPN 175 oil temperature, bytes 3-4 (0.03125 degrees C per bit, offset -273).
    pub oil_temp: Option<u16>,
}

/// Raw fields of Engine Fluid Level/Pressure 1 (PGN 65263).
#[derive(Debug, Clone, Copy, PartialEq, Eq, Structural)]
pub struct Eflp1Raw {
    /// SPN 100 engine oil pressure, byte 4 (4 kPa per bit).
    pub oil_pressure: Option<u8>,
    /// SPN 109 coolant pressure, byte 2 (2 kPa per bit).
    pub coolant_pressure: Option<u8>,
}

/// Raw fields of Fuel Economy - Liquid (PGN 65266).
#[derive(Debug, Clone, Copy, PartialEq, Eq, Structural)]
pub struct LfeRaw {
    /// SPN 183 engine fuel rate, bytes 1-2 (0.05 L/h per bit).
    pub fuel_rate: Option<u16>,
    /// SPN 184 instantaneous fuel economy, bytes 3-4 (1/512 km/L per bit).
    pub instantaneous_fuel_economy: Option<u16>,
}

/// A two-bit J1939 state: 0b11 is "not available", otherwise whether it is 1.
pub open spec fn two_bit_state(bits: u8) -> Option<bool> {
    if bits == 3 { None } else { Some(bits == 1) }
}

/// Decode EEC1 from 8 raw bytes; `None` when fewer than 8 are given.
pub fn decode_eec1_raw(data: &[u8]) -> (r: Option<Eec1Raw>)
    ensures
        data.len() < 8 ==> r is None,
        data.len() >= 8 ==> r == Some(Eec1Raw {
            torque_mode: data[0] % 16,
            driver_demand_torque: byte_avail(data[1]),
            actual_torque: byte_avail(data[2]),
            engine_speed: word_avail(le_word(data[3], data[4])),
        }),
{
    if data.len() < 8 {
        return None;
    }
    Some(Eec1Raw {
        torque_mode: data[0] % 16,
        driver_demand_torque: byte_available(data[1]),
        actual_torque: byte_available(data[2]),
        engine_speed: word_available(le_u16(data[3], data[4])),
    })
}

/// Decode CCVS from 8 raw bytes; `None` when fewer than 8 are given.
pub fn decode_ccvs_raw(data: &[u8]) -> (r: Option<CcvsRaw>)
    ensures
        data.len() < 8 ==> r is None,
        data.len() >= 8 ==> r == Some(CcvsRaw {
            vehicle_speed: word_avail(le_word(data[1], data[2])),
            brake_switch: two_bit_state((data[3] / 4) % 4),
            cruise_active: two_bit_state(data[0] % 4),
        }),
{
    if data.len() < 8 {
        return None;
    }
    let brake_bits: u8 = (data[3] / 4) % 4;
    let brake_switch = if brake_bits == 3 { None } else { Some(brake_bits == 1) };
    let cruise_bits: u8 = data[0] % 4;
    let cruise_active = if cruise_bits == 3 { None } else { Some(cruise_bits == 1) };
    Some(CcvsRaw {
        vehicle_speed: word_available(le_u16(data[1], data[2])),
        brake_switch,
        cruise_active,
    })
}

/// Decode ET1 from raw bytes; `None` when fewer than 4 are given.
pub fn decode_et1_raw(data: &[u8]) -> (r: Option<Et1Raw>)
    ensures
        data.len() < 4 ==> r is None,
        data.len() >= 4 ==> r == Some(Et1Raw {
            coolant_temp: byte_avail(data[0]),
            fuel_temp: byte_avail(data[1]),
            oil_temp: word_avail(le_word(data[2], data[3])),
        }),
{
    if data.len() < 4 {
        return None;
    }
    Some(Et1Raw {
        coolant_temp: byte_available(data[0]),
        fuel_temp: byte_available(data[1]),
        oil_temp: word_available(le_u16(data[2], data[3])),
    })
}

/// Decode EFLP1 from raw bytes; `None` when fewer than 4 are given.
pub fn decode_eflp1_raw(data: &[u8]) -> (r: Option<Eflp1Raw>)
    ensures
        data.len() < 4 ==> r is None,
        data.len() >= 4 ==> r == Some(Eflp1Raw {
            oil_pressure: byte_avail(data[3]),
            coolant_pressure: byte_avail(data[1]),
        }),
{
    if data.len() < 4 {
        return None;
    }
    Some(Eflp1Raw {
        oil_pressure: byte_available(data[3]),
        coolant_pressure: byte_available(data[1]),
    })
}

/// Decode LFE from raw bytes; `None` when fewer than 4 are given.
pub fn decode_lfe_raw(data: &[u8]) -> (r: Option<LfeRaw>)
    ensures
        data.len() < 4 ==> r is None,
        data.len() >= 4 ==> r == Some(LfeRaw {
            fuel_rate: word_avail(le_word(data[0], data[1])),
            instantaneous_fuel_economy: word_avail(le_word(data[2], data[3])),
        }),
{
    if data.len() < 4 {
        return None;
    }
    Some(LfeRaw {
        fuel_rate: word_available(le_u16(data[0], data[1])),
        instantaneous_fuel_economy: word_available(le_u16(data[2], data[3])),
    })
}

/// The DTCs of a DM1/DM2 message: after two lamp-status bytes, one DTC per
/// complete group of four bytes (a shorter trailing group is dropped).
pub open spec fn dm1_dtcs(data: Seq<u8>) -> Seq<J1939Dtc> {
    if data.len() < 6 {
        Seq::empty()
    } else {
        Seq::new(
            ((data.len() - 2) / 4) as nat,
            |k: int| j1939_dtc_of(data[2 + 4 * k], data[3 + 4 * k], data[4 + 4 * k], data[5 + 4 * k]),
        )
    }
}

/// Decode DM1/DM2 active DTCs from a J1939 diagnostic message.
pub fn decode_dm1(data: &[u8]) -> (r: Vec<J1939Dtc>)
    ensures
        r@ == dm1_dtcs(data@),
{
    let mut out: Vec<J1939Dtc> = Vec::new();
    if data.len() < 6 {
        proof {
            assert(out@ =~= dm1_dtcs(data@));
        }
        return out;
    }
    let n: usize = (data.len() - 2) / 4;
    let mut k: usize = 0;
    while k < n
        invariant
            data.len() >= 6,
            n == (data.len() - 2) / 4,
            k <= n,
            out@ == dm1_dtcs(data@).take(k as int),
        decreases n - k,
    {
        let base: usize = 2 + 4 * k;
        let spn: u32 = (data[base] as u32) + 256 * (data[base + 1] as u32) + 65536 * ((data[base
            + 2] / 32) as u32);
        let d = J1939Dtc {
            spn,
            fmi: data[base + 2] % 32,
            occurrence_count: data[base + 3] % 128,
            conversion_method: data[base + 3] / 128,
        };
        out.push(d);
        proof {
            assert(dm1_dtcs(data@).take(k + 1) =~= dm1_dtcs(data@).take(k as int).push(d));
        }
        k = k + 1;
    }
    proof {
        assert(dm1_dtcs(data@).take(n as int) =~= dm1_dtcs(data@));
    }
    out
}

/// The SAE J1939-73 failure mode descriptions: each defined FMI is described
/// as stated, and every other FMI (22 to 30, and above 31) is reserved.
pub proof fn lemma_fmi_descriptions(fmi: u8)
    ensures
        fmi == 0 ==> fmi_text(fmi) == "Data Valid But Above Normal Operational Range - Most Severe",
        fmi == 1 ==> fmi_text(fmi) == "Data Valid But Below Normal Operational Range - Most Severe",
        fmi == 2 ==> fmi_text(fmi) == "Data Erratic, Intermittent Or Incorrect",
        fmi == 3 ==> fmi_text(fmi) == "Voltage Above Normal, Or Shorted To High Source",
        fmi == 4 ==> fmi_text(fmi) == "Voltage Below Normal, Or Shorted To Low Source",
        fmi == 5 ==> fmi_text(fmi) == "Current Below Normal Or Open Circuit",
        fmi == 6 ==> fmi_text(fmi) == "Current Above Normal Or Grounded Circuit",
        fmi == 7 ==> fmi_text(fmi) == "Mechanical System Not Responding Or Out Of Adjustment",
        fmi == 8 ==> fmi_text(fmi) == "Abnormal Frequency Or Pulse Width Or Period",
        fmi == 9 ==> fmi_text(fmi) == "Abnormal Update Rate",
        fmi == 10 ==> fmi_text(fmi) == "Abnormal Rate Of Change",
        fmi == 11 ==> fmi_text(fmi) == "Root Cause Not Known",
        fmi == 12 ==> fmi_text(fmi) == "Bad Intelligent Device Or Component",
        fmi == 13 ==> fmi_text(fmi) == "Out Of Calibration",
        fmi == 14 ==> fmi_text(fmi) == "Special Instructions",
        fmi == 15 ==> fmi_text(fmi) == "Data Valid But Above Normal Operating Range - Least Severe",
        fmi == 16 ==> fmi_text(fmi) == "Data Valid But Above Normal Operating Range - Moderately Severe",
        fmi == 17 ==> fmi_text(fmi) == "Data Valid But Below Normal Operating Range - Least Severe",
        fmi == 18 ==> fmi_text(fmi) == "Data Valid But Below Normal Operating Range - Moderately Severe",
        fmi == 19 ==> fmi_text(fmi) == "Received Network Data In Error",
        fmi == 20 ==> fmi_text(fmi) == "Data Drifted High",
        fmi == 21 ==> fmi_text(fmi) == "Data Drifted Low",
        fmi == 31 ==> fmi_text(fmi) == "Condition Exists",
        (22 <= fmi <= 30 || fmi > 31) ==> fmi_text(fmi) == "Reserved",
{
}

} // verus!
