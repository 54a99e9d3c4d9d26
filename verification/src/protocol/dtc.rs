//! DTC types, status definitions, and the universal description lookup.
//!
//! Descriptions from the universal SAE J2012 table are filled in when a DTC is
//! created with [`Dtc::from_bytes`] or [`Dtc::from_code`].

use vstd::prelude::*;
use crate::protocol::dtc_table::{universal_lookup, universal_table};
use crate::text::{
    all_ascii, ascii_upper, byte_hex_upper, char_digit_value, char_is_digit, digit_value,
    hex_digit_upper, hex_upper, is_digit, opt_str_view, opt_string_view, push_char, str_chars,
    to_uppercase, unicode_uppercase,
};

verus! {

/// Category prefix of a DTC (P, C, B, U).
#[derive(Debug, Clone, Copy, PartialEq, Eq, Hash, Structural)]
pub enum DtcCategory {
    Powertrain,
    Chassis,
    Body,
    Network,
}

/// Lifecycle status of a DTC.
#[derive(Debug, Clone, Copy, PartialEq, Eq, Structural)]
pub enum DtcStatus {
    Stored,
    Pending,
    Permanent,
}

/// Severity level of a DTC.
#[derive(Debug, Clone, Copy, PartialEq, Eq, PartialOrd, Ord)]
pub enum Severity {
    Info,
    Low,
    Medium,
    High,
    Critical,
}

/// A Diagnostic Trouble Code read from the vehicle.
#[derive(Debug, Clone, PartialEq, Eq)]
pub struct Dtc {
    pub code: String,
    pub category: DtcCategory,
    pub status: DtcStatus,
    pub description: Option<String>,
    pub severity: Option<Severity>,
    pub source_module: Option<String>,
    pub notes: Option<String>,
}

impl Default for Dtc {
    fn default() -> (d: Self)
        ensures
            d.code@ == Seq::<char>::empty(),
            d.category == DtcCategory::Powertrain,
            d.status == DtcStatus::Stored,
            d.description is None,
            d.severity is None,
            d.source_module is None,
            d.notes is None,
    {
        Self {
            code: String::new(),
            category: DtcCategory::Powertrain,
            status: DtcStatus::Stored,
            description: None,
            severity: None,
            source_module: None,
            notes: None,
        }
    }
}

/// Category encoded in the two top bits of the first DTC byte.
pub open spec fn category_of_byte(a: u8) -> DtcCategory {
    if a / 64 == 0 {
        DtcCategory::Powertrain
    } else if a / 64 == 1 {
        DtcCategory::Chassis
    } else if a / 64 == 2 {
        DtcCategory::Body
    } else {
        DtcCategory::Network
    }
}

/// The letter that starts a code of each category.
pub open spec fn category_letter(c: DtcCategory) -> char {
    match c {
        DtcCategory::Powertrain => 'P',
        DtcCategory::Chassis => 'C',
        DtcCategory::Body => 'B',
        DtcCategory::Network => 'U',
    }
}

/// The five-character code carried by two raw DTC bytes: category letter,
/// bits 13-12 as a digit, then three upper-case hexadecimal digits.
pub open spec fn code_of_bytes(a: u8, b: u8) -> Seq<char> {
    seq![
        category_letter(category_of_byte(a)),
        hex_upper((a as int / 16) % 4),
        hex_upper(a as int % 16),
        hex_upper(b as int / 16),
        hex_upper(b as int % 16),
    ]
}

/// Category named by the first character of a code string (either case);
/// anything else counts as powertrain.
pub open spec fn category_of_code(code: Seq<char>) -> DtcCategory {
    if code.len() == 0 {
        DtcCategory::Powertrain
    } else if code[0] == 'C' || code[0] == 'c' {
        DtcCategory::Chassis
    } else if code[0] == 'B' || code[0] == 'b' {
        DtcCategory::Body
    } else if code[0] == 'U' || code[0] == 'u' {
        DtcCategory::Network
    } else {
        DtcCategory::Powertrain
    }
}

/// The number written by the four decimal digits after the letter.
pub open spec fn code_number(code: Seq<char>) -> int {
    digit_value(code[1]) * 1000 + digit_value(code[2]) * 100 + digit_value(code[3]) * 10
        + digit_value(code[4])
}

/// Whether a code has the shape of the table's keys: five characters, the last
/// four decimal digits.
pub open spec fn table_shaped(code: Seq<char>) -> bool {
    code.len() == 5 && is_digit(code[1]) && is_digit(code[2]) && is_digit(code[3]) && is_digit(
        code[4],
    )
}

/// The universal description of a code, if the table lists it.
pub open spec fn universal_description(code: Seq<char>) -> Option<&'static str> {
    if table_shaped(code) {
        universal_table(code[0], code_number(code) as u16)
    } else {
        None
    }
}

/// The view of a description as the DTC constructors store it.
pub open spec fn description_view(d: Option<&'static str>) -> Option<Seq<char>> {
    opt_str_view(d)
}

/// Look up the universal (SAE J2012) description for a DTC code.
pub fn universal_dtc_description(code: &str) -> (r: Option<&'static str>)
    ensures
        r == universal_description(code@),
{
    let c = str_chars(code);
    if c.len() == 5 && char_is_digit(c[1]) && char_is_digit(c[2]) && char_is_digit(c[3])
        && char_is_digit(c[4]) {
        let n: u16 = (char_digit_value(c[1]) as u16) * 1000 + (char_digit_value(c[2]) as u16)
            * 100 + (char_digit_value(c[3]) as u16) * 10 + (char_digit_value(c[4]) as u16);
        universal_lookup(c[0], n)
    } else {
        None
    }
}

fn owned_description(d: Option<&'static str>) -> (r: Option<String>)
    ensures
        opt_string_view(r) == opt_str_view(d),
{
    match d {
        Some(s) => Some(String::from_str(s)),
        None => None,
    }
}

impl Dtc {
    /// Decode a DTC from two raw bytes (Mode 03/07/0A response).
    /// Bits 15-14 = category, bits 13-12 = second char, bits 11-8 = third,
    /// 7-4 = fourth, 3-0 = fifth.
    pub fn from_bytes(a: u8, b: u8) -> (d: Self)
        ensures
            d.code@ == code_of_bytes(a, b),
            d.category == category_of_byte(a),
            d.status == DtcStatus::Stored,
            opt_string_view(d.description) == opt_str_view(universal_description(d.code@)),
            d.severity is None,
            d.source_module is None,
            d.notes is None,
    {
        let category = if a / 64 == 0 {
            DtcCategory::Powertrain
        } else if a / 64 == 1 {
            DtcCategory::Chassis
        } else if a / 64 == 2 {
            DtcCategory::Body
        } else {
            DtcCategory::Network
        };
        let prefix = match category {
            DtcCategory::Powertrain => 'P',
            DtcCategory::Chassis => 'C',
            DtcCategory::Body => 'B',
            DtcCategory::Network => 'U',
        };
        let mut code = String::new();
        push_char(&mut code, prefix);
        push_char(&mut code, hex_digit_upper((a / 16) % 4));
        push_char(&mut code, hex_digit_upper(a % 16));
        push_char(&mut code, hex_digit_upper(b / 16));
        push_char(&mut code, hex_digit_upper(b % 16));
        proof {
            assert(code@ =~= code_of_bytes(a, b));
        }
        let description = owned_description(universal_dtc_description(code.as_str()));
        Self {
            code,
            category,
            status: DtcStatus::Stored,
            description,
            severity: None,
            source_module: None,
            notes: None,
        }
    }

    /// Create a DTC from a code string (e.g., "P0420"); the stored code is
    /// the upper-case form of the argument.
    pub fn from_code(code: &str) -> (d: Self)
        ensures
            d.code@ == unicode_uppercase(code@),
            all_ascii(code@) ==> d.code@ == code@.map_values(|c: char| ascii_upper(c)),
            d.category == category_of_code(code@),
            d.status == DtcStatus::Stored,
            opt_string_view(d.description) == opt_str_view(universal_description(d.code@)),
            d.severity is None,
            d.source_module is None,
            d.notes is None,
    {
        let chars = str_chars(code);
        let category = if chars.len() == 0 {
            DtcCategory::Powertrain
        } else if chars[0] == 'C' || chars[0] == 'c' {
            DtcCategory::Chassis
        } else if chars[0] == 'B' || chars[0] == 'b' {
            DtcCategory::Body
        } else if chars[0] == 'U' || chars[0] == 'u' {
            DtcCategory::Network
        } else {
            DtcCategory::Powertrain
        };
        let upper = to_uppercase(code);
        let description = owned_description(universal_dtc_description(upper.as_str()));
        Self {
            code: upper,
            category,
            status: DtcStatus::Stored,
            description,
            severity: None,
            source_module: None,
            notes: None,
        }
    }
}

/// GM/UDS Mode 19 extended status byte -- 8 flags per DTC.
#[derive(Debug, Clone, Copy, Default, PartialEq, Eq, Structural)]
pub struct DtcStatusByte {
    pub test_failed: bool,
    pub test_failed_this_cycle: bool,
    pub pending: bool,
    pub confirmed: bool,
    pub test_not_completed_since_clear: bool,
    pub test_failed_since_clear: bool,
    pub test_not_completed_this_cycle: bool,
    pub warning_indicator_requested: bool,
}

/// Whether bit `mask` is set in `b`.
pub open spec fn has_bit(b: u8, mask: u8) -> bool {
    b & mask != 0
}

/// The flags of a status byte, bit 0 first.
pub open spec fn status_of_byte(b: u8) -> DtcStatusByte {
    DtcStatusByte {
        test_failed: has_bit(b, 0x01),
        test_failed_this_cycle: has_bit(b, 0x02),
        pending: has_bit(b, 0x04),
        confirmed: has_bit(b, 0x08),
        test_not_completed_since_clear: has_bit(b, 0x10),
        test_failed_since_clear: has_bit(b, 0x20),
        test_not_completed_this_cycle: has_bit(b, 0x40),
        warning_indicator_requested: has_bit(b, 0x80),
    }
}

/// Value contributed by one flag.
pub open spec fn flag_value(f: bool, mask: int) -> int {
    if f { mask } else { 0 }
}

/// The byte that encodes a set of flags.
pub open spec fn byte_of_status(s: DtcStatusByte) -> int {
    flag_value(s.test_failed, 0x01) + flag_value(s.test_failed_this_cycle, 0x02) + flag_value(
        s.pending,
        0x04,
    ) + flag_value(s.confirmed, 0x08) + flag_value(s.test_not_completed_since_clear, 0x10)
        + flag_value(s.test_failed_since_clear, 0x20) + flag_value(
        s.test_not_completed_this_cycle,
        0x40,
    ) + flag_value(s.warning_indicator_requested, 0x80)
}

impl DtcStatusByte {
    /// Decode a Mode 19 DTC status byte into individual flags.
    pub fn from_byte(b: u8) -> (s: Self)
        ensures
            s == status_of_byte(b),
    {
        Self {
            test_failed: (b & 0x01) != 0,
            test_failed_this_cycle: (b & 0x02) != 0,
            pending: (b & 0x04) != 0,
            confirmed: (b & 0x08) != 0,
            test_not_completed_since_clear: (b & 0x10) != 0,
            test_failed_since_clear: (b & 0x20) != 0,
            test_not_completed_this_cycle: (b & 0x40) != 0,
            warning_indicator_requested: (b & 0x80) != 0,
        }
    }

    /// Encode the status flags back into a single byte.
    pub fn to_byte(&self) -> (b: u8)
        ensures
            b as int == byte_of_status(*self),
    {
        let mut b: u8 = 0;
        if self.test_failed {
            b = b + 0x01;
        }
        if self.test_failed_this_cycle {
            b = b + 0x02;
        }
        if self.pending {
            b = b + 0x04;
        }
        if self.confirmed {
            b = b + 0x08;
        }
        if self.test_not_completed_since_clear {
            b = b + 0x10;
        }
        if self.test_failed_since_clear {
            b = b + 0x20;
        }
        if self.test_not_completed_this_cycle {
            b = b + 0x40;
        }
        if self.warning_indicator_requested {
            b = b + 0x80;
        }
        b
    }
}

/// Decoding a status byte and encoding the flags again gives the same byte.
pub proof fn lemma_status_byte_roundtrip(b: u8)
    ensures
        byte_of_status(status_of_byte(b)) == b as int,
{
    assert(b as int == (b & 0x01) as int + (b & 0x02) as int + (b & 0x04) as int + (b & 0x08) as int
        + (b & 0x10) as int + (b & 0x20) as int + (b & 0x40) as int + (b & 0x80) as int)
        by (bit_vector);
    assert((b & 0x01 != 0) ==> (b & 0x01) == 0x01) by (bit_vector);
    assert((b & 0x02 != 0) ==> (b & 0x02) == 0x02) by (bit_vector);
    assert((b & 0x04 != 0) ==> (b & 0x04) == 0x04) by (bit_vector);
    assert((b & 0x08 != 0) ==> (b & 0x08) == 0x08) by (bit_vector);
    assert((b & 0x10 != 0) ==> (b & 0x10) == 0x10) by (bit_vector);
    assert((b & 0x20 != 0) ==> (b & 0x20) == 0x20) by (bit_vector);
    assert((b & 0x40 != 0) ==> (b & 0x40) == 0x40) by (bit_vector);
    assert((b & 0x80 != 0) ==> (b & 0x80) == 0x80) by (bit_vector);
}

/// Encoding a set of flags and decoding the byte gives the same flags.
pub proof fn lemma_status_flags_roundtrip(s: DtcStatusByte)
    ensures
        0 <= byte_of_status(s) < 256,
        status_of_byte(byte_of_status(s) as u8) == s,
{
    let b = byte_of_status(s) as u8;
    let (f0, f1, f2, f3, f4, f5, f6, f7) = (
        s.test_failed,
        s.test_failed_this_cycle,
        s.pending,
        s.confirmed,
        s.test_not_completed_since_clear,
        s.test_failed_since_clear,
        s.test_not_completed_this_cycle,
        s.warning_indicator_requested,
    );
    let v: u8 = (if f0 { 1u8 } else { 0u8 }) | (if f1 { 2u8 } else { 0u8 }) | (if f2 { 4u8 } else { 0u8 })
        | (if f3 { 8u8 } else { 0u8 }) | (if f4 { 16u8 } else { 0u8 }) | (if f5 { 32u8 } else { 0u8 })
        | (if f6 { 64u8 } else { 0u8 }) | (if f7 { 128u8 } else { 0u8 });
    assert(v as int == (if f0 { 1int } else { 0 }) + (if f1 { 2int } else { 0 }) + (if f2 { 4int } else { 0 })
        + (if f3 { 8int } else { 0 }) + (if f4 { 16int } else { 0 }) + (if f5 { 32int } else { 0 })
        + (if f6 { 64int } else { 0 }) + (if f7 { 128int } else { 0 })) by (bit_vector)
        requires
            v == (if f0 { 1u8 } else { 0u8 }) | (if f1 { 2u8 } else { 0u8 }) | (if f2 { 4u8 } else { 0u8 })
                | (if f3 { 8u8 } else { 0u8 }) | (if f4 { 16u8 } else { 0u8 }) | (if f5 { 32u8 } else { 0u8 })
                | (if f6 { 64u8 } else { 0u8 }) | (if f7 { 128u8 } else { 0u8 }),
    ;
    assert(b == v);
    assert(((v & 0x01) != 0) == f0 && ((v & 0x02) != 0) == f1 && ((v & 0x04) != 0) == f2
        && ((v & 0x08) != 0) == f3 && ((v & 0x10) != 0) == f4 && ((v & 0x20) != 0) == f5
        && ((v & 0x40) != 0) == f6 && ((v & 0x80) != 0) == f7) by (bit_vector)
        requires
            v == (if f0 { 1u8 } else { 0u8 }) | (if f1 { 2u8 } else { 0u8 }) | (if f2 { 4u8 } else { 0u8 })
                | (if f3 { 8u8 } else { 0u8 }) | (if f4 { 16u8 } else { 0u8 }) | (if f5 { 32u8 } else { 0u8 })
                | (if f6 { 64u8 } else { 0u8 }) | (if f7 { 128u8 } else { 0u8 }),
    ;
}


/// A DTC decoded from two bytes is rebuilt from its code unchanged: the code
/// is ASCII that upper-casing leaves as it is, and it names the same
/// category.
pub proof fn lemma_code_round_trip(a: u8, b: u8)
    ensures
        all_ascii(code_of_bytes(a, b)),
        code_of_bytes(a, b).map_values(|c: char| ascii_upper(c)) == code_of_bytes(a, b),
        category_of_code(code_of_bytes(a, b)) == category_of_byte(a),
{
    let code = code_of_bytes(a, b);
    assert(code.map_values(|c: char| ascii_upper(c)) =~= code);
}

/// SAE J2012 descriptions of the codes P0010 to P0156 of the universal
/// table: the code made of category letter `L` and four decimal digits of
/// value `n` is described as stated.
pub proof fn lemma_universal_descriptions_1()
    ensures
        universal_table('P', 10) == Some("Intake Camshaft Position Actuator Circuit (Bank 1)"),
        universal_table('P', 11) == Some("Intake Camshaft Position Timing Over-Advanced (Bank 1)"),
        universal_table('P', 12) == Some("Intake Camshaft Position Timing Over-Retarded (Bank 1)"),
        universal_table('P', 14) == Some("Exhaust Camshaft Position Timing Over-Advanced (Bank 1)"),
        universal_table('P', 16) == Some("Crankshaft Position / Camshaft Position Correlation (Bank 1 Sensor A)"),
        universal_table('P', 30) == Some("HO2S Heater Control Circuit (Bank 1 Sensor 1)"),
        universal_table('P', 36) == Some("HO2S Heater Control Circuit (Bank 1 Sensor 2)"),
        universal_table('P', 87) == Some("Fuel Rail/System Pressure Too Low"),
        universal_table('P', 88) == Some("Fuel Rail/System Pressure Too High"),
        universal_table('P', 93) == Some("Fuel System Leak Detected (Large)"),
        universal_table('P', 100) == Some("MAF/VAF Circuit Malfunction"),
        universal_table('P', 101) == Some("MAF/VAF Circuit Range/Performance"),
        universal_table('P', 102) == Some("MAF/VAF Circuit Low Input"),
        universal_table('P', 103) == Some("MAF/VAF Circuit High Input"),
        universal_table('P', 106) == Some("MAP/Barometric Pressure Circuit Range/Performance"),
        universal_table('P', 107) == Some("MAP/Barometric Pressure Circuit Low Input"),
        universal_table('P', 108) == Some("MAP/Barometric Pressure Circuit High Input"),
        universal_table('P', 110) == Some("Intake Air Temperature Sensor 1 Circuit"),
        universal_table('P', 111) == Some("Intake Air Temperature Sensor 1 Circuit Range/Performance"),
        universal_table('P', 112) == Some("Intake Air Temperature Sensor 1 Circuit Low"),
        universal_table('P', 113) == Some("Intake Air Temperature Sensor 1 Circuit High"),
        universal_table('P', 115) == Some("Engine Coolant Temperature Circuit"),
        universal_table('P', 116) == Some("Engine Coolant Temperature Circuit Range/Performance"),
        universal_table('P', 117) == Some("Engine Coolant Temperature Circuit Low"),
        universal_table('P', 118) == Some("Engine Coolant Temperature Circuit High"),
        universal_table('P', 120) == Some("Throttle Position Sensor A Circuit"),
        universal_table('P', 121) == Some("Throttle Position Sensor A Circuit Range/Performance"),
        universal_table('P', 122) == Some("Throttle Position Sensor A Circuit Low"),
        universal_table('P', 123) == Some("Throttle Position Sensor A Circuit High"),
        universal_table('P', 125) == Some("Insufficient Coolant Temperature for Closed Loop"),
        universal_table('P', 128) == Some("Coolant Thermostat Below Operating Temperature"),
        universal_table('P', 130) == Some("O2 Sensor Circuit Bank 1 Sensor 1"),
        universal_table('P', 131) == Some("O2 Sensor Circuit Low Voltage B1S1"),
        universal_table('P', 132) == Some("O2 Sensor Circuit High Voltage B1S1"),
        universal_table('P', 133) == Some("O2 Sensor Circuit Slow Response B1S1"),
        universal_table('P', 134) == Some("O2 Sensor Circuit No Activity B1S1"),
        universal_table('P', 135) == Some("O2 Sensor Heater Circuit B1S1"),
        universal_table('P', 136) == Some("O2 Sensor Circuit Bank 1 Sensor 2"),
        universal_table('P', 137) == Some("O2 Sensor Circuit Low Voltage B1S2"),
        universal_table('P', 138) == Some("O2 Sensor Circuit High Voltage B1S2"),
        universal_table('P', 139) == Some("O2 Sensor Circuit Slow Response B1S2"),
        universal_table('P', 140) == Some("O2 Sensor Circuit No Activity B1S2"),
        universal_table('P', 141) == Some("O2 Sensor Heater Circuit B1S2"),
        universal_table('P', 150) == Some("O2 Sensor Circuit Bank 2 Sensor 1"),
        universal_table('P', 151) == Some("O2 Sensor Circuit Low Voltage B2S1"),
        universal_table('P', 152) == Some("O2 Sensor Circuit High Voltage B2S1"),
        universal_table('P', 153) == Some("O2 Sensor Circuit Slow Response B2S1"),
        universal_table('P', 154) == Some("O2 Sensor Circuit No Activity B2S1"),
        universal_table('P', 155) == Some("O2 Sensor Heater Circuit B2S1"),
        universal_table('P', 156) == Some("O2 Sensor Circuit Bank 2 Sensor 2"),
{
}

/// SAE J2012 descriptions of the codes P0157 to P0442 of the universal
/// table: the code made of category letter `L` and four decimal digits of
/// value `n` is described as stated.
pub proof fn lemma_universal_descriptions_2()
    ensures
        universal_table('P', 157) == Some("O2 Sensor Circuit Low Voltage B2S2"),
        universal_table('P', 158) == Some("O2 Sensor Circuit High Voltage B2S2"),
        universal_table('P', 159) == Some("O2 Sensor Circuit Slow Response B2S2"),
        universal_table('P', 160) == Some("O2 Sensor Circuit No Activity B2S2"),
        universal_table('P', 161) == Some("O2 Sensor Heater Circuit B2S2"),
        universal_table('P', 171) == Some("System Too Lean Bank 1"),
        universal_table('P', 172) == Some("System Too Rich Bank 1"),
        universal_table('P', 174) == Some("System Too Lean Bank 2"),
        universal_table('P', 175) == Some("System Too Rich Bank 2"),
        universal_table('P', 192) == Some("Fuel Rail Pressure Sensor Circuit Low"),
        universal_table('P', 193) == Some("Fuel Rail Pressure Sensor Circuit High"),
        universal_table('P', 201) == Some("Injector Circuit/Open Cylinder 1"),
        universal_table('P', 202) == Some("Injector Circuit/Open Cylinder 2"),
        universal_table('P', 203) == Some("Injector Circuit/Open Cylinder 3"),
        universal_table('P', 204) == Some("Injector Circuit/Open Cylinder 4"),
        universal_table('P', 205) == Some("Injector Circuit/Open Cylinder 5"),
        universal_table('P', 206) == Some("Injector Circuit/Open Cylinder 6"),
        universal_table('P', 207) == Some("Injector Circuit/Open Cylinder 7"),
        universal_table('P', 208) == Some("Injector Circuit/Open Cylinder 8"),
        universal_table('P', 234) == Some("Turbo/Supercharger Overboost Condition"),
        universal_table('P', 236) == Some("Turbocharger Boost Sensor A Circuit Range/Performance"),
        universal_table('P', 299) == Some("Turbo/Supercharger Underboost"),
        universal_table('P', 300) == Some("Random/Multiple Cylinder Misfire Detected"),
        universal_table('P', 301) == Some("Cylinder 1 Misfire Detected"),
        universal_table('P', 302) == Some("Cylinder 2 Misfire Detected"),
        universal_table('P', 303) == Some("Cylinder 3 Misfire Detected"),
        universal_table('P', 304) == Some("Cylinder 4 Misfire Detected"),
        universal_table('P', 305) == Some("Cylinder 5 Misfire Detected"),
        universal_table('P', 306) == Some("Cylinder 6 Misfire Detected"),
        universal_table('P', 307) == Some("Cylinder 7 Misfire Detected"),
        universal_table('P', 308) == Some("Cylinder 8 Misfire Detected"),
        universal_table('P', 325) == Some("Knock Sensor 1 Circuit Bank 1"),
        universal_table('P', 335) == Some("Crankshaft Position Sensor A Circuit"),
        universal_table('P', 336) == Some("Crankshaft Position Sensor A Range/Performance"),
        universal_table('P', 340) == Some("Camshaft Position Sensor A Circuit Bank 1"),
        universal_table('P', 341) == Some("Camshaft Position Sensor A Range/Performance Bank 1"),
        universal_table('P', 365) == Some("Camshaft Position Sensor B Circuit (Bank 1)"),
        universal_table('P', 366) == Some("Camshaft Position Sensor B Circuit Range/Performance (Bank 1)"),
        universal_table('P', 380) == Some("Glow Plug/Heater Circuit A Malfunction"),
        universal_table('P', 400) == Some("EGR Flow Malfunction"),
        universal_table('P', 401) == Some("EGR Flow Insufficient"),
        universal_table('P', 402) == Some("EGR Flow Excessive"),
        universal_table('P', 404) == Some("EGR System Range/Performance"),
        universal_table('P', 405) == Some("EGR Position Sensor A Circuit Low"),
        universal_table('P', 406) == Some("EGR Position Sensor A Circuit High"),
        universal_table('P', 420) == Some("Catalyst System Efficiency Below Threshold Bank 1"),
        universal_table('P', 430) == Some("Catalyst System Efficiency Below Threshold Bank 2"),
        universal_table('P', 440) == Some("Evaporative Emission System Malfunction"),
        universal_table('P', 441) == Some("Evaporative Emission System Incorrect Purge Flow"),
        universal_table('P', 442) == Some("Evaporative Emission System Leak Detected (Small)"),
{
}

/// SAE J2012 descriptions of the codes P0443 to P1101 of the universal
/// table: the code made of category letter `L` and four decimal digits of
/// value `n` is described as stated.
pub proof fn lemma_universal_descriptions_3()
    ensures
        universal_table('P', 443) == Some("Evaporative Emission System Purge Control Valve Circuit"),
        universal_table('P', 446) == Some("Evaporative Emission System Vent Control Circuit"),
        universal_table('P', 449) == Some("Evaporative Emission System Vent Valve/Solenoid Circuit"),
        universal_table('P', 451) == Some("Evaporative Emission System Pressure Sensor Range/Performance"),
        universal_table('P', 455) == Some("Evaporative Emission System Leak Detected (Large)"),
        universal_table('P', 456) == Some("Evaporative Emission System Leak Detected (Very Small)"),
        universal_table('P', 496) == Some("Evaporative Emission System High Purge Flow"),
        universal_table('P', 500) == Some("Vehicle Speed Sensor A Malfunction"),
        universal_table('P', 503) == Some("Vehicle Speed Sensor Intermittent/Erratic/High"),
        universal_table('P', 505) == Some("Idle Air Control System Malfunction"),
        universal_table('P', 506) == Some("Idle Air Control System RPM Lower Than Expected"),
        universal_table('P', 507) == Some("Idle Air Control System RPM Higher Than Expected"),
        universal_table('P', 562) == Some("System Voltage Low"),
        universal_table('P', 563) == Some("System Voltage High"),
        universal_table('P', 597) == Some("Thermostat Heater Control Circuit Open"),
        universal_table('P', 598) == Some("Thermostat Heater Control Circuit Low"),
        universal_table('P', 599) == Some("Thermostat Heater Control Circuit High"),
        universal_table('P', 600) == Some("Serial Communication Link Malfunction"),
        universal_table('P', 601) == Some("Internal Control Module Memory Check Sum Error"),
        universal_table('P', 602) == Some("Control Module Programming Error"),
        universal_table('P', 606) == Some("ECM/PCM Processor Fault"),
        universal_table('P', 700) == Some("Transmission Control System Malfunction"),
        universal_table('P', 705) == Some("Transmission Range Sensor Circuit Malfunction"),
        universal_table('P', 710) == Some("Transmission Fluid Temperature Sensor Circuit"),
        universal_table('P', 711) == Some("Transmission Fluid Temperature Sensor Circuit Range/Performance"),
        universal_table('P', 715) == Some("Input/Turbine Speed Sensor Circuit"),
        universal_table('P', 717) == Some("Input/Turbine Speed Sensor Circuit No Signal"),
        universal_table('P', 720) == Some("Output Speed Sensor Circuit"),
        universal_table('P', 725) == Some("Engine Speed Input Circuit"),
        universal_table('P', 730) == Some("Incorrect Gear Ratio"),
        universal_table('P', 731) == Some("Gear 1 Incorrect Ratio"),
        universal_table('P', 732) == Some("Gear 2 Incorrect Ratio"),
        universal_table('P', 733) == Some("Gear 3 Incorrect Ratio"),
        universal_table('P', 734) == Some("Gear 4 Incorrect Ratio"),
        universal_table('P', 735) == Some("Gear 5 Incorrect Ratio"),
        universal_table('P', 740) == Some("Torque Converter Clutch Circuit Malfunction"),
        universal_table('P', 741) == Some("Torque Converter Clutch System Stuck Off"),
        universal_table('P', 742) == Some("Torque Converter Clutch System Stuck On"),
        universal_table('P', 743) == Some("Torque Converter Clutch System Electrical"),
        universal_table('P', 747) == Some("Pressure Control Solenoid A Stuck On"),
        universal_table('P', 748) == Some("Pressure Control Solenoid A Electrical"),
        universal_table('P', 750) == Some("Shift Solenoid A Malfunction"),
        universal_table('P', 751) == Some("Shift Solenoid A Performance/Stuck Off"),
        universal_table('P', 752) == Some("Shift Solenoid A Stuck On"),
        universal_table('P', 753) == Some("Shift Solenoid A Electrical"),
        universal_table('P', 755) == Some("Shift Solenoid B Malfunction"),
        universal_table('P', 756) == Some("Shift Solenoid B Performance/Stuck Off"),
        universal_table('P', 757) == Some("Shift Solenoid B Stuck On"),
        universal_table('P', 758) == Some("Shift Solenoid B Electrical"),
        universal_table('P', 1101) == Some("Intake Airflow System Performance"),
{
}

/// SAE J2012 descriptions of the codes P2097 to U0401 of the universal
/// table: the code made of category letter `L` and four decimal digits of
/// value `n` is described as stated.
pub proof fn lemma_universal_descriptions_4()
    ensures
        universal_table('P', 2097) == Some("Post Catalyst Fuel Trim System Too Rich (Bank 1)"),
        universal_table('P', 2227) == Some("Barometric Pressure Circuit Range/Performance"),
        universal_table('P', 2270) == Some("O2 Sensor Signal Stuck Lean (Bank 1 Sensor 2)"),
        universal_table('P', 2271) == Some("O2 Sensor Signal Stuck Rich (Bank 1 Sensor 2)"),
        universal_table('P', 2797) == Some("Auxiliary Transmission Fluid Pump Performance"),
        universal_table('B', 83) == Some("Left Side/Front Impact Sensor Circuit"),
        universal_table('B', 92) == Some("Left Side/Rear Impact Sensor Circuit"),
        universal_table('B', 96) == Some("Right Side/Rear Impact Sensor Circuit"),
        universal_table('B', 408) == Some("Temperature Control A Circuit"),
        universal_table('B', 1325) == Some("Control Module General Memory Failure"),
        universal_table('B', 1517) == Some("Steering Wheel Controls Switch 1 Circuit"),
        universal_table('C', 35) == Some("Left Front Wheel Speed Sensor Circuit"),
        universal_table('C', 40) == Some("Right Front Wheel Speed Sensor Circuit"),
        universal_table('C', 45) == Some("Left Rear Wheel Speed Sensor Circuit"),
        universal_table('C', 50) == Some("Right Rear Wheel Speed Sensor Circuit"),
        universal_table('C', 110) == Some("Pump Motor Circuit Malfunction"),
        universal_table('C', 161) == Some("ABS/TCS Brake Switch Circuit Malfunction"),
        universal_table('C', 186) == Some("Lateral Accelerometer Circuit"),
        universal_table('C', 196) == Some("Yaw Rate Sensor Circuit"),
        universal_table('C', 550) == Some("ECU Malfunction (Stability System)"),
        universal_table('C', 899) == Some("Device Voltage Low"),
        universal_table('C', 900) == Some("Device Voltage High"),
        universal_table('U', 1) == Some("High Speed CAN Communication Bus"),
        universal_table('U', 73) == Some("Control Module Communication Bus Off"),
        universal_table('U', 100) == Some("Lost Communication with ECM/PCM"),
        universal_table('U', 101) == Some("Lost Communication with TCM"),
        universal_table('U', 121) == Some("Lost Communication with ABS"),
        universal_table('U', 140) == Some("Lost Communication with BCM"),
        universal_table('U', 146) == Some("Lost Communication with Gateway A"),
        universal_table('U', 151) == Some("Lost Communication with SIR Module"),
        universal_table('U', 155) == Some("Lost Communication with Instrument Panel Cluster"),
        universal_table('U', 168) == Some("Lost Communication with HVAC Control Module"),
        universal_table('U', 184) == Some("Lost Communication with Radio"),
        universal_table('U', 401) == Some("Invalid Data Received from ECM/PCM A"),
{
}

} // verus!
