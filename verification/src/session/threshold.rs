//! The threshold names under which a vehicle spec lists limits for standard
//! and enhanced PIDs.

use vstd::prelude::*;
use crate::protocol::pid::Pid;
use crate::text::{hex_padded, push_hex_padded};

verus! {

/// The spec threshold name of a standard PID.
pub open spec fn threshold_name(code: u8) -> Option<&'static str> {
    match code {
        0x05 => Some("coolant_temp_c"),
        0x0C => Some("rpm"),
        0x5C => Some("oil_temp_c"),
        0x0B => Some("intake_map_kpa"),
        0x10 => Some("maf_gs"),
        0x42 => Some("battery_voltage"),
        0x2F => Some("fuel_tank_pct"),
        0x5E => Some("fuel_rate_lh"),
        0x46 => Some("ambient_temp_c"),
        0x0F => Some("intake_air_temp_c"),
        0x33 => Some("barometric_kpa"),
        _ => None,
    }
}

/// Map a standard PID to its threshold name in the spec.
pub fn pid_threshold_name(pid: Pid) -> (r: Option<&'static str>)
    ensures
        r == threshold_name(pid.0),
{
    match pid.0 {
        0x05 => Some("coolant_temp_c"),
        0x0C => Some("rpm"),
        0x5C => Some("oil_temp_c"),
        0x0B => Some("intake_map_kpa"),
        0x10 => Some("maf_gs"),
        0x42 => Some("battery_voltage"),
        0x2F => Some("fuel_tank_pct"),
        0x5E => Some("fuel_rate_lh"),
        0x46 => Some("ambient_temp_c"),
        0x0F => Some("intake_air_temp_c"),
        0x33 => Some("barometric_kpa"),
        _ => None,
    }
}

/// The threshold name of an enhanced PID: its DID as `0x` and four
/// upper-case hexadecimal digits (`{:#06X}`).
pub fn did_threshold_name(did: u16) -> (s: String)
    ensures
        s@ == "0x"@ + hex_padded(did as nat, 4),
{
    let mut s = String::from_str("0x");
    push_hex_padded(&mut s, did as u32, 4);
    s
}

/// The threshold each standard PID is checked against: the threshold named
/// for the quantity the PID measures, and none for PIDs without one.
pub proof fn lemma_threshold_names(code: u8)
    ensures
        code == 0x05 ==> threshold_name(code) == Some("coolant_temp_c"),
        code == 0x0C ==> threshold_name(code) == Some("rpm"),
        code == 0x5C ==> threshold_name(code) == Some("oil_temp_c"),
        code == 0x0B ==> threshold_name(code) == Some("intake_map_kpa"),
        code == 0x10 ==> threshold_name(code) == Some("maf_gs"),
        code == 0x42 ==> threshold_name(code) == Some("battery_voltage"),
        code == 0x2F ==> threshold_name(code) == Some("fuel_tank_pct"),
        code == 0x5E ==> threshold_name(code) == Some("fuel_rate_lh"),
        code == 0x46 ==> threshold_name(code) == Some("ambient_temp_c"),
        code == 0x0F ==> threshold_name(code) == Some("intake_air_temp_c"),
        code == 0x33 ==> threshold_name(code) == Some("barometric_kpa"),
        code != 0x05 && code != 0x0C && code != 0x5C && code != 0x0B && code != 0x10 && code != 0x42 && code != 0x2F && code != 0x5E && code != 0x46 && code != 0x0F && code != 0x33 ==> threshold_name(code) is None,
{
}

} // verus!
