//! What a session reads out of raw service responses: VIN and vehicle
//! information text, calibration verification numbers, O2 monitoring raw
//! values, supported-PID bitmaps, and the bytes of J1939 requests.

use vstd::prelude::*;
use crate::adapter::elm327::{bitmap_fits, bitmap_pids, parse_supported_pids};
use crate::error::Obd2Error;
use crate::protocol::j1939::Pgn;
use crate::protocol::service::{o2_location_of, O2SensorLocation};
use crate::text::{decimal, push_char, push_decimal};

verus! {

broadcast use vstd::string::group_string_axioms;

/// Whether a byte is printable ASCII (0x20 to 0x7E).
pub open spec fn printable(b: u8) -> bool {
    0x20 <= b && b <= 0x7E
}

/// The printable ASCII characters of a byte sequence, in order.
pub open spec fn printable_text(data: Seq<u8>) -> Seq<char>
    decreases data.len(),
{
    if data.len() == 0 {
        Seq::empty()
    } else if printable(data.last()) {
        printable_text(data.drop_last()).push(data.last() as char)
    } else {
        printable_text(data.drop_last())
    }
}

/// The printable ASCII characters of the bytes, as text.
pub fn printable_ascii(data: &[u8]) -> (s: String)
    ensures
        s@ == printable_text(data@),
{
    let mut s = String::new();
    let mut i: usize = 0;
    while i < data.len()
        invariant
            i <= data.len(),
            s@ == printable_text(data@.take(i as int)),
        decreases data.len() - i,
    {
        proof {
            assert(data@.take(i + 1).drop_last() =~= data@.take(i as int));
            assert(data@.take(i + 1).last() == data@[i as int]);
        }
        let b = data[i];
        if b >= 0x20 && b <= 0x7E {
            push_char(&mut s, b as char);
        }
        i = i + 1;
    }
    proof {
        assert(data@.take(data.len() as int) =~= data@);
    }
    s
}

/// The VIN in a Mode 09 PID 02 response: the first 17 printable ASCII
/// characters; fewer is an error that gives their number.
pub fn vin_from_bytes(data: &[u8]) -> (r: Result<String, Obd2Error>)
    ensures
        printable_text(data@).len() >= 17 ==> (r matches Ok(v) && v@ == printable_text(data@).take(17)),
        printable_text(data@).len() < 17 ==> (r matches Err(Obd2Error::ParseError(m))
            && m@ == "VIN too short: "@ + decimal(printable_text(data@).len()) + " chars"@),
{
    let text = printable_ascii(data);
    let cs = crate::text::str_chars(text.as_str());
    if cs.len() >= 17 {
        let v = crate::text::chars_range(&cs, 0, 17);
        proof {
            assert(v@ =~= printable_text(data@).take(17));
        }
        Ok(crate::text::string_from_chars(&v))
    } else {
        let mut m = String::from_str("VIN too short: ");
        push_decimal(&mut m, cs.len() as u64);
        m.append(" chars");
        Err(Obd2Error::ParseError(m))
    }
}

/// The calibration ids of a Mode 09 PID 04 answer: its printable text, if
/// any (a failed request gives none).
pub fn calibration_ids_from(response: &Result<Vec<u8>, Obd2Error>) -> (ids: Vec<String>)
    ensures
        match response {
            Ok(data) => if printable_text(data@).len() == 0 {
                ids@.len() == 0
            } else {
                ids@.len() == 1 && ids@[0]@ == printable_text(data@)
            },
            Err(_) => ids@.len() == 0,
        },
{
    match response {
        Ok(data) => {
            let s = printable_ascii(data.as_slice());
            let cs = crate::text::str_chars(s.as_str());
            let mut ids: Vec<String> = Vec::new();
            if cs.len() > 0 {
                ids.push(s);
            }
            ids
        },
        Err(_) => Vec::new(),
    }
}

/// The calibration verification number of a Mode 09 PID 06 answer: its
/// first four bytes big-endian, if it has four (a failed request gives none).
pub fn cvns_from(response: &Result<Vec<u8>, Obd2Error>) -> (cvns: Vec<u32>)
    ensures
        match response {
            Ok(data) => if data@.len() >= 4 {
                cvns@ == seq![(data@[0] * 16777216 + data@[1] * 65536 + data@[2] * 256 + data@[3]) as u32]
            } else {
                cvns@.len() == 0
            },
            Err(_) => cvns@.len() == 0,
        },
{
    match response {
        Ok(data) => if data.len() >= 4 {
            let v: u32 = (data[0] as u32) * 16777216 + (data[1] as u32) * 65536 + (data[2] as u32) * 256
                + (data[3] as u32);
            vec![v]
        } else {
            Vec::new()
        },
        Err(_) => Vec::new(),
    }
}

/// The ECU name of a Mode 09 PID 0A answer: its printable text, if any.
pub fn ecu_name_from(response: &Result<Vec<u8>, Obd2Error>) -> (name: Option<String>)
    ensures
        match response {
            Ok(data) => if printable_text(data@).len() == 0 {
                name is None
            } else {
                name matches Some(n) && n@ == printable_text(data@)
            },
            Err(_) => name is None,
        },
{
    match response {
        Ok(data) => {
            let s = printable_ascii(data.as_slice());
            let cs = crate::text::str_chars(s.as_str());
            if cs.len() == 0 {
                None
            } else {
                Some(s)
            }
        },
        Err(_) => None,
    }
}

/// The three bytes that request a J1939 parameter group: its number, least
/// significant byte first.
pub fn pgn_request_bytes(pgn: &Pgn) -> (b: Vec<u8>)
    ensures
        b@ == seq![(pgn.0 % 256) as u8, ((pgn.0 / 256) % 256) as u8, ((pgn.0 / 65536) % 256) as u8],
{
    vec![(pgn.0 % 256) as u8, ((pgn.0 / 256) % 256) as u8, ((pgn.0 / 65536) % 256) as u8]
}

/// The sensor and raw value of a Mode 05 answer for a sensor byte: the
/// first two bytes big-endian, when there are two and the byte names a
/// sensor.
pub fn o2_sensor_reading(sensor_byte: u8, data: &[u8]) -> (r: Option<(O2SensorLocation, u16)>)
    ensures
        data@.len() >= 2 && o2_location_of(sensor_byte) is Some ==> r == Some(
            (o2_location_of(sensor_byte)->0, (data@[0] * 256 + data@[1]) as u16),
        ),
        !(data@.len() >= 2 && o2_location_of(sensor_byte) is Some) ==> r is None,
{
    if data.len() < 2 {
        return None;
    }
    match O2SensorLocation::from_byte(sensor_byte) {
        Some(loc) => Some((loc, (data[0] as u16) * 256 + (data[1] as u16))),
        None => None,
    }
}

/// The supported PIDs of a bitmap answer: its first four bytes read as the
/// bitmap for PIDs from `base_pid + 1`.
pub fn supported_pid_bitmap(data: &[u8], base_pid: u8) -> (pids: Vec<u8>)
    requires
        bitmap_fits(data@.take(if data@.len() < 4 { data@.len() as int } else { 4 }), base_pid),
    ensures
        pids@ == bitmap_pids(data@.take(if data@.len() < 4 { data@.len() as int } else { 4 }), base_pid),
{
    let n: usize = if data.len() < 4 { data.len() } else { 4 };
    let head = crate::text::copy_bytes(data);
    let mut first: Vec<u8> = Vec::new();
    let mut i: usize = 0;
    while i < n
        invariant
            i <= n,
            n <= head@.len(),
            head@ == data@,
            first@ == data@.take(i as int),
        decreases n - i,
    {
        first.push(head[i]);
        proof {
            assert(data@.take(i + 1) =~= data@.take(i as int).push(data@[i as int]));
        }
        i = i + 1;
    }
    parse_supported_pids(first.as_slice(), base_pid)
}

} // verus!
