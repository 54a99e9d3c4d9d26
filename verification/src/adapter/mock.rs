//! Mock adapter that simulates a vehicle: realistic values for standard
//! PIDs, configurable DTCs, a VIN and fixed answers for the other services.

use vstd::prelude::*;
use super::{copy_info, AdapterInfo, Capabilities, Chipset, InitializationReport, RoutedRequest};
use super::detect::capabilities_of;
use crate::error::Obd2Error;
use crate::protocol::dtc::{code_of_bytes, Dtc};
use crate::protocol::pid::Pid;
use crate::protocol::service::ServiceRequest;
use crate::session::modes::{dtc_pairs, lemma_dtc_pairs_append};
use crate::session::responses::{printable, printable_text};
use crate::text::{chars_range, hex_upper, parse_hex_u16, parse_hex_word, str_chars};
use crate::vehicle::Protocol;
use vstd::string::StringSliceAdditionalSpecFns;
use vstd::utf8::encode_utf8;

verus! {

broadcast use vstd::string::group_string_axioms;

/// The PID codes the mock vehicle supports.
pub open spec fn mock_supported_codes() -> Seq<u8> {
    seq![0x00u8, 0x01u8, 0x03u8, 0x04u8, 0x05u8, 0x06u8, 0x07u8, 0x08u8, 0x09u8, 0x0Au8, 0x0Bu8, 0x0Cu8, 0x0Du8, 0x0Eu8, 0x0Fu8, 0x10u8, 0x11u8, 0x1Cu8, 0x1Fu8, 0x20u8, 0x21u8, 0x23u8, 0x2Cu8, 0x2Du8, 0x2Eu8, 0x2Fu8, 0x30u8, 0x31u8, 0x33u8, 0x3Cu8, 0x3Du8, 0x3Eu8, 0x3Fu8, 0x40u8, 0x42u8, 0x43u8, 0x44u8, 0x45u8, 0x46u8, 0x47u8, 0x49u8, 0x4Au8, 0x4Cu8, 0x59u8, 0x5Cu8, 0x5Eu8, 0x60u8, 0x61u8, 0x62u8, 0x63u8]
}

/// The data bytes the mock vehicle answers for a Mode 01 PID.
pub open spec fn mock_pid_data(pid: u8) -> Seq<u8> {
    match pid {
        0x04 => seq![0x40u8],
        0x05 => seq![0x5Au8],
        0x06 => seq![0x80u8],
        0x07 => seq![0x80u8],
        0x08 => seq![0x80u8],
        0x09 => seq![0x80u8],
        0x0A => seq![0x64u8],
        0x0B => seq![0x65u8],
        0x0D => seq![0x00u8],
        0x0E => seq![0x8Cu8],
        0x0F => seq![0x41u8],
        0x11 => seq![0x26u8],
        0x1C => seq![0x06u8],
        0x2C => seq![0x1Au8],
        0x2D => seq![0x80u8],
        0x2E => seq![0x40u8],
        0x2F => seq![0xB3u8],
        0x30 => seq![0x32u8],
        0x33 => seq![0x65u8],
        0x45 => seq![0x26u8],
        0x46 => seq![0x41u8],
        0x47 => seq![0x40u8],
        0x49 => seq![0x1Au8],
        0x4A => seq![0x1Au8],
        0x4C => seq![0x26u8],
        0x5C => seq![0x78u8],
        0x61 => seq![0x8Du8],
        0x62 => seq![0x8Du8],
        0x0C => seq![0x0Au8, 0xA0u8],
        0x10 => seq![0x00u8, 0xFAu8],
        0x1F => seq![0x00u8, 0x3Cu8],
        0x21 => seq![0x00u8, 0x00u8],
        0x23 => seq![0x13u8, 0x88u8],
        0x31 => seq![0x27u8, 0x10u8],
        0x3C => seq![0x0Fu8, 0xA0u8],
        0x3D => seq![0x0Fu8, 0xA0u8],
        0x3E => seq![0x0Bu8, 0xB8u8],
        0x3F => seq![0x0Bu8, 0xB8u8],
        0x42 => seq![0x38u8, 0x5Cu8],
        0x43 => seq![0x00u8, 0x64u8],
        0x44 => seq![0x80u8, 0x00u8],
        0x59 => seq![0x00u8, 0xC8u8],
        0x5E => seq![0x00u8, 0x64u8],
        0x63 => seq![0x03u8, 0x7Fu8],
        0x00 => seq![0xBEu8, 0x3Eu8, 0xB8u8, 0x11u8],
        0x01 => seq![0x00u8, 0x07u8, 0x65u8, 0x00u8],
        0x20 => seq![0x80u8, 0x12u8, 0xA0u8, 0x13u8],
        0x40 => seq![0xFAu8, 0xDCu8, 0x80u8, 0x00u8],
        0x60 => seq![0xE0u8, 0x00u8, 0x00u8, 0x00u8],
        _ => seq![0x00u8],
    }
}

/// The data bytes the mock vehicle answers for a J1939 PGN: engine speed
/// 680 rpm at 0.125 rpm per bit (raw 5440) and 30 % torque for EEC1, a
/// stopped vehicle for CCVS, 50 and 20 degrees for ET1, 400 and 100 kPa for
/// EFLP1, 5.0 L/h at 0.05 L/h per bit (raw 100) for LFE, no active DTCs for
/// DM1, and all bytes unavailable for any other PGN.
pub open spec fn mock_pgn_data(pgn: u32) -> Seq<u8> {
    if pgn == 61444 {
        seq![0x00u8, 155, 155, 0x40, 0x15, 0xFF, 0xFF, 0xFF]
    } else if pgn == 65265 {
        seq![0x00u8, 0x00, 0x00, 0x00, 0x00, 0x00, 0x00, 0x00]
    } else if pgn == 65262 {
        seq![90u8, 60, 0x00, 0x00, 0xFF, 0xFF, 0xFF, 0xFF]
    } else if pgn == 65263 {
        seq![0xFFu8, 50, 0xFF, 100, 0xFF, 0xFF, 0xFF, 0xFF]
    } else if pgn == 65266 {
        seq![100u8, 0x00, 0x00, 0x02, 0xFF, 0xFF, 0xFF, 0xFF]
    } else if pgn == 65226 {
        seq![0x00u8, 0x00]
    } else {
        seq![0xFFu8, 0xFF, 0xFF, 0xFF, 0xFF, 0xFF, 0xFF, 0xFF]
    }
}

/// The category bits that a code's first letter gives the first DTC byte.
pub open spec fn letter_prefix(c: char) -> u8 {
    if c == 'P' {
        0x00
    } else if c == 'C' {
        0x40
    } else if c == 'B' {
        0x80
    } else if c == 'U' {
        0xC0
    } else {
        0x00
    }
}

/// The two bytes that Mode 03 reports for a DTC code: the category bits of
/// its first letter with the top six bits of the number that the rest of
/// the code spells in hexadecimal, then the low byte of that number. A code
/// that is not five bytes long, or whose rest does not parse, gives none.
pub open spec fn mock_dtc_bytes(code: Seq<char>) -> Seq<u8> {
    if encode_utf8(code).len() == 5 {
        match parse_hex_u16(code.drop_first()) {
            Some(num) => seq![
                (letter_prefix(code[0]) + (num as int / 256) % 64) as u8,
                (num as int % 256) as u8,
            ],
            None => Seq::empty(),
        }
    } else {
        Seq::empty()
    }
}

/// The Mode 03 answer for a list of DTCs.
pub open spec fn mock_dtcs_bytes(dtcs: Seq<Dtc>) -> Seq<u8>
    decreases dtcs.len(),
{
    if dtcs.len() == 0 {
        Seq::empty()
    } else {
        mock_dtcs_bytes(dtcs.drop_last()) + mock_dtc_bytes(dtcs.last().code@)
    }
}

/// Whether every five-byte code starts with an ASCII character, so that the
/// rest of it can be sliced off at byte 1.
pub open spec fn dtcs_encodable(dtcs: Seq<Dtc>) -> bool {
    forall|i: int| 0 <= i < dtcs.len() && encode_utf8(#[trigger] dtcs[i].code@).len() == 5
        ==> (dtcs[i].code@[0] as u32) < 128
}

/// What the mock vehicle answers to a request, given its VIN, DTCs and
/// supported PIDs. `Err(None)` stands for `NoData`, `Err(Some(m))` for a
/// parse error with message `m`.
pub open spec fn mock_answer(
    vin: Seq<char>,
    dtcs: Seq<Dtc>,
    supported: Seq<u8>,
    service_id: u8,
    data: Seq<u8>,
) -> Result<Seq<u8>, Option<Seq<char>>> {
    if service_id == 0x01 {
        if data.len() == 0 {
            Err(Some("no PID in request"@))
        } else if supported.contains(data[0]) {
            Ok(mock_pid_data(data[0]))
        } else {
            Err(None)
        }
    } else if service_id == 0x03 {
        Ok(mock_dtcs_bytes(dtcs))
    } else if service_id == 0x04 {
        Ok(Seq::empty())
    } else if service_id == 0x09 {
        if data.len() > 0 && data[0] == 0x02 { Ok(encode_utf8(vin)) } else { Ok(Seq::empty()) }
    } else if service_id == 0x05 {
        if data.len() >= 2 && data[1] <= 0x02 { Ok(seq![0x00u8, 0x5A]) } else { Err(None) }
    } else if service_id == 0x21 || service_id == 0x22 {
        Ok(seq![0x80u8, 0x00])
    } else if service_id == 0x10 || service_id == 0x2F || service_id == 0x3E {
        Ok(Seq::empty())
    } else if service_id == 0x27 {
        if data.len() > 0 && data[0] == 0x01 { Ok(seq![0xAAu8, 0xBB, 0xCC, 0xDD]) } else { Ok(Seq::empty()) }
    } else if service_id == 0xEA {
        if data.len() >= 3 {
            Ok(mock_pgn_data((data[0] + 256 * data[1] + 65536 * data[2]) as u32))
        } else {
            Err(None)
        }
    } else {
        Err(None)
    }
}

/// Whether `r` is the result value for answer `a`.
pub open spec fn answers(r: Result<Vec<u8>, Obd2Error>, a: Result<Seq<u8>, Option<Seq<char>>>) -> bool {
    match a {
        Ok(b) => r matches Ok(v) && v@ == b,
        Err(None) => r matches Err(e) && e is NoData,
        Err(Some(m)) => r matches Err(Obd2Error::ParseError(x)) && x@ == m,
    }
}

/// The adapter information the mock reports.
pub open spec fn is_mock_info(info: AdapterInfo) -> bool {
    &&& info.chipset == Chipset::Elm327Genuine
    &&& info.firmware@ == "MockAdapter v1.0"@
    &&& info.protocol == Protocol::Can11Bit500
    &&& info.capabilities == capabilities_of(Chipset::Elm327Genuine)
}

/// A mock adapter that simulates a vehicle for testing.
///
/// Returns realistic values for standard PIDs and configurable DTCs.
#[derive(Debug)]
pub struct MockAdapter {
    info: AdapterInfo,
    vin: String,
    dtcs: Vec<Dtc>,
    initialized: bool,
    /// Codes of the supported PIDs.
    supported: Vec<u8>,
}

/// What a mock adapter holds: its information, VIN, stored DTCs, whether it
/// was initialized, and the codes of its supported PIDs.
pub struct MockView {
    pub info: AdapterInfo,
    pub vin: Seq<char>,
    pub dtcs: Seq<Dtc>,
    pub initialized: bool,
    pub supported: Seq<u8>,
}

impl View for MockAdapter {
    type V = MockView;

    closed spec fn view(&self) -> MockView {
        MockView {
            info: self.info,
            vin: self.vin@,
            dtcs: self.dtcs@,
            initialized: self.initialized,
            supported: self.supported@,
        }
    }
}

fn code_listed(v: &Vec<u8>, x: u8) -> (r: bool)
    ensures
        r == v@.contains(x),
{
    let mut i: usize = 0;
    while i < v.len()
        invariant
            i <= v.len(),
            forall|j: int| 0 <= j < i ==> v@[j] != x,
        decreases v.len() - i,
    {
        if v[i] == x {
            return true;
        }
        i = i + 1;
    }
    false
}

/// The two Mode 03 bytes of one DTC code.
fn encode_mock_dtc(code: &str) -> (r: Vec<u8>)
    requires
        encode_utf8(code@).len() == 5 ==> (code@[0] as u32) < 128,
    ensures
        r@ == mock_dtc_bytes(code@),
{
    let chars = str_chars(code);
    proof {
        crate::text::lemma_utf8_len_lower(code@);
        crate::text::lemma_utf8_len_bound(code@);
    }
    let mut out: Vec<u8> = Vec::new();
    if chars.len() <= 5 && code.len() == 5 {
        let first = chars[0];
        let rest = chars_range(&chars, 1, chars.len());
        proof {
            assert(rest@ =~= code@.drop_first());
        }
        if let Some(num) = parse_hex_word(&rest) {
            let prefix: u8 = if first == 'P' {
                0x00
            } else if first == 'C' {
                0x40
            } else if first == 'B' {
                0x80
            } else if first == 'U' {
                0xC0
            } else {
                0x00
            };
            let a: u8 = prefix + ((num / 256) % 64) as u8;
            let b: u8 = (num % 256) as u8;
            out.push(a);
            out.push(b);
            proof {
                assert(out@ =~= mock_dtc_bytes(code@));
            }
        }
    }
    out
}

impl MockAdapter {
    /// Create with default settings (a Duramax VIN).
    pub fn new() -> (m: Self)
        ensures
            m@.vin == "1GCHK23224F000001"@,
            m@.dtcs.len() == 0,
            !m@.initialized,
            m@.supported == mock_supported_codes(),
            is_mock_info(m@.info),
    {
        Self::with_vin("1GCHK23224F000001")
    }

    /// Create with a specific VIN.
    pub fn with_vin(vin: &str) -> (m: Self)
        ensures
            m@.vin == vin@,
            m@.dtcs.len() == 0,
            !m@.initialized,
            m@.supported == mock_supported_codes(),
            is_mock_info(m@.info),
    {
        let supported: Vec<u8> = vec![0x00, 0x01, 0x03, 0x04, 0x05, 0x06, 0x07, 0x08, 0x09, 0x0A, 0x0B, 0x0C, 0x0D, 0x0E, 0x0F, 0x10, 0x11, 0x1C, 0x1F, 0x20, 0x21, 0x23, 0x2C, 0x2D, 0x2E, 0x2F, 0x30, 0x31, 0x33, 0x3C, 0x3D, 0x3E, 0x3F, 0x40, 0x42, 0x43, 0x44, 0x45, 0x46, 0x47, 0x49, 0x4A, 0x4C, 0x59, 0x5C, 0x5E, 0x60, 0x61, 0x62, 0x63];
        MockAdapter {
            info: AdapterInfo {
                chipset: Chipset::Elm327Genuine,
                firmware: String::from_str("MockAdapter v1.0"),
                protocol: Protocol::Can11Bit500,
                capabilities: Capabilities {
                    can_clear_dtcs: true,
                    dual_can: false,
                    enhanced_diag: true,
                    battery_voltage: true,
                    adaptive_timing: true,
                    kline_init: true,
                    kline_wakeup: true,
                    can_filtering: true,
                    can_flow_control: true,
                    can_extended_addressing: true,
                    can_silent_mode: true,
                },
            },
            vin: String::from_str(vin),
            dtcs: Vec::new(),
            initialized: false,
            supported,
        }
    }

    /// Set the DTCs that will be returned by Mode 03 queries.
    pub fn set_dtcs(&mut self, dtcs: Vec<Dtc>)
        ensures
            final(self)@.dtcs == dtcs@,
            final(self)@.vin == old(self)@.vin,
            final(self)@.supported == old(self)@.supported,
            final(self)@.info == old(self)@.info,
            final(self)@.initialized == old(self)@.initialized,
    {
        self.dtcs = dtcs;
    }

    /// Whether Mode 03 can encode the stored DTCs: every code of five bytes
    /// starts with an ASCII character, so its rest can be sliced off.
    pub fn can_encode_dtcs(&self) -> (r: bool)
        ensures
            r == dtcs_encodable(self@.dtcs),
    {
        let mut i: usize = 0;
        while i < self.dtcs.len()
            invariant
                i <= self.dtcs.len(),
                forall|k: int| 0 <= k < i && encode_utf8(#[trigger] self.dtcs@[k].code@).len() == 5
                    ==> (self.dtcs@[k].code@[0] as u32) < 128,
            decreases self.dtcs.len() - i,
        {
            let code = self.dtcs[i].code.as_str();
            let chars = str_chars(code);
            proof {
                crate::text::lemma_utf8_len_lower(code@);
                crate::text::lemma_utf8_len_bound(code@);
                assert(self.dtcs@[i as int].code@ == code@);
            }
            if chars.len() <= 5 && code.len() == 5 && (chars[0] as u32) >= 128 {
                proof {
                    assert(self@.dtcs == self.dtcs@);
                    assert(encode_utf8(self@.dtcs[i as int].code@).len() == 5);
                }
                return false;
            }
            i = i + 1;
        }
        proof {
            assert(self@.dtcs == self.dtcs@);
        }
        true
    }

    /// Generate a realistic mock response for a standard PID.
    pub fn mock_pid_response(&self, pid: u8) -> (r: Vec<u8>)
        ensures
            r@ == mock_pid_data(pid),
    {
        match pid {
            0x04 => vec![0x40],
            0x05 => vec![0x5A],
            0x06 => vec![0x80],
            0x07 => vec![0x80],
            0x08 => vec![0x80],
            0x09 => vec![0x80],
            0x0A => vec![0x64],
            0x0B => vec![0x65],
            0x0D => vec![0x00],
            0x0E => vec![0x8C],
            0x0F => vec![0x41],
            0x11 => vec![0x26],
            0x1C => vec![0x06],
            0x2C => vec![0x1A],
            0x2D => vec![0x80],
            0x2E => vec![0x40],
            0x2F => vec![0xB3],
            0x30 => vec![0x32],
            0x33 => vec![0x65],
            0x45 => vec![0x26],
            0x46 => vec![0x41],
            0x47 => vec![0x40],
            0x49 => vec![0x1A],
            0x4A => vec![0x1A],
            0x4C => vec![0x26],
            0x5C => vec![0x78],
            0x61 => vec![0x8D],
            0x62 => vec![0x8D],
            0x0C => vec![0x0A, 0xA0],
            0x10 => vec![0x00, 0xFA],
            0x1F => vec![0x00, 0x3C],
            0x21 => vec![0x00, 0x00],
            0x23 => vec![0x13, 0x88],
            0x31 => vec![0x27, 0x10],
            0x3C => vec![0x0F, 0xA0],
            0x3D => vec![0x0F, 0xA0],
            0x3E => vec![0x0B, 0xB8],
            0x3F => vec![0x0B, 0xB8],
            0x42 => vec![0x38, 0x5C],
            0x43 => vec![0x00, 0x64],
            0x44 => vec![0x80, 0x00],
            0x59 => vec![0x00, 0xC8],
            0x5E => vec![0x00, 0x64],
            0x63 => vec![0x03, 0x7F],
            0x00 => vec![0xBE, 0x3E, 0xB8, 0x11],
            0x01 => vec![0x00, 0x07, 0x65, 0x00],
            0x20 => vec![0x80, 0x12, 0xA0, 0x13],
            0x40 => vec![0xFA, 0xDC, 0x80, 0x00],
            0x60 => vec![0xE0, 0x00, 0x00, 0x00],
            _ => vec![0x00],
        }
    }

    /// Generate a mock J1939 PGN response.
    pub fn mock_j1939_response(&self, pgn: u32) -> (r: Vec<u8>)
        ensures
            r@ == mock_pgn_data(pgn),
    {
        match pgn {
            61444 => vec![0x00, 155, 155, 0x40, 0x15, 0xFF, 0xFF, 0xFF],
            65265 => vec![0x00, 0x00, 0x00, 0x00, 0x00, 0x00, 0x00, 0x00],
            65262 => vec![90, 60, 0x00, 0x00, 0xFF, 0xFF, 0xFF, 0xFF],
            65263 => vec![0xFF, 50, 0xFF, 100, 0xFF, 0xFF, 0xFF, 0xFF],
            65266 => vec![100, 0x00, 0x00, 0x02, 0xFF, 0xFF, 0xFF, 0xFF],
            65226 => vec![0x00, 0x00],
            _ => vec![0xFF, 0xFF, 0xFF, 0xFF, 0xFF, 0xFF, 0xFF, 0xFF],
        }
    }

    /// Mark the adapter initialized and report its information.
    pub fn initialize(&mut self) -> (r: Result<InitializationReport, Obd2Error>)
        ensures
            final(self)@.initialized,
            final(self)@.info == old(self)@.info,
            final(self)@.vin == old(self)@.vin,
            final(self)@.dtcs == old(self)@.dtcs,
            final(self)@.supported == old(self)@.supported,
            r matches Ok(rep) && rep.info.chipset == old(self)@.info.chipset
                && rep.info.firmware@ == old(self)@.info.firmware@
                && rep.info.protocol == old(self)@.info.protocol
                && rep.info.capabilities == old(self)@.info.capabilities
                && rep.probe_attempts@.len() == 0 && rep.events@.len() == 0,
    {
        self.initialized = true;
        Ok(InitializationReport {
            info: copy_info(&self.info),
            probe_attempts: Vec::new(),
            events: Vec::new(),
        })
    }

    /// Answer a service request as the simulated vehicle would. Mode 04
    /// clears the stored DTCs.
    pub fn respond(&mut self, service_id: u8, data: &[u8]) -> (r: Result<Vec<u8>, Obd2Error>)
        requires
            service_id == 0x03 ==> dtcs_encodable(old(self)@.dtcs),
        ensures
            answers(r, mock_answer(old(self)@.vin, old(self)@.dtcs, old(self)@.supported, service_id, data@)),
            service_id == 0x04 ==> final(self)@.dtcs.len() == 0,
            service_id != 0x04 ==> final(self)@.dtcs == old(self)@.dtcs,
            final(self)@.vin == old(self)@.vin,
            final(self)@.supported == old(self)@.supported,
            final(self)@.info == old(self)@.info,
            final(self)@.initialized == old(self)@.initialized,
    {
        if service_id == 0x01 {
            if data.len() == 0 {
                return Err(Obd2Error::ParseError(String::from_str("no PID in request")));
            }
            let pid_code = data[0];
            if code_listed(&self.supported, pid_code) {
                Ok(self.mock_pid_response(pid_code))
            } else {
                Err(Obd2Error::NoData)
            }
        } else if service_id == 0x03 {
            let mut result: Vec<u8> = Vec::new();
            let mut i: usize = 0;
            while i < self.dtcs.len()
                invariant
                    i <= self.dtcs.len(),
                    dtcs_encodable(self.dtcs@),
                    result@ == mock_dtcs_bytes(self.dtcs@.take(i as int)),
                decreases self.dtcs.len() - i,
            {
                let code = self.dtcs[i].code.as_str();
                proof {
                    assert(encode_utf8(self.dtcs@[i as int].code@).len() == 5
                        ==> (self.dtcs@[i as int].code@[0] as u32) < 128);
                }
                let bytes = encode_mock_dtc(code);
                let mut j: usize = 0;
                let ghost before = result@;
                while j < bytes.len()
                    invariant
                        j <= bytes.len(),
                        result@ == before + bytes@.take(j as int),
                    decreases bytes.len() - j,
                {
                    result.push(bytes[j]);
                    proof {
                        assert(bytes@.take(j + 1) =~= bytes@.take(j as int).push(bytes@[j as int]));
                    }
                    j = j + 1;
                }
                proof {
                    assert(bytes@.take(bytes.len() as int) =~= bytes@);
                    assert(self.dtcs@.take(i + 1).drop_last() =~= self.dtcs@.take(i as int));
                    assert(self.dtcs@.take(i + 1).last() == self.dtcs@[i as int]);
                }
                i = i + 1;
            }
            proof {
                assert(self.dtcs@.take(self.dtcs.len() as int) =~= self.dtcs@);
            }
            Ok(result)
        } else if service_id == 0x04 {
            self.dtcs = Vec::new();
            Ok(Vec::new())
        } else if service_id == 0x09 {
            if data.len() > 0 && data[0] == 0x02 {
                let bytes = self.vin.as_str().as_bytes();
                let mut out: Vec<u8> = Vec::new();
                let mut k: usize = 0;
                while k < bytes.len()
                    invariant
                        k <= bytes.len(),
                        out@ == bytes@.take(k as int),
                    decreases bytes.len() - k,
                {
                    out.push(bytes[k]);
                    proof {
                        assert(bytes@.take(k + 1) =~= bytes@.take(k as int).push(bytes@[k as int]));
                    }
                    k = k + 1;
                }
                proof {
                    assert(bytes@.take(bytes.len() as int) =~= bytes@);
                }
                Ok(out)
            } else {
                Ok(Vec::new())
            }
        } else if service_id == 0x05 {
            if data.len() >= 2 && data[1] <= 0x02 {
                Ok(vec![0x00, 0x5A])
            } else {
                Err(Obd2Error::NoData)
            }
        } else if service_id == 0x21 || service_id == 0x22 {
            Ok(vec![0x80, 0x00])
        } else if service_id == 0x10 || service_id == 0x2F || service_id == 0x3E {
            Ok(Vec::new())
        } else if service_id == 0x27 {
            if data.len() > 0 && data[0] == 0x01 {
                Ok(vec![0xAA, 0xBB, 0xCC, 0xDD])
            } else {
                Ok(Vec::new())
            }
        } else if service_id == 0xEA {
            if data.len() >= 3 {
                let pgn: u32 = (data[0] as u32) + 256 * (data[1] as u32) + 65536 * (data[2] as u32);
                Ok(self.mock_j1939_response(pgn))
            } else {
                Err(Obd2Error::NoData)
            }
        } else {
            Err(Obd2Error::NoData)
        }
    }

    /// Answer a broadcast service request.
    pub fn request(&mut self, req: &ServiceRequest) -> (r: Result<Vec<u8>, Obd2Error>)
        requires
            req.service_id == 0x03 ==> dtcs_encodable(old(self)@.dtcs),
        ensures
            answers(r, mock_answer(old(self)@.vin, old(self)@.dtcs, old(self)@.supported, req.service_id, req.data@)),
            req.service_id == 0x04 ==> final(self)@.dtcs.len() == 0,
            req.service_id != 0x04 ==> final(self)@.dtcs == old(self)@.dtcs,
            final(self)@.vin == old(self)@.vin,
            final(self)@.supported == old(self)@.supported,
            final(self)@.info == old(self)@.info,
            final(self)@.initialized == old(self)@.initialized,
    {
        self.respond(req.service_id, req.data.as_slice())
    }

    /// Answer a routed request as if it were broadcast.
    pub fn routed_request(&mut self, req: &RoutedRequest) -> (r: Result<Vec<u8>, Obd2Error>)
        requires
            req.service_id == 0x03 ==> dtcs_encodable(old(self)@.dtcs),
        ensures
            answers(r, mock_answer(old(self)@.vin, old(self)@.dtcs, old(self)@.supported, req.service_id, req.data@)),
            req.service_id == 0x04 ==> final(self)@.dtcs.len() == 0,
            req.service_id != 0x04 ==> final(self)@.dtcs == old(self)@.dtcs,
            final(self)@.vin == old(self)@.vin,
            final(self)@.supported == old(self)@.supported,
            final(self)@.info == old(self)@.info,
            final(self)@.initialized == old(self)@.initialized,
    {
        self.respond(req.service_id, req.data.as_slice())
    }

    /// The supported PIDs.
    pub fn supported_pids(&self) -> (r: Vec<Pid>)
        ensures
            r@.len() == self@.supported.len(),
            forall|i: int| 0 <= i < r@.len() ==> (#[trigger] r@[i]).0 == self@.supported[i],
    {
        let mut r: Vec<Pid> = Vec::new();
        let mut i: usize = 0;
        while i < self.supported.len()
            invariant
                i <= self.supported.len(),
                r@.len() == i,
                forall|k: int| 0 <= k < i ==> (#[trigger] r@[k]).0 == self.supported@[k],
            decreases self.supported.len() - i,
        {
            r.push(Pid(self.supported[i]));
            i = i + 1;
        }
        r
    }

    pub fn info(&self) -> (r: &AdapterInfo)
        ensures
            *r == self@.info,
    {
        &self.info
    }
}

impl Default for MockAdapter {
    fn default() -> (m: Self)
        ensures
            m@.vin == "1GCHK23224F000001"@,
            m@.dtcs.len() == 0,
            !m@.initialized,
            m@.supported == mock_supported_codes(),
            is_mock_info(m@.info),
    {
        Self::new()
    }
}

proof fn lemma_hex_upper_value(n: int)
    requires
        0 <= n < 16,
    ensures
        crate::text::is_hex(crate::text::hex_upper(n)),
        crate::text::hex_digit_value(crate::text::hex_upper(n)) == n,
        (crate::text::hex_upper(n) as u32) < 128,
{
}

/// Encoding a decoded DTC gives back its two bytes: the Mode 03 answer of
/// the mock for the code that two raw bytes decode to is those bytes.
#[verifier::rlimit(40)]
pub proof fn lemma_mock_encoding_inverts_decoding(a: u8, b: u8)
    ensures
        mock_dtc_bytes(code_of_bytes(a, b)) == seq![a, b],
{
    let code = code_of_bytes(a, b);
    let d1 = (a as int / 16) % 4;
    let d2 = a as int % 16;
    let d3 = b as int / 16;
    let d4 = b as int % 16;
    lemma_hex_upper_value(d1);
    lemma_hex_upper_value(d2);
    lemma_hex_upper_value(d3);
    lemma_hex_upper_value(d4);
    let rest = code.drop_first();
    assert(rest =~= seq![hex_upper(d1), hex_upper(d2), hex_upper(d3), hex_upper(d4)]);
    assert(crate::text::unsigned_digits(rest) == rest);
    let num = d1 * 4096 + d2 * 256 + d3 * 16 + d4;
    assert(crate::text::hex_seq_value(rest) == num) by {
        assert(rest.drop_last().drop_last().drop_last().drop_last() =~= Seq::<char>::empty());
        reveal_with_fuel(crate::text::hex_seq_value, 5);
    }
    assert forall|m: int| 0 <= m < rest.len() implies crate::text::is_hex(#[trigger] rest[m]) by {}
    assert(parse_hex_u16(rest) == Some(num as u16));
    assert(encode_utf8(code).len() == 5) by {
        let c = code;
        assert((c[0] as u32) < 128);
        crate::text::lemma_utf8_len_lower(c);
        crate::text::lemma_utf8_len_lower(c.drop_first());
        crate::text::lemma_utf8_len_lower(c.drop_first().drop_first());
        crate::text::lemma_utf8_len_lower(c.drop_first().drop_first().drop_first());
        crate::text::lemma_utf8_len_lower(c.drop_first().drop_first().drop_first().drop_first());
        assert(c.drop_first().drop_first().drop_first().drop_first().drop_first() =~= Seq::<char>::empty());
    }
    assert(letter_prefix(code[0]) == (a as int / 64) * 64);
    assert((num / 256) % 64 == a as int % 64);
    assert(num % 256 == b as int);
}


/// DTCs set on the mock vehicle are read back: when each DTC is the one that
/// a nonzero byte pair decodes to, the Mode 03 answer holds exactly those
/// pairs, in order, so decoding it gives the same codes.
pub proof fn lemma_mock_dtcs_read_back(pairs: Seq<(u8, u8)>, dtcs: Seq<Dtc>)
    requires
        dtcs.len() == pairs.len(),
        forall|k: int| 0 <= k < dtcs.len() ==> (#[trigger] dtcs[k]).code@ == code_of_bytes(pairs[k].0, pairs[k].1),
        forall|k: int| 0 <= k < pairs.len() ==> !((#[trigger] pairs[k]).0 == 0 && pairs[k].1 == 0),
    ensures
        dtc_pairs(mock_dtcs_bytes(dtcs)) == pairs,
        mock_dtcs_bytes(dtcs).len() == 2 * dtcs.len(),
    decreases dtcs.len(),
{
    if dtcs.len() == 0 {
        assert(dtc_pairs(mock_dtcs_bytes(dtcs)) =~= pairs);
    } else {
        let n = dtcs.len() - 1;
        lemma_mock_dtcs_read_back(pairs.drop_last(), dtcs.drop_last());
        let (a, b) = pairs[n];
        lemma_mock_encoding_inverts_decoding(a, b);
        assert(dtcs.last().code@ == code_of_bytes(a, b));
        let prev = mock_dtcs_bytes(dtcs.drop_last());
        assert(mock_dtcs_bytes(dtcs) == prev + seq![a, b]);
        lemma_dtc_pairs_append(prev, seq![a, b]);
        assert(seq![a, b].subrange(2, 2) =~= Seq::<u8>::empty());
        assert(dtc_pairs(seq![a, b]) == seq![(a, b)] + dtc_pairs(Seq::<u8>::empty()));
        assert(dtc_pairs(mock_dtcs_bytes(dtcs)) =~= pairs);
    }
}


/// The VIN the mock vehicle is given is the VIN read back: its Mode 09
/// answer, filtered to printable ASCII as VIN decoding does, gives the same
/// text for any VIN of printable ASCII characters.
pub proof fn lemma_mock_vin_read_back(vin: Seq<char>)
    requires
        forall|i: int| 0 <= i < vin.len() ==> ' ' <= #[trigger] vin[i] <= '~',
    ensures
        printable_text(encode_utf8(vin)) == vin,
    decreases vin.len(),
{
    if vin.len() > 0 {
        let b = encode_utf8(vin);
        let v1 = vin.drop_last();
        assert(vstd::utf8::is_ascii_chars(vin));
        assert(vstd::utf8::is_ascii_chars(v1));
        vstd::utf8::is_ascii_chars_encode_utf8(vin);
        vstd::utf8::is_ascii_chars_encode_utf8(v1);
        assert(b.drop_last() =~= encode_utf8(v1)) by {
            assert forall|i: int| 0 <= i < v1.len() implies b.drop_last()[i] == encode_utf8(v1)[i] by {
                assert(b[i] == vin[i] as u8);
                assert(encode_utf8(v1)[i] == v1[i] as u8);
            }
        }
        lemma_mock_vin_read_back(v1);
        let c = vin[vin.len() - 1];
        assert(b.last() == c as u8);
        assert(' ' <= c <= '~');
        assert((c as u8) as char == c);
        assert(printable(b.last()));
        assert(printable_text(b) =~= vin);
    }
}

/// Whether a character is an upper-case hexadecimal digit.
pub open spec fn upper_hex_digit(c: char) -> bool {
    ('0' <= c && c <= '9') || ('A' <= c && c <= 'F')
}

/// Whether a code has the standard shape: a category letter `P`, `C`, `B` or
/// `U`, a digit `0`-`3`, then three upper-case hexadecimal digits.
pub open spec fn standard_code(c: Seq<char>) -> bool {
    &&& c.len() == 5
    &&& (c[0] == 'P' || c[0] == 'C' || c[0] == 'B' || c[0] == 'U')
    &&& '0' <= c[1] && c[1] <= '3'
    &&& upper_hex_digit(c[2]) && upper_hex_digit(c[3]) && upper_hex_digit(c[4])
}

/// The two raw bytes that a standard code stands for.
pub open spec fn standard_code_bytes(c: Seq<char>) -> (u8, u8) {
    (
        (letter_prefix(c[0]) + crate::text::hex_digit_value(c[1]) * 16 + crate::text::hex_digit_value(c[2])) as u8,
        (crate::text::hex_digit_value(c[3]) * 16 + crate::text::hex_digit_value(c[4])) as u8,
    )
}

proof fn lemma_upper_hex_round_trip(c: char)
    requires
        upper_hex_digit(c),
    ensures
        0 <= crate::text::hex_digit_value(c) < 16,
        hex_upper(crate::text::hex_digit_value(c)) == c,
{
}

/// A standard code is what its two bytes decode to, and those bytes are
/// both zero only for `P0000`.
proof fn lemma_standard_code_bytes(c: Seq<char>)
    requires
        standard_code(c),
    ensures
        code_of_bytes(standard_code_bytes(c).0, standard_code_bytes(c).1) == c,
        (standard_code_bytes(c).0 == 0 && standard_code_bytes(c).1 == 0) <==> c == seq!['P', '0', '0', '0', '0'],
{
    let d1 = crate::text::hex_digit_value(c[1]);
    let d2 = crate::text::hex_digit_value(c[2]);
    let d3 = crate::text::hex_digit_value(c[3]);
    let d4 = crate::text::hex_digit_value(c[4]);
    lemma_upper_hex_round_trip(c[1]);
    lemma_upper_hex_round_trip(c[2]);
    lemma_upper_hex_round_trip(c[3]);
    lemma_upper_hex_round_trip(c[4]);
    assert(0 <= d1 < 4);
    let a = letter_prefix(c[0]) + d1 * 16 + d2;
    let b = d3 * 16 + d4;
    assert(a / 64 == letter_prefix(c[0]) / 64);
    assert(a / 16 % 4 == d1);
    assert(a % 16 == d2);
    assert(b / 16 == d3);
    assert(b % 16 == d4);
    assert(code_of_bytes(a as u8, b as u8) =~= c);
    if a == 0 && b == 0 {
        assert(c =~= seq!['P', '0', '0', '0', '0']);
    }
}

/// DTCs with standard codes, none of them `P0000`, read back from the
/// mock's Mode 03 answer: two bytes per DTC, whose pairs decode to the same
/// codes in the same order.
pub proof fn lemma_mock_codes_read_back(dtcs: Seq<Dtc>)
    requires
        forall|k: int| 0 <= k < dtcs.len() ==> standard_code((#[trigger] dtcs[k]).code@),
        forall|k: int| 0 <= k < dtcs.len() ==> (#[trigger] dtcs[k]).code@ != seq!['P', '0', '0', '0', '0'],
    ensures
        mock_dtcs_bytes(dtcs).len() == 2 * dtcs.len(),
        dtc_pairs(mock_dtcs_bytes(dtcs)).len() == dtcs.len(),
        forall|k: int| 0 <= k < dtcs.len() ==> code_of_bytes(
            (#[trigger] dtc_pairs(mock_dtcs_bytes(dtcs))[k]).0,
            dtc_pairs(mock_dtcs_bytes(dtcs))[k].1,
        ) == dtcs[k].code@,
{
    let pairs = Seq::new(dtcs.len(), |k: int| standard_code_bytes(dtcs[k].code@));
    assert forall|k: int| 0 <= k < dtcs.len() implies (#[trigger] dtcs[k]).code@ == code_of_bytes(pairs[k].0, pairs[k].1)
        && !(pairs[k].0 == 0 && pairs[k].1 == 0) by {
        lemma_standard_code_bytes(dtcs[k].code@);
    }
    assert forall|k: int| 0 <= k < pairs.len() implies !((#[trigger] pairs[k]).0 == 0 && pairs[k].1 == 0) by {
        assert(dtcs[k].code@ == code_of_bytes(pairs[k].0, pairs[k].1));
    }
    lemma_mock_dtcs_read_back(pairs, dtcs);
}

} // verus!
