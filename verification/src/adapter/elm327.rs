//! ELM327/STN command and response logic: the command text for a request,
//! the header that each target needs, how responses are classified and
//! decoded, and the adapter-side state that these decisions update. The
//! conversation with the transport itself is driven by the application.

use vstd::prelude::*;
use super::{protocol_of_elm_code, AdapterEvent, AdapterEventKind, AdapterInfo, Chipset, ProbeResult};
use super::detect::capabilities_of;
use crate::error::{nrc_from_byte, NegativeResponse, Obd2Error};
use crate::text::{
    byte_hex_upper, contains_seq, contains_str, hex_padded, parse_hex_byte, parse_hex_u8,
    push_byte_hex_upper, push_hex_padded, remove_all, remove_char, split_words, starts_with,
    starts_with_str, str_chars, string_from_chars, trim, trim_chars, words, split_lines,
};
use crate::vehicle::{KLineInit, PhysicalAddress, Protocol};

verus! {

broadcast use vstd::string::group_string_axioms;

/// Family of buses a protocol belongs to; it decides how responses are framed.
#[derive(Debug, Clone, Copy, PartialEq, Eq, Structural)]
pub enum BusFamily {
    Can,
    J1850,
    Iso9141,
    Kwp2000,
}

/// The bus family of a protocol (automatic detection counts as CAN).
pub open spec fn family_of(p: Protocol) -> BusFamily {
    match p {
        Protocol::Can11Bit500 | Protocol::Can11Bit250 | Protocol::Can29Bit500
        | Protocol::Can29Bit250 => BusFamily::Can,
        Protocol::J1850Pwm | Protocol::J1850Vpw => BusFamily::J1850,
        Protocol::Iso9141(_) => BusFamily::Iso9141,
        Protocol::Kwp2000(_) => BusFamily::Kwp2000,
        Protocol::Auto => BusFamily::Can,
    }
}

pub fn protocol_family(p: Protocol) -> (f: BusFamily)
    ensures
        f == family_of(p),
{
    match p {
        Protocol::Can11Bit500 | Protocol::Can11Bit250 | Protocol::Can29Bit500
        | Protocol::Can29Bit250 => BusFamily::Can,
        Protocol::J1850Pwm | Protocol::J1850Vpw => BusFamily::J1850,
        Protocol::Iso9141(_) => BusFamily::Iso9141,
        Protocol::Kwp2000(_) => BusFamily::Kwp2000,
        Protocol::Auto => BusFamily::Can,
    }
}

/// The functional (broadcast) header of a protocol; none while detecting.
pub open spec fn broadcast_header(p: Protocol) -> Option<Seq<char>> {
    match p {
        Protocol::J1850Pwm | Protocol::J1850Vpw | Protocol::Iso9141(_) | Protocol::Kwp2000(_) =>
            Some("686AF1"@),
        Protocol::Can11Bit500 | Protocol::Can11Bit250 => Some("7DF"@),
        Protocol::Can29Bit500 | Protocol::Can29Bit250 => Some("18DB33F1"@),
        Protocol::Auto => None,
    }
}

pub fn default_broadcast_header(p: Protocol) -> (r: Option<String>)
    ensures
        match broadcast_header(p) {
            Some(h) => r matches Some(s) && s@ == h,
            None => r is None,
        },
{
    match p {
        Protocol::J1850Pwm | Protocol::J1850Vpw | Protocol::Iso9141(_) | Protocol::Kwp2000(_) =>
            Some(String::from_str("686AF1")),
        Protocol::Can11Bit500 | Protocol::Can11Bit250 => Some(String::from_str("7DF")),
        Protocol::Can29Bit500 | Protocol::Can29Bit250 => Some(String::from_str("18DB33F1")),
        Protocol::Auto => None,
    }
}

/// The header that addresses a module: the three J1850 header bytes, or the
/// CAN request identifier in hexadecimal (at least 3 digits for 11-bit, 8
/// for 29-bit identifiers). J1939 addresses have none.
pub open spec fn address_header(a: PhysicalAddress) -> Option<Seq<char>> {
    match a {
        PhysicalAddress::J1850 { header, .. } => Some(
            byte_hex_upper(header@[0]) + byte_hex_upper(header@[1]) + byte_hex_upper(header@[2]),
        ),
        PhysicalAddress::Can11Bit { request_id, .. } => Some(hex_padded(request_id as nat, 3)),
        PhysicalAddress::Can29Bit { request_id, .. } => Some(hex_padded(request_id as nat, 8)),
        PhysicalAddress::J1939 { .. } => None,
    }
}

/// The header for a physical address, or the error for an address kind
/// that cannot be routed through a header.
pub fn header_for_address(address: &PhysicalAddress) -> (r: Result<String, Obd2Error>)
    ensures
        match address_header(*address) {
            Some(h) => r matches Ok(s) && s@ == h,
            None => r matches Err(Obd2Error::Adapter(m))
                && m@ == "J1939 addressed routing is not implemented yet"@,
        },
{
    match address {
        PhysicalAddress::J1850 { header, .. } => {
            let mut s = String::new();
            push_byte_hex_upper(&mut s, header[0]);
            push_byte_hex_upper(&mut s, header[1]);
            push_byte_hex_upper(&mut s, header[2]);
            Ok(s)
        },
        PhysicalAddress::Can11Bit { request_id, .. } => {
            let mut s = String::new();
            push_hex_padded(&mut s, *request_id as u32, 3);
            Ok(s)
        },
        PhysicalAddress::Can29Bit { request_id, .. } => {
            let mut s = String::new();
            push_hex_padded(&mut s, *request_id, 8);
            Ok(s)
        },
        PhysicalAddress::J1939 { .. } => Err(
            Obd2Error::Adapter(String::from_str("J1939 addressed routing is not implemented yet")),
        ),
    }
}

/// The command that sets a header.
pub fn header_command(header: &str) -> (c: String)
    ensures
        c@ == "AT SH "@ + header@,
{
    String::from_str("AT SH ").concat(header)
}

/// Whether the adapter accepted a header command: its answer contains `OK`.
pub fn check_header_response(response: &str) -> (r: Result<(), Obd2Error>)
    ensures
        contains_seq(response@, "OK"@) ==> r is Ok,
        !contains_seq(response@, "OK"@) ==> (r matches Err(Obd2Error::Adapter(m))
            && m@ == "AT SH failed: "@ + trim(response@)),
{
    let all = str_chars(response);
    if contains_str(&all, "OK") {
        Ok(())
    } else {
        let t = trim_chars(&all);
        let ts = string_from_chars(&t);
        Err(Obd2Error::Adapter(String::from_str("AT SH failed: ").concat(ts.as_str())))
    }
}

/// Upper-case hexadecimal digits of each byte, in order.
pub open spec fn hex_bytes(data: Seq<u8>) -> Seq<char>
    decreases data.len(),
{
    if data.len() == 0 {
        Seq::empty()
    } else {
        hex_bytes(data.drop_last()) + byte_hex_upper(data.last())
    }
}

/// The command text of a request: the service and data bytes in hex.
pub fn request_command(service_id: u8, data: &[u8]) -> (c: String)
    ensures
        c@ == byte_hex_upper(service_id) + hex_bytes(data@),
{
    let mut c = String::new();
    push_byte_hex_upper(&mut c, service_id);
    let mut i: usize = 0;
    while i < data.len()
        invariant
            i <= data.len(),
            c@ == byte_hex_upper(service_id) + hex_bytes(data@.take(i as int)),
        decreases data.len() - i,
    {
        push_byte_hex_upper(&mut c, data[i]);
        proof {
            assert(data@.take(i + 1).drop_last() =~= data@.take(i as int));
            assert(data@.take(i + 1).last() == data@[i as int]);
        }
        i = i + 1;
    }
    proof {
        assert(data@.take(data.len() as int) =~= data@);
    }
    c
}

/// Number of leading response bytes that echo the request: service and PID
/// for modes 01, 02 and 09, service and data identifier for 21 and 22, the
/// service alone otherwise.
pub open spec fn echo_len(service_id: u8) -> nat {
    if service_id == 0x01 || service_id == 0x02 || service_id == 0x09 {
        2
    } else if service_id == 0x21 || service_id == 0x22 {
        3
    } else {
        1
    }
}

pub fn response_skip(service_id: u8) -> (n: usize)
    ensures
        n == echo_len(service_id),
{
    match service_id {
        0x01 | 0x02 => 2,
        0x03 | 0x04 | 0x07 | 0x0A => 1,
        0x09 => 2,
        0x22 | 0x21 => 3,
        _ => 1,
    }
}

/// An error that an adapter response reports.
pub enum ResponseFault {
    NoData,
    Adapter(Seq<char>),
    Negative(u8, NegativeResponse),
}

/// The negative response (`7F <service> <code>`) that a trimmed response
/// reports, if it names a known code.
pub open spec fn negative_fault(t: Seq<char>) -> Option<ResponseFault> {
    if starts_with(t, "7F"@) && words(t).len() >= 3 {
        match (parse_hex_u8(words(t)[1]), parse_hex_u8(words(t)[2])) {
            (Some(service), Some(code)) => match nrc_from_byte(code) {
                Some(nrc) => Some(ResponseFault::Negative(service, nrc)),
                None => None,
            },
            _ => None,
        }
    } else {
        None
    }
}

/// The error a response reports, checked in this order on the trimmed text:
/// `NO DATA`, `UNABLE TO CONNECT`, `BUS INIT` with `ERROR`, `CAN ERROR`, a
/// lone `?`, then a negative response.
pub open spec fn response_fault(response: Seq<char>) -> Option<ResponseFault> {
    let t = trim(response);
    if contains_seq(t, "NO DATA"@) {
        Some(ResponseFault::NoData)
    } else if contains_seq(t, "UNABLE TO CONNECT"@) {
        Some(ResponseFault::Adapter("unable to connect to vehicle"@))
    } else if contains_seq(t, "BUS INIT"@) && contains_seq(t, "ERROR"@) {
        Some(ResponseFault::Adapter("bus initialization error"@))
    } else if contains_seq(t, "CAN ERROR"@) {
        Some(ResponseFault::Adapter("CAN bus error"@))
    } else if t == seq!['?'] {
        Some(ResponseFault::Adapter("unknown command"@))
    } else {
        negative_fault(t)
    }
}

/// Whether `e` is the error value for fault `f`.
pub open spec fn reports_fault(e: Obd2Error, f: ResponseFault) -> bool {
    match f {
        ResponseFault::NoData => e is NoData,
        ResponseFault::Adapter(m) => e matches Obd2Error::Adapter(x) && x@ == m,
        ResponseFault::Negative(s, n) => e matches Obd2Error::NegativeResponse { service, nrc }
            && service == s && nrc == n,
    }
}

/// Whether the characters are exactly one `?`.
fn is_question_mark(t: &Vec<char>) -> (r: bool)
    ensures
        r == (t@ == seq!['?']),
{
    if t.len() == 1 && t[0] == '?' {
        proof {
            assert(t@ =~= seq!['?']);
        }
        true
    } else {
        false
    }
}

/// Check if a response indicates an error.
pub fn check_response_error(response: &str) -> (r: Result<(), Obd2Error>)
    ensures
        match response_fault(response@) {
            None => r is Ok,
            Some(f) => r matches Err(e) && reports_fault(e, f),
        },
{
    let all = str_chars(response);
    let t = trim_chars(&all);
    if contains_str(&t, "NO DATA") {
        return Err(Obd2Error::NoData);
    }
    if contains_str(&t, "UNABLE TO CONNECT") {
        return Err(Obd2Error::Adapter(String::from_str("unable to connect to vehicle")));
    }
    if contains_str(&t, "BUS INIT") && contains_str(&t, "ERROR") {
        return Err(Obd2Error::Adapter(String::from_str("bus initialization error")));
    }
    if contains_str(&t, "CAN ERROR") {
        return Err(Obd2Error::Adapter(String::from_str("CAN bus error")));
    }
    if is_question_mark(&t) {
        return Err(Obd2Error::Adapter(String::from_str("unknown command")));
    }
    if starts_with_str(&t, "7F") {
        let parts = split_words(&t);
        if parts.len() >= 3 {
            let service = parse_hex_byte(&parts[1]);
            let code = parse_hex_byte(&parts[2]);
            if let (Some(service), Some(code)) = (service, code) {
                if let Some(nrc) = NegativeResponse::from_byte(code) {
                    return Err(Obd2Error::NegativeResponse { service, nrc });
                }
            }
        }
    }
    Ok(())
}

/// The outcome a failed protocol probe reports, checked in this order on the
/// trimmed text.
pub open spec fn probe_outcome(response: Seq<char>) -> ProbeResult {
    let t = trim(response);
    if contains_seq(t, "UNABLE TO CONNECT"@) {
        ProbeResult::UnableToConnect
    } else if contains_seq(t, "BUS INIT"@) && contains_seq(t, "ERROR"@) {
        ProbeResult::BusInitFailure
    } else if contains_seq(t, "BUS ERROR"@) || contains_seq(t, "BUS BUSY"@) {
        ProbeResult::BusError
    } else if contains_seq(t, "CAN ERROR"@) {
        ProbeResult::CanError
    } else if contains_seq(t, "NO DATA"@) {
        ProbeResult::NoResponse
    } else if t == seq!['?'] {
        ProbeResult::UnsupportedProtocol
    } else {
        ProbeResult::AdapterFault
    }
}

pub fn classify_probe_result(response: &str) -> (r: ProbeResult)
    ensures
        r == probe_outcome(response@),
{
    let all = str_chars(response);
    let t = trim_chars(&all);
    if contains_str(&t, "UNABLE TO CONNECT") {
        ProbeResult::UnableToConnect
    } else if contains_str(&t, "BUS INIT") && contains_str(&t, "ERROR") {
        ProbeResult::BusInitFailure
    } else if contains_str(&t, "BUS ERROR") || contains_str(&t, "BUS BUSY") {
        ProbeResult::BusError
    } else if contains_str(&t, "CAN ERROR") {
        ProbeResult::CanError
    } else if contains_str(&t, "NO DATA") {
        ProbeResult::NoResponse
    } else if is_question_mark(&t) {
        ProbeResult::UnsupportedProtocol
    } else {
        ProbeResult::AdapterFault
    }
}

/// Whether an answer to `0100` shows that the vehicle responded.
pub fn probe_succeeded(response: &str) -> (r: bool)
    ensures
        r == (contains_seq(response@, "41 00"@) || contains_seq(response@, "4100"@)),
{
    let all = str_chars(response);
    contains_str(&all, "41 00") || contains_str(&all, "4100")
}

/// Whether an answer to `STI` comes from an STN chip rather than an error
/// marker: it holds no `?`.
pub fn sti_accepted(response: &str) -> (r: bool)
    ensures
        r == !contains_seq(response@, "?"@),
{
    let all = str_chars(response);
    !contains_str(&all, "?")
}

/// Whether a response reports a fatal adapter fault that needs recovery
/// (`ERR94` or `LV RESET`).
pub fn needs_fault_recovery(response: &str) -> (r: bool)
    ensures
        r == (contains_seq(trim(response@), "ERR94"@) || contains_seq(trim(response@), "LV RESET"@)),
{
    let all = str_chars(response);
    let t = trim_chars(&all);
    contains_str(&t, "ERR94") || contains_str(&t, "LV RESET")
}

/// The protocol that an `ATDPN` answer names: its last character after
/// trimming and removing prompts, read as an ELM327 protocol number
/// (automatic detection when it names none).
pub open spec fn protocol_from_response(response: Seq<char>) -> Protocol {
    let t = trim(remove_char(trim(response), '>'));
    let c = if t.len() > 0 { t.last() } else { '0' };
    match protocol_of_elm_code(c) {
        Some(p) => p,
        None => Protocol::Auto,
    }
}

pub fn parse_protocol_response(protocol_response: &str) -> (p: Protocol)
    ensures
        p == protocol_from_response(protocol_response@),
{
    let all = str_chars(protocol_response);
    let t1 = trim_chars(&all);
    let t2 = remove_all(&t1, '>');
    let t = trim_chars(&t2);
    let c = if t.len() > 0 { t[t.len() - 1] } else { '0' };
    match Protocol::from_elm_code(c) {
        Some(p) => p,
        None => Protocol::Auto,
    }
}

/// The protocols tried one by one when automatic detection fails, with the
/// command that selects each (`ATTP` and the protocol's number).
pub open spec fn fallback_protocols() -> Seq<Protocol> {
    seq![
        Protocol::Can11Bit500,
        Protocol::Can29Bit500,
        Protocol::Can11Bit250,
        Protocol::Can29Bit250,
        Protocol::J1850Vpw,
        Protocol::J1850Pwm,
        Protocol::Iso9141(KLineInit::SlowInit),
        Protocol::Kwp2000(KLineInit::FastInit),
        Protocol::Kwp2000(KLineInit::SlowInit),
    ]
}

/// Whether `cmd` is the `ATTP` command that selects protocol `p`.
pub open spec fn selects_protocol(cmd: Seq<char>, p: Protocol) -> bool {
    cmd.len() == 5 && cmd.subrange(0, 4) == "ATTP"@ && protocol_of_elm_code(cmd[4]) == Some(p)
}

pub fn fallback_probe_order() -> (r: Vec<(Protocol, &'static str)>)
    ensures
        r@.len() == fallback_protocols().len(),
        forall|i: int| 0 <= i < r@.len() ==> (#[trigger] r@[i]).0 == fallback_protocols()[i]
            && selects_protocol(r@[i].1@, r@[i].0),
{
    proof {
        reveal_strlit("ATTP");
        reveal_strlit("ATTP6");
        reveal_strlit("ATTP7");
        reveal_strlit("ATTP8");
        reveal_strlit("ATTP9");
        reveal_strlit("ATTP2");
        reveal_strlit("ATTP1");
        reveal_strlit("ATTP3");
        reveal_strlit("ATTP5");
        reveal_strlit("ATTP4");
    }
    let r = vec![
        (Protocol::Can11Bit500, "ATTP6"),
        (Protocol::Can29Bit500, "ATTP7"),
        (Protocol::Can11Bit250, "ATTP8"),
        (Protocol::Can29Bit250, "ATTP9"),
        (Protocol::J1850Vpw, "ATTP2"),
        (Protocol::J1850Pwm, "ATTP1"),
        (Protocol::Iso9141(KLineInit::SlowInit), "ATTP3"),
        (Protocol::Kwp2000(KLineInit::FastInit), "ATTP5"),
        (Protocol::Kwp2000(KLineInit::SlowInit), "ATTP4"),
    ];
    proof {
        assert forall|i: int| 0 <= i < r@.len() implies (#[trigger] r@[i]).0 == fallback_protocols()[i]
            && selects_protocol(r@[i].1@, r@[i].0) by {
            assert("ATTP6"@.subrange(0, 4) =~= "ATTP"@);
            assert("ATTP7"@.subrange(0, 4) =~= "ATTP"@);
            assert("ATTP8"@.subrange(0, 4) =~= "ATTP"@);
            assert("ATTP9"@.subrange(0, 4) =~= "ATTP"@);
            assert("ATTP2"@.subrange(0, 4) =~= "ATTP"@);
            assert("ATTP1"@.subrange(0, 4) =~= "ATTP"@);
            assert("ATTP3"@.subrange(0, 4) =~= "ATTP"@);
            assert("ATTP5"@.subrange(0, 4) =~= "ATTP"@);
            assert("ATTP4"@.subrange(0, 4) =~= "ATTP"@);
        }
    }
    r
}

/// The commands that restore the adapter's runtime settings: echo, line
/// feeds, headers and spaces off, adaptive timing, CAN auto-formatting and
/// flow control on.
pub fn runtime_default_commands() -> (r: Vec<&'static str>)
    ensures
        r@.len() == 7,
        r@[0]@ == "ATE0"@,
        r@[1]@ == "ATL0"@,
        r@[2]@ == "ATH0"@,
        r@[3]@ == "ATS0"@,
        r@[4]@ == "ATAT1"@,
        r@[5]@ == "ATCAF1"@,
        r@[6]@ == "ATCFC1"@,
{
    vec!["ATE0", "ATL0", "ATH0", "ATS0", "ATAT1", "ATCAF1", "ATCFC1"]
}

/// The commands that a protocol needs once selected.
pub open spec fn protocol_policy(p: Protocol) -> Seq<Seq<char>> {
    match p {
        Protocol::Iso9141(_) => seq!["ATSI"@, "ATSW96"@, "ATWM686AF10100"@],
        Protocol::Kwp2000(KLineInit::SlowInit) => seq!["ATSI"@, "ATSW96"@, "ATWMC133F13E"@],
        Protocol::Kwp2000(KLineInit::FastInit) => seq!["ATFI"@, "ATSW96"@, "ATWMC133F13E"@],
        Protocol::Can11Bit500 | Protocol::Can11Bit250 | Protocol::Can29Bit500
        | Protocol::Can29Bit250 => seq!["ATCAF1"@, "ATCFC1"@],
        Protocol::J1850Pwm | Protocol::J1850Vpw | Protocol::Auto => Seq::empty(),
    }
}

pub fn protocol_policy_commands(p: Protocol) -> (r: Vec<&'static str>)
    ensures
        r@.len() == protocol_policy(p).len(),
        forall|i: int| 0 <= i < r@.len() ==> (#[trigger] r@[i])@ == protocol_policy(p)[i],
{
    let r = match p {
        Protocol::Iso9141(_) => vec!["ATSI", "ATSW96", "ATWM686AF10100"],
        Protocol::Kwp2000(KLineInit::SlowInit) => vec!["ATSI", "ATSW96", "ATWMC133F13E"],
        Protocol::Kwp2000(KLineInit::FastInit) => vec!["ATFI", "ATSW96", "ATWMC133F13E"],
        Protocol::Can11Bit500 | Protocol::Can11Bit250 | Protocol::Can29Bit500
        | Protocol::Can29Bit250 => vec!["ATCAF1", "ATCFC1"],
        Protocol::J1850Pwm | Protocol::J1850Vpw | Protocol::Auto => Vec::new(),
    };
    r
}

/// The battery-voltage answer with `V`, `v`, `>`, carriage returns and line
/// feeds removed, trimmed: the text that is read as a number.
pub open spec fn voltage_text(response: Seq<char>) -> Seq<char> {
    trim(
        remove_char(
            remove_char(remove_char(remove_char(remove_char(response, 'V'), 'v'), '>'), '\r'),
            '\n',
        ),
    )
}

pub fn clean_voltage_text(response: &str) -> (s: String)
    ensures
        s@ == voltage_text(response@),
{
    let all = str_chars(response);
    let a = remove_all(&all, 'V');
    let b = remove_all(&a, 'v');
    let c = remove_all(&b, '>');
    let d = remove_all(&c, '\r');
    let e = remove_all(&d, '\n');
    let t = trim_chars(&e);
    string_from_chars(&t)
}

/// `b` without its zero bytes.
pub open spec fn without_nulls(b: Seq<u8>) -> Seq<u8>
    decreases b.len(),
{
    if b.len() == 0 {
        b
    } else if b.last() == 0 {
        without_nulls(b.drop_last())
    } else {
        without_nulls(b.drop_last()).push(b.last())
    }
}

proof fn lemma_without_nulls_len(b: Seq<u8>)
    ensures
        without_nulls(b).len() <= b.len(),
    decreases b.len(),
{
    if b.len() > 0 {
        lemma_without_nulls_len(b.drop_last());
    }
}

/// The bytes with every zero byte removed.
pub fn remove_null_bytes(bytes: &Vec<u8>) -> (r: Vec<u8>)
    ensures
        r@ == without_nulls(bytes@),
{
    let mut out: Vec<u8> = Vec::new();
    let mut i: usize = 0;
    while i < bytes.len()
        invariant
            i <= bytes.len(),
            out@ == without_nulls(bytes@.take(i as int)),
        decreases bytes.len() - i,
    {
        proof {
            assert(bytes@.take(i + 1).drop_last() =~= bytes@.take(i as int));
            assert(bytes@.take(i + 1).last() == bytes@[i as int]);
        }
        if bytes[i] != 0 {
            out.push(bytes[i]);
        }
        i = i + 1;
    }
    proof {
        assert(bytes@.take(bytes.len() as int) =~= bytes@);
    }
    out
}

/// The adapter information held before initialization.
pub open spec fn is_default_info(info: AdapterInfo) -> bool {
    &&& info.chipset == Chipset::Unknown
    &&& info.firmware@.len() == 0
    &&& info.protocol == Protocol::Auto
    &&& info.capabilities == capabilities_of(Chipset::Unknown)
}

/// Kinds of event reported by markers in a response, in the order they are
/// checked on the trimmed text.
pub open spec fn marker_kind(t: Seq<char>, marker: Seq<char>, k: AdapterEventKind) -> Seq<AdapterEventKind> {
    if contains_seq(t, marker) { seq![k] } else { Seq::empty() }
}

pub open spec fn response_event_kinds(t: Seq<char>) -> Seq<AdapterEventKind> {
    marker_kind(t, "SEARCHING..."@, AdapterEventKind::SearchingDisplayed)
        + marker_kind(t, "BUS BUSY"@, AdapterEventKind::BusBusy)
        + marker_kind(t, "BUS ERROR"@, AdapterEventKind::BusError)
        + marker_kind(t, "CAN ERROR"@, AdapterEventKind::CanError)
        + marker_kind(t, "DATA ERROR"@, AdapterEventKind::DataError)
        + marker_kind(t, "<RX ERROR"@, AdapterEventKind::RxError)
        + marker_kind(t, "STOPPED"@, AdapterEventKind::Stopped)
        + marker_kind(t, "ERR94"@, AdapterEventKind::Err94)
        + marker_kind(t, "LV RESET"@, AdapterEventKind::LowVoltageReset)
        + (if t == seq!['?'] { seq![AdapterEventKind::UnknownCommand] } else { Seq::empty() })
}

/// Whether `e` is the event recorded for kind `k` of the trimmed response
/// `t`: the search banner and the unknown-command answer carry no detail,
/// the others carry the trimmed response.
pub open spec fn is_response_event(e: AdapterEvent, k: AdapterEventKind, t: Seq<char>) -> bool {
    &&& e.kind == k
    &&& if k is SearchingDisplayed || k is UnknownCommand {
        e.detail is None
    } else {
        e.detail matches Some(d) && d@ == t
    }
}

/// Whether `evs` is `base` followed by the events recorded for kinds `ks`.
pub open spec fn records_events(
    evs: Seq<AdapterEvent>,
    base: Seq<AdapterEvent>,
    ks: Seq<AdapterEventKind>,
    t: Seq<char>,
) -> bool {
    &&& evs.len() == base.len() + ks.len()
    &&& evs.subrange(0, base.len() as int) == base
    &&& forall|i: int| 0 <= i < ks.len() ==> is_response_event(#[trigger] evs[base.len() + i], ks[i], t)
}

/// The detail text of the event recorded when null bytes are filtered.
pub open spec fn null_filter_detail(count: nat) -> Seq<char> {
    "filtered "@ + crate::text::decimal(count) + " null bytes from adapter response"@
}

/// Adapter-side state of an ELM327 connection: what initialization found,
/// the header currently set and the events not yet handed out.
#[derive(Debug)]
pub struct Elm327State {
    pub info: AdapterInfo,
    pub initialized: bool,
    pub current_header: Option<String>,
    pub events: Vec<AdapterEvent>,
}

impl Elm327State {
    /// State before initialization.
    pub fn new() -> (s: Self)
        ensures
            is_default_info(s.info),
            !s.initialized,
            s.current_header is None,
            s.events@.len() == 0,
    {
        Elm327State {
            info: AdapterInfo {
                chipset: Chipset::Unknown,
                firmware: String::new(),
                protocol: Protocol::Auto,
                capabilities: super::Capabilities::default(),
            },
            initialized: false,
            current_header: None,
            events: Vec::new(),
        }
    }

    pub fn push_event(&mut self, kind: AdapterEventKind, detail: Option<String>)
        ensures
            final(self).events@ == old(self).events@.push(AdapterEvent { kind, detail }),
            final(self).info == old(self).info,
            final(self).initialized == old(self).initialized,
            final(self).current_header == old(self).current_header,
    {
        self.events.push(AdapterEvent { kind, detail });
    }

    /// Hand out the recorded events, oldest first.
    pub fn drain_events(&mut self) -> (r: Vec<AdapterEvent>)
        ensures
            r@ == old(self).events@,
            final(self).events@.len() == 0,
            final(self).info == old(self).info,
            final(self).initialized == old(self).initialized,
            final(self).current_header == old(self).current_header,
    {
        let mut r: Vec<AdapterEvent> = Vec::new();
        std::mem::swap(&mut r, &mut self.events);
        r
    }

    fn note_marker(
        &mut self,
        t: &Vec<char>,
        ts: &String,
        marker: &str,
        kind: AdapterEventKind,
        with_detail: bool,
        Ghost(base): Ghost<Seq<AdapterEvent>>,
        Ghost(ks): Ghost<Seq<AdapterEventKind>>,
    )
        requires
            ts@ == t@,
            with_detail == !(kind is SearchingDisplayed || kind is UnknownCommand),
            records_events(old(self).events@, base, ks, t@),
        ensures
            records_events(final(self).events@, base, ks + marker_kind(t@, marker@, kind), t@),
            final(self).info == old(self).info,
            final(self).initialized == old(self).initialized,
            final(self).current_header == old(self).current_header,
    {
        if contains_str(t, marker) {
            let detail = if with_detail { Some(ts.clone()) } else { None };
            self.push_event(kind, detail);
            proof {
                let evs = self.events@;
                let nks = ks + marker_kind(t@, marker@, kind);
                assert(evs.subrange(0, base.len() as int) =~= old(self).events@.subrange(0, base.len() as int));
                assert forall|i: int| 0 <= i < nks.len() implies is_response_event(#[trigger] evs[base.len() + i], nks[i], t@) by {
                    if i < ks.len() {
                        assert(evs[base.len() + i] == old(self).events@[base.len() + i]);
                    }
                }
            }
        } else {
            proof {
                assert(ks + marker_kind(t@, marker@, kind) =~= ks);
            }
        }
    }

    /// Record the events that a response reports.
    pub fn record_response_events(&mut self, response: &str)
        ensures
            records_events(
                final(self).events@,
                old(self).events@,
                response_event_kinds(trim(response@)),
                trim(response@),
            ),
            final(self).info == old(self).info,
            final(self).initialized == old(self).initialized,
            final(self).current_header == old(self).current_header,
    {
        let all = str_chars(response);
        let t = trim_chars(&all);
        let ts = string_from_chars(&t);
        let ghost base = self.events@;
        proof {
            assert(base.subrange(0, base.len() as int) =~= base);
        }
        self.note_marker(&t, &ts, "SEARCHING...", AdapterEventKind::SearchingDisplayed, false,
            Ghost(base), Ghost(Seq::empty()));
        let ghost k1 = Seq::<AdapterEventKind>::empty() + marker_kind(t@, "SEARCHING..."@, AdapterEventKind::SearchingDisplayed);
        self.note_marker(&t, &ts, "BUS BUSY", AdapterEventKind::BusBusy, true, Ghost(base), Ghost(k1));
        let ghost k2 = k1 + marker_kind(t@, "BUS BUSY"@, AdapterEventKind::BusBusy);
        self.note_marker(&t, &ts, "BUS ERROR", AdapterEventKind::BusError, true, Ghost(base), Ghost(k2));
        let ghost k3 = k2 + marker_kind(t@, "BUS ERROR"@, AdapterEventKind::BusError);
        self.note_marker(&t, &ts, "CAN ERROR", AdapterEventKind::CanError, true, Ghost(base), Ghost(k3));
        let ghost k4 = k3 + marker_kind(t@, "CAN ERROR"@, AdapterEventKind::CanError);
        self.note_marker(&t, &ts, "DATA ERROR", AdapterEventKind::DataError, true, Ghost(base), Ghost(k4));
        let ghost k5 = k4 + marker_kind(t@, "DATA ERROR"@, AdapterEventKind::DataError);
        self.note_marker(&t, &ts, "<RX ERROR", AdapterEventKind::RxError, true, Ghost(base), Ghost(k5));
        let ghost k6 = k5 + marker_kind(t@, "<RX ERROR"@, AdapterEventKind::RxError);
        self.note_marker(&t, &ts, "STOPPED", AdapterEventKind::Stopped, true, Ghost(base), Ghost(k6));
        let ghost k7 = k6 + marker_kind(t@, "STOPPED"@, AdapterEventKind::Stopped);
        self.note_marker(&t, &ts, "ERR94", AdapterEventKind::Err94, true, Ghost(base), Ghost(k7));
        let ghost k8 = k7 + marker_kind(t@, "ERR94"@, AdapterEventKind::Err94);
        self.note_marker(&t, &ts, "LV RESET", AdapterEventKind::LowVoltageReset, true, Ghost(base), Ghost(k8));
        let ghost k9 = k8 + marker_kind(t@, "LV RESET"@, AdapterEventKind::LowVoltageReset);
        if is_question_mark(&t) {
            let ghost before = self.events@;
            self.push_event(AdapterEventKind::UnknownCommand, None);
            proof {
                let evs = self.events@;
                let nks = k9.push(AdapterEventKind::UnknownCommand);
                assert(evs.subrange(0, base.len() as int) =~= before.subrange(0, base.len() as int));
                assert forall|i: int| 0 <= i < nks.len() implies is_response_event(#[trigger] evs[base.len() + i], nks[i], t@) by {
                    if i < k9.len() {
                        assert(evs[base.len() + i] == before[base.len() + i]);
                    }
                }
                assert(Seq::<AdapterEventKind>::empty() + marker_kind(t@, "SEARCHING..."@, AdapterEventKind::SearchingDisplayed)
                    =~= marker_kind(t@, "SEARCHING..."@, AdapterEventKind::SearchingDisplayed));
                assert(response_event_kinds(t@) =~= nks);
            }
        } else {
            proof {
                assert(Seq::<AdapterEventKind>::empty() + marker_kind(t@, "SEARCHING..."@, AdapterEventKind::SearchingDisplayed)
                    =~= marker_kind(t@, "SEARCHING..."@, AdapterEventKind::SearchingDisplayed));
                assert(response_event_kinds(t@) =~= k9);
            }
        }
    }

    /// Decode a raw response: zero bytes are dropped (and an event counts
    /// them), the rest is read as UTF-8 with replacement characters.
    pub fn sanitize_response_bytes(&mut self, response_bytes: Vec<u8>) -> (s: String)
        ensures
            s@ == crate::text::utf8_lossy(without_nulls(response_bytes@)),
            ({
                let count = response_bytes@.len() - without_nulls(response_bytes@).len();
                if count > 0 {
                    &&& final(self).events@.len() == old(self).events@.len() + 1
                    &&& final(self).events@.drop_last() == old(self).events@
                    &&& final(self).events@.last().kind == (AdapterEventKind::NullBytesFiltered { count: count as usize })
                    &&& final(self).events@.last().detail matches Some(d)
                    &&& d@ == null_filter_detail(count as nat)
                } else {
                    final(self).events@ == old(self).events@
                }
            }),
            final(self).info == old(self).info,
            final(self).initialized == old(self).initialized,
            final(self).current_header == old(self).current_header,
    {
        let kept = remove_null_bytes(&response_bytes);
        proof {
            lemma_without_nulls_len(response_bytes@);
        }
        let null_count: usize = response_bytes.len() - kept.len();
        if null_count > 0 {
            let mut detail = String::from_str("filtered ");
            crate::text::push_decimal(&mut detail, null_count as u64);
            detail.append(" null bytes from adapter response");
            self.push_event(AdapterEventKind::NullBytesFiltered { count: null_count }, Some(detail));
            proof {
                assert(self.events@.drop_last() =~= old(self).events@);
            }
        }
        crate::text::decode_utf8_lossy(kept.as_slice())
    }

    /// The bus family of the active protocol.
    pub fn protocol_family(&self) -> (f: BusFamily)
        ensures
            f == family_of(self.info.protocol),
    {
        protocol_family(self.info.protocol)
    }

    /// The broadcast header of the active protocol.
    pub fn default_broadcast_header(&self) -> (r: Option<String>)
        ensures
            match broadcast_header(self.info.protocol) {
                Some(h) => r matches Some(s) && s@ == h,
                None => r is None,
            },
    {
        default_broadcast_header(self.info.protocol)
    }

    /// Whether selecting `header` needs a command: it is not the header
    /// already set.
    pub fn header_needed(&self, header: &str) -> (r: bool)
        ensures
            r == !(self.current_header matches Some(h) && h@ == header@),
    {
        match &self.current_header {
            Some(h) => {
                let a = str_chars(h.as_str());
                let b = str_chars(header);
                !crate::text::chars_eq(&a, &b)
            },
            None => true,
        }
    }

    /// The adapter accepted `AT SH header`: remember it and record the change.
    pub fn header_accepted(&mut self, header: &str)
        ensures
            final(self).current_header matches Some(h) && h@ == header@,
            final(self).events@.len() == old(self).events@.len() + 1,
            final(self).events@.drop_last() == old(self).events@,
            final(self).events@.last().kind matches AdapterEventKind::HeaderChanged { header: h }
                && h@ == header@,
            final(self).events@.last().detail is None,
            final(self).info == old(self).info,
            final(self).initialized == old(self).initialized,
    {
        self.current_header = Some(String::from_str(header));
        self.push_event(AdapterEventKind::HeaderChanged { header: String::from_str(header) }, None);
        proof {
            assert(self.events@.drop_last() =~= old(self).events@);
        }
    }

    /// The broadcast header was restored after targeted requests.
    pub fn header_restored(&mut self, header: &str)
        ensures
            final(self).events@.len() == old(self).events@.len() + 1,
            final(self).events@.drop_last() == old(self).events@,
            final(self).events@.last().kind matches AdapterEventKind::HeaderReset { header: h }
                && h@ == header@,
            final(self).events@.last().detail matches Some(d) && d@ == "restored broadcast header"@,
            final(self).info == old(self).info,
            final(self).initialized == old(self).initialized,
            final(self).current_header == old(self).current_header,
    {
        self.push_event(
            AdapterEventKind::HeaderReset { header: String::from_str(header) },
            Some(String::from_str("restored broadcast header")),
        );
        proof {
            assert(self.events@.drop_last() =~= old(self).events@);
        }
    }

    /// Forget the header set on the adapter (after a reset, or when the
    /// active protocol has no broadcast header).
    pub fn forget_header(&mut self)
        ensures
            final(self).current_header is None,
            final(self).events == old(self).events,
            final(self).info == old(self).info,
            final(self).initialized == old(self).initialized,
    {
        self.current_header = None;
    }

    /// What returning to broadcast requests needs.
    pub fn clear_targeting_step(&self) -> (step: ClearTargeting)
        ensures
            self.current_header is None ==> step is Nothing,
            self.current_header is Some ==> match broadcast_header(self.info.protocol) {
                None => step is Forget,
                Some(h) => step matches ClearTargeting::Restore(s) && s@ == h,
            },
    {
        if self.current_header.is_none() {
            return ClearTargeting::Nothing;
        }
        match self.default_broadcast_header() {
            None => ClearTargeting::Forget,
            Some(h) => ClearTargeting::Restore(h),
        }
    }
}

/// What returning to broadcast requests needs: nothing (no header was
/// set), forgetting the header (the protocol has no broadcast header), or
/// restoring the broadcast header.
#[derive(Debug, Clone)]
pub enum ClearTargeting {
    Nothing,
    Forget,
    Restore(String),
}

/// The bytes of a line of words, if every word is one hexadecimal byte.
pub open spec fn line_hex_bytes(ws: Seq<Seq<char>>) -> Option<Seq<u8>>
    decreases ws.len(),
{
    if ws.len() == 0 {
        Some(Seq::empty())
    } else {
        match (line_hex_bytes(ws.drop_last()), parse_hex_u8(ws.last())) {
            (Some(b), Some(x)) => Some(b.push(x)),
            _ => None,
        }
    }
}

/// The bytes of all lines that consist of hexadecimal bytes only, in order;
/// other lines (such as a command echo) contribute nothing.
pub open spec fn lines_hex_bytes(lines: Seq<Seq<char>>) -> Seq<u8>
    decreases lines.len(),
{
    if lines.len() == 0 {
        Seq::empty()
    } else {
        lines_hex_bytes(lines.drop_last()) + match line_hex_bytes(words(trim(lines.last()))) {
            Some(b) => b,
            None => Seq::empty(),
        }
    }
}

/// The hexadecimal bytes of a response, prompts removed, line by line.
pub open spec fn response_hex_bytes(response: Seq<char>) -> Seq<u8> {
    lines_hex_bytes(split_lines(remove_char(response, '>')))
}

proof fn lemma_line_hex_bytes_none(ws: Seq<Seq<char>>, k: int)
    requires
        0 <= k <= ws.len(),
        line_hex_bytes(ws.take(k)) is None,
    ensures
        line_hex_bytes(ws) is None,
    decreases ws.len() - k,
{
    if k < ws.len() {
        assert(ws.take(k + 1).drop_last() =~= ws.take(k));
        lemma_line_hex_bytes_none(ws, k + 1);
    } else {
        assert(ws.take(k) =~= ws);
    }
}

fn line_bytes(ws: &Vec<Vec<char>>, Ghost(wsv): Ghost<Seq<Seq<char>>>) -> (r: Option<Vec<u8>>)
    requires
        ws@.len() == wsv.len(),
        forall|k: int| 0 <= k < ws@.len() ==> (#[trigger] ws@[k])@ == wsv[k],
    ensures
        match line_hex_bytes(wsv) {
            Some(b) => r matches Some(v) && v@ == b,
            None => r is None,
        },
{
    let mut out: Vec<u8> = Vec::new();
    let mut i: usize = 0;
    while i < ws.len()
        invariant
            i <= ws.len(),
            ws@.len() == wsv.len(),
            forall|k: int| 0 <= k < ws@.len() ==> (#[trigger] ws@[k])@ == wsv[k],
            line_hex_bytes(wsv.take(i as int)) == Some(out@),
        decreases ws.len() - i,
    {
        proof {
            assert(wsv.take(i + 1).drop_last() =~= wsv.take(i as int));
            assert(wsv.take(i + 1).last() == wsv[i as int]);
        }
        match parse_hex_byte(&ws[i]) {
            Some(b) => {
                out.push(b);
            },
            None => {
                proof {
                    lemma_line_hex_bytes_none(wsv, i + 1);
                }
                return None;
            },
        }
        i = i + 1;
    }
    proof {
        assert(wsv.take(ws.len() as int) =~= wsv);
    }
    Some(out)
}

/// Parse a hex response string into raw bytes, dropping the first
/// `skip_bytes` (the echo of service and PID). Lines that are not all hex
/// bytes, such as a command echo like `010C`, are skipped.
pub fn parse_hex_response(response: &str, skip_bytes: usize) -> (r: Result<Vec<u8>, Obd2Error>)
    ensures
        response_hex_bytes(response@).len() == 0 ==> (r matches Err(Obd2Error::ParseError(m))
            && m@ == "no valid hex data in response: "@ + trim(response@)),
        response_hex_bytes(response@).len() > 0 ==> (r matches Ok(v) && v@ == (
            if response_hex_bytes(response@).len() > skip_bytes {
                response_hex_bytes(response@).skip(skip_bytes as int)
            } else {
                Seq::empty()
            })),
{
    let all = str_chars(response);
    let cleaned = remove_all(&all, '>');
    let lines = crate::text::split_cr_lf(&cleaned);
    let ghost lv = split_lines(cleaned@);
    let mut bytes: Vec<u8> = Vec::new();
    let mut i: usize = 0;
    while i < lines.len()
        invariant
            i <= lines.len(),
            lines@.len() == lv.len(),
            forall|k: int| 0 <= k < lines@.len() ==> (#[trigger] lines@[k])@ == lv[k],
            bytes@ == lines_hex_bytes(lv.take(i as int)),
        decreases lines.len() - i,
    {
        let line = trim_chars(&lines[i]);
        let ws = split_words(&line);
        proof {
            assert(lv.take(i + 1).drop_last() =~= lv.take(i as int));
            assert(lv.take(i + 1).last() == lv[i as int]);
        }
        match line_bytes(&ws, Ghost(words(line@))) {
            Some(lb) => {
                let mut j: usize = 0;
                let ghost before = bytes@;
                while j < lb.len()
                    invariant
                        j <= lb.len(),
                        bytes@ == before + lb@.take(j as int),
                    decreases lb.len() - j,
                {
                    bytes.push(lb[j]);
                    proof {
                        assert(lb@.take(j + 1) =~= lb@.take(j as int).push(lb@[j as int]));
                    }
                    j = j + 1;
                }
                proof {
                    assert(lb@.take(lb.len() as int) =~= lb@);
                }
            },
            None => {
                proof {
                    assert(bytes@ + Seq::<u8>::empty() =~= bytes@);
                }
            },
        }
        i = i + 1;
    }
    proof {
        assert(lv.take(lines.len() as int) =~= lv);
    }
    if bytes.len() == 0 {
        let t = trim_chars(&all);
        let ts = string_from_chars(&t);
        return Err(Obd2Error::ParseError(String::from_str("no valid hex data in response: ").concat(ts.as_str())));
    }
    let mut out: Vec<u8> = Vec::new();
    if bytes.len() > skip_bytes {
        let mut k: usize = skip_bytes;
        while k < bytes.len()
            invariant
                skip_bytes <= k <= bytes.len(),
                out@ == bytes@.subrange(skip_bytes as int, k as int),
            decreases bytes.len() - k,
        {
            out.push(bytes[k]);
            proof {
                assert(bytes@.subrange(skip_bytes as int, k + 1) =~= bytes@.subrange(skip_bytes as int, k as int).push(bytes@[k as int]));
            }
            k = k + 1;
        }
        proof {
            assert(bytes@.subrange(skip_bytes as int, bytes.len() as int) =~= bytes@.skip(skip_bytes as int));
        }
    }
    Ok(out)
}

/// Whether bit `b` (counting from the most significant) of `byte` is set.
pub open spec fn bit_set(byte: u8, b: u8) -> bool {
    byte & (0x80u8 >> b) != 0
}

/// The PIDs announced by the first `n` bits of one bitmap byte whose most
/// significant bit stands for PID `first`.
pub open spec fn byte_pids(byte: u8, first: int, n: int) -> Seq<u8>
    decreases n,
{
    if n <= 0 {
        Seq::empty()
    } else {
        byte_pids(byte, first, n - 1) + if bit_set(byte, (n - 1) as u8) {
            seq![(first + n - 1) as u8]
        } else {
            Seq::empty()
        }
    }
}

/// The PIDs a supported-PIDs bitmap announces, in order: bit `b` of byte
/// `i` stands for PID `base + 8 * i + b + 1`.
pub open spec fn bitmap_pids(data: Seq<u8>, base: u8) -> Seq<u8>
    decreases data.len(),
{
    if data.len() == 0 {
        Seq::empty()
    } else {
        bitmap_pids(data.drop_last(), base) + byte_pids(data.last(), base + 8 * (data.len() - 1) + 1, 8)
    }
}

/// Whether every set bit of the bitmap stands for a PID below 256.
pub open spec fn bitmap_fits(data: Seq<u8>, base: u8) -> bool {
    forall|i: int, b: u8| 0 <= i < data.len() && b < 8 && #[trigger] bit_set(data[i], b)
        ==> base + 8 * i + b + 1 <= 255
}

proof fn lemma_byte_pids_contains(byte: u8, first: int, n: int, p: u8)
    requires
        0 <= n <= 8,
        first >= 0,
        forall|b: u8| b < n && #[trigger] bit_set(byte, b) ==> first + b <= 255,
    ensures
        byte_pids(byte, first, n).contains(p) <==> exists|b: u8| b < n && #[trigger] bit_set(byte, b) && p == first + b,
    decreases n,
{
    if n > 0 {
        lemma_byte_pids_contains(byte, first, n - 1, p);
        let last: u8 = (n - 1) as u8;
        let tail: Seq<u8> = if bit_set(byte, last) { seq![(first + n - 1) as u8] } else { Seq::empty() };
        let prev = byte_pids(byte, first, n - 1);
        assert(byte_pids(byte, first, n) == prev + tail);
        if byte_pids(byte, first, n).contains(p) {
            let k = choose|k: int| 0 <= k < (prev + tail).len() && (prev + tail)[k] == p;
            if k >= prev.len() {
                assert(tail[k - prev.len()] == p);
                assert(bit_set(byte, last) && p == first + last);
            } else {
                assert(prev[k] == p);
                assert(prev.contains(p));
            }
        }
        if exists|b: u8| b < n && #[trigger] bit_set(byte, b) && p == first + b {
            let b = choose|b: u8| b < n && #[trigger] bit_set(byte, b) && p == first + b;
            if b == last {
                assert((prev + tail)[prev.len() as int] == p);
            } else {
                assert(prev.contains(p));
                let k = choose|k: int| 0 <= k < prev.len() && prev[k] == p;
                assert((prev + tail)[k] == p);
            }
        }
    }
}

proof fn lemma_bitmap_pids_contains(data: Seq<u8>, base: u8, p: u8)
    requires
        bitmap_fits(data, base),
    ensures
        bitmap_pids(data, base).contains(p) <==> exists|i: int, b: u8|
            0 <= i < data.len() && b < 8 && #[trigger] bit_set(data[i], b) && p == base + 8 * i + b + 1,
    decreases data.len(),
{
    if data.len() > 0 {
        let d = data.drop_last();
        let n = data.len() - 1;
        assert(bitmap_fits(d, base)) by {
            assert forall|i: int, b: u8| 0 <= i < d.len() && b < 8 && #[trigger] bit_set(d[i], b)
                implies base + 8 * i + b + 1 <= 255 by {
                assert(d[i] == data[i]);
            }
        }
        lemma_bitmap_pids_contains(d, base, p);
        let first = base + 8 * n + 1;
        assert forall|b: u8| b < 8 && #[trigger] bit_set(data.last(), b) implies first + b <= 255 by {
            assert(bit_set(data[n], b));
        }
        lemma_byte_pids_contains(data.last(), first, 8, p);
        let prev = bitmap_pids(d, base);
        let tail = byte_pids(data.last(), first, 8);
        assert(bitmap_pids(data, base) == prev + tail);
        if (prev + tail).contains(p) {
            let k = choose|k: int| 0 <= k < (prev + tail).len() && (prev + tail)[k] == p;
            if k >= prev.len() {
                assert(tail[k - prev.len()] == p);
                assert(tail.contains(p));
                let b = choose|b: u8| b < 8 && #[trigger] bit_set(data.last(), b) && p == first + b;
                assert(bit_set(data[n], b) && p == base + 8 * n + b + 1);
            } else {
                assert(prev[k] == p);
                assert(prev.contains(p));
                let (i, b) = choose|i: int, b: u8|
                    0 <= i < d.len() && b < 8 && #[trigger] bit_set(d[i], b) && p == base + 8 * i + b + 1;
                assert(d[i] == data[i]);
                assert(bit_set(data[i], b));
            }
        }
        if exists|i: int, b: u8|
            0 <= i < data.len() && b < 8 && #[trigger] bit_set(data[i], b) && p == base + 8 * i + b + 1 {
            let (i, b) = choose|i: int, b: u8|
                0 <= i < data.len() && b < 8 && #[trigger] bit_set(data[i], b) && p == base + 8 * i + b + 1;
            if i == n {
                assert(bit_set(data.last(), b));
                assert(tail.contains(p));
                let k = choose|k: int| 0 <= k < tail.len() && tail[k] == p;
                assert((prev + tail)[prev.len() + k] == p);
            } else {
                assert(d[i] == data[i]);
                assert(bit_set(d[i], b));
                assert(prev.contains(p));
                let k = choose|k: int| 0 <= k < prev.len() && prev[k] == p;
                assert((prev + tail)[k] == p);
            }
        }
    }
}

/// Whether every PID a supported-PIDs bitmap announces is below 256, so
/// that the bitmap can be read with `parse_supported_pids`.
pub fn bitmap_in_range(data: &[u8], base_pid: u8) -> (r: bool)
    ensures
        r == bitmap_fits(data@, base_pid),
{
    let mut i: usize = 0;
    while i < data.len()
        invariant
            i <= data.len(),
            forall|k: int, b: u8| 0 <= k < i && b < 8 && #[trigger] bit_set(data@[k], b)
                ==> base_pid + 8 * k + b + 1 <= 255,
        decreases data.len() - i,
    {
        let byte = data[i];
        let mut bit: u8 = 0;
        while bit < 8
            invariant
                i < data.len(),
                byte == data@[i as int],
                bit <= 8,
                forall|k: int, b: u8| 0 <= k < i && b < 8 && #[trigger] bit_set(data@[k], b)
                    ==> base_pid + 8 * k + b + 1 <= 255,
                forall|b: u8| b < bit && #[trigger] bit_set(data@[i as int], b)
                    ==> base_pid + 8 * i + b + 1 <= 255,
            decreases 8 - bit,
        {
            if byte & (0x80u8 >> bit) != 0 {
                proof {
                    assert(bit_set(data@[i as int], bit));
                }
                if i >= 32 || base_pid as usize + 8 * i + bit as usize + 1 > 255 {
                    return false;
                }
            }
            bit = bit + 1;
        }
        i = i + 1;
    }
    true
}

/// Parse supported PIDs from a bitmap response. `data` is the bitmap,
/// `base_pid` the PID that was queried (0x00, 0x20, 0x40, 0x60); the most
/// significant bit of the first byte stands for `base_pid + 1`.
pub fn parse_supported_pids(data: &[u8], base_pid: u8) -> (pids: Vec<u8>)
    requires
        bitmap_fits(data@, base_pid),
    ensures
        pids@ == bitmap_pids(data@, base_pid),
        forall|p: u8| pids@.contains(p) <==> exists|i: int, b: u8|
            0 <= i < data@.len() && b < 8 && #[trigger] bit_set(data@[i], b)
                && p == base_pid + 8 * i + b + 1,
{
    let mut pids: Vec<u8> = Vec::new();
    let mut byte_idx: usize = 0;
    while byte_idx < data.len()
        invariant
            byte_idx <= data.len(),
            bitmap_fits(data@, base_pid),
            pids@ == bitmap_pids(data@.take(byte_idx as int), base_pid),
        decreases data.len() - byte_idx,
    {
        let byte = data[byte_idx];
        let ghost before = pids@;
        let mut bit: u8 = 0;
        while bit < 8
            invariant
                byte_idx < data.len(),
                byte == data@[byte_idx as int],
                bit <= 8,
                bitmap_fits(data@, base_pid),
                pids@ == before + byte_pids(byte, base_pid + 8 * byte_idx + 1, bit as int),
            decreases 8 - bit,
        {
            if byte & (0x80u8 >> bit) != 0 {
                proof {
                    assert(bit_set(data@[byte_idx as int], bit));
                }
                let pid = base_pid + (byte_idx as u8 * 8) + bit + 1;
                pids.push(pid);
                proof {
                    assert(pids@ =~= before + byte_pids(byte, base_pid + 8 * byte_idx + 1, bit + 1));
                }
            } else {
                proof {
                    assert(byte_pids(byte, base_pid + 8 * byte_idx + 1, bit + 1)
                        =~= byte_pids(byte, base_pid + 8 * byte_idx + 1, bit as int));
                }
            }
            bit = bit + 1;
        }
        proof {
            assert(data@.take(byte_idx + 1).drop_last() =~= data@.take(byte_idx as int));
            assert(data@.take(byte_idx + 1).last() == byte);
        }
        byte_idx = byte_idx + 1;
    }
    proof {
        assert(data@.take(data.len() as int) =~= data@);
        assert forall|p: u8| pids@.contains(p) <==> exists|i: int, b: u8|
            0 <= i < data@.len() && b < 8 && #[trigger] bit_set(data@[i], b)
                && p == base_pid + 8 * i + b + 1 by {
            lemma_bitmap_pids_contains(data@, base_pid, p);
        }
    }
    pids
}

/// ELM327/STN adapter over a transport: the transport and the adapter-side
/// state that the command and response logic updates.
pub struct Elm327Adapter<T> {
    pub transport: T,
    pub state: Elm327State,
}

impl<T> Elm327Adapter<T> {
    /// Create a new ELM327 adapter wrapping a transport.
    pub fn new(transport: T) -> (a: Self)
        ensures
            a.transport == transport,
            is_default_info(a.state.info),
            !a.state.initialized,
            a.state.current_header is None,
            a.state.events@.len() == 0,
    {
        Elm327Adapter { transport, state: Elm327State::new() }
    }

    /// Mutable access to the underlying transport.
    pub fn transport_mut(&mut self) -> (r: &mut T)
        ensures
            *r == old(self).transport,
            final(self).transport == *final(r),
            final(self).state == old(self).state,
    {
        &mut self.transport
    }
}

} // verus!
