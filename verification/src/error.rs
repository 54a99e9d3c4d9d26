//! Error types: UDS/OBD-II negative response codes and the library error.

use vstd::prelude::*;
use crate::text::{byte_hex_lower, byte_hex_upper, push_byte_hex_lower, push_byte_hex_upper};

verus! {

/// OBD-II / UDS Negative Response Code.
#[derive(Debug, Clone, Copy, PartialEq, Eq, Structural)]
#[non_exhaustive]
pub enum NegativeResponse {
    GeneralReject,
    ServiceNotSupported,
    SubFunctionNotSupported,
    IncorrectMessageLength,
    ResponseTooLong,
    ConditionsNotCorrect,
    RequestOutOfRange,
    SecurityAccessDenied,
    InvalidKey,
    ExceededAttempts,
    TimeDelayNotExpired,
    GeneralProgrammingFailure,
    ResponsePending,
}

/// The byte that identifies each negative response code on the wire.
pub open spec fn nrc_code(n: NegativeResponse) -> u8 {
    match n {
        NegativeResponse::GeneralReject => 0x10,
        NegativeResponse::ServiceNotSupported => 0x11,
        NegativeResponse::SubFunctionNotSupported => 0x12,
        NegativeResponse::IncorrectMessageLength => 0x13,
        NegativeResponse::ResponseTooLong => 0x14,
        NegativeResponse::ConditionsNotCorrect => 0x22,
        NegativeResponse::RequestOutOfRange => 0x31,
        NegativeResponse::SecurityAccessDenied => 0x33,
        NegativeResponse::InvalidKey => 0x35,
        NegativeResponse::ExceededAttempts => 0x36,
        NegativeResponse::TimeDelayNotExpired => 0x37,
        NegativeResponse::GeneralProgrammingFailure => 0x72,
        NegativeResponse::ResponsePending => 0x78,
    }
}

/// The response code carried by a byte, if the byte names one.
pub open spec fn nrc_from_byte(b: u8) -> Option<NegativeResponse> {
    if b == 0x10 { Some(NegativeResponse::GeneralReject) }
    else if b == 0x11 { Some(NegativeResponse::ServiceNotSupported) }
    else if b == 0x12 { Some(NegativeResponse::SubFunctionNotSupported) }
    else if b == 0x13 { Some(NegativeResponse::IncorrectMessageLength) }
    else if b == 0x14 { Some(NegativeResponse::ResponseTooLong) }
    else if b == 0x22 { Some(NegativeResponse::ConditionsNotCorrect) }
    else if b == 0x31 { Some(NegativeResponse::RequestOutOfRange) }
    else if b == 0x33 { Some(NegativeResponse::SecurityAccessDenied) }
    else if b == 0x35 { Some(NegativeResponse::InvalidKey) }
    else if b == 0x36 { Some(NegativeResponse::ExceededAttempts) }
    else if b == 0x37 { Some(NegativeResponse::TimeDelayNotExpired) }
    else if b == 0x72 { Some(NegativeResponse::GeneralProgrammingFailure) }
    else if b == 0x78 { Some(NegativeResponse::ResponsePending) }
    else { None }
}

/// The variant name of a response code, as `Debug` prints it.
pub open spec fn nrc_name(n: NegativeResponse) -> &'static str {
    match n {
        NegativeResponse::GeneralReject => "GeneralReject",
        NegativeResponse::ServiceNotSupported => "ServiceNotSupported",
        NegativeResponse::SubFunctionNotSupported => "SubFunctionNotSupported",
        NegativeResponse::IncorrectMessageLength => "IncorrectMessageLength",
        NegativeResponse::ResponseTooLong => "ResponseTooLong",
        NegativeResponse::ConditionsNotCorrect => "ConditionsNotCorrect",
        NegativeResponse::RequestOutOfRange => "RequestOutOfRange",
        NegativeResponse::SecurityAccessDenied => "SecurityAccessDenied",
        NegativeResponse::InvalidKey => "InvalidKey",
        NegativeResponse::ExceededAttempts => "ExceededAttempts",
        NegativeResponse::TimeDelayNotExpired => "TimeDelayNotExpired",
        NegativeResponse::GeneralProgrammingFailure => "GeneralProgrammingFailure",
        NegativeResponse::ResponsePending => "ResponsePending",
    }
}

/// The display text of a response code: its name and its byte, `Name (0xHH)`.
pub open spec fn nrc_display(n: NegativeResponse) -> Seq<char> {
    nrc_name(n)@ + " (0x"@ + byte_hex_upper(nrc_code(n)) + ")"@
}

impl NegativeResponse {
    pub fn from_byte(b: u8) -> (r: Option<Self>)
        ensures
            r == nrc_from_byte(b),
    {
        match b {
            0x10 => Some(Self::GeneralReject),
            0x11 => Some(Self::ServiceNotSupported),
            0x12 => Some(Self::SubFunctionNotSupported),
            0x13 => Some(Self::IncorrectMessageLength),
            0x14 => Some(Self::ResponseTooLong),
            0x22 => Some(Self::ConditionsNotCorrect),
            0x31 => Some(Self::RequestOutOfRange),
            0x33 => Some(Self::SecurityAccessDenied),
            0x35 => Some(Self::InvalidKey),
            0x36 => Some(Self::ExceededAttempts),
            0x37 => Some(Self::TimeDelayNotExpired),
            0x72 => Some(Self::GeneralProgrammingFailure),
            0x78 => Some(Self::ResponsePending),
            _ => None,
        }
    }

    pub fn code(&self) -> (c: u8)
        ensures
            c == nrc_code(*self),
    {
        match self {
            Self::GeneralReject => 0x10,
            Self::ServiceNotSupported => 0x11,
            Self::SubFunctionNotSupported => 0x12,
            Self::IncorrectMessageLength => 0x13,
            Self::ResponseTooLong => 0x14,
            Self::ConditionsNotCorrect => 0x22,
            Self::RequestOutOfRange => 0x31,
            Self::SecurityAccessDenied => 0x33,
            Self::InvalidKey => 0x35,
            Self::ExceededAttempts => 0x36,
            Self::TimeDelayNotExpired => 0x37,
            Self::GeneralProgrammingFailure => 0x72,
            Self::ResponsePending => 0x78,
        }
    }

    /// The variant name, as `Debug` prints it.
    pub fn name(&self) -> (s: &'static str)
        ensures
            s == nrc_name(*self),
    {
        match self {
            Self::GeneralReject => "GeneralReject",
            Self::ServiceNotSupported => "ServiceNotSupported",
            Self::SubFunctionNotSupported => "SubFunctionNotSupported",
            Self::IncorrectMessageLength => "IncorrectMessageLength",
            Self::ResponseTooLong => "ResponseTooLong",
            Self::ConditionsNotCorrect => "ConditionsNotCorrect",
            Self::RequestOutOfRange => "RequestOutOfRange",
            Self::SecurityAccessDenied => "SecurityAccessDenied",
            Self::InvalidKey => "InvalidKey",
            Self::ExceededAttempts => "ExceededAttempts",
            Self::TimeDelayNotExpired => "TimeDelayNotExpired",
            Self::GeneralProgrammingFailure => "GeneralProgrammingFailure",
            Self::ResponsePending => "ResponsePending",
        }
    }

    /// Display text: `Name (0xHH)`.
    pub fn to_string(&self) -> (s: String)
        ensures
            s@ == nrc_display(*self),
    {
        let mut s = String::from_str(self.name());
        s.append(" (0x");
        push_byte_hex_upper(&mut s, self.code());
        s.append(")");
        s
    }
}

/// Every response code is recovered from its own byte.
pub proof fn lemma_nrc_code_roundtrip(n: NegativeResponse)
    ensures
        nrc_from_byte(nrc_code(n)) == Some(n),
{
}

/// A byte that names a response code is that code's byte.
pub proof fn lemma_nrc_byte_roundtrip(b: u8)
    ensures
        nrc_from_byte(b) matches Some(n) ==> nrc_code(n) == b,
{
}


/// `std::io::Error`, carried by [`Obd2Error::Io`].
#[verifier::external_type_specification]
#[verifier::external_body]
pub struct ExIoError(std::io::Error);

/// Errors returned by obd2-core operations.
#[derive(Debug)]
#[non_exhaustive]
pub enum Obd2Error {
    Transport(String),
    Adapter(String),
    AdapterBusy,
    Timeout,
    NoData,
    UnsupportedPid { pid: u8 },
    ModuleNotFound(String),
    NegativeResponse { service: u8, nrc: NegativeResponse },
    SecurityRequired,
    NoSpec,
    BusNotAvailable(String),
    SpecParse(String),
    ParseError(String),
    Io(std::io::Error),
    /// Any other error, held by its display text.
    Other(String),
}

/// `0x` followed by two lower-case hexadecimal digits (`{:#04x}` of a byte).
pub open spec fn hex_byte_prefixed(b: u8) -> Seq<char> {
    "0x"@ + byte_hex_lower(b)
}

/// The display text of every error but [`Obd2Error::Io`], whose text comes
/// from the I/O error itself.
pub open spec fn error_message(e: &Obd2Error) -> Seq<char> {
    match e {
        Obd2Error::Transport(m) => "transport error: "@ + m@,
        Obd2Error::Adapter(m) => "adapter error: "@ + m@,
        Obd2Error::AdapterBusy => "adapter is busy (stop polling first)"@,
        Obd2Error::Timeout => "timeout waiting for response"@,
        Obd2Error::NoData => "no data (vehicle did not respond)"@,
        Obd2Error::UnsupportedPid { pid } =>
            "PID "@ + hex_byte_prefixed(*pid) + " not supported by this vehicle"@,
        Obd2Error::ModuleNotFound(m) => "module '"@ + m@ + "' not found in vehicle spec"@,
        Obd2Error::NegativeResponse { service, nrc } =>
            "negative response: "@ + nrc_display(*nrc) + " for service "@ + hex_byte_prefixed(*service),
        Obd2Error::SecurityRequired =>
            "security access required (call enter_diagnostic_session + security_access first)"@,
        Obd2Error::NoSpec => "no vehicle spec matched — load a spec or call identify_vehicle()"@,
        Obd2Error::BusNotAvailable(m) => "bus '"@ + m@ + "' not available on this vehicle"@,
        Obd2Error::SpecParse(m) => "spec parse error: "@ + m@,
        Obd2Error::ParseError(m) => "parse error: "@ + m@,
        Obd2Error::Io(_) => "IO error: "@,
        Obd2Error::Other(m) => m@,
    }
}

/// Display text of an I/O error (`std::io::Error`'s `Display`).
#[verifier::external_body]
fn io_error_text(e: &std::io::Error) -> String {
    format!("{}", e)
}

fn push_hex_byte_prefixed(s: &mut String, b: u8)
    ensures
        final(s)@ == old(s)@ + hex_byte_prefixed(b),
{
    s.append("0x");
    push_byte_hex_lower(s, b);
}

impl Obd2Error {
    /// The human-readable message of this error.
    pub fn to_string(&self) -> (s: String)
        ensures
            !(self is Io) ==> s@ == error_message(self),
            self is Io ==> s@.len() >= error_message(self).len()
                && s@.subrange(0, error_message(self).len() as int) == error_message(self),
    {
        match self {
            Obd2Error::Transport(m) => String::from_str("transport error: ").concat(m.as_str()),
            Obd2Error::Adapter(m) => String::from_str("adapter error: ").concat(m.as_str()),
            Obd2Error::AdapterBusy => String::from_str("adapter is busy (stop polling first)"),
            Obd2Error::Timeout => String::from_str("timeout waiting for response"),
            Obd2Error::NoData => String::from_str("no data (vehicle did not respond)"),
            Obd2Error::UnsupportedPid { pid } => {
                let mut s = String::from_str("PID ");
                push_hex_byte_prefixed(&mut s, *pid);
                s.append(" not supported by this vehicle");
                s
            },
            Obd2Error::ModuleNotFound(m) => {
                let mut s = String::from_str("module '");
                s.append(m.as_str());
                s.append("' not found in vehicle spec");
                s
            },
            Obd2Error::NegativeResponse { service, nrc } => {
                let mut s = String::from_str("negative response: ");
                let n = nrc.to_string();
                s.append(n.as_str());
                s.append(" for service ");
                push_hex_byte_prefixed(&mut s, *service);
                s
            },
            Obd2Error::SecurityRequired => String::from_str(
                "security access required (call enter_diagnostic_session + security_access first)",
            ),
            Obd2Error::NoSpec => String::from_str(
                "no vehicle spec matched — load a spec or call identify_vehicle()",
            ),
            Obd2Error::BusNotAvailable(m) => {
                let mut s = String::from_str("bus '");
                s.append(m.as_str());
                s.append("' not available on this vehicle");
                s
            },
            Obd2Error::SpecParse(m) => String::from_str("spec parse error: ").concat(m.as_str()),
            Obd2Error::ParseError(m) => String::from_str("parse error: ").concat(m.as_str()),
            Obd2Error::Io(e) => {
                let t = io_error_text(e);
                let s = String::from_str("IO error: ").concat(t.as_str());
                proof {
                    assert(s@.subrange(0, error_message(self).len() as int) == error_message(self));
                }
                s
            },
            Obd2Error::Other(m) => m.clone(),
        }
    }
}

impl From<std::io::Error> for Obd2Error {
    fn from(e: std::io::Error) -> (r: Self) {
        Obd2Error::Io(e)
    }
}

impl vstd::std_specs::convert::FromSpecImpl<std::io::Error> for Obd2Error {
    open spec fn obeys_from_spec() -> bool {
        true
    }

    open spec fn from_spec(e: std::io::Error) -> Self {
        Obd2Error::Io(e)
    }
}

} // verus!
