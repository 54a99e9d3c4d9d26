//! What a hardware test expects of a vehicle's VIN.

use vstd::prelude::*;
use vstd::string::StringSliceAdditionalSpecFns;
use crate::text::{chars_eq_ignore_ascii_case, eq_ignore_ascii_case, str_chars};

verus! {

broadcast use vstd::string::group_string_axioms;

/// The VIN a test vehicle is expected to report.
#[derive(Debug, Clone, Copy)]
pub enum VinExpectation {
    /// Not known yet: any 17-byte VIN is accepted.
    Unknown,
    /// This VIN (ignoring ASCII case).
    Exact(&'static str),
}

impl VinExpectation {
    /// How the VIN is checked.
    pub fn describe(&self) -> (s: &'static str)
        ensures
            s@ == match *self {
                VinExpectation::Unknown => "bootstrap-discovery"@,
                VinExpectation::Exact(_) => "exact"@,
            },
    {
        match self {
            VinExpectation::Unknown => "bootstrap-discovery",
            VinExpectation::Exact(_) => "exact",
        }
    }

    /// Whether a VIN meets the expectation.
    pub fn matches(&self, vin: &str) -> (r: bool)
        requires
            vin.spec_bytes().len() <= usize::MAX,
        ensures
            r == match *self {
                VinExpectation::Unknown => vin.spec_bytes().len() == 17,
                VinExpectation::Exact(expected) => eq_ignore_ascii_case(expected@, vin@),
            },
    {
        match self {
            VinExpectation::Unknown => vin.len() == 17,
            VinExpectation::Exact(expected) => {
                let a = str_chars(expected);
                let b = str_chars(vin);
                chars_eq_ignore_ascii_case(&a, &b)
            },
        }
    }

    /// The expected VIN, when one is known.
    pub fn expected(&self) -> (r: Option<&'static str>)
        ensures
            r == match *self {
                VinExpectation::Unknown => None,
                VinExpectation::Exact(v) => Some(v),
            },
    {
        match self {
            VinExpectation::Unknown => None,
            VinExpectation::Exact(v) => Some(*v),
        }
    }
}

} // verus!
