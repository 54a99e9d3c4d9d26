//! Vehicle specification types: modules, buses, addressing, thresholds
//! levels, diagnostic rules, known issues and the DTC library.
//!
//! Engine and transmission data, which carry measured quantities, are kept by
//! the application layer together with the spec loader.

use vstd::prelude::*;
use crate::protocol::dtc::Severity;
use vstd::string::StringSliceAdditionalSpecFns;
use crate::text::{
    chars_contain, chars_eq_ignore_ascii_case, eq_ignore_ascii_case, str_chars, str_eq,
};

verus! {

/// Logical identifier for a vehicle module. String-based for extensibility.
#[derive(Debug, Clone, PartialEq, Eq, Hash)]
pub struct ModuleId(pub String);

impl ModuleId {
    pub const ECM: &'static str = "ecm";
    pub const TCM: &'static str = "tcm";
    pub const BCM: &'static str = "bcm";
    pub const ABS: &'static str = "abs";
    pub const IPC: &'static str = "ipc";
    pub const AIRBAG: &'static str = "airbag";
    pub const HVAC: &'static str = "hvac";
    pub const FICM: &'static str = "ficm";

    pub fn new(id: &str) -> (m: Self)
        ensures
            m.0@ == id@,
    {
        ModuleId(String::from_str(id))
    }
}

/// Physical address of a module on its bus.
#[derive(Debug, Clone, Copy, PartialEq, Eq)]
#[non_exhaustive]
#[allow(inconsistent_fields)]
pub enum PhysicalAddress {
    J1850 { node: u8, header: [u8; 3] },
    Can11Bit { request_id: u16, response_id: u16 },
    Can29Bit { request_id: u32, response_id: u32 },
    J1939 { source_address: u8 },
}

/// K-line initialization mode.
#[derive(Debug, Clone, Copy, PartialEq, Eq, Structural)]
pub enum KLineInit {
    SlowInit,
    FastInit,
}

/// OBD-II transport protocol.
#[derive(Debug, Clone, Copy, PartialEq, Eq, Structural)]
#[non_exhaustive]
pub enum Protocol {
    J1850Vpw,
    J1850Pwm,
    Iso9141(KLineInit),
    Kwp2000(KLineInit),
    Can11Bit500,
    Can11Bit250,
    Can29Bit500,
    Can29Bit250,
    Auto,
}

/// Identifier of a vehicle bus.
#[derive(Debug, Clone, PartialEq, Eq, Hash)]
pub struct BusId(pub String);

/// One bus of the vehicle and the modules on it.
#[derive(Debug, Clone)]
pub struct BusConfig {
    pub id: BusId,
    pub protocol: Protocol,
    pub speed_bps: u32,
    pub modules: Vec<Module>,
    pub description: Option<String>,
}

/// A module (ECU) of the vehicle.
#[derive(Debug, Clone)]
pub struct Module {
    pub id: ModuleId,
    pub name: String,
    pub address: PhysicalAddress,
    pub bus: BusId,
}

/// The buses of a vehicle.
#[derive(Debug, Clone)]
pub struct CommunicationSpec {
    pub buses: Vec<BusConfig>,
    pub elm327_protocol_code: Option<String>,
}

/// How a spec recognises a VIN.
#[derive(Debug, Clone)]
pub struct VinMatcher {
    pub vin_8th_digit: Option<Vec<char>>,
    pub wmi_prefixes: Vec<String>,
    pub year_range: Option<(u16, u16)>,
}

/// Whether some prefix of the list equals `wmi` ignoring ASCII case.
pub open spec fn wmi_listed(prefixes: Seq<String>, wmi: Seq<char>) -> bool {
    exists|i: int| 0 <= i < prefixes.len() && eq_ignore_ascii_case(wmi, #[trigger] prefixes[i]@)
}

/// Position of a model-year character in the year-code cycle: `A`..`Y`
/// (without `I`, `O`, `Q`, `U`, `Z`) for 0..20, then `1`..`9` for 21..29.
pub open spec fn year_code_index(c: char) -> Option<int> {
    match c {
        'A' => Some(0int), 'B' => Some(1), 'C' => Some(2), 'D' => Some(3), 'E' => Some(4),
        'F' => Some(5), 'G' => Some(6), 'H' => Some(7), 'J' => Some(8), 'K' => Some(9),
        'L' => Some(10), 'M' => Some(11), 'N' => Some(12), 'P' => Some(13), 'R' => Some(14),
        'S' => Some(15), 'T' => Some(16), 'V' => Some(17), 'W' => Some(18), 'X' => Some(19),
        'Y' => Some(20), '1' => Some(21), '2' => Some(22), '3' => Some(23), '4' => Some(24),
        '5' => Some(25), '6' => Some(26), '7' => Some(27), '8' => Some(28), '9' => Some(29),
        _ => None,
    }
}

/// The model year that the year code at position `i` of the cycle stands for
/// in its `k`-th repetition: the cycle starts in 1980 and repeats every 30
/// years.
pub open spec fn model_year(i: int, k: nat) -> int {
    1980 + i + 30 * k
}

/// Whether a model-year character stands for some year in `min..=max`.
pub open spec fn model_year_in_range(c: char, min: u16, max: u16) -> bool {
    &&& year_code_index(c) is Some
    &&& exists|k: nat| min <= #[trigger] model_year(year_code_index(c)->0, k) && model_year(year_code_index(c)->0, k) <= max
}

/// Whether a VIN (as characters, with its UTF-8 byte length) satisfies a
/// matcher: at least 17 bytes, first three characters among the WMI prefixes
/// (when any are listed), eighth character among the engine codes (when
/// listed), and the model year of the tenth character inside the year range
/// (when one is given).
pub open spec fn vin_matches(m: VinMatcher, vin: Seq<char>, byte_len: nat) -> bool {
    &&& byte_len >= 17
    &&& (m.wmi_prefixes@.len() == 0 || wmi_listed(m.wmi_prefixes@, vin.subrange(0, 3)))
    &&& (m.vin_8th_digit matches Some(d) ==> d@.contains(vin[7]))
    &&& (m.year_range matches Some((lo, hi)) ==> vin.len() >= 10 && model_year_in_range(vin[9], lo, hi))
}

fn year_code_of(c: char) -> (r: Option<u32>)
    ensures
        match r {
            Some(i) => year_code_index(c) == Some(i as int),
            None => year_code_index(c) is None,
        },
{
    match c {
        'A' => Some(0), 'B' => Some(1), 'C' => Some(2), 'D' => Some(3), 'E' => Some(4),
        'F' => Some(5), 'G' => Some(6), 'H' => Some(7), 'J' => Some(8), 'K' => Some(9),
        'L' => Some(10), 'M' => Some(11), 'N' => Some(12), 'P' => Some(13), 'R' => Some(14),
        'S' => Some(15), 'T' => Some(16), 'V' => Some(17), 'W' => Some(18), 'X' => Some(19),
        'Y' => Some(20), '1' => Some(21), '2' => Some(22), '3' => Some(23), '4' => Some(24),
        '5' => Some(25), '6' => Some(26), '7' => Some(27), '8' => Some(28), '9' => Some(29),
        _ => None,
    }
}

proof fn lemma_year_witness(c: char, min: u16, max: u16, k: nat)
    requires
        year_code_index(c) is Some,
        min <= model_year(year_code_index(c)->0, k) <= max,
    ensures
        model_year_in_range(c, min, max),
{
}

/// Whether the model-year character stands for a year in `min..=max`.
fn year_in_range(c: char, min: u16, max: u16) -> (r: bool)
    ensures
        r == model_year_in_range(c, min, max),
{
    match year_code_of(c) {
        None => false,
        Some(i) => {
            let mut y: u32 = 1980 + i;
            let ghost mut k: nat = 0;
            while y < min as u32
                invariant
                    i < 30,
                    year_code_index(c) == Some(i as int),
                    y as int == model_year(i as int, k),
                    forall|j: nat| j < k ==> #[trigger] model_year(i as int, j) < min,
                decreases min as int + 30 - y as int,
            {
                y = y + 30;
                proof {
                    k = k + 1;
                }
            }
            proof {
                assert(year_code_index(c) == Some(i as int));
                if y <= max as u32 {
                    lemma_year_witness(c, min, max, k);
                } else {
                    assert forall|j: nat| !(min <= #[trigger] model_year(i as int, j) && model_year(i as int, j) <= max) by {
                        if j >= k {
                            assert(model_year(i as int, j) >= model_year(i as int, k));
                        }
                    }
                }
            }
            y <= max as u32
        },
    }
}

impl VinMatcher {
    /// Check if this matcher matches a given VIN.
    pub fn matches(&self, vin: &str) -> (r: bool)
        requires
            vin.spec_bytes().len() <= usize::MAX,
            vin.spec_bytes().len() >= 17 && self.vin_8th_digit is Some ==> vin@.len() >= 8,
        ensures
            r == vin_matches(*self, vin@, vin.spec_bytes().len()),
    {
        broadcast use vstd::string::group_string_axioms;
        if vin.len() < 17 {
            return false;
        }
        let chars = str_chars(vin);
        proof {
            crate::text::lemma_utf8_len_bound(vin@);
        }
        let mut wmi: Vec<char> = Vec::new();
        wmi.push(chars[0]);
        wmi.push(chars[1]);
        wmi.push(chars[2]);
        proof {
            assert(wmi@ =~= vin@.subrange(0, 3));
        }
        let mut wmi_ok = self.wmi_prefixes.len() == 0;
        let mut i: usize = 0;
        while i < self.wmi_prefixes.len() && !wmi_ok
            invariant
                i <= self.wmi_prefixes.len(),
                vin@.len() >= 5,
                wmi@ == vin@.subrange(0, 3),
                wmi_ok ==> (self.wmi_prefixes@.len() == 0 || wmi_listed(
                    self.wmi_prefixes@,
                    wmi@,
                )),
                !wmi_ok ==> self.wmi_prefixes@.len() > 0 && forall|j: int|
                    0 <= j < i ==> !eq_ignore_ascii_case(wmi@, #[trigger] self.wmi_prefixes@[j]@),
            decreases self.wmi_prefixes.len() - i,
        {
            let p = str_chars(self.wmi_prefixes[i].as_str());
            if chars_eq_ignore_ascii_case(&wmi, &p) {
                wmi_ok = true;
            }
            i = i + 1;
        }
        let digit_ok = match &self.vin_8th_digit {
            Some(digits) => chars_contain(digits, chars[7]),
            None => true,
        };
        let year_ok = match self.year_range {
            Some((min, max)) => chars.len() >= 10 && year_in_range(chars[9], min, max),
            None => true,
        };
        wmi_ok && digit_ok && year_ok
    }
}

/// Alert level of a threshold evaluation.
#[derive(Debug, Clone, Copy, PartialEq, Eq, PartialOrd, Ord)]
pub enum AlertLevel {
    Normal,
    Warning,
    Critical,
}

/// Which limit a reading crossed.
#[derive(Debug, Clone, Copy, PartialEq, Eq, Structural)]
pub enum AlertDirection {
    Low,
    High,
}

/// A named polling group of a spec.
#[derive(Debug, Clone)]
pub struct PollingGroup {
    pub name: String,
    pub description: String,
    pub target_interval_ms: u32,
    pub steps: Vec<PollStep>,
}

/// One step of a polling group.
#[derive(Debug, Clone)]
pub struct PollStep {
    /// "broadcast" or a module id.
    pub target: String,
    /// PID codes.
    pub standard_pids: Vec<u8>,
    /// DID values.
    pub enhanced_pids: Vec<u16>,
}

/// A rule that fires on DTCs.
#[derive(Debug, Clone)]
pub struct DiagnosticRule {
    pub name: String,
    pub trigger: RuleTrigger,
    pub action: RuleAction,
    pub description: String,
}

/// When a diagnostic rule fires.
#[derive(Debug, Clone)]
#[non_exhaustive]
pub enum RuleTrigger {
    DtcPresent(String),
    DtcRange(String, String),
}

/// What a diagnostic rule asks for.
#[derive(Debug, Clone)]
#[non_exhaustive]
pub enum RuleAction {
    QueryModule { module: String, service: u8 },
    CheckFirst { pid: u16, module: String, reason: String },
    Alert(String),
    MonitorPids(Vec<u16>),
}

/// A common problem of a vehicle, recognised by its symptom DTCs.
#[derive(Debug, Clone)]
pub struct KnownIssue {
    pub rank: u8,
    pub name: String,
    pub description: String,
    pub symptoms: Vec<String>,
    pub root_cause: String,
    pub quick_test: Option<QuickTest>,
    pub fix: String,
}

/// A quick test for a known issue.
#[derive(Debug, Clone)]
pub struct QuickTest {
    pub description: String,
    pub pass_criteria: String,
}

/// Vehicle-specific DTC descriptions, by module group.
#[derive(Debug, Clone, Default)]
pub struct DtcLibrary {
    pub ecm: Vec<DtcEntry>,
    pub tcm: Vec<DtcEntry>,
    pub bcm: Vec<DtcEntry>,
    pub network: Vec<DtcEntry>,
}

/// One entry of a DTC library.
#[derive(Debug, Clone)]
pub struct DtcEntry {
    pub code: String,
    pub meaning: String,
    pub severity: Severity,
    pub notes: Option<String>,
    pub related_pids: Option<Vec<u16>>,
    pub category: Option<String>,
}

/// The entries of a library in lookup order: ECM, TCM, BCM, network.
pub open spec fn library_entries(lib: DtcLibrary) -> Seq<DtcEntry> {
    lib.ecm@ + lib.tcm@ + lib.bcm@ + lib.network@
}

/// Whether entry `i` is the first one with the given code.
pub open spec fn first_with_code(entries: Seq<DtcEntry>, code: Seq<char>, i: int) -> bool {
    &&& 0 <= i < entries.len()
    &&& entries[i].code@ == code
    &&& forall|j: int| 0 <= j < i ==> (#[trigger] entries[j]).code@ != code
}

fn find_in<'a>(entries: &'a Vec<DtcEntry>, code: &str) -> (r: Option<&'a DtcEntry>)
    ensures
        r is None <==> forall|j: int| 0 <= j < entries@.len() ==> (#[trigger] entries@[j]).code@ != code@,
        r matches Some(e) ==> exists|i: int| first_with_code(entries@, code@, i) && entries@[i] == *e,
{
    let mut i: usize = 0;
    while i < entries.len()
        invariant
            i <= entries.len(),
            forall|j: int| 0 <= j < i ==> (#[trigger] entries@[j]).code@ != code@,
        decreases entries.len() - i,
    {
        if str_eq(entries[i].code.as_str(), code) {
            proof {
                assert(first_with_code(entries@, code@, i as int));
            }
            return Some(&entries[i]);
        }
        i = i + 1;
    }
    None
}

impl DtcLibrary {
    /// The first entry, in ECM, TCM, BCM, network order, whose code is `code`.
    pub fn lookup(&self, code: &str) -> (r: Option<&DtcEntry>)
        ensures
            r is None <==> forall|j: int|
                0 <= j < library_entries(*self).len() ==> (#[trigger] library_entries(*self)[j]).code@
                    != code@,
            r matches Some(e) ==> exists|i: int|
                first_with_code(library_entries(*self), code@, i) && library_entries(*self)[i]
                    == *e,
    {
        let ghost all = library_entries(*self);
        let ghost n1 = self.ecm@.len();
        let ghost n2 = n1 + self.tcm@.len();
        let ghost n3 = n2 + self.bcm@.len();
        assert(forall|j: int| 0 <= j < n1 ==> all[j] == self.ecm@[j]);
        assert(forall|j: int| n1 <= j < n2 ==> all[j] == self.tcm@[j - n1]);
        assert(forall|j: int| n2 <= j < n3 ==> all[j] == self.bcm@[j - n2]);
        assert(forall|j: int| n3 <= j < all.len() ==> all[j] == self.network@[j - n3]);
        match find_in(&self.ecm, code) {
            Some(e) => {
                proof {
                    let i = choose|i: int| first_with_code(self.ecm@, code@, i) && self.ecm@[i] == *e;
                    assert(first_with_code(all, code@, i));
                    assert(all[i].code@ == code@);
                }
                return Some(e);
            },
            None => {},
        }
        match find_in(&self.tcm, code) {
            Some(e) => {
                proof {
                    let i = choose|i: int| first_with_code(self.tcm@, code@, i) && self.tcm@[i] == *e;
                    assert(first_with_code(all, code@, i + n1));
                    assert(all[i + n1].code@ == code@);
                }
                return Some(e);
            },
            None => {},
        }
        match find_in(&self.bcm, code) {
            Some(e) => {
                proof {
                    let i = choose|i: int| first_with_code(self.bcm@, code@, i) && self.bcm@[i] == *e;
                    assert(first_with_code(all, code@, i + n2));
                    assert(all[i + n2].code@ == code@);
                }
                return Some(e);
            },
            None => {},
        }
        match find_in(&self.network, code) {
            Some(e) => {
                proof {
                    let i = choose|i: int|
                        first_with_code(self.network@, code@, i) && self.network@[i] == *e;
                    assert(first_with_code(all, code@, i + n3));
                    assert(all[i + n3].code@ == code@);
                }
                Some(e)
            },
            None => None,
        }
    }
}

} // verus!
