//! Recognizing OBD-II adapters among scanned BLE device names.

use vstd::prelude::*;
use crate::text::{contains_seq, contains_str, str_chars, to_lowercase, unicode_lowercase};

verus! {

broadcast use vstd::string::group_string_axioms;

/// Known BLE adapter name patterns for auto-discovery.
pub const ADAPTER_NAME_PATTERNS: [&'static str; 8] = [
    "OBDLink",
    "OBD",
    "ELM327",
    "STN",
    "OBDII",
    "Vgate",
    "vLink",
    "Veepeak",
];

/// Whether a (lower-cased) name contains one of the (lower-cased) needles.
pub open spec fn contains_any(name: Seq<char>, needles: Seq<String>) -> bool {
    exists|i: int| 0 <= i < needles.len() && contains_seq(name, #[trigger] needles[i]@)
}

/// Whether `lower_name` contains one of the needles.
pub fn matches_lowered(lower_name: &str, needles: &Vec<String>) -> (r: bool)
    ensures
        r == contains_any(lower_name@, needles@),
{
    let name = str_chars(lower_name);
    let mut i: usize = 0;
    while i < needles.len()
        invariant
            i <= needles.len(),
            name@ == lower_name@,
            forall|j: int| 0 <= j < i ==> !contains_seq(lower_name@, #[trigger] needles@[j]@),
        decreases needles.len() - i,
    {
        if contains_str(&name, needles[i].as_str()) {
            return true;
        }
        i = i + 1;
    }
    false
}

/// The lower-cased needles a device name is searched for: the filter, or
/// without one the adapter name patterns.
pub open spec fn name_needles(filter: Option<Seq<char>>) -> Seq<Seq<char>> {
    match filter {
        Some(f) => seq![unicode_lowercase(f)],
        None => Seq::new(8, |i: int| unicode_lowercase(ADAPTER_NAME_PATTERNS@[i]@)),
    }
}

/// Check if a BLE device name matches known OBD-II adapter patterns.
///
/// With a filter, matches when the name contains the filter (ignoring
/// case); otherwise checks against [`ADAPTER_NAME_PATTERNS`].
pub fn is_adapter_match(name: &str, name_filter: Option<&str>) -> (r: bool)
    ensures
        r == exists|i: int| 0 <= i < name_needles(crate::text::opt_str_view(name_filter)).len()
            && contains_seq(unicode_lowercase(name@), #[trigger] name_needles(crate::text::opt_str_view(name_filter))[i]),
{
    let lower = to_lowercase(name);
    let mut needles: Vec<String> = Vec::new();
    match name_filter {
        Some(f) => {
            needles.push(to_lowercase(f));
        },
        None => {
            let mut k: usize = 0;
            while k < 8
                invariant
                    k <= 8,
                    needles@.len() == k,
                    forall|j: int| 0 <= j < k ==> (#[trigger] needles@[j])@ == unicode_lowercase(ADAPTER_NAME_PATTERNS@[j]@),
                decreases 8 - k,
            {
                needles.push(to_lowercase(ADAPTER_NAME_PATTERNS[k]));
                k = k + 1;
            }
        },
    }
    let r = matches_lowered(lower.as_str(), &needles);
    proof {
        let ns = name_needles(crate::text::opt_str_view(name_filter));
        assert(ns.len() == needles@.len());
        assert forall|i: int| 0 <= i < ns.len() implies ns[i] == (#[trigger] needles@[i])@ by {}
        if r {
            let i = choose|i: int| 0 <= i < needles@.len() && contains_seq(lower@, #[trigger] needles@[i]@);
            assert(ns[i] == needles@[i]@);
            assert(contains_seq(unicode_lowercase(name@), ns[i]));
        } else {
            assert forall|i: int| 0 <= i < ns.len() implies !contains_seq(unicode_lowercase(name@), #[trigger] ns[i]) by {
                assert(ns[i] == needles@[i]@);
                assert(!contains_seq(lower@, needles@[i]@));
            }
        }
    }
    r
}

} // verus!
