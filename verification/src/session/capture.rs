//! Naming of raw capture files.

use vstd::prelude::*;
use crate::text::{ascii_lower, contains_seq, contains_str, str_chars, string_from_chars};

verus! {

broadcast use vstd::string::group_string_axioms;

/// Whether a character is kept in a capture name: ASCII letters and digits,
/// `-` and `_`.
pub open spec fn name_char_kept(c: char) -> bool {
    ('a' <= c && c <= 'z') || ('A' <= c && c <= 'Z') || ('0' <= c && c <= '9') || c == '-' || c == '_'
}

/// A character of a capture name: kept, or replaced by `_`.
pub open spec fn name_char(c: char) -> char {
    if name_char_kept(c) { c } else { '_' }
}

/// `s` without leading `_`.
pub open spec fn strip_leading_underscores(s: Seq<char>) -> Seq<char>
    decreases s.len(),
{
    if s.len() > 0 && s[0] == '_' { strip_leading_underscores(s.drop_first()) } else { s }
}

/// `s` without trailing `_`.
pub open spec fn strip_trailing_underscores(s: Seq<char>) -> Seq<char>
    decreases s.len(),
{
    if s.len() > 0 && s.last() == '_' { strip_trailing_underscores(s.drop_last()) } else { s }
}

/// A value made safe for a file name: other characters become `_`, outer
/// `_` are trimmed, and nothing left gives `unknown`.
pub open spec fn sanitized_name(value: Seq<char>) -> Seq<char> {
    let t = strip_trailing_underscores(strip_leading_underscores(value.map_values(|c: char| name_char(c))));
    if t.len() == 0 { "unknown"@ } else { t }
}

/// Make a value safe for a capture file name.
pub fn sanitize_capture_name(value: &str) -> (s: String)
    ensures
        s@ == sanitized_name(value@),
{
    let cs = str_chars(value);
    let mut mapped: Vec<char> = Vec::new();
    let mut i: usize = 0;
    while i < cs.len()
        invariant
            i <= cs.len(),
            cs@ == value@,
            mapped@ == value@.take(i as int).map_values(|c: char| name_char(c)),
        decreases cs.len() - i,
    {
        let c = cs[i];
        let kept = (c >= 'a' && c <= 'z') || (c >= 'A' && c <= 'Z') || (c >= '0' && c <= '9') || c == '-' || c == '_';
        mapped.push(if kept { c } else { '_' });
        proof {
            assert(value@.take(i + 1).map_values(|c: char| name_char(c))
                =~= value@.take(i as int).map_values(|c: char| name_char(c)).push(name_char(c)));
        }
        i = i + 1;
    }
    proof {
        assert(value@.take(cs.len() as int) =~= value@);
    }
    let mut start: usize = 0;
    proof {
        assert(mapped@.skip(0) =~= mapped@);
    }
    while start < mapped.len() && mapped[start] == '_'
        invariant
            start <= mapped.len(),
            strip_leading_underscores(mapped@) == strip_leading_underscores(mapped@.skip(start as int)),
        decreases mapped.len() - start,
    {
        proof {
            assert(mapped@.skip(start as int).drop_first() =~= mapped@.skip(start + 1));
        }
        start = start + 1;
    }
    let mut end: usize = mapped.len();
    let ghost lead = mapped@.skip(start as int);
    proof {
        assert(mapped@.subrange(start as int, end as int) =~= lead);
    }
    while end > start && mapped[end - 1] == '_'
        invariant
            start <= end <= mapped.len(),
            lead == mapped@.skip(start as int),
            strip_trailing_underscores(lead) == strip_trailing_underscores(mapped@.subrange(start as int, end as int)),
        decreases end,
    {
        proof {
            assert(mapped@.subrange(start as int, end as int).drop_last() =~= mapped@.subrange(start as int, end - 1));
        }
        end = end - 1;
    }
    if end == start {
        proof {
            assert(strip_trailing_underscores(mapped@.subrange(start as int, end as int)).len() == 0);
        }
        return String::from_str("unknown");
    }
    let t = crate::text::chars_range(&mapped, start, end);
    proof {
        assert(strip_trailing_underscores(t@) == t@);
        assert(strip_leading_underscores(mapped@) == lead) by {
            if start < mapped.len() {
            }
        }
    }
    string_from_chars(&t)
}

/// The kind of transport a transport name suggests: `ble` for names with
/// `obdlink` or `ble`, `serial` for names with `tty`, `cu.` or `com` or the
/// name `mock`, `transport` otherwise (all ignoring ASCII case).
pub open spec fn transport_kind(name: Seq<char>) -> Seq<char> {
    let lower = name.map_values(|c: char| ascii_lower(c));
    if contains_seq(lower, "obdlink"@) || contains_seq(lower, "ble"@) {
        "ble"@
    } else if contains_seq(lower, "tty"@) || contains_seq(lower, "cu."@) || contains_seq(lower, "com"@)
        || lower == "mock"@ {
        "serial"@
    } else {
        "transport"@
    }
}

/// The transport type recorded for a transport name.
pub fn capture_transport_type(name: &str) -> (s: String)
    ensures
        s@ == transport_kind(name@),
{
    let cs = str_chars(name);
    let mut lower: Vec<char> = Vec::new();
    let mut i: usize = 0;
    while i < cs.len()
        invariant
            i <= cs.len(),
            cs@ == name@,
            lower@ == name@.take(i as int).map_values(|c: char| ascii_lower(c)),
        decreases cs.len() - i,
    {
        lower.push(crate::text::char_ascii_lower(cs[i]));
        proof {
            assert(name@.take(i + 1).map_values(|c: char| ascii_lower(c))
                =~= name@.take(i as int).map_values(|c: char| ascii_lower(c)).push(ascii_lower(cs@[i as int])));
        }
        i = i + 1;
    }
    proof {
        assert(name@.take(cs.len() as int) =~= name@);
    }
    let mock = str_chars("mock");
    if contains_str(&lower, "obdlink") || contains_str(&lower, "ble") {
        String::from_str("ble")
    } else if contains_str(&lower, "tty") || contains_str(&lower, "cu.") || contains_str(&lower, "com")
        || crate::text::chars_eq(&lower, &mock) {
        String::from_str("serial")
    } else {
        String::from_str("transport")
    }
}

/// The name of a capture file: the sanitized VIN (or `unknown` before it is
/// known), the sanitized transport name and the start time.
pub open spec fn capture_file_name_text(vin: Option<Seq<char>>, transport: Seq<char>, timestamp: Seq<char>) -> Seq<char> {
    let prefix = match vin {
        Some(v) => sanitized_name(v),
        None => "unknown"@,
    };
    prefix + "-"@ + sanitized_name(transport) + "-"@ + timestamp + ".obd2raw"@
}

/// The name of a capture file started at `timestamp`.
pub fn capture_file_name(vin: Option<&str>, transport_name: &str, timestamp: &str) -> (s: String)
    ensures
        s@ == capture_file_name_text(crate::text::opt_str_view(vin), transport_name@, timestamp@),
{
    let mut s = match vin {
        Some(v) => sanitize_capture_name(v),
        None => String::from_str("unknown"),
    };
    s.append("-");
    let t = sanitize_capture_name(transport_name);
    s.append(t.as_str());
    s.append("-");
    s.append(timestamp);
    s.append(".obd2raw");
    proof {
        assert(s@ =~= capture_file_name_text(crate::text::opt_str_view(vin), transport_name@, timestamp@));
    }
    s
}

/// The current UTC time as `YYYYMMDDTHHMMSS`
/// (`chrono::Utc::now().format("%Y%m%dT%H%M%S")`). It depends on the clock,
/// so nothing is claimed of it.
#[verifier::external_body]
fn capture_timestamp() -> String {
    chrono::Utc::now().format("%Y%m%dT%H%M%S").to_string()
}

/// The name of a capture file started now.
pub fn capture_file_name_now(vin: Option<&str>, transport_name: &str) -> (s: String)
    ensures
        exists|t: Seq<char>| s@ == capture_file_name_text(crate::text::opt_str_view(vin), transport_name@, t),
{
    let ts = capture_timestamp();
    capture_file_name(vin, transport_name, ts.as_str())
}

} // verus!
