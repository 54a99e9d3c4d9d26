//! Chipset detection and capability probing.
//!
//! A genuine ELM327 reports a firmware version of 2.0 or above. The version
//! text is read as a 32-bit float would read it: the digits and dots after the
//! first `v` (or `V`), which must form one decimal number (else the version
//! counts as 0), rounded to the nearest `f32`. The rounded value is at least
//! 2.0 exactly when the decimal value is at least 2 - 2^-24 (the midpoint
//! between 2.0 and the float below it, which rounds to the even 2.0).

use vstd::prelude::*;
use super::{AdapterInfo, Capabilities, Chipset};
use crate::vehicle::Protocol;
use crate::text::{
    chars_contain, char_digit_value, char_is_digit, occurs_at, chars_range, contains_seq, contains_str, digit_value, find_chars,
    first_occurrence, is_digit, str_chars, string_from_chars, trim, trim_chars,
};

verus! {

/// The capabilities of each chipset.
pub open spec fn capabilities_of(c: Chipset) -> Capabilities {
    match c {
        Chipset::Stn => Capabilities {
            can_clear_dtcs: true,
            dual_can: true,
            enhanced_diag: true,
            battery_voltage: true,
            adaptive_timing: true,
            kline_init: true,
            kline_wakeup: true,
            can_filtering: true,
            can_flow_control: true,
            can_extended_addressing: true,
            can_silent_mode: true,
        },
        Chipset::Elm327Genuine => Capabilities {
            can_clear_dtcs: true,
            dual_can: false,
            enhanced_diag: true,
            battery_voltage: true,
            adaptive_timing: true,
            kline_init: true,
            kline_wakeup: true,
            can_filtering: true,
            can_flow_control: true,
            can_extended_addressing: true,
            can_silent_mode: true,
        },
        Chipset::Elm327Clone => Capabilities {
            can_clear_dtcs: false,
            dual_can: false,
            enhanced_diag: false,
            battery_voltage: true,
            adaptive_timing: false,
            kline_init: false,
            kline_wakeup: false,
            can_filtering: false,
            can_flow_control: false,
            can_extended_addressing: false,
            can_silent_mode: false,
        },
        Chipset::Unknown => Capabilities {
            can_clear_dtcs: false,
            dual_can: false,
            enhanced_diag: false,
            battery_voltage: false,
            adaptive_timing: false,
            kline_init: false,
            kline_wakeup: false,
            can_filtering: false,
            can_flow_control: false,
            can_extended_addressing: false,
            can_silent_mode: false,
        },
    }
}

/// 10^k.
pub open spec fn pow10(k: nat) -> nat
    decreases k,
{
    if k == 0 { 1 } else { 10 * pow10((k - 1) as nat) }
}

/// Value of a sequence of decimal digits, most significant first.
pub open spec fn digits_value(d: Seq<char>) -> nat
    decreases d.len(),
{
    if d.len() == 0 {
        0
    } else {
        (10 * digits_value(d.drop_last()) + digit_value(d.last())) as nat
    }
}

/// Number of leading characters that are decimal digits or dots.
pub open spec fn version_len(s: Seq<char>) -> nat
    decreases s.len(),
{
    if s.len() == 0 || !(is_digit(s[0]) || s[0] == '.') {
        0
    } else {
        1 + version_len(s.drop_first())
    }
}

/// Index of the first dot, or the length when there is none.
pub open spec fn dot_index(v: Seq<char>) -> int {
    if contains_seq(v, seq!['.']) {
        choose|i: int| first_occurrence(v, seq!['.'], i)
    } else {
        v.len() as int
    }
}

/// The digits before the first dot.
pub open spec fn int_digits(v: Seq<char>) -> Seq<char> {
    v.subrange(0, dot_index(v))
}

/// The text after the first dot (empty without a dot).
pub open spec fn frac_digits(v: Seq<char>) -> Seq<char> {
    if dot_index(v) < v.len() { v.subrange(dot_index(v) + 1, v.len() as int) } else { Seq::empty() }
}

/// Whether a text of digits and dots is one decimal number: no second dot
/// and at least one digit.
pub open spec fn version_parses(v: Seq<char>) -> bool {
    !frac_digits(v).contains('.') && int_digits(v).len() + frac_digits(v).len() > 0
}

/// Whether the version text, read as an `f32`, is at least 2.0: the number
/// `I.F` (with `k` fraction digits) satisfies `(I * 10^k + F) * 2^24 >=
/// (2^25 - 1) * 10^k`, i.e. `I.F >= 2 - 2^-24`. Text that is not a number
/// reads as 0.
pub open spec fn version_at_least_two(v: Seq<char>) -> bool {
    let k = frac_digits(v).len();
    version_parses(v) && (digits_value(int_digits(v)) * pow10(k) + digits_value(frac_digits(v)))
        * 16777216 >= 33554431 * pow10(k)
}

/// Position of the version marker: the first `v`, else the first `V`.
pub open spec fn version_marker(fw: Seq<char>) -> Option<int> {
    if contains_seq(fw, seq!['v']) {
        Some(choose|i: int| first_occurrence(fw, seq!['v'], i))
    } else if contains_seq(fw, seq!['V']) {
        Some(choose|i: int| first_occurrence(fw, seq!['V'], i))
    } else {
        None
    }
}

/// Chipset and firmware text read from an ELM327 reset (ATZ) response.
pub open spec fn elm_detection(response: Seq<char>) -> (Chipset, Seq<char>) {
    let t = trim(response);
    if contains_seq(t, "ELM327"@) {
        let i = choose|i: int| first_occurrence(t, "ELM327"@, i);
        let fw = trim(t.subrange(i, t.len() as int));
        match version_marker(fw) {
            Some(p) => {
                let rest = fw.subrange(p + 1, fw.len() as int);
                let v = rest.subrange(0, version_len(rest) as int);
                (if version_at_least_two(v) { Chipset::Elm327Genuine } else { Chipset::Elm327Clone }, fw)
            },
            None => (Chipset::Elm327Clone, fw),
        }
    } else {
        (Chipset::Unknown, t)
    }
}

/// Chipset and firmware text read from the reset and STI responses: an STI
/// answer naming `STN` marks an STN chip whose firmware is that answer.
pub open spec fn detection(atz: Seq<char>, sti: Option<Seq<char>>) -> (Chipset, Seq<char>) {
    match sti {
        Some(s) => if contains_seq(s, "STN"@) { (Chipset::Stn, trim(s)) } else { elm_detection(atz) },
        None => elm_detection(atz),
    }
}

fn capabilities_for(c: Chipset) -> (r: Capabilities)
    ensures
        r == capabilities_of(c),
{
    match c {
        Chipset::Stn => Capabilities {
            can_clear_dtcs: true,
            dual_can: true,
            enhanced_diag: true,
            battery_voltage: true,
            adaptive_timing: true,
            kline_init: true,
            kline_wakeup: true,
            can_filtering: true,
            can_flow_control: true,
            can_extended_addressing: true,
            can_silent_mode: true,
        },
        Chipset::Elm327Genuine => Capabilities {
            can_clear_dtcs: true,
            dual_can: false,
            enhanced_diag: true,
            battery_voltage: true,
            adaptive_timing: true,
            kline_init: true,
            kline_wakeup: true,
            can_filtering: true,
            can_flow_control: true,
            can_extended_addressing: true,
            can_silent_mode: true,
        },
        Chipset::Elm327Clone => Capabilities {
            can_clear_dtcs: false,
            dual_can: false,
            enhanced_diag: false,
            battery_voltage: true,
            adaptive_timing: false,
            kline_init: false,
            kline_wakeup: false,
            can_filtering: false,
            can_flow_control: false,
            can_extended_addressing: false,
            can_silent_mode: false,
        },
        Chipset::Unknown => Capabilities::default(),
    }
}

impl AdapterInfo {
    /// Detect adapter chipset and capabilities from initialization responses:
    /// the response to ATZ (reset) and, if probed, the response to STI.
    pub fn detect(atz_response: &str, sti_response: Option<&str>) -> (info: Self)
        ensures
            info.chipset == detection(atz_response@, crate::text::opt_str_view(sti_response)).0,
            info.firmware@ == detection(atz_response@, crate::text::opt_str_view(sti_response)).1,
            info.protocol == Protocol::Auto,
            info.capabilities == capabilities_of(info.chipset),
    {
        let (chipset, firmware) = match sti_response {
            Some(sti) => {
                let s = str_chars(sti);
                if contains_str(&s, "STN") {
                    let t = trim_chars(&s);
                    (Chipset::Stn, string_from_chars(&t))
                } else {
                    detect_elm_version(atz_response)
                }
            },
            None => detect_elm_version(atz_response),
        };
        let capabilities = capabilities_for(chipset);
        AdapterInfo { chipset, firmware, protocol: Protocol::Auto, capabilities }
    }
}

fn detect_elm_version(response: &str) -> (r: (Chipset, String))
    ensures
        r.0 == elm_detection(response@).0,
        r.1@ == elm_detection(response@).1,
{
    let all = str_chars(response);
    let t = trim_chars(&all);
    let marker = str_chars("ELM327");
    match find_chars(&t, &marker) {
        Some(start) => {
            let tail = chars_range(&t, start, t.len());
            let fw = trim_chars(&tail);
            let lower_v: Vec<char> = vec!['v'];
            let upper_v: Vec<char> = vec!['V'];
            let pos = match find_chars(&fw, &lower_v) {
                Some(p) => Some(p),
                None => find_chars(&fw, &upper_v),
            };
            proof {
                assert(lower_v@ =~= seq!['v']);
                assert(upper_v@ =~= seq!['V']);
                assert(first_occurrence(t@, "ELM327"@, start as int));
                if let Some(p) = pos {
                    assert(p + 1 <= fw@.len());
                    if contains_seq(fw@, seq!['v']) {
                        let q = choose|i: int| first_occurrence(fw@, seq!['v'], i);
                        lemma_first_occurrence_unique(fw@, seq!['v'], q, p as int);
                    } else {
                        let q = choose|i: int| first_occurrence(fw@, seq!['V'], i);
                        lemma_first_occurrence_unique(fw@, seq!['V'], q, p as int);
                    }
                }
                let q = choose|i: int| first_occurrence(t@, "ELM327"@, i);
                lemma_first_occurrence_unique(t@, "ELM327"@, q, start as int);
            }
            let chipset = match pos {
                Some(p) => {
                    proof {
                        assert(p + 1 <= fw@.len());
                        assert(p < fw.len());
                    }
                    let rest = chars_range(&fw, p + 1, fw.len());
                    let n = version_prefix_len(&rest);
                    let v = chars_range(&rest, 0, n);
                    if version_is_at_least_two(&v) {
                        Chipset::Elm327Genuine
                    } else {
                        Chipset::Elm327Clone
                    }
                },
                None => Chipset::Elm327Clone,
            };
            (chipset, string_from_chars(&fw))
        },
        None => (Chipset::Unknown, string_from_chars(&t)),
    }
}

proof fn lemma_first_occurrence_unique(s: Seq<char>, p: Seq<char>, i: int, j: int)
    requires
        first_occurrence(s, p, i),
        first_occurrence(s, p, j),
    ensures
        i == j,
{
}

fn version_prefix_len(s: &Vec<char>) -> (n: usize)
    ensures
        n == version_len(s@),
        n <= s.len(),
        forall|j: int| 0 <= j < n ==> is_digit(#[trigger] s@[j]) || s@[j] == '.',
{
    let mut i: usize = 0;
    proof {
        assert(s@.subrange(0, s@.len() as int) =~= s@);
    }
    while i < s.len() && (char_is_digit(s[i]) || s[i] == '.')
        invariant
            i <= s.len(),
            version_len(s@) == i + version_len(s@.subrange(i as int, s@.len() as int)),
            forall|j: int| 0 <= j < i ==> is_digit(#[trigger] s@[j]) || s@[j] == '.',
        decreases s.len() - i,
    {
        proof {
            assert(s@.subrange(i as int, s@.len() as int).drop_first() =~= s@.subrange(i + 1, s@.len() as int));
        }
        i = i + 1;
    }
    proof {
        assert(s@.subrange(0, s@.len() as int) =~= s@);
    }
    i
}

/// Whether every character of `d` is a decimal digit.
pub open spec fn all_digits(d: Seq<char>) -> bool {
    forall|i: int| 0 <= i < d.len() ==> is_digit(#[trigger] d[i])
}

proof fn lemma_pow10_pos(k: nat)
    ensures
        pow10(k) >= 1,
    decreases k,
{
    if k > 0 {
        lemma_pow10_pos((k - 1) as nat);
    }
}

proof fn lemma_pow10_24()
    ensures
        pow10(24) == 1000000000000000000000000,
{
    reveal_with_fuel(pow10, 25);
}

proof fn lemma_pow10_add(a: nat, b: nat)
    ensures
        pow10(a + b) == pow10(a) * pow10(b),
    decreases b,
{
    if b == 0 {
        assert(pow10(0) == 1);
        assert(a + b == a);
    } else {
        lemma_pow10_add(a, (b - 1) as nat);
        assert(pow10(a + b) == 10 * pow10((a + b - 1) as nat));
        assert(pow10(b) == 10 * pow10((b - 1) as nat));
        assert((a + b - 1) as nat == a + (b - 1) as nat);
        assert(10 * (pow10(a) * pow10((b - 1) as nat)) == pow10(a) * (10 * pow10((b - 1) as nat)))
            by (nonlinear_arith);
    }
}

proof fn lemma_pow10_mono(a: nat, b: nat)
    requires
        a <= b,
    ensures
        pow10(a) <= pow10(b),
    decreases b,
{
    if a < b {
        lemma_pow10_mono(a, (b - 1) as nat);
        lemma_pow10_pos((b - 1) as nat);
    }
}

proof fn lemma_digits_value_bound(d: Seq<char>)
    requires
        all_digits(d),
    ensures
        digits_value(d) < pow10(d.len()),
    decreases d.len(),
{
    if d.len() > 0 {
        let e = d.drop_last();
        assert(all_digits(e)) by {
            assert forall|i: int| 0 <= i < e.len() implies is_digit(#[trigger] e[i]) by {
                assert(e[i] == d[i]);
            }
        }
        lemma_digits_value_bound(e);
        assert(is_digit(d[d.len() - 1]));
    }
}

proof fn lemma_digits_value_concat(a: Seq<char>, b: Seq<char>)
    requires
        all_digits(b),
    ensures
        digits_value(a + b) == digits_value(a) * pow10(b.len()) + digits_value(b),
    decreases b.len(),
{
    if b.len() == 0 {
        assert(a + b =~= a);
        assert(pow10(0) == 1);
        assert(digits_value(b) == 0);
    } else {
        let b1 = b.drop_last();
        assert(all_digits(b1)) by {
            assert forall|i: int| 0 <= i < b1.len() implies is_digit(#[trigger] b1[i]) by {
                assert(b1[i] == b[i]);
            }
        }
        lemma_digits_value_concat(a, b1);
        assert((a + b).drop_last() =~= a + b1);
        assert((a + b).last() == b.last());
        assert(is_digit(b[b.len() - 1]));
        let x = digits_value(a);
        let p = pow10(b1.len());
        assert(pow10(b.len()) == 10 * p);
        assert(digit_value(b.last()) >= 0);
        assert(digits_value(a + b) == 10 * digits_value(a + b1) + digit_value(b.last()));
        assert(digits_value(b) == 10 * digits_value(b1) + digit_value(b.last()));
        assert(10 * (x * p) == x * (10 * p)) by (nonlinear_arith);
    }
}

/// `digits_value` capped at 2.
fn capped_digits_value(d: &Vec<char>) -> (r: u8)
    requires
        all_digits(d@),
    ensures
        r == (if digits_value(d@) >= 2 { 2 } else { digits_value(d@) }),
{
    let mut r: u8 = 0;
    let mut i: usize = 0;
    while i < d.len()
        invariant
            i <= d.len(),
            all_digits(d@),
            r == (if digits_value(d@.take(i as int)) >= 2 { 2 } else { digits_value(d@.take(i as int)) }),
        decreases d.len() - i,
    {
        let dv = char_digit_value(d[i]);
        proof {
            assert(d@.take(i + 1).drop_last() =~= d@.take(i as int));
            assert(d@.take(i + 1).last() == d@[i as int]);
        }
        if r >= 2 {
            r = 2;
        } else {
            let n: u8 = 10 * r + dv;
            r = if n >= 2 { 2 } else { n };
        }
        i = i + 1;
    }
    proof {
        assert(d@.take(d.len() as int) =~= d@);
    }
    r
}

/// The first 24 fraction digits as an integer, padding with zeros.
pub open spec fn fraction_24(f: Seq<char>) -> nat {
    if f.len() <= 24 {
        digits_value(f) * pow10((24 - f.len()) as nat)
    } else {
        digits_value(f.take(24))
    }
}

fn scaled_fraction(f: &Vec<char>) -> (g: u128)
    requires
        all_digits(f@),
    ensures
        g == fraction_24(f@),
{
    let mut g: u128 = 0;
    let mut j: usize = 0;
    proof {
        lemma_pow10_24();
        if f.len() == 0 {
            assert(digits_value(f@) == 0);
            assert(pow10(0) == 1);
        }
    }
    while j < 24
        invariant
            j <= 24,
            all_digits(f@),
            pow10(24) == 1000000000000000000000000,
            g < pow10(j as nat),
            j <= f.len() ==> g == digits_value(f@.take(j as int)),
            j >= f.len() ==> g == digits_value(f@) * pow10((j - f.len()) as nat),
        decreases 24 - j,
    {
        proof {
            lemma_pow10_mono((j + 1) as nat, 24);
        }
        if j < f.len() {
            let dv = char_digit_value(f[j]);
            proof {
                assert(f@.take(j + 1).drop_last() =~= f@.take(j as int));
                assert(f@.take(j + 1).last() == f@[j as int]);
                if j + 1 == f.len() {
                    assert(f@.take(j + 1) =~= f@);
                    assert(pow10(0) == 1);
                    assert(((j + 1 - f.len()) as nat) == 0);
                    let x = digits_value(f@);
                    let one = pow10(0);
                    assert(x * one == x) by (nonlinear_arith)
                        requires
                            one == 1,
                    ;
                }
            }
            g = 10 * g + dv as u128;
        } else {
            proof {
                let x = digits_value(f@);
                let m = (j - f.len()) as nat;
                let p = pow10(m);
                assert(pow10(m + 1) == 10 * p);
                assert(((j + 1 - f.len()) as nat) == m + 1);
                assert(10 * (x * p) == x * (10 * p)) by (nonlinear_arith);
            }
            g = 10 * g;
        }
        j = j + 1;
    }
    g
}

/// Whether a decimal number with integer part 1 and fraction digits `f` is
/// at least 2 - 2^-24, stated through its first 24 fraction digits.
proof fn lemma_fraction_threshold(f: Seq<char>)
    requires
        all_digits(f),
    ensures
        (digits_value(f) * 16777216 >= 16777215 * pow10(f.len()))
            == (fraction_24(f) >= 999999940395355224609375),
{
    let k = f.len();
    let ff = digits_value(f);
    let t: int = 999999940395355224609375;
    lemma_pow10_24();
    if k <= 24 {
        let q = pow10((24 - k) as nat);
        lemma_pow10_add(k, (24 - k) as nat);
        lemma_pow10_pos((24 - k) as nat);
        let p = pow10(k);
        assert(p * q == 1000000000000000000000000);
        assert((ff * 16777216 >= 16777215 * p) == ((ff * q) * 16777216 >= 16777215 * (p * q)))
            by (nonlinear_arith)
            requires
                q >= 1,
        ;
        assert(((ff * q) * 16777216 >= 16777215 * 1000000000000000000000000) == (ff * q >= t))
            by (nonlinear_arith)
            requires
                t == 999999940395355224609375,
        ;
    } else {
        let a = f.take(24);
        let b = f.skip(24);
        assert(f =~= a + b);
        assert(all_digits(b)) by {
            assert forall|i: int| 0 <= i < b.len() implies is_digit(#[trigger] b[i]) by {
                assert(b[i] == f[i + 24]);
            }
        }
        lemma_digits_value_concat(a, b);
        lemma_digits_value_bound(b);
        lemma_pow10_add(24, (k - 24) as nat);
        let q = pow10((k - 24) as nat);
        let g = digits_value(a);
        let r = digits_value(b);
        assert(ff == g * q + r);
        assert(pow10(k) == 1000000000000000000000000 * q);
        assert((g * q + r) * 16777216 >= 16777215 * (1000000000000000000000000 * q) <==> g >= t)
            by (nonlinear_arith)
            requires
                0 <= r < q,
                g >= 0,
                t == 999999940395355224609375,
        {
            if g >= t {
                assert(g * q >= t * q);
            } else {
                assert(g * q <= (t - 1) * q);
            }
        }
    }
}

fn version_is_at_least_two(v: &Vec<char>) -> (r: bool)
    requires
        forall|i: int| 0 <= i < v.len() ==> is_digit(#[trigger] v@[i]) || v@[i] == '.',
    ensures
        r == version_at_least_two(v@),
{
    let dot: Vec<char> = vec!['.'];
    proof {
        assert(dot@ =~= seq!['.']);
        assert(dot@.len() == 1);
    }
    let pos = find_chars(v, &dot);
    let (int_part, frac_part) = match pos {
        Some(d) => {
            proof {
                assert(d + 1 <= v@.len());
                assert(d < v.len());
                let q = choose|i: int| first_occurrence(v@, seq!['.'], i);
                lemma_first_occurrence_unique(v@, seq!['.'], q, d as int);
            }
            (chars_range(v, 0, d), chars_range(v, d + 1, v.len()))
        },
        None => (chars_range(v, 0, v.len()), Vec::new()),
    };
    proof {
        assert(int_part@ == int_digits(v@));
        assert(frac_part@ =~= frac_digits(v@));
        assert forall|i: int| 0 <= i < int_part.len() implies is_digit(#[trigger] int_part@[i]) by {
            assert(int_part@[i] == v@[i]);
            if v@[i] == '.' {
                assert(occurs_at(v@, seq!['.'], i)) by {
                    assert(v@.subrange(i, i + 1) =~= seq!['.']);
                }
            }
        }
    }
    if chars_contain(&frac_part, '.') {
        return false;
    }
    if int_part.len() == 0 && frac_part.len() == 0 {
        return false;
    }
    proof {
        assert forall|i: int| 0 <= i < frac_part.len() implies is_digit(#[trigger] frac_part@[i]) by {
            assert(frac_part@[i] == v@[dot_index(v@) + 1 + i]);
            assert(frac_part@[i] != '.');
        }
    }
    let whole = capped_digits_value(&int_part);
    let ghost ii = digits_value(int_part@);
    let ghost ff = digits_value(frac_part@);
    let ghost p = pow10(frac_part@.len());
    proof {
        lemma_pow10_pos(frac_part@.len());
        lemma_digits_value_bound(frac_part@);
    }
    if whole >= 2 {
        proof {
            assert((ii * p + ff) * 16777216 >= 33554431 * p) by (nonlinear_arith)
                requires
                    ii >= 2,
                    p >= 1,
                    ff >= 0,
            {
                assert(ii * p >= 2 * p);
            }
        }
        true
    } else if whole == 0 {
        proof {
            assert(!((ii * p + ff) * 16777216 >= 33554431 * p)) by (nonlinear_arith)
                requires
                    ii == 0,
                    p >= 1,
                    0 <= ff < p,
            ;
        }
        false
    } else {
        let g = scaled_fraction(&frac_part);
        proof {
            lemma_fraction_threshold(frac_part@);
            assert(((ii * p + ff) * 16777216 >= 33554431 * p) == (ff * 16777216 >= 16777215 * p))
                by (nonlinear_arith)
                requires
                    ii == 1,
            ;
        }
        g >= 999999940395355224609375
    }
}

/// Whether every capability of `a` is one of `b`.
pub open spec fn capabilities_within(a: Capabilities, b: Capabilities) -> bool {
            &&& a.can_clear_dtcs ==> b.can_clear_dtcs
            &&& a.dual_can ==> b.dual_can
            &&& a.enhanced_diag ==> b.enhanced_diag
            &&& a.battery_voltage ==> b.battery_voltage
            &&& a.adaptive_timing ==> b.adaptive_timing
            &&& a.kline_init ==> b.kline_init
            &&& a.kline_wakeup ==> b.kline_wakeup
            &&& a.can_filtering ==> b.can_filtering
            &&& a.can_flow_control ==> b.can_flow_control
            &&& a.can_extended_addressing ==> b.can_extended_addressing
            &&& a.can_silent_mode ==> b.can_silent_mode
}

/// The capabilities each detected chipset gets: an STN chip has them all, a
/// genuine ELM327 all but dual CAN, a clone only battery-voltage reading, an
/// unknown adapter none. Every ELM327 or STN chip can read the battery
/// voltage, and the capabilities grow from clone to genuine to STN.
pub proof fn lemma_capability_table(c: Chipset)
    ensures
        c == Chipset::Stn ==> capabilities_of(c) == (Capabilities {
            can_clear_dtcs: true,
            dual_can: true,
            enhanced_diag: true,
            battery_voltage: true,
            adaptive_timing: true,
            kline_init: true,
            kline_wakeup: true,
            can_filtering: true,
            can_flow_control: true,
            can_extended_addressing: true,
            can_silent_mode: true,
        }),
        c == Chipset::Elm327Genuine ==> capabilities_of(c) == (Capabilities {
            can_clear_dtcs: true,
            dual_can: false,
            enhanced_diag: true,
            battery_voltage: true,
            adaptive_timing: true,
            kline_init: true,
            kline_wakeup: true,
            can_filtering: true,
            can_flow_control: true,
            can_extended_addressing: true,
            can_silent_mode: true,
        }),
        c == Chipset::Elm327Clone ==> capabilities_of(c) == (Capabilities {
            can_clear_dtcs: false,
            dual_can: false,
            enhanced_diag: false,
            battery_voltage: true,
            adaptive_timing: false,
            kline_init: false,
            kline_wakeup: false,
            can_filtering: false,
            can_flow_control: false,
            can_extended_addressing: false,
            can_silent_mode: false,
        }),
        c == Chipset::Unknown ==> capabilities_of(c) == (Capabilities {
            can_clear_dtcs: false,
            dual_can: false,
            enhanced_diag: false,
            battery_voltage: false,
            adaptive_timing: false,
            kline_init: false,
            kline_wakeup: false,
            can_filtering: false,
            can_flow_control: false,
            can_extended_addressing: false,
            can_silent_mode: false,
        }),
        c != Chipset::Unknown <==> capabilities_of(c).battery_voltage,
        capabilities_within(capabilities_of(Chipset::Unknown), capabilities_of(c)),
        capabilities_within(capabilities_of(Chipset::Elm327Clone), capabilities_of(Chipset::Elm327Genuine)),
        capabilities_within(capabilities_of(Chipset::Elm327Genuine), capabilities_of(Chipset::Stn)),
{
}

} // verus!
