//! Parity comparison of two hardware test reports: the identity, outcome
//! and protocol of each run, the VIN read, each test group's status and the
//! supported PID codes. Measured values are compared by the caller.

use vstd::prelude::*;
use super::report::TestStatus;
use crate::session::diagnostics::{
    chars_lex_le, lemma_lex_antisym, lemma_lex_refl, lemma_lex_total, lemma_lex_trans, lex_le,
};
use crate::text::{chars_eq, opt_string_view, str_chars, str_eq};

verus! {

broadcast use vstd::string::group_string_axioms;

/// How much a difference between two reports matters.
#[derive(Debug, Clone, Copy, PartialEq, Eq, Structural)]
pub enum Severity {
    Critical,
    Warning,
    Info,
}

/// One difference between two reports.
#[derive(Debug, Clone)]
pub struct Difference {
    pub severity: Severity,
    pub field: String,
    pub report_a: String,
    pub report_b: String,
}

/// Parity holds when no difference is critical.
pub fn parity_ok(diffs: &[Difference]) -> (r: bool)
    ensures
        r == forall|i: int| 0 <= i < diffs@.len() ==> (#[trigger] diffs@[i]).severity != Severity::Critical,
{
    let mut i: usize = 0;
    while i < diffs.len()
        invariant
            i <= diffs.len(),
            forall|j: int| 0 <= j < i ==> (#[trigger] diffs@[j]).severity != Severity::Critical,
        decreases diffs.len() - i,
    {
        if diffs[i].severity == Severity::Critical {
            return false;
        }
        i = i + 1;
    }
    true
}

/// What a comparison reads of a report besides its measured values.
#[derive(Debug, Clone)]
pub struct ReportFacts {
    pub vehicle_id: String,
    pub fatal_error: Option<String>,
    pub protocol_detected: Option<String>,
    /// The `vin` detail of the `vin` group, when it is a string.
    pub vin: Option<String>,
    /// Each test group's name and status, in increasing name order.
    pub tests: Vec<(String, TestStatus)>,
    /// The string entries of the `supported_codes` detail of the
    /// `supported` group, when that detail is an array.
    pub supported_codes: Option<Vec<String>>,
}

/// Whether test group names are strictly increasing (as the keys of an
/// ordered map are).
pub open spec fn names_ascending(t: Seq<(String, TestStatus)>) -> bool {
    forall|i: int, j: int| 0 <= i < j < t.len()
        ==> lex_le((#[trigger] t[i]).0@, (#[trigger] t[j]).0@) && t[i].0@ != t[j].0@
}

/// A difference, as text.
pub struct DiffText {
    pub severity: Severity,
    pub field: Seq<char>,
    pub a: Seq<char>,
    pub b: Seq<char>,
}

/// Whether the differences are the given ones.
pub open spec fn diffs_are(out: Seq<Difference>, d: Seq<DiffText>) -> bool {
    &&& out.len() == d.len()
    &&& forall|i: int| 0 <= i < out.len() ==> {
        &&& (#[trigger] out[i]).severity == d[i].severity
        &&& out[i].field@ == d[i].field
        &&& out[i].report_a@ == d[i].a
        &&& out[i].report_b@ == d[i].b
    }
}

/// The `{:?}` text of a status.
pub open spec fn status_name(s: TestStatus) -> Seq<char> {
    match s {
        TestStatus::Pass => "Pass"@,
        TestStatus::Fail => "Fail"@,
        TestStatus::Skipped => "Skipped"@,
    }
}

/// An optional text, empty when absent.
pub open spec fn or_empty(s: Option<Seq<char>>) -> Seq<char> {
    match s {
        Some(t) => t,
        None => Seq::empty(),
    }
}

/// A critical difference when two optional texts differ.
pub open spec fn option_diff(field: Seq<char>, a: Option<Seq<char>>, b: Option<Seq<char>>) -> Seq<DiffText> {
    if a != b {
        seq![DiffText { severity: Severity::Critical, field, a: or_empty(a), b: or_empty(b) }]
    } else {
        Seq::empty()
    }
}

/// The differences of run identity, outcome, protocol and VIN.
pub open spec fn meta_diffs(a: ReportFacts, b: ReportFacts) -> Seq<DiffText> {
    option_diff("meta.vehicle_id"@, Some(a.vehicle_id@), Some(b.vehicle_id@))
        + option_diff("fatal_error"@, opt_string_view(a.fatal_error), opt_string_view(b.fatal_error))
        + option_diff("meta.protocol_detected"@, opt_string_view(a.protocol_detected), opt_string_view(b.protocol_detected))
        + match (a.vin, b.vin) {
            (Some(va), Some(vb)) => option_diff("tests.vin.vin"@, Some(va@), Some(vb@)),
            _ => Seq::empty(),
        }
}

/// The difference for a group present in only one report.
pub open spec fn presence_diff(name: Seq<char>, in_a: bool) -> DiffText {
    DiffText {
        severity: Severity::Critical,
        field: "tests."@ + name,
        a: if in_a { "present"@ } else { "missing"@ },
        b: if in_a { "missing"@ } else { "present"@ },
    }
}

/// The difference for a group present in both reports: the statuses differ
/// and neither run was skipped.
pub open spec fn status_diff(name: Seq<char>, sa: TestStatus, sb: TestStatus) -> Seq<DiffText> {
    if sa != sb && sa != TestStatus::Skipped && sb != TestStatus::Skipped {
        seq![DiffText { severity: Severity::Critical, field: "tests."@ + name + ".status"@, a: status_name(sa), b: status_name(sb) }]
    } else {
        Seq::empty()
    }
}

/// The group differences over the union of group names, in name order.
pub open spec fn group_diffs(ta: Seq<(String, TestStatus)>, tb: Seq<(String, TestStatus)>) -> Seq<DiffText>
    decreases ta.len() + tb.len(),
{
    if ta.len() == 0 && tb.len() == 0 {
        Seq::empty()
    } else if ta.len() == 0 {
        seq![presence_diff(tb[0].0@, false)] + group_diffs(ta, tb.drop_first())
    } else if tb.len() == 0 {
        seq![presence_diff(ta[0].0@, true)] + group_diffs(ta.drop_first(), tb)
    } else if ta[0].0@ == tb[0].0@ {
        status_diff(ta[0].0@, ta[0].1, tb[0].1) + group_diffs(ta.drop_first(), tb.drop_first())
    } else if lex_le(ta[0].0@, tb[0].0@) {
        seq![presence_diff(ta[0].0@, true)] + group_diffs(ta.drop_first(), tb)
    } else {
        seq![presence_diff(tb[0].0@, false)] + group_diffs(ta, tb.drop_first())
    }
}

/// Insert a text into a sorted list of distinct texts.
pub open spec fn insert_sorted(s: Seq<Seq<char>>, x: Seq<char>) -> Seq<Seq<char>>
    decreases s.len(),
{
    if s.len() == 0 {
        seq![x]
    } else if s.last() == x {
        s
    } else if lex_le(s.last(), x) {
        s.push(x)
    } else {
        insert_sorted(s.drop_last(), x).push(s.last())
    }
}

/// The distinct texts of a list, in increasing order (a sorted set).
pub open spec fn sorted_set(s: Seq<Seq<char>>) -> Seq<Seq<char>>
    decreases s.len(),
{
    if s.len() == 0 {
        Seq::empty()
    } else {
        insert_sorted(sorted_set(s.drop_last()), s.last())
    }
}

/// Texts joined with a separator.
pub open spec fn join(s: Seq<Seq<char>>, sep: Seq<char>) -> Seq<char>
    decreases s.len(),
{
    if s.len() == 0 {
        Seq::empty()
    } else if s.len() == 1 {
        s[0]
    } else {
        join(s.drop_last(), sep) + sep + s.last()
    }
}

/// The views of a list of strings.
pub open spec fn views(v: Seq<String>) -> Seq<Seq<char>> {
    v.map_values(|s: String| s@)
}

/// The difference of supported PID codes, compared as sets.
pub open spec fn supported_diff(a: Option<Vec<String>>, b: Option<Vec<String>>) -> Seq<DiffText> {
    match (a, b) {
        (Some(la), Some(lb)) => if sorted_set(views(la@)) != sorted_set(views(lb@)) {
            seq![DiffText {
                severity: Severity::Warning,
                field: "tests.supported.supported_codes"@,
                a: join(sorted_set(views(la@)), ","@),
                b: join(sorted_set(views(lb@)), ","@),
            }]
        } else {
            Seq::empty()
        },
        _ => Seq::empty(),
    }
}

/// All differences that do not involve measured values, in report order.
pub open spec fn fact_diffs(a: ReportFacts, b: ReportFacts) -> Seq<DiffText> {
    meta_diffs(a, b) + group_diffs(a.tests@, b.tests@) + supported_diff(a.supported_codes, b.supported_codes)
}

fn push_diff(out: &mut Vec<Difference>, severity: Severity, field: String, a: String, b: String, Ghost(d): Ghost<Seq<DiffText>>)
    requires
        diffs_are(old(out)@, d),
    ensures
        diffs_are(final(out)@, d.push(DiffText { severity, field: field@, a: a@, b: b@ })),
{
    out.push(Difference { severity, field, report_a: a, report_b: b });
    proof {
        let nd = d.push(DiffText { severity, field: field@, a: a@, b: b@ });
        assert forall|i: int| 0 <= i < final(out)@.len() implies {
            &&& (#[trigger] final(out)@[i]).severity == nd[i].severity
            &&& final(out)@[i].field@ == nd[i].field
            &&& final(out)@[i].report_a@ == nd[i].a
            &&& final(out)@[i].report_b@ == nd[i].b
        } by {
            if i < d.len() {
                assert(final(out)@[i] == old(out)@[i]);
            }
        }
    }
}

fn same_opt(a: &Option<String>, b: &Option<String>) -> (r: bool)
    ensures
        r == (opt_string_view(*a) == opt_string_view(*b)),
{
    match (a, b) {
        (Some(x), Some(y)) => str_eq(x.as_str(), y.as_str()),
        (None, None) => true,
        _ => false,
    }
}

fn text_or_empty(a: &Option<String>) -> (s: String)
    ensures
        s@ == or_empty(opt_string_view(*a)),
{
    match a {
        Some(x) => x.clone(),
        None => String::new(),
    }
}

fn status_text(s: TestStatus) -> (t: String)
    ensures
        t@ == status_name(s),
{
    match s {
        TestStatus::Pass => String::from_str("Pass"),
        TestStatus::Fail => String::from_str("Fail"),
        TestStatus::Skipped => String::from_str("Skipped"),
    }
}

fn prefixed(prefix: &str, name: &String, suffix: &str) -> (s: String)
    ensures
        s@ == prefix@ + name@ + suffix@,
{
    let mut s = String::from_str(prefix);
    s.append(name.as_str());
    s.append(suffix);
    s
}

fn group_field(name: &String) -> (s: String)
    ensures
        s@ == "tests."@ + name@,
{
    let mut s = String::from_str("tests.");
    s.append(name.as_str());
    s
}

/// Insert a string into a sorted list of distinct strings.
fn insert_sorted_string(v: &mut Vec<String>, x: &String)
    ensures
        views(final(v)@) == insert_sorted(views(old(v)@), x@),
    decreases old(v)@.len(),
{
    let xs = str_chars(x.as_str());
    if v.len() == 0 {
        v.push(x.clone());
        proof {
            assert(views(v@) =~= seq![x@]);
        }
        return;
    }
    let last_idx = v.len() - 1;
    let ls = str_chars(v[last_idx].as_str());
    let ghost old_views = views(v@);
    proof {
        assert(old_views.last() == v@[last_idx as int]@);
    }
    if chars_eq(&ls, &xs) {
        return;
    }
    if chars_lex_le(&ls, &xs) {
        v.push(x.clone());
        proof {
            assert(views(v@) =~= old_views.push(x@));
        }
        return;
    }
    let last = v.pop().unwrap();
    proof {
        assert(views(v@) =~= old_views.drop_last());
    }
    insert_sorted_string(v, x);
    v.push(last);
    proof {
        assert(views(v@) =~= insert_sorted(old_views.drop_last(), x@).push(old_views.last()));
    }
}

/// The distinct strings of a list, sorted.
fn sorted_distinct(list: &Vec<String>) -> (r: Vec<String>)
    ensures
        views(r@) == sorted_set(views(list@)),
{
    let mut r: Vec<String> = Vec::new();
    let mut i: usize = 0;
    while i < list.len()
        invariant
            i <= list.len(),
            views(r@) == sorted_set(views(list@.take(i as int))),
        decreases list.len() - i,
    {
        proof {
            assert(views(list@.take(i + 1)).drop_last() =~= views(list@.take(i as int)));
            assert(views(list@.take(i + 1)).last() == list@[i as int]@);
        }
        insert_sorted_string(&mut r, &list[i]);
        i = i + 1;
    }
    proof {
        assert(list@.take(list.len() as int) =~= list@);
    }
    r
}

fn join_commas(v: &Vec<String>) -> (s: String)
    ensures
        s@ == join(views(v@), ","@),
{
    let mut s = String::new();
    let mut i: usize = 0;
    while i < v.len()
        invariant
            i <= v.len(),
            s@ == join(views(v@.take(i as int)), ","@),
        decreases v.len() - i,
    {
        proof {
            assert(views(v@.take(i + 1)).drop_last() =~= views(v@.take(i as int)));
            assert(views(v@.take(i + 1)).last() == v@[i as int]@);
        }
        if i > 0 {
            s.append(",");
        }
        s.append(v[i].as_str());
        proof {
            if i == 0 {
                assert(views(v@.take(1))[0] == v@[0]@);
            }
        }
        i = i + 1;
    }
    proof {
        assert(v@.take(v.len() as int) =~= v@);
    }
    s
}

fn same_views(a: &Vec<String>, b: &Vec<String>) -> (r: bool)
    ensures
        r == (views(a@) == views(b@)),
{
    if a.len() != b.len() {
        proof {
            assert(views(a@).len() != views(b@).len());
        }
        return false;
    }
    let mut i: usize = 0;
    while i < a.len()
        invariant
            i <= a.len(),
            a.len() == b.len(),
            forall|j: int| 0 <= j < i ==> (#[trigger] a@[j])@ == b@[j]@,
        decreases a.len() - i,
    {
        if !str_eq(a[i].as_str(), b[i].as_str()) {
            proof {
                assert(views(a@)[i as int] != views(b@)[i as int]);
            }
            return false;
        }
        i = i + 1;
    }
    proof {
        assert(views(a@) =~= views(b@));
    }
    true
}

/// Compare what two reports say besides their measured values: run identity,
/// fatal error, detected protocol and VIN, then each test group in name
/// order (a status change where neither run skipped it, or a group only one
/// report has), then the supported PID codes as sets.
pub fn compare_report_facts(a: &ReportFacts, b: &ReportFacts) -> (diffs: Vec<Difference>)
    requires
        names_ascending(a.tests@),
        names_ascending(b.tests@),
    ensures
        diffs_are(diffs@, fact_diffs(*a, *b)),
{
    let mut diffs: Vec<Difference> = Vec::new();
    let ghost mut d: Seq<DiffText> = Seq::empty();
    if !str_eq(a.vehicle_id.as_str(), b.vehicle_id.as_str()) {
        push_diff(&mut diffs, Severity::Critical, String::from_str("meta.vehicle_id"), a.vehicle_id.clone(),
            b.vehicle_id.clone(), Ghost(d));
        proof {
            d = d.push(DiffText { severity: Severity::Critical, field: "meta.vehicle_id"@, a: a.vehicle_id@, b: b.vehicle_id@ });
        }
    }
    proof {
        assert(d =~= option_diff("meta.vehicle_id"@, Some(a.vehicle_id@), Some(b.vehicle_id@)));
    }
    let ghost d1 = d;
    if !same_opt(&a.fatal_error, &b.fatal_error) {
        push_diff(&mut diffs, Severity::Critical, String::from_str("fatal_error"), text_or_empty(&a.fatal_error),
            text_or_empty(&b.fatal_error), Ghost(d));
        proof {
            d = d.push(DiffText {
                severity: Severity::Critical,
                field: "fatal_error"@,
                a: or_empty(opt_string_view(a.fatal_error)),
                b: or_empty(opt_string_view(b.fatal_error)),
            });
        }
    }
    proof {
        assert(d =~= d1 + option_diff("fatal_error"@, opt_string_view(a.fatal_error), opt_string_view(b.fatal_error)));
    }
    let ghost d2 = d;
    if !same_opt(&a.protocol_detected, &b.protocol_detected) {
        push_diff(&mut diffs, Severity::Critical, String::from_str("meta.protocol_detected"),
            text_or_empty(&a.protocol_detected), text_or_empty(&b.protocol_detected), Ghost(d));
        proof {
            d = d.push(DiffText {
                severity: Severity::Critical,
                field: "meta.protocol_detected"@,
                a: or_empty(opt_string_view(a.protocol_detected)),
                b: or_empty(opt_string_view(b.protocol_detected)),
            });
        }
    }
    proof {
        assert(d =~= d2 + option_diff("meta.protocol_detected"@, opt_string_view(a.protocol_detected), opt_string_view(b.protocol_detected)));
    }
    let ghost d3 = d;
    if let (Some(va), Some(vb)) = (&a.vin, &b.vin) {
        if !str_eq(va.as_str(), vb.as_str()) {
            push_diff(&mut diffs, Severity::Critical, String::from_str("tests.vin.vin"), va.clone(), vb.clone(), Ghost(d));
            proof {
                d = d.push(DiffText { severity: Severity::Critical, field: "tests.vin.vin"@, a: va@, b: vb@ });
            }
        }
    }
    proof {
        assert(d =~= d3 + match (a.vin, b.vin) {
            (Some(va), Some(vb)) => option_diff("tests.vin.vin"@, Some(va@), Some(vb@)),
            _ => Seq::empty(),
        });
        assert(d =~= meta_diffs(*a, *b));
    }
    let ghost dm = d;
    let mut i: usize = 0;
    let mut j: usize = 0;
    let ta = &a.tests;
    let tb = &b.tests;
    proof {
        assert(ta@.skip(0) =~= ta@);
        assert(tb@.skip(0) =~= tb@);
        assert(d + group_diffs(ta@.skip(0), tb@.skip(0)) =~= dm + group_diffs(ta@, tb@));
    }
    while i < ta.len() || j < tb.len()
        invariant
            i <= ta.len(),
            j <= tb.len(),
            diffs_are(diffs@, d),
            d + group_diffs(ta@.skip(i as int), tb@.skip(j as int)) == dm + group_diffs(ta@, tb@),
        decreases ta.len() + tb.len() - i - j,
    {
        let ghost ra = ta@.skip(i as int);
        let ghost rb = tb@.skip(j as int);
        proof {
            if i < ta.len() {
                assert(ra.drop_first() =~= ta@.skip(i + 1));
                assert(ra[0] == ta@[i as int]);
            }
            if j < tb.len() {
                assert(rb.drop_first() =~= tb@.skip(j + 1));
                assert(rb[0] == tb@[j as int]);
            }
        }
        if i == ta.len() {
            let f = group_field(&tb[j].0);
            push_diff(&mut diffs, Severity::Critical, f, String::from_str("missing"), String::from_str("present"), Ghost(d));
            proof {
                assert(f@ =~= "tests."@ + tb@[j as int].0@);
                d = d.push(presence_diff(tb@[j as int].0@, false));
                assert(ra.len() == 0);
            }
            j = j + 1;
        } else if j == tb.len() {
            let f = group_field(&ta[i].0);
            push_diff(&mut diffs, Severity::Critical, f, String::from_str("present"), String::from_str("missing"), Ghost(d));
            proof {
                assert(f@ =~= "tests."@ + ta@[i as int].0@);
                d = d.push(presence_diff(ta@[i as int].0@, true));
            }
            i = i + 1;
        } else {
            let na = str_chars(ta[i].0.as_str());
            let nb = str_chars(tb[j].0.as_str());
            if chars_eq(&na, &nb) {
                let sa = ta[i].1;
                let sb = tb[j].1;
                if sa != sb && sa != TestStatus::Skipped && sb != TestStatus::Skipped {
                    let f = prefixed("tests.", &ta[i].0, ".status");
                    push_diff(&mut diffs, Severity::Critical, f, status_text(sa), status_text(sb), Ghost(d));
                    proof {
                        d = d.push(DiffText {
                            severity: Severity::Critical,
                            field: "tests."@ + ta@[i as int].0@ + ".status"@,
                            a: status_name(sa),
                            b: status_name(sb),
                        });
                    }
                }
                proof {
                    assert(d =~= d + Seq::<DiffText>::empty());
                }
                i = i + 1;
                j = j + 1;
            } else if chars_lex_le(&na, &nb) {
                let f = group_field(&ta[i].0);
                push_diff(&mut diffs, Severity::Critical, f, String::from_str("present"), String::from_str("missing"), Ghost(d));
                proof {
                    assert(f@ =~= "tests."@ + ta@[i as int].0@);
                    d = d.push(presence_diff(ta@[i as int].0@, true));
                }
                i = i + 1;
            } else {
                let f = group_field(&tb[j].0);
                push_diff(&mut diffs, Severity::Critical, f, String::from_str("missing"), String::from_str("present"), Ghost(d));
                proof {
                    assert(f@ =~= "tests."@ + tb@[j as int].0@);
                    d = d.push(presence_diff(tb@[j as int].0@, false));
                }
                j = j + 1;
            }
        }
        proof {
            assert(d + group_diffs(ta@.skip(i as int), tb@.skip(j as int)) =~= dm + group_diffs(ta@, tb@));
        }
    }
    proof {
        assert(ta@.skip(i as int) =~= Seq::<(String, TestStatus)>::empty());
        assert(tb@.skip(j as int) =~= Seq::<(String, TestStatus)>::empty());
        assert(d =~= dm + group_diffs(ta@, tb@));
    }
    let ghost dg = d;
    if let (Some(la), Some(lb)) = (&a.supported_codes, &b.supported_codes) {
        let sa = sorted_distinct(la);
        let sb = sorted_distinct(lb);
        if !same_views(&sa, &sb) {
            let fa = join_commas(&sa);
            let fb = join_commas(&sb);
            push_diff(&mut diffs, Severity::Warning, String::from_str("tests.supported.supported_codes"), fa, fb, Ghost(d));
            proof {
                d = d.push(DiffText {
                    severity: Severity::Warning,
                    field: "tests.supported.supported_codes"@,
                    a: join(sorted_set(views(la@)), ","@),
                    b: join(sorted_set(views(lb@)), ","@),
                });
            }
        }
    }
    proof {
        assert(d =~= dg + supported_diff(a.supported_codes, b.supported_codes));
        assert(d =~= fact_diffs(*a, *b));
    }
    diffs
}


/// Whether the texts are in strictly increasing order.
pub open spec fn strictly_sorted(s: Seq<Seq<char>>) -> bool {
    forall|i: int, j: int| 0 <= i < j < s.len() ==> lex_le(#[trigger] s[i], #[trigger] s[j]) && s[i] != s[j]
}

proof fn lemma_insert_sorted(s: Seq<Seq<char>>, x: Seq<char>)
    requires
        strictly_sorted(s),
    ensures
        strictly_sorted(insert_sorted(s, x)),
        insert_sorted(s, x).to_set() == s.to_set().insert(x),
    decreases s.len(),
{
    let r = insert_sorted(s, x);
    if s.len() == 0 {
        assert(r.to_set() =~= s.to_set().insert(x)) by {
            assert(r == seq![x]);
            assert(r[0] == x);
        }
    } else if s.last() == x {
        assert(r.to_set() =~= s.to_set().insert(x)) by {
            assert(s[s.len() - 1] == x);
        }
    } else if lex_le(s.last(), x) {
        assert(r == s.push(x));
        assert forall|i: int, j: int| 0 <= i < j < r.len() implies lex_le(#[trigger] r[i], #[trigger] r[j]) && r[i] != r[j] by {
            if j == r.len() - 1 {
                assert(r[j] == x);
                assert(r[i] == s[i]);
                if i < s.len() - 1 {
                    assert(lex_le(s[i], s[s.len() - 1]));
                    lemma_lex_trans(s[i], s.last(), x);
                    if s[i] == x {
                        lemma_lex_antisym(s.last(), x);
                    }
                }
            } else {
                assert(r[i] == s[i] && r[j] == s[j]);
            }
        }
        assert(r.to_set() =~= s.to_set().insert(x)) by {
            assert forall|y: Seq<char>| r.to_set().contains(y) <==> s.to_set().insert(x).contains(y) by {
                if r.to_set().contains(y) {
                    let k = choose|k: int| 0 <= k < r.len() && r[k] == y;
                    if k < s.len() {
                        assert(s[k] == y);
                    }
                }
                if s.to_set().contains(y) {
                    let k = choose|k: int| 0 <= k < s.len() && s[k] == y;
                    assert(r[k] == y);
                }
                if y == x {
                    assert(r[r.len() - 1] == x);
                }
            }
        }
    } else {
        let l = s.last();
        let s1 = s.drop_last();
        assert(strictly_sorted(s1)) by {
            assert forall|i: int, j: int| 0 <= i < j < s1.len() implies lex_le(#[trigger] s1[i], #[trigger] s1[j]) && s1[i] != s1[j] by {
                assert(s1[i] == s[i] && s1[j] == s[j]);
            }
        }
        lemma_insert_sorted(s1, x);
        let r1 = insert_sorted(s1, x);
        assert(r == r1.push(l));
        lemma_lex_total(l, x);
        assert forall|i: int, j: int| 0 <= i < j < r.len() implies lex_le(#[trigger] r[i], #[trigger] r[j]) && r[i] != r[j] by {
            if j == r.len() - 1 {
                assert(r[j] == l);
                assert(r[i] == r1[i]);
                assert(r1.to_set().contains(r1[i]));
                if r1[i] == x {
                    if x == l {
                    }
                } else {
                    let k = choose|k: int| 0 <= k < s1.len() && s1[k] == r1[i];
                    assert(s[k] == s1[k]);
                    assert(lex_le(s[k], s[s.len() - 1]) && s[k] != s[s.len() - 1]);
                }
            } else {
                assert(r[i] == r1[i] && r[j] == r1[j]);
            }
        }
        assert(r.to_set() =~= s.to_set().insert(x)) by {
            assert forall|y: Seq<char>| r.to_set().contains(y) <==> s.to_set().insert(x).contains(y) by {
                if r.to_set().contains(y) {
                    let k = choose|k: int| 0 <= k < r.len() && r[k] == y;
                    if k < r1.len() {
                        assert(r1[k] == y);
                        assert(r1.to_set().contains(y));
                        if y != x {
                            let m = choose|m: int| 0 <= m < s1.len() && s1[m] == y;
                            assert(s[m] == y);
                        }
                    } else {
                        assert(s[s.len() - 1] == y);
                    }
                }
                if s.to_set().contains(y) {
                    let k = choose|k: int| 0 <= k < s.len() && s[k] == y;
                    if k < s1.len() {
                        assert(s1[k] == y);
                        assert(s1.to_set().contains(y));
                        assert(r1.to_set().contains(y));
                        let m = choose|m: int| 0 <= m < r1.len() && r1[m] == y;
                        assert(r[m] == y);
                    } else {
                        assert(r[r.len() - 1] == y);
                    }
                }
                if y == x {
                    assert(r1.to_set().contains(x));
                    let m = choose|m: int| 0 <= m < r1.len() && r1[m] == x;
                    assert(r[m] == x);
                }
            }
        }
    }
}

proof fn lemma_sorted_set(s: Seq<Seq<char>>)
    ensures
        strictly_sorted(sorted_set(s)),
        sorted_set(s).to_set() == s.to_set(),
    decreases s.len(),
{
    if s.len() == 0 {
        assert(sorted_set(s).to_set() =~= s.to_set());
    } else {
        lemma_sorted_set(s.drop_last());
        lemma_insert_sorted(sorted_set(s.drop_last()), s.last());
        assert(s.to_set() =~= s.drop_last().to_set().insert(s.last())) by {
            assert forall|y: Seq<char>| s.to_set().contains(y) <==> s.drop_last().to_set().insert(s.last()).contains(y) by {
                if s.to_set().contains(y) {
                    let k = choose|k: int| 0 <= k < s.len() && s[k] == y;
                    if k < s.len() - 1 {
                        assert(s.drop_last()[k] == y);
                    }
                }
                if s.drop_last().to_set().contains(y) {
                    let k = choose|k: int| 0 <= k < s.len() - 1 && s.drop_last()[k] == y;
                    assert(s[k] == y);
                }
                if y == s.last() {
                    assert(s[s.len() - 1] == y);
                }
            }
        }
    }
}

proof fn lemma_without_last_set(a: Seq<Seq<char>>)
    requires
        strictly_sorted(a),
        a.len() > 0,
    ensures
        a.drop_last().to_set() == a.to_set().remove(a.last()),
        strictly_sorted(a.drop_last()),
{
    let a1 = a.drop_last();
    assert(a1.to_set() =~= a.to_set().remove(a.last())) by {
        assert forall|y: Seq<char>| a1.to_set().contains(y) <==> a.to_set().remove(a.last()).contains(y) by {
            if a1.to_set().contains(y) {
                let k = choose|k: int| 0 <= k < a1.len() && a1[k] == y;
                assert(a[k] == y);
                assert(a[k] != a[a.len() - 1]);
            }
            if a.to_set().remove(a.last()).contains(y) {
                let k = choose|k: int| 0 <= k < a.len() && a[k] == y;
                assert(k != a.len() - 1);
                assert(a1[k] == y);
            }
        }
    }
    assert forall|i: int, j: int| 0 <= i < j < a1.len() implies lex_le(#[trigger] a1[i], #[trigger] a1[j]) && a1[i] != a1[j] by {
        assert(a1[i] == a[i] && a1[j] == a[j]);
    }
}

proof fn lemma_last_is_greatest(a: Seq<Seq<char>>, y: Seq<char>)
    requires
        strictly_sorted(a),
        a.to_set().contains(y),
    ensures
        lex_le(y, a.last()),
{
    let k = choose|k: int| 0 <= k < a.len() && a[k] == y;
    if k < a.len() - 1 {
        assert(lex_le(a[k], a[a.len() - 1]));
    } else {
        lemma_lex_refl(y);
    }
}

proof fn lemma_sorted_unique(a: Seq<Seq<char>>, b: Seq<Seq<char>>)
    requires
        strictly_sorted(a),
        strictly_sorted(b),
        a.to_set() == b.to_set(),
    ensures
        a == b,
    decreases a.len(),
{
    if a.len() == 0 || b.len() == 0 {
        if a.len() > 0 {
            assert(a.to_set().contains(a[0]));
        }
        if b.len() > 0 {
            assert(b.to_set().contains(b[0]));
        }
        assert(a =~= b);
    } else {
        assert(a.to_set().contains(a[a.len() - 1]));
        assert(b.to_set().contains(b[b.len() - 1]));
        lemma_last_is_greatest(b, a.last());
        lemma_last_is_greatest(a, b.last());
        lemma_lex_antisym(a.last(), b.last());
        lemma_without_last_set(a);
        lemma_without_last_set(b);
        lemma_sorted_unique(a.drop_last(), b.drop_last());
        assert(a =~= b) by {
            assert forall|i: int| 0 <= i < a.len() implies a[i] == b[i] by {
                if i < a.len() - 1 {
                    assert(a[i] == a.drop_last()[i]);
                    assert(b[i] == b.drop_last()[i]);
                }
            }
        }
    }
}

/// Supported PID codes are compared as sets: two lists give no difference
/// exactly when they hold the same codes, whatever their order and
/// repetitions.
pub proof fn lemma_supported_codes_compared_as_sets(la: Vec<String>, lb: Vec<String>)
    ensures
        supported_diff(Some(la), Some(lb)).len() == 0 <==> views(la@).to_set() == views(lb@).to_set(),
{
    lemma_sorted_set(views(la@));
    lemma_sorted_set(views(lb@));
    if views(la@).to_set() == views(lb@).to_set() {
        lemma_sorted_unique(sorted_set(views(la@)), sorted_set(views(lb@)));
    }
}

proof fn lemma_group_diffs_self(t: Seq<(String, TestStatus)>)
    ensures
        group_diffs(t, t).len() == 0,
    decreases t.len(),
{
    if t.len() > 0 {
        lemma_group_diffs_self(t.drop_first());
    }
}

/// A report compared with itself shows no difference.
pub proof fn lemma_report_compared_with_itself(a: ReportFacts)
    ensures
        fact_diffs(a, a).len() == 0,
{
    lemma_group_diffs_self(a.tests@);
}

/// A difference seen from the other side: the two reports' texts exchanged.
pub open spec fn swap_diff(x: DiffText) -> DiffText {
    DiffText { severity: x.severity, field: x.field, a: x.b, b: x.a }
}

/// Differences seen from the other side.
pub open spec fn swapped(d: Seq<DiffText>) -> Seq<DiffText> {
    d.map_values(|x: DiffText| swap_diff(x))
}

proof fn lemma_swapped_add(x: Seq<DiffText>, y: Seq<DiffText>)
    ensures
        swapped(x + y) == swapped(x) + swapped(y),
{
    assert(swapped(x + y) =~= swapped(x) + swapped(y));
}

proof fn lemma_option_diff_swap(field: Seq<char>, a: Option<Seq<char>>, b: Option<Seq<char>>)
    ensures
        option_diff(field, b, a) == swapped(option_diff(field, a, b)),
{
    assert(option_diff(field, b, a) =~= swapped(option_diff(field, a, b)));
}

proof fn lemma_group_diffs_swap(ta: Seq<(String, TestStatus)>, tb: Seq<(String, TestStatus)>)
    ensures
        group_diffs(tb, ta) == swapped(group_diffs(ta, tb)),
    decreases ta.len() + tb.len(),
{
    if ta.len() == 0 && tb.len() == 0 {
        assert(swapped(Seq::<DiffText>::empty()) =~= Seq::<DiffText>::empty());
    } else if ta.len() == 0 {
        lemma_group_diffs_swap(ta, tb.drop_first());
        lemma_swapped_add(seq![presence_diff(tb[0].0@, false)], group_diffs(ta, tb.drop_first()));
        assert(swapped(seq![presence_diff(tb[0].0@, false)]) =~= seq![presence_diff(tb[0].0@, true)]);
    } else if tb.len() == 0 {
        lemma_group_diffs_swap(ta.drop_first(), tb);
        lemma_swapped_add(seq![presence_diff(ta[0].0@, true)], group_diffs(ta.drop_first(), tb));
        assert(swapped(seq![presence_diff(ta[0].0@, true)]) =~= seq![presence_diff(ta[0].0@, false)]);
    } else if ta[0].0@ == tb[0].0@ {
        lemma_group_diffs_swap(ta.drop_first(), tb.drop_first());
        let n = ta[0].0@;
        lemma_swapped_add(status_diff(n, ta[0].1, tb[0].1), group_diffs(ta.drop_first(), tb.drop_first()));
        assert(status_diff(n, tb[0].1, ta[0].1) =~= swapped(status_diff(n, ta[0].1, tb[0].1)));
    } else if lex_le(ta[0].0@, tb[0].0@) {
        if lex_le(tb[0].0@, ta[0].0@) {
            lemma_lex_antisym(ta[0].0@, tb[0].0@);
        }
        lemma_group_diffs_swap(ta.drop_first(), tb);
        lemma_swapped_add(seq![presence_diff(ta[0].0@, true)], group_diffs(ta.drop_first(), tb));
        assert(swapped(seq![presence_diff(ta[0].0@, true)]) =~= seq![presence_diff(ta[0].0@, false)]);
    } else {
        lemma_lex_total(ta[0].0@, tb[0].0@);
        lemma_group_diffs_swap(ta, tb.drop_first());
        lemma_swapped_add(seq![presence_diff(tb[0].0@, false)], group_diffs(ta, tb.drop_first()));
        assert(swapped(seq![presence_diff(tb[0].0@, false)]) =~= seq![presence_diff(tb[0].0@, true)]);
    }
}

/// Comparing two reports the other way round gives the same differences,
/// in the same order, with the two reports' texts exchanged.
pub proof fn lemma_comparison_symmetric(a: ReportFacts, b: ReportFacts)
    ensures
        fact_diffs(b, a) == swapped(fact_diffs(a, b)),
{
    lemma_option_diff_swap("meta.vehicle_id"@, Some(a.vehicle_id@), Some(b.vehicle_id@));
    lemma_option_diff_swap("fatal_error"@, opt_string_view(a.fatal_error), opt_string_view(b.fatal_error));
    lemma_option_diff_swap(
        "meta.protocol_detected"@,
        opt_string_view(a.protocol_detected),
        opt_string_view(b.protocol_detected),
    );
    let vin_ab = match (a.vin, b.vin) {
        (Some(va), Some(vb)) => option_diff("tests.vin.vin"@, Some(va@), Some(vb@)),
        _ => Seq::empty(),
    };
    let vin_ba = match (b.vin, a.vin) {
        (Some(vb), Some(va)) => option_diff("tests.vin.vin"@, Some(vb@), Some(va@)),
        _ => Seq::empty(),
    };
    match (a.vin, b.vin) {
        (Some(va), Some(vb)) => lemma_option_diff_swap("tests.vin.vin"@, Some(va@), Some(vb@)),
        _ => {
            assert(swapped(Seq::<DiffText>::empty()) =~= Seq::<DiffText>::empty());
        },
    }
    assert(vin_ba == swapped(vin_ab));
    let o1 = option_diff("meta.vehicle_id"@, Some(a.vehicle_id@), Some(b.vehicle_id@));
    let o2 = option_diff("fatal_error"@, opt_string_view(a.fatal_error), opt_string_view(b.fatal_error));
    let o3 = option_diff(
        "meta.protocol_detected"@,
        opt_string_view(a.protocol_detected),
        opt_string_view(b.protocol_detected),
    );
    lemma_swapped_add(o1, o2);
    lemma_swapped_add(o1 + o2, o3);
    lemma_swapped_add(o1 + o2 + o3, vin_ab);
    assert(meta_diffs(b, a) == swapped(meta_diffs(a, b)));
    lemma_group_diffs_swap(a.tests@, b.tests@);
    let s_ab = supported_diff(a.supported_codes, b.supported_codes);
    assert(supported_diff(b.supported_codes, a.supported_codes) =~= swapped(s_ab));
    lemma_swapped_add(meta_diffs(a, b), group_diffs(a.tests@, b.tests@));
    lemma_swapped_add(meta_diffs(a, b) + group_diffs(a.tests@, b.tests@), s_ab);
}

} // verus!
