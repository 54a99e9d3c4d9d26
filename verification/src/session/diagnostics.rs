//! Diagnostic intelligence: DTC enrichment from a vehicle's DTC library,
//! diagnostic rules that fire on DTCs, known issues matched by their symptom
//! codes, and deduplication.

use vstd::prelude::*;
use crate::protocol::dtc::{universal_description, universal_dtc_description, Dtc};
use crate::text::{opt_str_view, opt_string_view, str_chars, str_eq};
use crate::vehicle::{
    first_with_code, library_entries, DiagnosticRule, DtcEntry, DtcLibrary, KnownIssue, RuleTrigger,
};

verus! {

broadcast use vstd::string::group_string_axioms;

/// The library entry for a code: the first one in lookup order.
pub open spec fn library_entry(lib: DtcLibrary, code: Seq<char>) -> Option<DtcEntry> {
    let es = library_entries(lib);
    if exists|i: int| first_with_code(es, code, i) {
        Some(es[choose|i: int| first_with_code(es, code, i)])
    } else {
        None
    }
}

/// Whether `d` is `old` enriched: from the library entry for its code when
/// there is one (description, severity and notes), else with the universal
/// description when it had none.
pub open spec fn enriched(old: Dtc, d: Dtc, lib: Option<DtcLibrary>) -> bool {
    &&& d.code == old.code
    &&& d.category == old.category
    &&& d.status == old.status
    &&& d.source_module == old.source_module
    &&& match (match lib {
        Some(l) => library_entry(l, old.code@),
        None => None,
    }) {
        Some(e) => {
            &&& opt_string_view(d.description) == Some(e.meaning@)
            &&& d.severity == Some(e.severity)
            &&& opt_string_view(d.notes) == opt_string_view(e.notes)
        },
        None => {
            &&& d.severity == old.severity
            &&& d.notes == old.notes
            &&& old.description is Some ==> d.description == old.description
            &&& old.description is None ==> opt_string_view(d.description) == opt_str_view(
                universal_description(old.code@),
            )
        },
    }
}

proof fn lemma_first_with_code_unique(es: Seq<DtcEntry>, code: Seq<char>, i: int, j: int)
    requires
        first_with_code(es, code, i),
        first_with_code(es, code, j),
    ensures
        i == j,
{
    if i < j {
        assert(es[i].code@ != code);
    } else if j < i {
        assert(es[j].code@ != code);
    }
}

fn copy_opt_string(s: &Option<String>) -> (r: Option<String>)
    ensures
        r == *s,
{
    match s {
        Some(x) => Some(x.clone()),
        None => None,
    }
}

fn enrich_one(d: &mut Dtc, library: Option<&DtcLibrary>)
    ensures
        enriched(*old(d), *final(d), match library {
            Some(l) => Some(*l),
            None => None,
        }),
{
    if let Some(lib) = library {
        if let Some(entry) = lib.lookup(d.code.as_str()) {
            proof {
                let es = library_entries(*lib);
                let i = choose|i: int| first_with_code(es, d.code@, i) && es[i] == *entry;
                let k = choose|k: int| first_with_code(es, d.code@, k);
                lemma_first_with_code_unique(es, d.code@, i, k);
            }
            d.description = Some(entry.meaning.clone());
            d.severity = Some(entry.severity);
            d.notes = copy_opt_string(&entry.notes);
            return;
        }
    }
    if d.description.is_none() {
        d.description = match universal_dtc_description(d.code.as_str()) {
            Some(s) => Some(String::from_str(s)),
            None => None,
        };
    }
}

/// Enrich a list of DTCs with descriptions, severity and notes: the
/// vehicle's DTC library first (most specific), then the universal SAE J2012
/// descriptions for DTCs that have none.
pub fn enrich_dtcs(dtcs: &mut Vec<Dtc>, library: Option<&DtcLibrary>)
    ensures
        final(dtcs)@.len() == old(dtcs)@.len(),
        forall|i: int| 0 <= i < final(dtcs)@.len() ==> enriched(
            #[trigger] old(dtcs)@[i],
            final(dtcs)@[i],
            match library {
                Some(l) => Some(*l),
                None => None,
            },
        ),
{
    let ghost orig = dtcs@;
    let ghost lib = match library {
        Some(l) => Some(*l),
        None => None,
    };
    let mut rest: Vec<Dtc> = Vec::new();
    std::mem::swap(&mut rest, dtcs);
    let mut out: Vec<Dtc> = Vec::new();
    let mut i: usize = 0;
    let n = rest.len();
    while rest.len() > 0
        invariant
            i + rest@.len() == n,
            n == orig.len(),
            rest@ == orig.skip(i as int),
            out@.len() == i,
            lib == match library {
                Some(l) => Some(*l),
                None => None,
            },
            forall|k: int| 0 <= k < i ==> enriched(#[trigger] orig[k], out@[k], lib),
        decreases rest.len(),
    {
        let mut d = rest.remove(0);
        proof {
            assert(d == orig[i as int]);
            assert(rest@ =~= orig.skip(i + 1));
        }
        enrich_one(&mut d, library);
        out.push(d);
        i = i + 1;
    }
    *dtcs = out;
}

/// Lexicographic order of character sequences (the order in which `str`
/// values compare).
pub open spec fn lex_le(a: Seq<char>, b: Seq<char>) -> bool
    decreases a.len(),
{
    if a.len() == 0 {
        true
    } else if b.len() == 0 {
        false
    } else if a[0] != b[0] {
        a[0] < b[0]
    } else {
        lex_le(a.drop_first(), b.drop_first())
    }
}

pub(crate) fn chars_lex_le(a: &Vec<char>, b: &Vec<char>) -> (r: bool)
    ensures
        r == lex_le(a@, b@),
{
    let mut i: usize = 0;
    proof {
        assert(a@.skip(0) =~= a@);
        assert(b@.skip(0) =~= b@);
    }
    while i < a.len() && i < b.len() && a[i] == b[i]
        invariant
            i <= a.len(),
            i <= b.len(),
            lex_le(a@, b@) == lex_le(a@.skip(i as int), b@.skip(i as int)),
        decreases a.len() - i,
    {
        proof {
            assert(a@.skip(i as int).drop_first() =~= a@.skip(i + 1));
            assert(b@.skip(i as int).drop_first() =~= b@.skip(i + 1));
        }
        i = i + 1;
    }
    if i == a.len() {
        true
    } else if i == b.len() {
        false
    } else {
        a[i] < b[i]
    }
}

/// The lexicographic order is reflexive.
pub proof fn lemma_lex_refl(a: Seq<char>)
    ensures
        lex_le(a, a),
    decreases a.len(),
{
    if a.len() > 0 {
        lemma_lex_refl(a.drop_first());
    }
}

/// The lexicographic order is total.
pub proof fn lemma_lex_total(a: Seq<char>, b: Seq<char>)
    ensures
        lex_le(a, b) || lex_le(b, a),
    decreases a.len(),
{
    if a.len() > 0 && b.len() > 0 {
        if a[0] != b[0] {
        } else {
            lemma_lex_total(a.drop_first(), b.drop_first());
        }
    }
}

/// The lexicographic order is antisymmetric.
pub proof fn lemma_lex_antisym(a: Seq<char>, b: Seq<char>)
    requires
        lex_le(a, b),
        lex_le(b, a),
    ensures
        a == b,
    decreases a.len(),
{
    if a.len() == 0 || b.len() == 0 {
        assert(a =~= b);
    } else {
        lemma_lex_antisym(a.drop_first(), b.drop_first());
        assert(a =~= b) by {
            assert forall|i: int| 0 <= i < a.len() implies a[i] == b[i] by {
                if i > 0 {
                    assert(a[i] == a.drop_first()[i - 1]);
                    assert(b[i] == b.drop_first()[i - 1]);
                }
            }
        }
    }
}

/// The lexicographic order is transitive.
pub proof fn lemma_lex_trans(a: Seq<char>, b: Seq<char>, c: Seq<char>)
    requires
        lex_le(a, b),
        lex_le(b, c),
    ensures
        lex_le(a, c),
    decreases a.len(),
{
    if a.len() > 0 && b.len() > 0 && c.len() > 0 && a[0] == b[0] && b[0] == c[0] {
        lemma_lex_trans(a.drop_first(), b.drop_first(), c.drop_first());
    }
}

/// Whether some DTC has the given code.
pub open spec fn has_code(dtcs: Seq<Dtc>, code: Seq<char>) -> bool {
    exists|i: int| 0 <= i < dtcs.len() && (#[trigger] dtcs[i]).code@ == code
}

/// Whether some DTC code lies in the range `start..=end`.
pub open spec fn has_code_in_range(dtcs: Seq<Dtc>, start: Seq<char>, end: Seq<char>) -> bool {
    exists|i: int| 0 <= i < dtcs.len() && lex_le(start, (#[trigger] dtcs[i]).code@) && lex_le(dtcs[i].code@, end)
}

/// Whether a rule fires for a set of DTCs: its code is present, or some
/// code lies in its range.
pub open spec fn rule_fires(rule: DiagnosticRule, dtcs: Seq<Dtc>) -> bool {
    match rule.trigger {
        RuleTrigger::DtcPresent(code) => has_code(dtcs, code@),
        RuleTrigger::DtcRange(start, end) => has_code_in_range(dtcs, start@, end@),
    }
}

/// The rules that fire, in their order.
pub open spec fn fired_rules(rules: Seq<DiagnosticRule>, dtcs: Seq<Dtc>) -> Seq<DiagnosticRule>
    decreases rules.len(),
{
    if rules.len() == 0 {
        Seq::empty()
    } else if rule_fires(rules.last(), dtcs) {
        fired_rules(rules.drop_last(), dtcs).push(rules.last())
    } else {
        fired_rules(rules.drop_last(), dtcs)
    }
}

fn any_code(dtcs: &[Dtc], code: &str) -> (r: bool)
    ensures
        r == has_code(dtcs@, code@),
{
    let mut i: usize = 0;
    while i < dtcs.len()
        invariant
            i <= dtcs.len(),
            forall|j: int| 0 <= j < i ==> (#[trigger] dtcs@[j]).code@ != code@,
        decreases dtcs.len() - i,
    {
        if str_eq(dtcs[i].code.as_str(), code) {
            return true;
        }
        i = i + 1;
    }
    false
}

fn any_code_in_range(dtcs: &[Dtc], start: &str, end: &str) -> (r: bool)
    ensures
        r == has_code_in_range(dtcs@, start@, end@),
{
    let s = str_chars(start);
    let e = str_chars(end);
    let mut i: usize = 0;
    while i < dtcs.len()
        invariant
            i <= dtcs.len(),
            s@ == start@,
            e@ == end@,
            forall|j: int| 0 <= j < i ==> !(lex_le(start@, (#[trigger] dtcs@[j]).code@) && lex_le(dtcs@[j].code@, end@)),
        decreases dtcs.len() - i,
    {
        let c = str_chars(dtcs[i].code.as_str());
        if chars_lex_le(&s, &c) && chars_lex_le(&c, &e) {
            return true;
        }
        i = i + 1;
    }
    false
}

/// Find diagnostic rules that fire for the current set of DTCs, in the
/// order of the rule list (none without one).
pub fn active_rules<'a>(dtcs: &[Dtc], rules: Option<&'a [DiagnosticRule]>) -> (r: Vec<&'a DiagnosticRule>)
    ensures
        r@.map_values(|x: &DiagnosticRule| *x) == match rules {
            Some(rs) => fired_rules(rs@, dtcs@),
            None => Seq::empty(),
        },
{
    let mut out: Vec<&'a DiagnosticRule> = Vec::new();
    let rs = match rules {
        Some(rs) => rs,
        None => {
            proof {
                assert(out@.map_values(|x: &DiagnosticRule| *x) =~= Seq::<DiagnosticRule>::empty());
            }
            return out;
        },
    };
    let mut i: usize = 0;
    while i < rs.len()
        invariant
            i <= rs.len(),
            out@.map_values(|x: &DiagnosticRule| *x) == fired_rules(rs@.take(i as int), dtcs@),
        decreases rs.len() - i,
    {
        let rule = &rs[i];
        let fires = match &rule.trigger {
            RuleTrigger::DtcPresent(code) => any_code(dtcs, code.as_str()),
            RuleTrigger::DtcRange(start, end) => any_code_in_range(dtcs, start.as_str(), end.as_str()),
        };
        proof {
            assert(rs@.take(i + 1).drop_last() =~= rs@.take(i as int));
            assert(rs@.take(i + 1).last() == rs@[i as int]);
        }
        if fires {
            let ghost before = out@;
            out.push(rule);
            proof {
                assert(out@.map_values(|x: &DiagnosticRule| *x) =~= before.map_values(|x: &DiagnosticRule| *x).push(*rule));
            }
        }
        i = i + 1;
    }
    proof {
        assert(rs@.take(rs.len() as int) =~= rs@);
    }
    out
}

/// Whether one of the issue's symptoms is among the DTC codes.
pub open spec fn issue_matches(issue: KnownIssue, dtcs: Seq<Dtc>) -> bool {
    exists|i: int| 0 <= i < issue.symptoms@.len() && has_code(dtcs, (#[trigger] issue.symptoms@[i])@)
}

/// The issues whose symptoms match, in their order.
pub open spec fn matched_issues(issues: Seq<KnownIssue>, dtcs: Seq<Dtc>) -> Seq<KnownIssue>
    decreases issues.len(),
{
    if issues.len() == 0 {
        Seq::empty()
    } else if issue_matches(issues.last(), dtcs) {
        matched_issues(issues.drop_last(), dtcs).push(issues.last())
    } else {
        matched_issues(issues.drop_last(), dtcs)
    }
}

/// Where an issue of rank `r` goes in a list sorted by rank, keeping the
/// order of equal ranks: after the last issue whose rank is at most `r`.
pub open spec fn rank_position(s: Seq<KnownIssue>, r: u8) -> int
    decreases s.len(),
{
    if s.len() == 0 {
        0
    } else if s.last().rank <= r {
        s.len() as int
    } else {
        rank_position(s.drop_last(), r)
    }
}

/// The issues stably sorted by rank (lowest, the most common, first).
pub open spec fn sorted_by_rank(s: Seq<KnownIssue>) -> Seq<KnownIssue>
    decreases s.len(),
{
    if s.len() == 0 {
        Seq::empty()
    } else {
        let sorted = sorted_by_rank(s.drop_last());
        sorted.insert(rank_position(sorted, s.last().rank), s.last())
    }
}

proof fn lemma_rank_position_bounds(s: Seq<KnownIssue>, r: u8)
    ensures
        0 <= rank_position(s, r) <= s.len(),
        forall|k: int| rank_position(s, r) <= k < s.len() ==> (#[trigger] s[k]).rank > r,
    decreases s.len(),
{
    if s.len() > 0 && s.last().rank > r {
        lemma_rank_position_bounds(s.drop_last(), r);
        assert forall|k: int| rank_position(s, r) <= k < s.len() implies (#[trigger] s[k]).rank > r by {
            if k < s.len() - 1 {
                assert(s[k] == s.drop_last()[k]);
            }
        }
    }
}

proof fn lemma_rank_position_at(s: Seq<KnownIssue>, r: u8, p: int)
    requires
        0 <= p <= s.len(),
        p == 0 || s[p - 1].rank <= r,
        forall|k: int| p <= k < s.len() ==> (#[trigger] s[k]).rank > r,
    ensures
        rank_position(s, r) == p,
    decreases s.len(),
{
    if s.len() > p {
        assert(s.last().rank > r);
        assert forall|k: int| p <= k < s.drop_last().len() implies (#[trigger] s.drop_last()[k]).rank > r by {
            assert(s.drop_last()[k] == s[k]);
        }
        if p > 0 {
            assert(s.drop_last()[p - 1] == s[p - 1]);
        }
        lemma_rank_position_at(s.drop_last(), r, p);
    }
}

fn insert_by_rank<'a>(v: &mut Vec<&'a KnownIssue>, x: &'a KnownIssue)
    ensures
        final(v)@.map_values(|y: &KnownIssue| *y) == old(v)@.map_values(|y: &KnownIssue| *y).insert(
            rank_position(old(v)@.map_values(|y: &KnownIssue| *y), x.rank),
            *x,
        ),
{
    let ghost s = v@.map_values(|y: &KnownIssue| *y);
    let mut pos: usize = v.len();
    while pos > 0 && v[pos - 1].rank > x.rank
        invariant
            pos <= v.len(),
            s == v@.map_values(|y: &KnownIssue| *y),
            forall|k: int| pos <= k < s.len() ==> (#[trigger] s[k]).rank > x.rank,
        decreases pos,
    {
        pos = pos - 1;
    }
    proof {
        lemma_rank_position_at(s, x.rank, pos as int);
    }
    v.insert(pos, x);
    proof {
        assert(v@.map_values(|y: &KnownIssue| *y) =~= s.insert(pos as int, *x));
    }
}

fn issue_has_symptom(issue: &KnownIssue, dtcs: &[Dtc]) -> (r: bool)
    ensures
        r == issue_matches(*issue, dtcs@),
{
    let mut i: usize = 0;
    while i < issue.symptoms.len()
        invariant
            i <= issue.symptoms.len(),
            forall|j: int| 0 <= j < i ==> !has_code(dtcs@, (#[trigger] issue.symptoms@[j])@),
        decreases issue.symptoms.len() - i,
    {
        if any_code(dtcs, issue.symptoms[i].as_str()) {
            return true;
        }
        i = i + 1;
    }
    false
}

/// Find known issues that match the current DTCs by symptom codes, sorted by
/// rank (lowest, the most common, first; equal ranks in list order).
pub fn matching_issues<'a>(dtcs: &[Dtc], issues: Option<&'a [KnownIssue]>) -> (r: Vec<&'a KnownIssue>)
    ensures
        r@.map_values(|x: &KnownIssue| *x) == match issues {
            Some(is) => sorted_by_rank(matched_issues(is@, dtcs@)),
            None => Seq::empty(),
        },
{
    let mut out: Vec<&'a KnownIssue> = Vec::new();
    let is = match issues {
        Some(is) => is,
        None => {
            proof {
                assert(out@.map_values(|x: &KnownIssue| *x) =~= Seq::<KnownIssue>::empty());
            }
            return out;
        },
    };
    let mut i: usize = 0;
    while i < is.len()
        invariant
            i <= is.len(),
            out@.map_values(|x: &KnownIssue| *x) == sorted_by_rank(matched_issues(is@.take(i as int), dtcs@)),
        decreases is.len() - i,
    {
        let issue = &is[i];
        proof {
            assert(is@.take(i + 1).drop_last() =~= is@.take(i as int));
            assert(is@.take(i + 1).last() == is@[i as int]);
        }
        if issue_has_symptom(issue, dtcs) {
            proof {
                assert(matched_issues(is@.take(i + 1), dtcs@).drop_last() =~= matched_issues(is@.take(i as int), dtcs@));
            }
            insert_by_rank(&mut out, issue);
        }
        i = i + 1;
    }
    proof {
        assert(is@.take(is.len() as int) =~= is@);
    }
    out
}

/// Ranks of a stably rank-sorted list never decrease.
pub proof fn lemma_sorted_by_rank_sorted(s: Seq<KnownIssue>)
    ensures
        forall|a: int, b: int| 0 <= a < b < sorted_by_rank(s).len()
            ==> (#[trigger] sorted_by_rank(s)[a]).rank <= (#[trigger] sorted_by_rank(s)[b]).rank,
        sorted_by_rank(s).len() == s.len(),
    decreases s.len(),
{
    if s.len() > 0 {
        let prev = sorted_by_rank(s.drop_last());
        lemma_sorted_by_rank_sorted(s.drop_last());
        let x = s.last();
        let p = rank_position(prev, x.rank);
        lemma_rank_position_bounds(prev, x.rank);
        let res = prev.insert(p, x);
        assert(res == sorted_by_rank(s));
        if p > 0 {
            lemma_rank_position_before(prev, x.rank);
        }
        assert forall|a: int, b: int| 0 <= a < b < res.len() implies (#[trigger] res[a]).rank <= (#[trigger] res[b]).rank by {
            if b < p {
                assert(res[a] == prev[a] && res[b] == prev[b]);
            } else if b == p {
                assert(res[b] == x);
                assert(res[a] == prev[a]);
                assert(prev[a].rank <= prev[p - 1].rank || a == p - 1);
            } else if a < p {
                assert(res[a] == prev[a] && res[b] == prev[b - 1]);
            } else if a == p {
                assert(res[a] == x && res[b] == prev[b - 1]);
            } else {
                assert(res[a] == prev[a - 1] && res[b] == prev[b - 1]);
            }
        }
    }
}

proof fn lemma_rank_position_before(s: Seq<KnownIssue>, r: u8)
    requires
        rank_position(s, r) > 0,
    ensures
        s[rank_position(s, r) - 1].rank <= r,
    decreases s.len(),
{
    if s.len() > 0 && s.last().rank > r {
        lemma_rank_position_bounds(s.drop_last(), r);
        lemma_rank_position_before(s.drop_last(), r);
        assert(s.drop_last()[rank_position(s, r) - 1] == s[rank_position(s, r) - 1]);
    }
}

/// How many of a DTC's descriptive fields are set: description, severity,
/// source module and notes.
pub open spec fn detail_count(d: Dtc) -> int {
    (if d.description is Some { 1int } else { 0int }) + (if d.severity is Some { 1int } else { 0int })
        + (if d.source_module is Some { 1int } else { 0int }) + (if d.notes is Some { 1int } else { 0int })
}

/// Index of the first DTC in `s` with the code `c`.
pub open spec fn first_dtc_with_code(s: Seq<Dtc>, c: Seq<char>) -> int {
    choose|k: int| 0 <= k < s.len() && (#[trigger] s[k]).code@ == c && forall|j: int| 0 <= j < k ==> (#[trigger] s[j]).code@ != c
}

/// The DTCs with one entry per code, codes in the order they first occur.
/// Of several DTCs with the same code the most informative is kept: the one
/// with the most descriptive fields set, the earliest of those on a tie.
pub open spec fn dedup_by_code(s: Seq<Dtc>) -> Seq<Dtc>
    decreases s.len(),
{
    if s.len() == 0 {
        Seq::empty()
    } else {
        let p = dedup_by_code(s.drop_last());
        let x = s.last();
        if has_code(p, x.code@) {
            let k = first_dtc_with_code(p, x.code@);
            if detail_count(x) > detail_count(p[k]) {
                p.update(k, x)
            } else {
                p
            }
        } else {
            p.push(x)
        }
    }
}

fn detail_count_of(d: &Dtc) -> (n: u8)
    ensures
        n == detail_count(*d),
{
    let mut n: u8 = 0;
    if d.description.is_some() {
        n = n + 1;
    }
    if d.severity.is_some() {
        n = n + 1;
    }
    if d.source_module.is_some() {
        n = n + 1;
    }
    if d.notes.is_some() {
        n = n + 1;
    }
    n
}

fn code_position(dtcs: &[Dtc], code: &str) -> (r: Option<usize>)
    ensures
        match r {
            Some(k) => k < dtcs@.len() && dtcs@[k as int].code@ == code@ && forall|j: int|
                0 <= j < k ==> (#[trigger] dtcs@[j]).code@ != code@,
            None => !has_code(dtcs@, code@),
        },
{
    let mut i: usize = 0;
    while i < dtcs.len()
        invariant
            i <= dtcs.len(),
            forall|j: int| 0 <= j < i ==> (#[trigger] dtcs@[j]).code@ != code@,
        decreases dtcs.len() - i,
    {
        if str_eq(dtcs[i].code.as_str(), code) {
            return Some(i);
        }
        i = i + 1;
    }
    None
}

/// Deduplicate DTCs by code, keeping the most informative version.
pub fn dedup_dtcs(dtcs: &mut Vec<Dtc>)
    ensures
        final(dtcs)@ == dedup_by_code(old(dtcs)@),
        forall|a: int, b: int| 0 <= a < b < final(dtcs)@.len()
            ==> (#[trigger] final(dtcs)@[a]).code@ != (#[trigger] final(dtcs)@[b]).code@,
        forall|i: int| 0 <= i < old(dtcs)@.len() ==> has_code(final(dtcs)@, (#[trigger] old(dtcs)@[i]).code@),
        forall|k: int| 0 <= k < final(dtcs)@.len() ==> old(dtcs)@.contains(#[trigger] final(dtcs)@[k]),
        forall|i: int, k: int| 0 <= i < old(dtcs)@.len() && 0 <= k < final(dtcs)@.len()
            && (#[trigger] old(dtcs)@[i]).code@ == (#[trigger] final(dtcs)@[k]).code@
            ==> detail_count(final(dtcs)@[k]) >= detail_count(old(dtcs)@[i]),
{
    let ghost orig = dtcs@;
    let mut rest: Vec<Dtc> = Vec::new();
    std::mem::swap(&mut rest, dtcs);
    let mut out: Vec<Dtc> = Vec::new();
    let ghost mut i: int = 0;
    while rest.len() > 0
        invariant
            0 <= i <= orig.len(),
            rest@ == orig.skip(i),
            out@ == dedup_by_code(orig.take(i)),
        decreases rest.len(),
    {
        let d = rest.remove(0);
        proof {
            assert(d == orig[i]);
            assert(rest@ =~= orig.skip(i + 1));
            assert(orig.take(i + 1).drop_last() =~= orig.take(i));
            assert(orig.take(i + 1).last() == d);
            lemma_dedup_codes(orig.take(i));
        }
        match code_position(out.as_slice(), d.code.as_str()) {
            Some(k) => {
                proof {
                    assert(has_code(out@, d.code@));
                    lemma_first_dtc_with_code(out@, d.code@, k as int);
                }
                if detail_count_of(&d) > detail_count_of(&out[k]) {
                    out[k] = d;
                }
            },
            None => {
                out.push(d);
            },
        }
        proof {
            i = i + 1;
        }
    }
    proof {
        assert(orig.take(i) =~= orig);
        lemma_dedup_codes(orig);
        lemma_dedup_keeps_most_detailed(orig);
        assert forall|k: int| 0 <= k < orig.len() implies has_code(out@, (#[trigger] orig[k]).code@) by {
            assert(has_code(orig, orig[k].code@));
        }
    }
    *dtcs = out;
}

/// Whether no two DTCs share a code.
pub open spec fn unique_codes(s: Seq<Dtc>) -> bool {
    forall|a: int, b: int| 0 <= a < b < s.len() ==> (#[trigger] s[a]).code@ != (#[trigger] s[b]).code@
}

proof fn lemma_first_dtc_with_code(s: Seq<Dtc>, c: Seq<char>, k: int)
    requires
        0 <= k < s.len(),
        s[k].code@ == c,
        forall|j: int| 0 <= j < k ==> (#[trigger] s[j]).code@ != c,
    ensures
        first_dtc_with_code(s, c) == k,
{
    let f = first_dtc_with_code(s, c);
    assert(0 <= f < s.len() && s[f].code@ == c && forall|j: int| 0 <= j < f ==> (#[trigger] s[j]).code@ != c);
    if f < k {
        assert(s[f].code@ != c);
    } else if f > k {
        assert(s[k].code@ != c);
    }
}

proof fn lemma_first_in_unique(s: Seq<Dtc>, k: int)
    requires
        unique_codes(s),
        0 <= k < s.len(),
    ensures
        first_dtc_with_code(s, s[k].code@) == k,
{
    assert forall|j: int| 0 <= j < k implies (#[trigger] s[j]).code@ != s[k].code@ by {
        assert(s[j].code@ != s[k].code@);
    }
    lemma_first_dtc_with_code(s, s[k].code@, k);
}

proof fn lemma_has_code_step(s: Seq<Dtc>)
    requires
        s.len() > 0,
    ensures
        forall|c: Seq<char>| has_code(s, c) <==> has_code(s.drop_last(), c) || s.last().code@ == c,
{
    let s1 = s.drop_last();
    let l = s.last();
    assert forall|c: Seq<char>| has_code(s, c) <==> has_code(s1, c) || l.code@ == c by {
        if has_code(s, c) {
            let k = choose|k: int| 0 <= k < s.len() && (#[trigger] s[k]).code@ == c;
            if k < s1.len() {
                assert(s1[k] == s[k]);
            }
        }
        if has_code(s1, c) {
            let k = choose|k: int| 0 <= k < s1.len() && (#[trigger] s1[k]).code@ == c;
            assert(s[k] == s1[k]);
        }
        if l.code@ == c {
            assert(s[s.len() - 1] == l);
        }
    }
}

proof fn lemma_update_same_code(d1: Seq<Dtc>, k: int, l: Dtc)
    requires
        unique_codes(d1),
        0 <= k < d1.len(),
        d1[k].code@ == l.code@,
    ensures
        unique_codes(d1.update(k, l)),
        forall|c: Seq<char>| has_code(d1.update(k, l), c) <==> has_code(d1, c),
{
    let d = d1.update(k, l);
    assert forall|c: Seq<char>| has_code(d, c) <==> has_code(d1, c) by {
        if has_code(d, c) {
            let j = choose|j: int| 0 <= j < d.len() && (#[trigger] d[j]).code@ == c;
            if j == k {
                assert(d1[k].code@ == c);
            } else {
                assert(d1[j] == d[j]);
            }
        }
        if has_code(d1, c) {
            let j = choose|j: int| 0 <= j < d1.len() && (#[trigger] d1[j]).code@ == c;
            if j == k {
                assert(d[k].code@ == c);
            } else {
                assert(d1[j] == d[j]);
            }
        }
    }
    assert forall|a: int, b: int| 0 <= a < b < d.len() implies (#[trigger] d[a]).code@ != (#[trigger] d[b]).code@ by {
        assert(d[a].code@ == d1[a].code@);
        assert(d[b].code@ == d1[b].code@);
    }
}

proof fn lemma_push_new_code(d1: Seq<Dtc>, l: Dtc)
    requires
        unique_codes(d1),
        !has_code(d1, l.code@),
    ensures
        unique_codes(d1.push(l)),
        forall|c: Seq<char>| has_code(d1.push(l), c) <==> has_code(d1, c) || l.code@ == c,
{
    let d = d1.push(l);
    assert forall|c: Seq<char>| has_code(d, c) <==> has_code(d1, c) || l.code@ == c by {
        if has_code(d, c) {
            let k = choose|k: int| 0 <= k < d.len() && (#[trigger] d[k]).code@ == c;
            if k < d1.len() {
                assert(d[k] == d1[k]);
            }
        }
        if has_code(d1, c) {
            let k = choose|k: int| 0 <= k < d1.len() && (#[trigger] d1[k]).code@ == c;
            assert(d[k] == d1[k]);
        }
        if c == l.code@ {
            assert(d[d.len() - 1] == l);
        }
    }
    assert forall|a: int, b: int| 0 <= a < b < d.len() implies (#[trigger] d[a]).code@ != (#[trigger] d[b]).code@ by {
        if b == d1.len() {
            assert(d[a] == d1[a]);
            if d1[a].code@ == l.code@ {
                assert(has_code(d1, l.code@));
            }
        } else {
            assert(d[a] == d1[a] && d[b] == d1[b]);
        }
    }
}

proof fn lemma_dedup_codes(s: Seq<Dtc>)
    ensures
        unique_codes(dedup_by_code(s)),
        forall|c: Seq<char>| has_code(dedup_by_code(s), c) <==> has_code(s, c),
    decreases s.len(),
{
    if s.len() > 0 {
        let s1 = s.drop_last();
        let d1 = dedup_by_code(s1);
        lemma_dedup_codes(s1);
        lemma_has_code_step(s);
        let l = s.last();
        if has_code(d1, l.code@) {
            let k0 = choose|k: int| 0 <= k < d1.len() && (#[trigger] d1[k]).code@ == l.code@;
            lemma_first_in_unique(d1, k0);
            let k = first_dtc_with_code(d1, l.code@);
            if detail_count(l) > detail_count(d1[k]) {
                lemma_update_same_code(d1, k, l);
            }
        } else {
            lemma_push_new_code(d1, l);
        }
    }
}

/// Every kept DTC is one of the input's, and for each input DTC the kept
/// DTC with its code has at least as many descriptive fields set.
#[verifier::rlimit(60)]
proof fn lemma_dedup_keeps_most_detailed(s: Seq<Dtc>)
    ensures
        forall|k: int| 0 <= k < dedup_by_code(s).len() ==> s.contains(#[trigger] dedup_by_code(s)[k]),
        forall|i: int, k: int| 0 <= i < s.len() && 0 <= k < dedup_by_code(s).len()
            && (#[trigger] s[i]).code@ == (#[trigger] dedup_by_code(s)[k]).code@
            ==> detail_count(dedup_by_code(s)[k]) >= detail_count(s[i]),
    decreases s.len(),
{
    if s.len() > 0 {
        let s1 = s.drop_last();
        let d1 = dedup_by_code(s1);
        let d = dedup_by_code(s);
        let l = s.last();
        lemma_dedup_keeps_most_detailed(s1);
        lemma_dedup_codes(s1);
        lemma_dedup_codes(s);
        assert forall|k: int| 0 <= k < d.len() implies s.contains(#[trigger] d[k]) by {
            if d[k] == l {
                assert(s[s.len() - 1] == l);
            } else {
                assert(d[k] == d1[k]);
                assert(s1.contains(d1[k]));
                let j = choose|j: int| 0 <= j < s1.len() && s1[j] == d1[k];
                assert(s[j] == s1[j]);
            }
        }
        if has_code(d1, l.code@) {
            let k0 = choose|k: int| 0 <= k < d1.len() && (#[trigger] d1[k]).code@ == l.code@;
            lemma_first_in_unique(d1, k0);
        }
        assert forall|i: int, k: int| 0 <= i < s.len() && 0 <= k < d.len()
            && (#[trigger] s[i]).code@ == (#[trigger] d[k]).code@ implies detail_count(d[k]) >= detail_count(s[i]) by {
            if i < s1.len() {
                assert(s[i] == s1[i]);
                if k < d1.len() {
                    if d[k] == d1[k] {
                    } else {
                        assert(d[k] == l);
                        assert(detail_count(l) > detail_count(d1[k]));
                        assert(d1[k].code@ == d[k].code@);
                    }
                } else {
                    assert(d[k] == l);
                    assert(has_code(s1, s1[i].code@));
                    assert(has_code(d1, l.code@));
                }
            } else {
                assert(s[i] == l);
                if has_code(d1, l.code@) {
                    let kk = first_dtc_with_code(d1, l.code@);
                    if k != kk {
                        assert(d[k] == d1[k]);
                        assert(d1[k].code@ != d1[kk].code@);
                    }
                } else {
                    if k < d1.len() {
                        assert(d[k] == d1[k]);
                        assert(has_code(d1, l.code@));
                    }
                }
            }
        }
    }
}

proof fn lemma_dedup_of_unique(s: Seq<Dtc>)
    requires
        unique_codes(s),
    ensures
        dedup_by_code(s) == s,
    decreases s.len(),
{
    if s.len() > 0 {
        let s1 = s.drop_last();
        assert(unique_codes(s1)) by {
            assert forall|a: int, b: int| 0 <= a < b < s1.len() implies (#[trigger] s1[a]).code@ != (#[trigger] s1[b]).code@ by {
                assert(s1[a] == s[a] && s1[b] == s[b]);
            }
        }
        lemma_dedup_of_unique(s1);
        if has_code(s1, s.last().code@) {
            let k = choose|k: int| 0 <= k < s1.len() && (#[trigger] s1[k]).code@ == s.last().code@;
            assert(s[k] == s1[k]);
            assert(s[k].code@ != s[s.len() - 1].code@);
        }
        assert(s1.push(s.last()) =~= s);
    }
}

/// Deduplicating DTCs twice gives what deduplicating once gave.
pub proof fn lemma_dedup_idempotent(s: Seq<Dtc>)
    ensures
        dedup_by_code(dedup_by_code(s)) == dedup_by_code(s),
{
    lemma_dedup_codes(s);
    lemma_dedup_of_unique(dedup_by_code(s));
}

} // verus!
