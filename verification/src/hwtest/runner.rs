//! Which test groups a hardware test run executes, and the transport
//! argument names.

use vstd::prelude::*;
use super::compare::join;
use crate::text::{first_index_of, index_of, str_chars, str_eq, string_from_chars, trim, trim_chars};

verus! {

broadcast use vstd::string::group_string_axioms;

/// Transport a hardware test runs over.
#[derive(Debug, Clone, Copy, PartialEq, Eq, Structural)]
pub enum TransportArg {
    Usb,
    Ble,
}

impl TransportArg {
    /// The argument's name.
    pub fn as_str(self) -> (s: &'static str)
        ensures
            s@ == match self {
                TransportArg::Usb => "usb"@,
                TransportArg::Ble => "ble"@,
            },
    {
        match self {
            TransportArg::Usb => "usb",
            TransportArg::Ble => "ble",
        }
    }
}

/// The pieces of `s` between commas (`split(',')`).
pub open spec fn comma_pieces(s: Seq<char>) -> Seq<Seq<char>>
    decreases s.len(),
{
    if s.contains(',') {
        let k = first_index_of(s, ',');
        if 0 <= k < s.len() {
            seq![s.take(k)] + comma_pieces(s.skip(k + 1))
        } else {
            seq![s]
        }
    } else {
        seq![s]
    }
}

/// The trimmed, nonempty pieces.
pub open spec fn named_pieces(pieces: Seq<Seq<char>>) -> Seq<Seq<char>>
    decreases pieces.len(),
{
    if pieces.len() == 0 {
        Seq::empty()
    } else if trim(pieces.last()).len() == 0 {
        named_pieces(pieces.drop_last())
    } else {
        named_pieces(pieces.drop_last()).push(trim(pieces.last()))
    }
}

/// The names that are not known groups.
pub open spec fn unknown_names(names: Seq<Seq<char>>, known: Seq<&str>) -> Seq<Seq<char>>
    decreases names.len(),
{
    if names.len() == 0 {
        Seq::empty()
    } else if exists|i: int| 0 <= i < known.len() && (#[trigger] known[i])@ == names.last() {
        unknown_names(names.drop_last(), known)
    } else {
        unknown_names(names.drop_last(), known).push(names.last())
    }
}

/// The group names of a `--only` value: comma-separated, trimmed, empty
/// names dropped.
pub open spec fn only_names(value: Seq<char>) -> Seq<Seq<char>> {
    named_pieces(comma_pieces(value))
}

fn split_commas(v: &Vec<char>) -> (r: Vec<Vec<char>>)
    ensures
        r@.len() == comma_pieces(v@).len(),
        forall|k: int| 0 <= k < r@.len() ==> (#[trigger] r@[k])@ == comma_pieces(v@)[k],
{
    let mut out: Vec<Vec<char>> = Vec::new();
    let ghost acc: Seq<Seq<char>> = Seq::empty();
    let mut rest: Vec<char> = crate::text::chars_range(v, 0, v.len());
    proof {
        assert(v@.subrange(0, v@.len() as int) =~= v@);
        assert(acc + comma_pieces(v@) =~= comma_pieces(v@));
    }
    loop
        invariant
            out@.len() == acc.len(),
            forall|k: int| 0 <= k < out@.len() ==> (#[trigger] out@[k])@ == acc[k],
            comma_pieces(v@) == acc + comma_pieces(rest@),
        decreases rest.len(),
    {
        let k = index_of(&rest, ',');
        if k < rest.len() {
            proof {
                assert(rest@.contains(','));
            }
            let piece = crate::text::chars_range(&rest, 0, k);
            let next = crate::text::chars_range(&rest, k + 1, rest.len());
            proof {
                assert(piece@ =~= rest@.take(k as int));
                assert(next@ =~= rest@.skip(k + 1));
                acc = acc.push(piece@);
                assert(comma_pieces(v@) =~= acc + comma_pieces(next@));
            }
            out.push(piece);
            rest = next;
        } else {
            proof {
                assert(!rest@.contains(','));
                acc = acc.push(rest@);
                assert(comma_pieces(v@) =~= acc);
            }
            out.push(rest);
            return out;
        }
    }
}

fn is_known(name: &Vec<char>, known: &[&str]) -> (r: bool)
    ensures
        r == exists|i: int| 0 <= i < known@.len() && (#[trigger] known@[i])@ == name@,
{
    let mut i: usize = 0;
    while i < known.len()
        invariant
            i <= known.len(),
            forall|j: int| 0 <= j < i ==> (#[trigger] known@[j])@ != name@,
        decreases known.len() - i,
    {
        let kc = str_chars(known[i]);
        if crate::text::chars_eq(&kc, name) {
            return true;
        }
        i = i + 1;
    }
    false
}

fn join_names(names: &Vec<Vec<char>>, Ghost(ns): Ghost<Seq<Seq<char>>>) -> (s: String)
    requires
        names@.len() == ns.len(),
        forall|k: int| 0 <= k < names@.len() ==> (#[trigger] names@[k])@ == ns[k],
    ensures
        s@ == join(ns, ", "@),
{
    let mut s = String::new();
    let mut i: usize = 0;
    while i < names.len()
        invariant
            i <= names.len(),
            names@.len() == ns.len(),
            forall|k: int| 0 <= k < names@.len() ==> (#[trigger] names@[k])@ == ns[k],
            s@ == join(ns.take(i as int), ", "@),
        decreases names.len() - i,
    {
        proof {
            assert(ns.take(i + 1).drop_last() =~= ns.take(i as int));
            assert(ns.take(i + 1).last() == ns[i as int]);
        }
        if i > 0 {
            s.append(", ");
        }
        let piece = string_from_chars(&names[i]);
        s.append(piece.as_str());
        proof {
            if i == 0 {
                assert(ns.take(1)[0] == ns[0]);
            }
        }
        i = i + 1;
    }
    proof {
        assert(ns.take(names.len() as int) =~= ns);
    }
    s
}

fn join_known(known: &[&str]) -> (s: String)
    ensures
        s@ == join(known@.map_values(|k: &str| k@), ", "@),
{
    let mut v: Vec<Vec<char>> = Vec::new();
    let mut i: usize = 0;
    while i < known.len()
        invariant
            i <= known.len(),
            v@.len() == i,
            forall|k: int| 0 <= k < i ==> (#[trigger] v@[k])@ == known@[k]@,
        decreases known.len() - i,
    {
        v.push(str_chars(known[i]));
        i = i + 1;
    }
    join_names(&v, Ghost(known@.map_values(|k: &str| k@)))
}

/// Parse the `--only` value against the known group names: no value, or
/// no names in it, selects every group; otherwise the names, which must all
/// be known (the error lists the unknown and the known ones).
pub fn parse_only_groups(value: Option<&str>, known: &[&str]) -> (r: Result<Option<Vec<String>>, String>)
    ensures
        value is None ==> r == Result::<Option<Vec<String>>, String>::Ok(None),
        value matches Some(v) ==> ({
            let names = only_names(v@);
            let unknown = unknown_names(names, known@);
            if names.len() == 0 {
                r == Result::<Option<Vec<String>>, String>::Ok(None)
            } else if unknown.len() > 0 {
                r matches Err(m) && m@ == "Unknown group(s): "@ + join(unknown, ", "@) + ". Known groups: "@
                    + join(known@.map_values(|k: &str| k@), ", "@)
            } else {
                r matches Ok(Some(gs)) && gs@.len() == names.len()
                    && forall|k: int| 0 <= k < gs@.len() ==> (#[trigger] gs@[k])@ == names[k]
            }
        }),
{
    let v = match value {
        Some(v) => v,
        None => return Ok(None),
    };
    let all = str_chars(v);
    let pieces = split_commas(&all);
    let ghost ps = comma_pieces(v@);
    let mut names: Vec<Vec<char>> = Vec::new();
    let mut unknown: Vec<Vec<char>> = Vec::new();
    let mut i: usize = 0;
    while i < pieces.len()
        invariant
            i <= pieces.len(),
            all@ == v@,
            pieces@.len() == ps.len(),
            ps == comma_pieces(v@),
            forall|k: int| 0 <= k < pieces@.len() ==> (#[trigger] pieces@[k])@ == ps[k],
            names@.len() == named_pieces(ps.take(i as int)).len(),
            forall|k: int| 0 <= k < names@.len() ==> (#[trigger] names@[k])@ == named_pieces(ps.take(i as int))[k],
            unknown@.len() == unknown_names(named_pieces(ps.take(i as int)), known@).len(),
            forall|k: int| 0 <= k < unknown@.len() ==> (#[trigger] unknown@[k])@ == unknown_names(named_pieces(ps.take(i as int)), known@)[k],
        decreases pieces.len() - i,
    {
        proof {
            assert(ps.take(i + 1).drop_last() =~= ps.take(i as int));
            assert(ps.take(i + 1).last() == ps[i as int]);
        }
        let t = trim_chars(&pieces[i]);
        if t.len() > 0 {
            let known_name = is_known(&t, known);
            let ghost nb = named_pieces(ps.take(i as int));
            proof {
                assert(named_pieces(ps.take(i + 1)) == nb.push(t@));
                assert(nb.push(t@).drop_last() =~= nb);
            }
            if !known_name {
                let t2 = crate::text::chars_range(&t, 0, t.len());
                unknown.push(t2);
            }
            names.push(t);
        }
        i = i + 1;
    }
    proof {
        assert(ps.take(pieces.len() as int) =~= ps);
    }
    if names.len() == 0 {
        return Ok(None);
    }
    if unknown.len() > 0 {
        let mut m = String::from_str("Unknown group(s): ");
        let u = join_names(&unknown, Ghost(unknown_names(only_names(v@), known@)));
        m.append(u.as_str());
        m.append(". Known groups: ");
        let k = join_known(known);
        m.append(k.as_str());
        return Err(m);
    }
    let mut out: Vec<String> = Vec::new();
    let mut j: usize = 0;
    while j < names.len()
        invariant
            j <= names.len(),
            out@.len() == j,
            forall|k: int| 0 <= k < j ==> (#[trigger] out@[k])@ == names@[k]@,
        decreases names.len() - j,
    {
        out.push(string_from_chars(&names[j]));
        j = j + 1;
    }
    Ok(Some(out))
}

/// What a run does with a test group.
#[derive(Debug, Clone, Copy, PartialEq, Eq)]
pub enum GroupDecision {
    /// Not among the selected groups: left out of the report.
    NotSelected,
    /// Skipped, with the reason recorded.
    Skip(&'static str),
    /// Run.
    Run,
}

/// What to do with a group: leave it out when a selection omits it, skip
/// it when it needs J1939, a matched spec or an interactive run that the
/// vehicle or run lacks (checked in that order), else run it.
pub fn group_decision(
    name: &str,
    only: Option<&[String]>,
    requires_j1939: bool,
    requires_spec_match: bool,
    requires_interactive: bool,
    has_j1939: bool,
    has_spec_match: bool,
    interactive: bool,
) -> (d: GroupDecision)
    ensures
        only matches Some(o) && !(exists|i: int| 0 <= i < o@.len() && (#[trigger] o@[i])@ == name@)
            ==> d == GroupDecision::NotSelected,
        !(only matches Some(o) && !(exists|i: int| 0 <= i < o@.len() && (#[trigger] o@[i])@ == name@)) ==> (
            if requires_j1939 && !has_j1939 {
                d matches GroupDecision::Skip(r) && r@ == "vehicle does not support J1939"@
            } else if requires_spec_match && !has_spec_match {
                d matches GroupDecision::Skip(r) && r@ == "vehicle does not have a matched spec"@
            } else if requires_interactive && !interactive {
                d matches GroupDecision::Skip(r) && r@ == "requires --interactive"@
            } else {
                d == GroupDecision::Run
            }),
{
    if let Some(o) = only {
        let mut found = false;
        let mut i: usize = 0;
        while i < o.len() && !found
            invariant
                i <= o.len(),
                found ==> exists|k: int| 0 <= k < o@.len() && (#[trigger] o@[k])@ == name@,
                !found ==> forall|k: int| 0 <= k < i ==> (#[trigger] o@[k])@ != name@,
            decreases o.len() - i,
        {
            if str_eq(o[i].as_str(), name) {
                found = true;
            }
            i = i + 1;
        }
        if !found {
            return GroupDecision::NotSelected;
        }
    }
    if requires_j1939 && !has_j1939 {
        GroupDecision::Skip("vehicle does not support J1939")
    } else if requires_spec_match && !has_spec_match {
        GroupDecision::Skip("vehicle does not have a matched spec")
    } else if requires_interactive && !interactive {
        GroupDecision::Skip("requires --interactive")
    } else {
        GroupDecision::Run
    }
}

} // verus!
