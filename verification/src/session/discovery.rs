//! Discovery profile resolution: which bus the selected protocol runs on and
//! which modules can be addressed there.

use vstd::prelude::*;
use crate::adapter::{copy_info, AdapterInfo, ProbeAttempt, ProtocolSelectionSource};
use crate::text::{opt_string_view, str_eq};
use crate::vehicle::{BusConfig, BusId, CommunicationSpec, Module, ModuleId, PhysicalAddress, Protocol};

verus! {

broadcast use vstd::string::group_string_axioms;

/// What discovery found: the adapter, the protocol and how it was chosen,
/// the active bus and the modules that can be addressed.
#[derive(Debug, Clone)]
pub struct DiscoveryProfile {
    pub adapter: AdapterInfo,
    pub selected_protocol: Protocol,
    pub protocol_choice_source: ProtocolSelectionSource,
    pub active_bus: Option<ResolvedBus>,
    /// The addressable modules, one per module id.
    pub modules: Vec<ResolvedModule>,
    pub probe_attempts: Vec<ProbeAttempt>,
    pub visible_ecus: Vec<VisibleEcu>,
}

/// The bus discovery settled on.
#[derive(Debug, Clone)]
pub struct ResolvedBus {
    pub id: BusId,
    pub protocol: Protocol,
    pub speed_bps: u32,
    pub description: Option<String>,
}

/// A module that can be addressed.
#[derive(Debug, Clone)]
pub struct ResolvedModule {
    pub id: ModuleId,
    pub name: String,
    pub bus: BusId,
    pub address: PhysicalAddress,
}

/// An ECU seen answering targeted requests.
#[derive(Debug, Clone, PartialEq, Eq)]
pub struct VisibleEcu {
    pub id: String,
    pub bus: Option<BusId>,
    pub module: Option<ModuleId>,
    pub address: Option<PhysicalAddress>,
    pub observation_count: u32,
}

/// Whether bus `i` is the first one running protocol `p`.
pub open spec fn first_bus_with_protocol(buses: Seq<BusConfig>, p: Protocol, i: int) -> bool {
    &&& 0 <= i < buses.len()
    &&& buses[i].protocol == p
    &&& forall|j: int| 0 <= j < i ==> (#[trigger] buses[j]).protocol != p
}

/// The bus the selected protocol runs on: the first bus with that protocol,
/// else the only bus when there is exactly one.
pub open spec fn active_bus_index(buses: Seq<BusConfig>, p: Protocol) -> Option<int> {
    if exists|i: int| first_bus_with_protocol(buses, p, i) {
        Some(choose|i: int| first_bus_with_protocol(buses, p, i))
    } else if buses.len() == 1 {
        Some(0)
    } else {
        None
    }
}

/// Whether `r` describes bus `b`.
pub open spec fn resolves_bus(r: ResolvedBus, b: BusConfig) -> bool {
    &&& r.id == b.id
    &&& r.protocol == b.protocol
    &&& r.speed_bps == b.speed_bps
    &&& r.description == b.description
}

/// Whether `r` describes module `m`.
pub open spec fn resolves_module(r: ResolvedModule, m: Module) -> bool {
    &&& r.id == m.id
    &&& r.name == m.name
    &&& r.bus == m.bus
    &&& r.address == m.address
}

/// Whether bus `i` is the first one with identifier `id`.
pub open spec fn first_bus_with_id(buses: Seq<BusConfig>, id: BusId, i: int) -> bool {
    &&& 0 <= i < buses.len()
    &&& buses[i].id.0@ == id.0@
    &&& forall|j: int| 0 <= j < i ==> (#[trigger] buses[j]).id.0@ != id.0@
}

/// The modules of all buses, bus by bus.
pub open spec fn all_modules(buses: Seq<BusConfig>) -> Seq<Module>
    decreases buses.len(),
{
    if buses.len() == 0 {
        Seq::empty()
    } else {
        all_modules(buses.drop_last()) + buses.last().modules@
    }
}

/// The modules discovery collects: those of the (first) bus with the active
/// bus's identifier, or those of every bus when no bus is active.
pub open spec fn module_sources(buses: Seq<BusConfig>, p: Protocol) -> Seq<Module> {
    match active_bus_index(buses, p) {
        Some(a) => {
            let f = choose|f: int| first_bus_with_id(buses, buses[a].id, f);
            buses[f].modules@
        },
        None => all_modules(buses),
    }
}

/// Whether module `i` is the last one with identifier `id` (the one a map
/// keyed by identifier keeps).
pub open spec fn last_with_id(src: Seq<Module>, id: ModuleId, i: int) -> bool {
    &&& 0 <= i < src.len()
    &&& src[i].id.0@ == id.0@
    &&& forall|j: int| i < j < src.len() ==> (#[trigger] src[j]).id.0@ != id.0@
}

/// Whether `out` maps each module identifier of `src` to the last module
/// with that identifier, and holds nothing else.
pub open spec fn keyed_by_id(out: Seq<ResolvedModule>, src: Seq<Module>) -> bool {
    &&& forall|k: int| 0 <= k < out.len() ==> exists|i: int|
        last_with_id(src, (#[trigger] out[k]).id, i) && resolves_module(out[k], src[i])
    &&& forall|i: int| 0 <= i < src.len() ==> exists|k: int| 0 <= k < out.len() && (#[trigger] out[k]).id.0@ == (#[trigger] src[i]).id.0@
    &&& forall|a: int, b: int| 0 <= a < b < out.len() ==> (#[trigger] out[a]).id.0@ != (#[trigger] out[b]).id.0@
}

/// The source of the chosen protocol: that of the last probe, else
/// automatic detection.
pub open spec fn choice_source(attempts: Seq<ProbeAttempt>) -> ProtocolSelectionSource {
    if attempts.len() > 0 {
        attempts.last().source
    } else {
        ProtocolSelectionSource::AutoDetect
    }
}

fn copy_string(s: &String) -> (r: String)
    ensures
        r == *s,
{
    s.clone()
}

fn copy_opt_string(s: &Option<String>) -> (r: Option<String>)
    ensures
        r == *s,
{
    match s {
        Some(x) => Some(x.clone()),
        None => None,
    }
}

pub(crate) fn copy_bus_id(b: &BusId) -> (r: BusId)
    ensures
        r == *b,
{
    BusId(b.0.clone())
}

pub(crate) fn copy_module_id(m: &ModuleId) -> (r: ModuleId)
    ensures
        r == *m,
{
    ModuleId(m.0.clone())
}

fn same_bus_id(a: &BusId, b: &BusId) -> (r: bool)
    ensures
        r == (a.0@ == b.0@),
{
    str_eq(a.0.as_str(), b.0.as_str())
}

fn same_module_id(a: &ModuleId, b: &ModuleId) -> (r: bool)
    ensures
        r == (a.0@ == b.0@),
{
    str_eq(a.0.as_str(), b.0.as_str())
}

fn to_resolved_bus(bus: &BusConfig) -> (r: ResolvedBus)
    ensures
        resolves_bus(r, *bus),
{
    ResolvedBus {
        id: copy_bus_id(&bus.id),
        protocol: bus.protocol,
        speed_bps: bus.speed_bps,
        description: copy_opt_string(&bus.description),
    }
}

fn copy_attempt(a: &ProbeAttempt) -> (r: ProbeAttempt)
    ensures
        r == *a,
{
    ProbeAttempt { protocol: a.protocol, source: a.source, result: a.result, detail: copy_opt_string(&a.detail) }
}

pub(crate) fn copy_visible(e: &VisibleEcu) -> (r: VisibleEcu)
    ensures
        r == *e,
{
    VisibleEcu {
        id: e.id.clone(),
        bus: match &e.bus {
            Some(b) => Some(copy_bus_id(b)),
            None => None,
        },
        module: match &e.module {
            Some(m) => Some(copy_module_id(m)),
            None => None,
        },
        address: e.address,
        observation_count: e.observation_count,
    }
}

/// The bus that the selected protocol runs on, described.
fn resolve_active_bus(protocol: Protocol, communication: Option<&CommunicationSpec>) -> (r: Option<ResolvedBus>)
    ensures
        communication is None ==> r is None,
        communication matches Some(c) ==> match active_bus_index(c.buses@, protocol) {
            None => r is None,
            Some(a) => r matches Some(b) && resolves_bus(b, c.buses@[a]),
        },
{
    let c = match communication {
        Some(c) => c,
        None => return None,
    };
    let mut i: usize = 0;
    while i < c.buses.len()
        invariant
            i <= c.buses.len(),
            communication == Some(c),
            forall|j: int| 0 <= j < i ==> (#[trigger] c.buses@[j]).protocol != protocol,
        decreases c.buses.len() - i,
    {
        if c.buses[i].protocol == protocol {
            proof {
                assert(first_bus_with_protocol(c.buses@, protocol, i as int));
                let k = choose|k: int| first_bus_with_protocol(c.buses@, protocol, k);
                if k < i {
                    assert(c.buses@[k].protocol != protocol);
                } else if k > i {
                    assert(c.buses@[i as int].protocol != protocol);
                }
                assert(active_bus_index(c.buses@, protocol) == Some(i as int));
            }
            return Some(to_resolved_bus(&c.buses[i]));
        }
        i = i + 1;
    }
    if c.buses.len() == 1 {
        Some(to_resolved_bus(&c.buses[0]))
    } else {
        None
    }
}

/// Insert a module, replacing the one with the same identifier.
fn collect_module(target: &mut Vec<ResolvedModule>, module: &Module, Ghost(src): Ghost<Seq<Module>>)
    requires
        keyed_by_id(old(target)@, src),
    ensures
        keyed_by_id(final(target)@, src.push(*module)),
{
    let rm = ResolvedModule {
        id: copy_module_id(&module.id),
        name: copy_string(&module.name),
        bus: copy_bus_id(&module.bus),
        address: module.address,
    };
    let ghost s2 = src.push(*module);
    let ghost n = src.len() as int;
    let mut k: usize = 0;
    while k < target.len()
        invariant
            k <= target.len(),
            target@ == old(target)@,
            s2 == src.push(*module),
            n == src.len(),
            keyed_by_id(old(target)@, src),
            rm.id == module.id && rm.name == module.name && rm.bus == module.bus && rm.address == module.address,
            forall|j: int| 0 <= j < k ==> (#[trigger] target@[j]).id.0@ != module.id.0@,
        decreases target.len() - k,
    {
        if same_module_id(&target[k].id, &module.id) {
            let ghost before = target@;
            target.set(k, rm);
            proof {
                let out = target@;
                assert(last_with_id(s2, module.id, n));
                assert forall|q: int| 0 <= q < out.len() implies exists|i: int|
                    last_with_id(s2, (#[trigger] out[q]).id, i) && resolves_module(out[q], s2[i]) by {
                    if q == k {
                        assert(last_with_id(s2, out[q].id, n) && resolves_module(out[q], s2[n]));
                    } else {
                        assert(out[q] == before[q]);
                        let i = choose|i: int| last_with_id(src, before[q].id, i) && resolves_module(before[q], src[i]);
                        assert(before[q].id.0@ != module.id.0@);
                        assert(last_with_id(s2, out[q].id, i));
                        assert(s2[i] == src[i]);
                    }
                }
                assert forall|i: int| 0 <= i < s2.len() implies exists|q: int| 0 <= q < out.len() && (#[trigger] out[q]).id.0@ == (#[trigger] s2[i]).id.0@ by {
                    if i == n {
                        assert(out[k as int].id == s2[i].id);
                    } else {
                        assert(s2[i] == src[i]);
                        let q = choose|q: int| 0 <= q < before.len() && (#[trigger] before[q]).id.0@ == (#[trigger] src[i]).id.0@;
                        assert(0 <= q < before.len());
                        assert(out == before.update(k as int, rm));
                        if q == k {
                            assert(out[q].id.0@ == module.id.0@);
                        } else {
                            assert(out[q] == before[q]);
                        }
                    }
                }
                assert forall|a: int, b: int| 0 <= a < b < out.len() implies (#[trigger] out[a]).id.0@ != (#[trigger] out[b]).id.0@ by {
                    if a == k {
                        assert(out[b] == before[b]);
                        assert(before[a].id.0@ == module.id.0@);
                    } else if b == k {
                        assert(out[a] == before[a]);
                        assert(before[b].id.0@ == module.id.0@);
                    } else {
                        assert(out[a] == before[a] && out[b] == before[b]);
                    }
                }
            }
            return;
        }
        k = k + 1;
    }
    let ghost before = target@;
    target.push(rm);
    proof {
        let out = target@;
        assert(last_with_id(s2, module.id, n));
        assert forall|q: int| 0 <= q < out.len() implies exists|i: int|
            last_with_id(s2, (#[trigger] out[q]).id, i) && resolves_module(out[q], s2[i]) by {
            if q == before.len() {
                assert(last_with_id(s2, out[q].id, n) && resolves_module(out[q], s2[n]));
            } else {
                assert(out[q] == before[q]);
                let i = choose|i: int| last_with_id(src, before[q].id, i) && resolves_module(before[q], src[i]);
                assert(before[q].id != module.id);
                assert(last_with_id(s2, out[q].id, i));
                assert(s2[i] == src[i]);
            }
        }
        assert forall|i: int| 0 <= i < s2.len() implies exists|q: int| 0 <= q < out.len() && (#[trigger] out[q]).id.0@ == (#[trigger] s2[i]).id.0@ by {
            if i == n {
                assert(out[before.len() as int].id == s2[i].id);
            } else {
                assert(s2[i] == src[i]);
                let q = choose|q: int| 0 <= q < before.len() && (#[trigger] before[q]).id.0@ == (#[trigger] src[i]).id.0@;
                assert(out[q] == before[q]);
            }
        }
        assert forall|a: int, b: int| 0 <= a < b < out.len() implies (#[trigger] out[a]).id.0@ != (#[trigger] out[b]).id.0@ by {
            if b == before.len() {
                assert(out[a] == before[a]);
            } else {
                assert(out[a] == before[a] && out[b] == before[b]);
            }
        }
    }
}

fn collect_modules(target: &mut Vec<ResolvedModule>, modules: &Vec<Module>, Ghost(src): Ghost<Seq<Module>>)
    requires
        keyed_by_id(old(target)@, src),
    ensures
        keyed_by_id(final(target)@, src + modules@),
{
    let mut i: usize = 0;
    proof {
        assert(src + modules@.take(0) =~= src);
    }
    while i < modules.len()
        invariant
            i <= modules.len(),
            keyed_by_id(target@, src + modules@.take(i as int)),
        decreases modules.len() - i,
    {
        collect_module(target, &modules[i], Ghost(src + modules@.take(i as int)));
        proof {
            assert((src + modules@.take(i as int)).push(modules@[i as int]) =~= src + modules@.take(i + 1));
        }
        i = i + 1;
    }
    proof {
        assert(modules@.take(modules.len() as int) =~= modules@);
    }
}

proof fn lemma_keyed_empty()
    ensures
        keyed_by_id(Seq::empty(), Seq::empty()),
{
}

/// The modules that can be addressed, keyed by identifier.
fn resolve_modules(communication: Option<&CommunicationSpec>, protocol: Protocol, active: bool) -> (r: Vec<ResolvedModule>)
    requires
        communication matches Some(c) ==> (active == active_bus_index(c.buses@, protocol) is Some),
    ensures
        communication is None ==> r@.len() == 0,
        communication matches Some(c) ==> keyed_by_id(r@, module_sources(c.buses@, protocol)),
{
    let mut modules: Vec<ResolvedModule> = Vec::new();
    let c = match communication {
        Some(c) => c,
        None => return modules,
    };
    proof {
        lemma_keyed_empty();
    }
    if active {
        let ghost a = active_bus_index(c.buses@, protocol)->0;
        let active_id = match resolve_active_bus(protocol, communication) {
            Some(b) => b.id,
            None => {
                return modules;
            },
        };
        let mut i: usize = 0;
        while i < c.buses.len()
            invariant
                i <= c.buses.len(),
                communication == Some(c),
                active_bus_index(c.buses@, protocol) == Some(a),
                0 <= a < c.buses@.len(),
                active_id == c.buses@[a].id,
                modules@.len() == 0,
                forall|j: int| 0 <= j < i ==> (#[trigger] c.buses@[j]).id.0@ != active_id.0@,
            decreases c.buses.len() - i,
        {
            if same_bus_id(&c.buses[i].id, &active_id) {
                proof {
                    assert(first_bus_with_id(c.buses@, active_id, i as int));
                    let f = choose|f: int| first_bus_with_id(c.buses@, c.buses@[a].id, f);
                    if f < i {
                        assert(c.buses@[f].id.0@ != active_id.0@);
                    } else if f > i {
                        assert(c.buses@[i as int].id.0@ != active_id.0@);
                    }
                    assert(Seq::<Module>::empty() + c.buses@[i as int].modules@ =~= c.buses@[i as int].modules@);
                }
                collect_modules(&mut modules, &c.buses[i].modules, Ghost(Seq::empty()));
                return modules;
            }
            i = i + 1;
        }
        proof {
            assert(c.buses@[a].id.0@ == active_id.0@);
        }
        modules
    } else {
        let mut i: usize = 0;
        proof {
            assert(c.buses@.take(0) =~= Seq::<BusConfig>::empty());
        }
        while i < c.buses.len()
            invariant
                i <= c.buses.len(),
                communication == Some(c),
                !active,
                active == active_bus_index(c.buses@, protocol) is Some,
                keyed_by_id(modules@, all_modules(c.buses@.take(i as int))),
            decreases c.buses.len() - i,
        {
            collect_modules(&mut modules, &c.buses[i].modules, Ghost(all_modules(c.buses@.take(i as int))));
            proof {
                assert(c.buses@.take(i + 1).drop_last() =~= c.buses@.take(i as int));
                assert(c.buses@.take(i + 1).last() == c.buses@[i as int]);
            }
            i = i + 1;
        }
        proof {
            assert(c.buses@.take(c.buses.len() as int) =~= c.buses@);
        }
        modules
    }
}

/// Resolve what discovery found: the adapter's protocol, the bus it runs on
/// (by protocol, or the only bus), the modules addressable there (all
/// modules when no bus is known), and how the protocol was chosen.
pub fn resolve_discovery_profile(
    adapter: &AdapterInfo,
    communication: Option<&CommunicationSpec>,
    probe_attempts: &[ProbeAttempt],
    visible_ecus: &[VisibleEcu],
) -> (p: DiscoveryProfile)
    ensures
        p.adapter.chipset == adapter.chipset,
        p.adapter.firmware@ == adapter.firmware@,
        p.adapter.protocol == adapter.protocol,
        p.adapter.capabilities == adapter.capabilities,
        p.selected_protocol == adapter.protocol,
        p.protocol_choice_source == choice_source(probe_attempts@),
        communication is None ==> p.active_bus is None && p.modules@.len() == 0,
        communication matches Some(c) ==> keyed_by_id(p.modules@, module_sources(c.buses@, adapter.protocol)),
        communication matches Some(c) ==> match active_bus_index(c.buses@, adapter.protocol) {
            None => p.active_bus is None,
            Some(a) => p.active_bus matches Some(b) && resolves_bus(b, c.buses@[a]),
        },
        p.probe_attempts@ == probe_attempts@,
        p.visible_ecus@ == visible_ecus@,
{
    let selected_protocol = adapter.protocol;
    let active_bus = resolve_active_bus(selected_protocol, communication);
    let modules = resolve_modules(communication, selected_protocol, active_bus.is_some());
    let protocol_choice_source = if probe_attempts.len() > 0 {
        probe_attempts[probe_attempts.len() - 1].source
    } else {
        ProtocolSelectionSource::AutoDetect
    };
    let mut attempts: Vec<ProbeAttempt> = Vec::new();
    let mut i: usize = 0;
    while i < probe_attempts.len()
        invariant
            i <= probe_attempts.len(),
            attempts@ == probe_attempts@.take(i as int),
        decreases probe_attempts.len() - i,
    {
        attempts.push(copy_attempt(&probe_attempts[i]));
        proof {
            assert(probe_attempts@.take(i + 1) =~= probe_attempts@.take(i as int).push(probe_attempts@[i as int]));
        }
        i = i + 1;
    }
    let mut ecus: Vec<VisibleEcu> = Vec::new();
    let mut k: usize = 0;
    while k < visible_ecus.len()
        invariant
            k <= visible_ecus.len(),
            ecus@ == visible_ecus@.take(k as int),
        decreases visible_ecus.len() - k,
    {
        ecus.push(copy_visible(&visible_ecus[k]));
        proof {
            assert(visible_ecus@.take(k + 1) =~= visible_ecus@.take(k as int).push(visible_ecus@[k as int]));
        }
        k = k + 1;
    }
    proof {
        assert(probe_attempts@.take(probe_attempts.len() as int) =~= probe_attempts@);
        assert(visible_ecus@.take(visible_ecus.len() as int) =~= visible_ecus@);
    }
    DiscoveryProfile {
        adapter: copy_info(adapter),
        selected_protocol,
        protocol_choice_source,
        active_bus,
        modules,
        probe_attempts: attempts,
        visible_ecus: ecus,
    }
}

} // verus!
