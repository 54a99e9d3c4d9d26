//! Request routing: resolving a module to its physical address through the
//! discovery profile, and recording the ECUs that targeted requests reach.

use vstd::prelude::*;
use crate::adapter::{PhysicalTarget, RoutedRequest};
use crate::error::Obd2Error;
use crate::protocol::service::{ServiceRequest, Target};
use crate::text::{copy_bytes, decimal, push_decimal, str_eq};
use crate::vehicle::{BusId, CommunicationSpec, ModuleId, PhysicalAddress};
use super::discovery::{copy_bus_id, copy_module_id, DiscoveryProfile, ResolvedModule, VisibleEcu};

verus! {

broadcast use vstd::string::group_string_axioms;

/// Whether resolved module `i` is the first with identifier `module`.
pub open spec fn first_module(mods: Seq<ResolvedModule>, module: Seq<char>, i: int) -> bool {
    &&& 0 <= i < mods.len()
    &&& mods[i].id.0@ == module
    &&& forall|j: int| 0 <= j < i ==> (#[trigger] mods[j]).id.0@ != module
}

/// The outcome of resolving a module name: its address, or the error.
pub enum AddressOutcome {
    Found(PhysicalAddress),
    NoDiscovery,
    NotFound,
    WrongBus(Seq<char>),
}

/// How a module name resolves: it must be among the discovered modules and,
/// when a bus is active, on that bus.
pub open spec fn address_outcome(discovery: Option<DiscoveryProfile>, module: Seq<char>) -> AddressOutcome {
    match discovery {
        None => AddressOutcome::NoDiscovery,
        Some(d) => if exists|i: int| first_module(d.modules@, module, i) {
            let m = d.modules@[choose|i: int| first_module(d.modules@, module, i)];
            match d.active_bus {
                Some(b) => if m.bus.0@ != b.id.0@ {
                    AddressOutcome::WrongBus(m.bus.0@)
                } else {
                    AddressOutcome::Found(m.address)
                },
                None => AddressOutcome::Found(m.address),
            }
        } else {
            AddressOutcome::NotFound
        },
    }
}

/// Whether `r` is the result for outcome `o` of resolving `module`.
pub open spec fn gives_address(r: Result<PhysicalAddress, Obd2Error>, o: AddressOutcome, module: Seq<char>) -> bool {
    match o {
        AddressOutcome::Found(a) => r == Result::<PhysicalAddress, Obd2Error>::Ok(a),
        AddressOutcome::NoDiscovery => r matches Err(Obd2Error::Adapter(m)) && m@ == "no discovery profile available"@,
        AddressOutcome::NotFound => r matches Err(Obd2Error::ModuleNotFound(m)) && m@ == module,
        AddressOutcome::WrongBus(b) => r matches Err(Obd2Error::BusNotAvailable(m)) && m@ == b,
    }
}

/// Resolve a module name to its physical address.
pub fn resolve_module_address(discovery: Option<&DiscoveryProfile>, module: &str) -> (r: Result<PhysicalAddress, Obd2Error>)
    ensures
        gives_address(r, address_outcome(match discovery {
            Some(d) => Some(*d),
            None => None,
        }, module@), module@),
{
    let d = match discovery {
        Some(d) => d,
        None => return Err(Obd2Error::Adapter(String::from_str("no discovery profile available"))),
    };
    let mut i: usize = 0;
    while i < d.modules.len()
        invariant
            i <= d.modules.len(),
            discovery == Some(d),
            forall|j: int| 0 <= j < i ==> (#[trigger] d.modules@[j]).id.0@ != module@,
        decreases d.modules.len() - i,
    {
        if str_eq(d.modules[i].id.0.as_str(), module) {
            proof {
                assert(first_module(d.modules@, module@, i as int));
                let k = choose|k: int| first_module(d.modules@, module@, k);
                if k < i {
                    assert(d.modules@[k].id.0@ != module@);
                } else if k > i {
                    assert(d.modules@[i as int].id.0@ != module@);
                }
            }
            let resolved = &d.modules[i];
            if let Some(b) = &d.active_bus {
                if !str_eq(resolved.bus.0.as_str(), b.id.0.as_str()) {
                    return Err(Obd2Error::BusNotAvailable(resolved.bus.0.clone()));
                }
            }
            return Ok(resolved.address);
        }
        i = i + 1;
    }
    Err(Obd2Error::ModuleNotFound(String::from_str(module)))
}

/// Route a request: broadcast stays broadcast, a module target goes to the
/// module's resolved address.
pub fn resolve_request(discovery: Option<&DiscoveryProfile>, req: &ServiceRequest) -> (r: Result<RoutedRequest, Obd2Error>)
    ensures
        match req.target {
            Target::Broadcast => r matches Ok(rr) && rr.service_id == req.service_id && rr.data@ == req.data@
                && rr.target is Broadcast,
            Target::Module(m) => match address_outcome(match discovery {
                Some(d) => Some(*d),
                None => None,
            }, m@) {
                AddressOutcome::Found(a) => r matches Ok(rr) && rr.service_id == req.service_id
                    && rr.data@ == req.data@ && rr.target == PhysicalTarget::Addressed(a),
                o => r matches Err(e) && gives_address(Err(e), o, m@),
            },
        },
{
    let target = match &req.target {
        Target::Broadcast => PhysicalTarget::Broadcast,
        Target::Module(module) => match resolve_module_address(discovery, module.as_str()) {
            Ok(a) => PhysicalTarget::Addressed(a),
            Err(e) => return Err(e),
        },
    };
    Ok(RoutedRequest { service_id: req.service_id, data: copy_bytes(req.data.as_slice()), target })
}

/// The `{:?}` text of a physical address.
pub open spec fn address_debug(a: PhysicalAddress) -> Seq<char> {
    match a {
        PhysicalAddress::J1850 { node, header } => "J1850 { node: "@ + decimal(node as nat) + ", header: ["@
            + decimal(header@[0] as nat) + ", "@ + decimal(header@[1] as nat) + ", "@ + decimal(
            header@[2] as nat,
        ) + "] }"@,
        PhysicalAddress::Can11Bit { request_id, response_id } => "Can11Bit { request_id: "@ + decimal(
            request_id as nat,
        ) + ", response_id: "@ + decimal(response_id as nat) + " }"@,
        PhysicalAddress::Can29Bit { request_id, response_id } => "Can29Bit { request_id: "@ + decimal(
            request_id as nat,
        ) + ", response_id: "@ + decimal(response_id as nat) + " }"@,
        PhysicalAddress::J1939 { source_address } => "J1939 { source_address: "@ + decimal(
            source_address as nat,
        ) + " }"@,
    }
}

/// The `{:?}` text of a physical address.
pub fn address_text(a: &PhysicalAddress) -> (s: String)
    ensures
        s@ == address_debug(*a),
{
    let mut s = String::new();
    match a {
        PhysicalAddress::J1850 { node, header } => {
            s.append("J1850 { node: ");
            push_decimal(&mut s, *node as u64);
            s.append(", header: [");
            push_decimal(&mut s, header[0] as u64);
            s.append(", ");
            push_decimal(&mut s, header[1] as u64);
            s.append(", ");
            push_decimal(&mut s, header[2] as u64);
            s.append("] }");
        },
        PhysicalAddress::Can11Bit { request_id, response_id } => {
            s.append("Can11Bit { request_id: ");
            push_decimal(&mut s, *request_id as u64);
            s.append(", response_id: ");
            push_decimal(&mut s, *response_id as u64);
            s.append(" }");
        },
        PhysicalAddress::Can29Bit { request_id, response_id } => {
            s.append("Can29Bit { request_id: ");
            push_decimal(&mut s, *request_id as u64);
            s.append(", response_id: ");
            push_decimal(&mut s, *response_id as u64);
            s.append(" }");
        },
        PhysicalAddress::J1939 { source_address } => {
            s.append("J1939 { source_address: ");
            push_decimal(&mut s, *source_address as u64);
            s.append(" }");
        },
    }
    proof {
        assert(s@ =~= address_debug(*a));
    }
    s
}

fn same_address(a: &PhysicalAddress, b: &PhysicalAddress) -> (r: bool)
    ensures
        r == (*a == *b),
{
    match (a, b) {
        (PhysicalAddress::J1850 { node: n1, header: h1 }, PhysicalAddress::J1850 { node: n2, header: h2 }) => {
            let r = *n1 == *n2 && h1[0] == h2[0] && h1[1] == h2[1] && h1[2] == h2[2];
            proof {
                if r {
                    assert(h1@ =~= h2@);
                    assert(h1 == h2);
                }
            }
            r
        },
        (
            PhysicalAddress::Can11Bit { request_id: q1, response_id: p1 },
            PhysicalAddress::Can11Bit { request_id: q2, response_id: p2 },
        ) => *q1 == *q2 && *p1 == *p2,
        (
            PhysicalAddress::Can29Bit { request_id: q1, response_id: p1 },
            PhysicalAddress::Can29Bit { request_id: q2, response_id: p2 },
        ) => *q1 == *q2 && *p1 == *p2,
        (PhysicalAddress::J1939 { source_address: s1 }, PhysicalAddress::J1939 { source_address: s2 }) => *s1
            == *s2,
        _ => false,
    }
}

/// Whether module `m` of bus `b` is the first, bus by bus, with address `a`.
pub open spec fn first_with_address(c: CommunicationSpec, a: PhysicalAddress, b: int, m: int) -> bool {
    &&& 0 <= b < c.buses@.len()
    &&& 0 <= m < c.buses@[b].modules@.len()
    &&& c.buses@[b].modules@[m].address == a
    &&& forall|j: int| 0 <= j < m ==> (#[trigger] c.buses@[b].modules@[j]).address != a
    &&& forall|i: int, j: int| 0 <= i < b && 0 <= j < c.buses@[i].modules@.len()
        ==> (#[trigger] c.buses@[i].modules@[j]).address != a
}

/// The bus and module that own an address, from the vehicle's buses.
pub fn lookup_module_for_address(communication: Option<&CommunicationSpec>, address: &PhysicalAddress) -> (r: (Option<BusId>, Option<ModuleId>))
    ensures
        r == lookup_module_for_address_spec(communication, *address),
{
    let c = match communication {
        Some(c) => c,
        None => return (None, None),
    };
    let mut b: usize = 0;
    while b < c.buses.len()
        invariant
            b <= c.buses.len(),
            communication == Some(c),
            forall|i: int, j: int| 0 <= i < b && 0 <= j < c.buses@[i].modules@.len()
                ==> (#[trigger] c.buses@[i].modules@[j]).address != *address,
        decreases c.buses.len() - b,
    {
        let bus = &c.buses[b];
        let mut m: usize = 0;
        while m < bus.modules.len()
            invariant
                b < c.buses.len(),
                m <= bus.modules.len(),
                *bus == c.buses@[b as int],
                communication == Some(c),
                forall|i: int, j: int| 0 <= i < b && 0 <= j < c.buses@[i].modules@.len()
                    ==> (#[trigger] c.buses@[i].modules@[j]).address != *address,
                forall|j: int| 0 <= j < m ==> (#[trigger] bus.modules@[j]).address != *address,
            decreases bus.modules.len() - m,
        {
            if same_address(&bus.modules[m].address, address) {
                proof {
                    assert(first_with_address(*c, *address, b as int, m as int));
                    let (bb, mm) = choose|bb: int, mm: int| first_with_address(*c, *address, bb, mm);
                    if bb < b {
                        assert(c.buses@[bb].modules@[mm].address != *address);
                    } else if bb > b {
                        assert(c.buses@[b as int].modules@[m as int].address != *address);
                    } else if mm < m {
                        assert(bus.modules@[mm].address != *address);
                    } else if mm > m {
                        assert(c.buses@[bb].modules@[m as int].address != *address);
                    }
                }
                return (Some(copy_bus_id(&bus.id)), Some(copy_module_id(&bus.modules[m].id)));
            }
            m = m + 1;
        }
        b = b + 1;
    }
    (None, None)
}

/// Whether visible ECU `i` is the first one with identifier `id`.
pub open spec fn first_visible(vis: Seq<VisibleEcu>, id: Seq<char>, i: int) -> bool {
    &&& 0 <= i < vis.len()
    &&& vis[i].id@ == id
    &&& forall|j: int| 0 <= j < i ==> (#[trigger] vis[j]).id@ != id
}

/// Record the ECU a request targets: a known ECU (by the `{:?}` text of its
/// address) is counted once more, a new one is added with the bus and module
/// that own its address. Broadcast requests record nothing.
pub fn record_visible_target(
    visible: &mut Vec<VisibleEcu>,
    communication: Option<&CommunicationSpec>,
    target: &PhysicalTarget,
)
    requires
        target matches PhysicalTarget::Addressed(a) ==> forall|i: int|
            first_visible(old(visible)@, address_debug(*a), i) ==> old(visible)@[i].observation_count < u32::MAX,
    ensures
        match target {
            PhysicalTarget::Broadcast => final(visible)@ == old(visible)@,
            PhysicalTarget::Addressed(a) => if exists|i: int| first_visible(old(visible)@, address_debug(*a), i) {
                let i = choose|i: int| first_visible(old(visible)@, address_debug(*a), i);
                final(visible)@ == old(visible)@.update(i, VisibleEcu {
                    observation_count: (old(visible)@[i].observation_count + 1) as u32,
                    ..old(visible)@[i]
                })
            } else {
                &&& final(visible)@.len() == old(visible)@.len() + 1
                &&& final(visible)@.drop_last() == old(visible)@
                &&& final(visible)@.last().id@ == address_debug(*a)
                &&& final(visible)@.last().address == Some(*a)
                &&& final(visible)@.last().observation_count == 1
                &&& (final(visible)@.last().bus, final(visible)@.last().module) == lookup_module_for_address_spec(
                    communication, *a)
            },
        },
{
    let address = match target {
        PhysicalTarget::Broadcast => return,
        PhysicalTarget::Addressed(address) => address,
    };
    let id = address_text(address);
    let mut i: usize = 0;
    while i < visible.len()
        invariant
            i <= visible.len(),
            visible@ == old(visible)@,
            *target == PhysicalTarget::Addressed(*address),
            id@ == address_debug(*address),
            forall|j: int| first_visible(old(visible)@, address_debug(*address), j) ==> old(visible)@[j].observation_count < u32::MAX,
            forall|j: int| 0 <= j < i ==> (#[trigger] visible@[j]).id@ != id@,
        decreases visible.len() - i,
    {
        if str_eq(visible[i].id.as_str(), id.as_str()) {
            proof {
                assert(first_visible(old(visible)@, id@, i as int));
                let k = choose|k: int| first_visible(old(visible)@, id@, k);
                if k < i {
                    assert(visible@[k].id@ != id@);
                } else if k > i {
                    assert(visible@[i as int].id@ != id@);
                }
            }
            let mut e = copy_visible_ecu(&visible[i]);
            e.observation_count = e.observation_count + 1;
            visible.set(i, e);
            return;
        }
        i = i + 1;
    }
    let (bus, module) = lookup_module_for_address(communication, address);
    visible.push(VisibleEcu { id, bus, module, address: Some(*address), observation_count: 1 });
    proof {
        assert(visible@.drop_last() =~= old(visible)@);
    }
}

fn copy_visible_ecu(e: &VisibleEcu) -> (r: VisibleEcu)
    ensures
        r == *e,
{
    super::discovery::copy_visible(e)
}

/// The bus and module that own an address (see `lookup_module_for_address`).
pub open spec fn lookup_module_for_address_spec(communication: Option<&CommunicationSpec>, a: PhysicalAddress) -> (Option<BusId>, Option<ModuleId>) {
    match communication {
        None => (None, None),
        Some(c) => if exists|b: int, m: int| first_with_address(*c, a, b, m) {
            let (b, m) = choose|b: int, m: int| first_with_address(*c, a, b, m);
            (Some(c.buses@[b].id), Some(c.buses@[b].modules@[m].id))
        } else {
            (None, None)
        },
    }
}

} // verus!
