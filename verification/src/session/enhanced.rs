//! Enhanced PID lookups over a spec's enhanced PID list, and the parts of
//! formula decoding that work on whole numbers: bitmask flags and
//! enumerated labels.

use vstd::prelude::*;
use crate::text::{decimal, eq_ignore_ascii_case, push_decimal, str_chars};
use crate::vehicle::ModuleId;

verus! {

broadcast use vstd::string::group_string_axioms;

/// What lookups read of a spec's enhanced PID: its service, data identifier
/// and module.
#[derive(Debug, Clone)]
pub struct EnhancedPidKey {
    pub service_id: u8,
    pub did: u16,
    pub module: String,
}

/// Whether an enhanced PID belongs to a module (ignoring ASCII case).
pub open spec fn for_module(k: EnhancedPidKey, module: Seq<char>) -> bool {
    eq_ignore_ascii_case(k.module@, module)
}

fn key_for_module(k: &EnhancedPidKey, module: &ModuleId) -> (r: bool)
    ensures
        r == for_module(*k, module.0@),
{
    let a = str_chars(k.module.as_str());
    let b = str_chars(module.0.as_str());
    crate::text::chars_eq_ignore_ascii_case(&a, &b)
}

/// The positions of the enhanced PIDs of a module, in order.
pub fn list_module_pids(keys: &[EnhancedPidKey], module: &ModuleId) -> (r: Vec<usize>)
    ensures
        forall|j: int| 0 <= j < r@.len() ==> (#[trigger] r@[j]) < keys@.len() && for_module(keys@[r@[j] as int], module.0@),
        forall|j: int, k: int| 0 <= j < k < r@.len() ==> (#[trigger] r@[j]) < (#[trigger] r@[k]),
        forall|i: int| 0 <= i < keys@.len() && for_module(#[trigger] keys@[i], module.0@) ==> r@.contains(i as usize),
{
    let mut r: Vec<usize> = Vec::new();
    let mut i: usize = 0;
    while i < keys.len()
        invariant
            i <= keys.len(),
            forall|j: int| 0 <= j < r@.len() ==> (#[trigger] r@[j]) < i && for_module(keys@[r@[j] as int], module.0@),
            forall|j: int, k: int| 0 <= j < k < r@.len() ==> (#[trigger] r@[j]) < (#[trigger] r@[k]),
            forall|m: int| 0 <= m < i && for_module(#[trigger] keys@[m], module.0@) ==> r@.contains(m as usize),
        decreases keys.len() - i,
    {
        if key_for_module(&keys[i], module) {
            let ghost before = r@;
            r.push(i);
            proof {
                assert forall|m: int| 0 <= m < i + 1 && for_module(#[trigger] keys@[m], module.0@) implies r@.contains(m as usize) by {
                    if m < i {
                        let q = choose|q: int| 0 <= q < before.len() && before[q] == m as usize;
                        assert(r@[q] == before[q]);
                    } else {
                        assert(r@[before.len() as int] == i);
                    }
                }
            }
        } else {
            proof {
                assert forall|m: int| 0 <= m < i + 1 && for_module(#[trigger] keys@[m], module.0@) implies r@.contains(m as usize) by {
                    if m == i {
                        assert(false);
                    }
                }
            }
        }
        i = i + 1;
    }
    r
}

/// Whether key `i` is the first with this DID and module.
pub open spec fn first_key(keys: Seq<EnhancedPidKey>, did: u16, module: Seq<char>, i: int) -> bool {
    &&& 0 <= i < keys.len()
    &&& keys[i].did == did && for_module(keys[i], module)
    &&& forall|j: int| 0 <= j < i ==> !((#[trigger] keys[j]).did == did && for_module(keys[j], module))
}

/// The position of the enhanced PID with a DID on a module.
pub fn find_enhanced_pid(keys: &[EnhancedPidKey], did: u16, module: &ModuleId) -> (r: Option<usize>)
    ensures
        r matches Some(i) ==> first_key(keys@, did, module.0@, i as int),
        r is None ==> forall|i: int| 0 <= i < keys@.len() ==> !((#[trigger] keys@[i]).did == did
            && for_module(keys@[i], module.0@)),
{
    let mut i: usize = 0;
    while i < keys.len()
        invariant
            i <= keys.len(),
            forall|j: int| 0 <= j < i ==> !((#[trigger] keys@[j]).did == did && for_module(keys@[j], module.0@)),
        decreases keys.len() - i,
    {
        if keys[i].did == did && key_for_module(&keys[i], module) {
            return Some(i);
        }
        i = i + 1;
    }
    None
}

/// The service of an enhanced PID (0x21 on some makes): that of its entry,
/// Mode 22 when the spec has none.
pub fn find_service_id(keys: &[EnhancedPidKey], did: u16, module: &ModuleId) -> (s: u8)
    ensures
        (exists|i: int| first_key(keys@, did, module.0@, i)) ==> s == keys@[choose|i: int| first_key(keys@, did, module.0@, i)].service_id,
        !(exists|i: int| first_key(keys@, did, module.0@, i)) ==> s == 0x22,
{
    match find_enhanced_pid(keys, did, module) {
        Some(i) => {
            proof {
                let k = choose|k: int| first_key(keys@, did, module.0@, k);
                if k < i {
                    assert(!(keys@[k].did == did && for_module(keys@[k], module.0@)));
                } else if k > i {
                    assert(!(keys@[i as int].did == did && for_module(keys@[i as int], module.0@)));
                }
            }
            keys[i].service_id
        },
        None => {
            proof {
                if exists|i: int| first_key(keys@, did, module.0@, i) {
                    let k = choose|k: int| first_key(keys@, did, module.0@, k);
                    assert(keys@[k].did == did && for_module(keys@[k], module.0@));
                }
            }
            0x22
        },
    }
}

/// The raw value a bitmask formula reads: four bytes big-endian when there
/// are four, else two, else one.
pub open spec fn bitmask_value(data: Seq<u8>) -> u32 {
    if data.len() >= 4 {
        (data[0] * 16777216 + data[1] * 65536 + data[2] * 256 + data[3]) as u32
    } else if data.len() >= 2 {
        (data[0] * 256 + data[1]) as u32
    } else {
        data[0] as u32
    }
}

pub fn bitmask_raw(data: &[u8]) -> (r: u32)
    requires
        data@.len() > 0,
    ensures
        r == bitmask_value(data@),
{
    if data.len() >= 4 {
        (data[0] as u32) * 16777216 + (data[1] as u32) * 65536 + (data[2] as u32) * 256 + (data[3] as u32)
    } else if data.len() >= 2 {
        (data[0] as u32) * 256 + (data[1] as u32)
    } else {
        data[0] as u32
    }
}

/// Whether bit `bit` (0 = least significant) of `raw` is set.
pub fn bit_flag(raw: u32, bit: u8) -> (r: bool)
    requires
        bit < 32,
    ensures
        r == ((raw >> bit) & 1 == 1),
{
    (raw >> bit) & 1 == 1
}

/// Whether entry `i` is the first with key `key`.
pub open spec fn first_label(values: Seq<(u8, String)>, key: u8, i: int) -> bool {
    &&& 0 <= i < values.len()
    &&& values[i].0 == key
    &&& forall|j: int| 0 <= j < i ==> (#[trigger] values[j]).0 != key
}

/// The label of an enumerated value: that of the first entry with the key,
/// else `Unknown(<key>)`.
pub fn enumerated_label(values: &[(u8, String)], key: u8) -> (s: String)
    ensures
        (exists|i: int| first_label(values@, key, i)) ==> s@ == values@[choose|i: int| first_label(values@, key, i)].1@,
        !(exists|i: int| first_label(values@, key, i)) ==> s@ == "Unknown("@ + decimal(key as nat) + ")"@,
{
    let mut i: usize = 0;
    while i < values.len()
        invariant
            i <= values.len(),
            forall|j: int| 0 <= j < i ==> (#[trigger] values@[j]).0 != key,
        decreases values.len() - i,
    {
        if values[i].0 == key {
            proof {
                assert(first_label(values@, key, i as int));
                let k = choose|k: int| first_label(values@, key, k);
                if k < i {
                    assert(values@[k].0 != key);
                } else if k > i {
                    assert(values@[i as int].0 != key);
                }
            }
            return values[i].1.clone();
        }
        i = i + 1;
    }
    let mut s = String::from_str("Unknown(");
    push_decimal(&mut s, key as u64);
    s.append(")");
    proof {
        if exists|k: int| first_label(values@, key, k) {
            let k = choose|k: int| first_label(values@, key, k);
            assert(values@[k].0 == key);
        }
    }
    s
}

} // verus!
