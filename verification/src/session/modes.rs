//! Decoders for the OBD-II diagnostic modes read by a session: readiness
//! (Mode 01 PID 01), trouble codes (Modes 03/07/0A) and on-board test results
//! (Mode 06).

use vstd::prelude::*;
use crate::error::Obd2Error;
use crate::protocol::dtc::{Dtc, DtcStatus, code_of_bytes, category_of_byte, universal_description};
use crate::protocol::service::{MonitorStatus, ReadinessStatus};
use crate::text::{byte_hex_upper, decimal, opt_str_view, opt_string_view, push_byte_hex_upper, push_decimal};

verus! {

/// Whether bit `k` of `x` is set.
pub open spec fn bit(x: u8, k: u8) -> bool {
    (x >> k) & 1 == 1
}

/// Names of the compression-ignition (diesel) monitors, bit 0 first.
pub open spec fn diesel_monitor(k: int) -> &'static str {
    if k == 0 { "EGR/VVT System" }
    else if k == 1 { "Boost Pressure" }
    else if k == 2 { "NOx/SCR Monitor" }
    else if k == 3 { "NMHC Catalyst" }
    else if k == 4 { "Misfire" }
    else if k == 5 { "Fuel System" }
    else { "Comprehensive Component" }
}

/// Names of the spark-ignition (gasoline) monitors, bit 0 first.
pub open spec fn gasoline_monitor(k: int) -> &'static str {
    if k == 0 { "Catalyst" }
    else if k == 1 { "Heated Catalyst" }
    else if k == 2 { "EVAP System" }
    else if k == 3 { "Secondary Air" }
    else if k == 4 { "A/C Refrigerant" }
    else if k == 5 { "O2 Sensor" }
    else if k == 6 { "O2 Sensor Heater" }
    else { "EGR System" }
}

/// What a readiness response of at least four bytes says: MIL (bit 7 of A),
/// DTC count (bits 0-6 of A), compression ignition (bit 3 of B), and for each
/// monitor of the engine type, supported (bit k of C) and complete (bit k of
/// D clear).
pub open spec fn readiness_matches(data: Seq<u8>, r: ReadinessStatus) -> bool {
    let ci = data[1] & 0x08 != 0;
    let n: int = if ci { 7 } else { 8 };
    &&& r.mil_on == (data[0] & 0x80 != 0)
    &&& r.dtc_count == data[0] & 0x7F
    &&& r.compression_ignition == ci
    &&& r.monitors@.len() == n
    &&& forall|k: int| 0 <= k < n ==> {
        &&& (#[trigger] r.monitors@[k]).name@ == (if ci { diesel_monitor(k) } else { gasoline_monitor(k) })@
        &&& r.monitors@[k].supported == bit(data[2], k as u8)
        &&& r.monitors@[k].complete == !bit(data[3], k as u8)
    }
}

fn monitor_name(ci: bool, k: u8) -> (s: &'static str)
    requires
        k < 8,
    ensures
        s == (if ci { diesel_monitor(k as int) } else { gasoline_monitor(k as int) }),
{
    if ci {
        match k {
            0 => "EGR/VVT System",
            1 => "Boost Pressure",
            2 => "NOx/SCR Monitor",
            3 => "NMHC Catalyst",
            4 => "Misfire",
            5 => "Fuel System",
            _ => "Comprehensive Component",
        }
    } else {
        match k {
            0 => "Catalyst",
            1 => "Heated Catalyst",
            2 => "EVAP System",
            3 => "Secondary Air",
            4 => "A/C Refrigerant",
            5 => "O2 Sensor",
            6 => "O2 Sensor Heater",
            _ => "EGR System",
        }
    }
}

/// The error text for a readiness response that is too short.
pub open spec fn readiness_short_message(len: nat) -> Seq<char> {
    "readiness status needs 4 bytes, got "@ + decimal(len)
}

/// Decode readiness status from Mode 01 PID 01 response bytes.
pub fn decode_readiness(data: &[u8]) -> (r: Result<ReadinessStatus, Obd2Error>)
    ensures
        data.len() < 4 ==> (r matches Err(Obd2Error::ParseError(m))
            && m@ == readiness_short_message(data.len() as nat)),
        data.len() >= 4 ==> (r matches Ok(st) && readiness_matches(data@, st)),
{
    if data.len() < 4 {
        let mut m = String::from_str("readiness status needs 4 bytes, got ");
        push_decimal(&mut m, data.len() as u64);
        return Err(Obd2Error::ParseError(m));
    }
    let mil_on = (data[0] & 0x80) != 0;
    let dtc_count: u8 = data[0] & 0x7F;
    let compression_ignition = (data[1] & 0x08) != 0;
    let supported: u8 = data[2];
    let complete: u8 = data[3];
    let n: u8 = if compression_ignition { 7 } else { 8 };
    let mut monitors: Vec<MonitorStatus> = Vec::new();
    let mut k: u8 = 0;
    while k < n
        invariant
            n == (if compression_ignition { 7u8 } else { 8u8 }),
            supported == data@[2],
            complete == data@[3],
            k <= n,
            monitors@.len() == k,
            forall|j: int| 0 <= j < k ==> {
                &&& (#[trigger] monitors@[j]).name@ == (if compression_ignition { diesel_monitor(j) } else { gasoline_monitor(j) })@
                &&& monitors@[j].supported == bit(supported, j as u8)
                &&& monitors@[j].complete == !bit(complete, j as u8)
            },
        decreases n - k,
    {
        monitors.push(MonitorStatus {
            name: String::from_str(monitor_name(compression_ignition, k)),
            supported: (supported >> k) & 1 == 1,
            complete: (complete >> k) & 1 != 1,
        });
        k = k + 1;
    }
    let st = ReadinessStatus { mil_on, dtc_count, compression_ignition, monitors };
    proof {
        assert(readiness_matches(data@, st));
    }
    Ok(st)
}

/// The DTCs carried by a Mode 03/07/0A payload: one per byte pair, skipping
/// the all-zero padding pairs, each with the given status. A trailing odd byte
/// is ignored.
pub open spec fn dtc_pairs(data: Seq<u8>) -> Seq<(u8, u8)>
    decreases data.len(),
{
    if data.len() < 2 {
        Seq::empty()
    } else if data[0] == 0 && data[1] == 0 {
        dtc_pairs(data.subrange(2, data.len() as int))
    } else {
        seq![(data[0], data[1])] + dtc_pairs(data.subrange(2, data.len() as int))
    }
}

/// Splitting a response at an even offset splits its DTC byte pairs.
pub proof fn lemma_dtc_pairs_append(x: Seq<u8>, y: Seq<u8>)
    requires
        x.len() % 2 == 0,
    ensures
        dtc_pairs(x + y) == dtc_pairs(x) + dtc_pairs(y),
    decreases x.len(),
{
    if x.len() == 0 {
        assert(x + y =~= y);
        assert(dtc_pairs(x) =~= Seq::<(u8, u8)>::empty());
        assert(dtc_pairs(x) + dtc_pairs(y) =~= dtc_pairs(y));
    } else {
        let xy = x + y;
        let x2 = x.subrange(2, x.len() as int);
        lemma_dtc_pairs_append(x2, y);
        assert(xy.subrange(2, xy.len() as int) =~= x2 + y);
        assert(xy[0] == x[0] && xy[1] == x[1]);
        if x[0] == 0 && x[1] == 0 {
            assert(dtc_pairs(xy) == dtc_pairs(x2 + y));
            assert(dtc_pairs(x) == dtc_pairs(x2));
        } else {
            assert(dtc_pairs(xy) == seq![(x[0], x[1])] + dtc_pairs(x2 + y));
            assert(dtc_pairs(x) == seq![(x[0], x[1])] + dtc_pairs(x2));
            assert(seq![(x[0], x[1])] + (dtc_pairs(x2) + dtc_pairs(y)) =~= (seq![(x[0], x[1])] + dtc_pairs(x2))
                + dtc_pairs(y));
        }
    }
}

/// Whether `d` is the DTC decoded from the byte pair `p` with status `status`.
pub open spec fn decoded_dtc(d: Dtc, p: (u8, u8), status: DtcStatus) -> bool {
    &&& d.code@ == code_of_bytes(p.0, p.1)
    &&& d.category == category_of_byte(p.0)
    &&& d.status == status
    &&& opt_string_view(d.description) == opt_str_view(universal_description(d.code@))
    &&& d.severity is None
    &&& d.source_module is None
    &&& d.notes is None
}

proof fn lemma_dtc_pairs_step(data: Seq<u8>, i: int)
    requires
        0 <= i,
        i + 1 < data.len(),
    ensures
        dtc_pairs(data.subrange(i, data.len() as int)) == if data[i] == 0 && data[i + 1] == 0 {
            dtc_pairs(data.subrange(i + 2, data.len() as int))
        } else {
            seq![(data[i], data[i + 1])] + dtc_pairs(data.subrange(i + 2, data.len() as int))
        },
{
    let s = data.subrange(i, data.len() as int);
    assert(s.subrange(2, s.len() as int) =~= data.subrange(i + 2, data.len() as int));
}

/// Decode DTC bytes from a Mode 03/07/0A response.
pub fn decode_dtc_bytes(data: &[u8], status: DtcStatus) -> (r: Vec<Dtc>)
    ensures
        r@.len() == dtc_pairs(data@).len(),
        forall|k: int| 0 <= k < r@.len() ==> decoded_dtc(#[trigger] r@[k], dtc_pairs(data@)[k], status),
{
    let mut dtcs: Vec<Dtc> = Vec::new();
    let mut i: usize = 0;
    let ghost all = dtc_pairs(data@);
    proof {
        assert(data@.subrange(0, data@.len() as int) =~= data@);
    }
    while i < data.len() && data.len() - i >= 2
        invariant
            i <= data.len(),
            all == dtc_pairs(data@),
            all == Seq::new(dtcs@.len() as nat, |k: int| all[k]) + dtc_pairs(data@.subrange(i as int, data@.len() as int)),
            dtcs@.len() <= all.len(),
            forall|k: int| 0 <= k < dtcs@.len() ==> decoded_dtc(#[trigger] dtcs@[k], all[k], status),
        decreases data.len() - i,
    {
        proof {
            lemma_dtc_pairs_step(data@, i as int);
        }
        if data[i] == 0 && data[i + 1] == 0 {
            i = i + 2;
            continue;
        }
        let mut dtc = Dtc::from_bytes(data[i], data[i + 1]);
        dtc.status = status;
        proof {
            let rest = dtc_pairs(data@.subrange(i + 2, data@.len() as int));
            let before = Seq::new(dtcs@.len() as nat, |k: int| all[k]);
            assert(all == before + (seq![(data@[i as int], data@[i + 1])] + rest));
            assert(all[dtcs@.len() as int] == (data@[i as int], data@[i + 1]));
            let after = Seq::new((dtcs@.len() + 1) as nat, |k: int| all[k]);
            assert(after =~= before.push((data@[i as int], data@[i + 1])));
            assert(all =~= after + rest);
        }
        dtcs.push(dtc);
        i = i + 2;
    }
    proof {
        assert(dtc_pairs(data@.subrange(i as int, data@.len() as int)) =~= Seq::empty());
        assert(all =~= Seq::new(dtcs@.len() as nat, |k: int| all[k]));
    }
    dtcs
}

/// Raw Mode 06 test result: test id, `Test 0xHH` name, value and limits.
#[derive(Debug, Clone)]
pub struct TestResultRaw {
    pub test_id: u8,
    pub name: String,
    pub value: u16,
    pub min: u16,
    pub max: u16,
    pub passed: bool,
}

/// Big-endian word of two bytes.
pub open spec fn be_word(hi: u8, lo: u8) -> u16 {
    (256 * (hi as int) + lo as int) as u16
}

/// Whether `t` is the test result held by the eight bytes at `i`: TID, component
/// id, value, minimum, maximum (words big-endian); passed when the value lies
/// within the limits.
pub open spec fn test_result_at(data: Seq<u8>, i: int, t: TestResultRaw) -> bool {
    &&& t.test_id == data[i]
    &&& t.name@ == "Test 0x"@ + byte_hex_upper(data[i])
    &&& t.value == be_word(data[i + 2], data[i + 3])
    &&& t.min == be_word(data[i + 4], data[i + 5])
    &&& t.max == be_word(data[i + 6], data[i + 7])
    &&& t.passed == (t.min <= t.value && t.value <= t.max)
}

/// Decode Mode 06 on-board monitoring test results: one per complete group
/// of eight bytes.
pub fn decode_test_results(data: &[u8]) -> (r: Vec<TestResultRaw>)
    ensures
        r@.len() == data.len() / 8,
        forall|k: int| 0 <= k < r@.len() ==> test_result_at(data@, 8 * k, #[trigger] r@[k]),
{
    let mut results: Vec<TestResultRaw> = Vec::new();
    let mut i: usize = 0;
    while i + 7 < data.len()
        invariant
            i == 8 * results@.len(),
            i <= data.len(),
            forall|k: int| 0 <= k < results@.len() ==> test_result_at(data@, 8 * k, #[trigger] results@[k]),
        decreases data.len() - i,
    {
        let tid: u8 = data[i];
        let value: u16 = 256 * (data[i + 2] as u16) + (data[i + 3] as u16);
        let min: u16 = 256 * (data[i + 4] as u16) + (data[i + 5] as u16);
        let max: u16 = 256 * (data[i + 6] as u16) + (data[i + 7] as u16);
        let mut name = String::from_str("Test 0x");
        push_byte_hex_upper(&mut name, tid);
        results.push(TestResultRaw { test_id: tid, name, value, min, max, passed: value >= min && value <= max });
        i = i + 8;
    }
    results
}

/// The monitors of a decoded readiness response carry the SAE J1979 names of
/// their bits: for a compression-ignition engine the seven diesel monitors,
/// otherwise the eight spark-ignition monitors, bit 0 first.
pub proof fn lemma_readiness_monitor_names(data: Seq<u8>, r: ReadinessStatus)
    requires
        data.len() >= 4,
        readiness_matches(data, r),
    ensures
        r.compression_ignition ==> {
            &&& r.monitors@[0].name@ == "EGR/VVT System"@
            &&& r.monitors@[1].name@ == "Boost Pressure"@
            &&& r.monitors@[2].name@ == "NOx/SCR Monitor"@
            &&& r.monitors@[3].name@ == "NMHC Catalyst"@
            &&& r.monitors@[4].name@ == "Misfire"@
            &&& r.monitors@[5].name@ == "Fuel System"@
            &&& r.monitors@[6].name@ == "Comprehensive Component"@
        },
        !r.compression_ignition ==> {
            &&& r.monitors@[0].name@ == "Catalyst"@
            &&& r.monitors@[1].name@ == "Heated Catalyst"@
            &&& r.monitors@[2].name@ == "EVAP System"@
            &&& r.monitors@[3].name@ == "Secondary Air"@
            &&& r.monitors@[4].name@ == "A/C Refrigerant"@
            &&& r.monitors@[5].name@ == "O2 Sensor"@
            &&& r.monitors@[6].name@ == "O2 Sensor Heater"@
            &&& r.monitors@[7].name@ == "EGR System"@
        },
{
    assert(r.monitors@.len() >= 7);
    let ci = r.compression_ignition;
    assert(r.monitors@[0].name@ == (if ci { diesel_monitor(0) } else { gasoline_monitor(0) })@);
    assert(r.monitors@[1].name@ == (if ci { diesel_monitor(1) } else { gasoline_monitor(1) })@);
    assert(r.monitors@[2].name@ == (if ci { diesel_monitor(2) } else { gasoline_monitor(2) })@);
    assert(r.monitors@[3].name@ == (if ci { diesel_monitor(3) } else { gasoline_monitor(3) })@);
    assert(r.monitors@[4].name@ == (if ci { diesel_monitor(4) } else { gasoline_monitor(4) })@);
    assert(r.monitors@[5].name@ == (if ci { diesel_monitor(5) } else { gasoline_monitor(5) })@);
    assert(r.monitors@[6].name@ == (if ci { diesel_monitor(6) } else { gasoline_monitor(6) })@);
    if !ci {
        assert(r.monitors@[7].name@ == gasoline_monitor(7)@);
    }
}

} // verus!
