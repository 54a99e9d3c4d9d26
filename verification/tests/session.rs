use std::time::Duration;

use obd2_core::adapter::{
    AdapterEvent, AdapterEventKind, AdapterInfo, Capabilities, Chipset, PhysicalTarget,
    ProbeAttempt, ProbeResult, ProtocolSelectionSource,
};
use obd2_core::error::Obd2Error;
use obd2_core::protocol::dtc::{Dtc, DtcStatus, Severity};
use obd2_core::protocol::j1939::Pgn;
use obd2_core::protocol::pid::Pid;
use obd2_core::protocol::service::{
    ActuatorCommand, DiagSession, O2SensorLocation, ServiceRequest, Target,
};
use obd2_core::session::capture::{
    capture_file_name, capture_file_name_now, capture_transport_type, sanitize_capture_name,
};
use obd2_core::session::diag_session::{
    actuator_allowed, actuator_release_data, actuator_request_data, key_request_data,
    seed_needs_key, session_subfunction, state_for_session, unlock_module, SessionState,
};
use obd2_core::session::diagnostics::{active_rules, dedup_dtcs, enrich_dtcs, matching_issues};
use obd2_core::session::discovery::{
    resolve_discovery_profile, DiscoveryProfile, ResolvedBus, ResolvedModule, VisibleEcu,
};
use obd2_core::session::enhanced::{
    bit_flag, bitmask_raw, enumerated_label, find_enhanced_pid, find_service_id,
    list_module_pids, EnhancedPidKey,
};
use obd2_core::session::modes::{decode_dtc_bytes, decode_readiness, decode_test_results};
use obd2_core::session::poller::PollConfig;
use obd2_core::session::responses::{
    calibration_ids_from, cvns_from, ecu_name_from, o2_sensor_reading, pgn_request_bytes,
    printable_ascii, supported_pid_bitmap, vin_from_bytes,
};
use obd2_core::session::routing::{
    address_text, lookup_module_for_address, record_visible_target, resolve_module_address,
    resolve_request,
};
use obd2_core::session::state::{apply_adapter_event, apply_adapter_events};
use obd2_core::session::threshold::{did_threshold_name, pid_threshold_name};
use obd2_core::session::ConnectionState;
use obd2_core::vehicle::{
    BusConfig, BusId, CommunicationSpec, DiagnosticRule, DtcEntry, DtcLibrary, KLineInit,
    KnownIssue, Module, ModuleId, PhysicalAddress, Protocol, QuickTest, RuleAction, RuleTrigger,
};

// ── diag_session ───────────────────────────────────────────────────────

#[test]
fn test_session_state_default() {
    assert_eq!(SessionState::default(), SessionState::Default);
}

#[test]
fn test_session_transitions_and_security() {
    assert_eq!(session_subfunction(DiagSession::Default), 0x01);
    assert_eq!(session_subfunction(DiagSession::Programming), 0x02);
    assert_eq!(session_subfunction(DiagSession::Extended), 0x03);
    let mut state = state_for_session(DiagSession::Extended);
    assert_eq!(state, SessionState::Extended { unlocked_modules: vec![] });
    assert!(!actuator_allowed(&state, "ecm"));
    unlock_module(&mut state, "ecm");
    unlock_module(&mut state, "ecm");
    assert_eq!(state, SessionState::Extended { unlocked_modules: vec!["ecm".to_string()] });
    assert!(actuator_allowed(&state, "ecm"));
    assert!(!actuator_allowed(&state, "tcm"));
    let mut default = SessionState::Default;
    unlock_module(&mut default, "bcm");
    assert_eq!(default, SessionState::Extended { unlocked_modules: vec!["bcm".to_string()] });
    assert!(!actuator_allowed(&SessionState::Default, "ecm"));
}

#[test]
fn test_security_seed_and_key_data() {
    match seed_needs_key(&[]) {
        Err(Obd2Error::Adapter(m)) => assert_eq!(m, "empty seed from Mode 27"),
        other => panic!("unexpected: {other:?}"),
    }
    assert!(!seed_needs_key(&[0, 0]).unwrap());
    assert!(seed_needs_key(&[0, 7]).unwrap());
    assert_eq!(key_request_data(&[0xAB, 0xCD]), vec![0x02, 0xAB, 0xCD]);
}

#[test]
fn test_actuator_request_data() {
    assert_eq!(actuator_request_data(0x1234, &ActuatorCommand::ReturnToEcu), vec![0x12, 0x34, 0x00]);
    assert_eq!(actuator_request_data(0x1234, &ActuatorCommand::Activate), vec![0x12, 0x34, 0x03]);
    assert_eq!(
        actuator_request_data(0x1234, &ActuatorCommand::Adjust(vec![9, 8])),
        vec![0x12, 0x34, 0x03, 9, 8]
    );
    assert_eq!(actuator_release_data(0x00FF), vec![0x00, 0xFF, 0x00]);
}

// ── diagnostics ────────────────────────────────────────────────────────

fn dtc_library() -> DtcLibrary {
    DtcLibrary {
        ecm: vec![
            DtcEntry {
                code: "P0087".into(),
                meaning: "Fuel Rail Pressure Too Low".into(),
                severity: Severity::Critical,
                notes: Some("CP3 pump failure or fuel filter".into()),
                related_pids: None,
                category: None,
            },
            DtcEntry {
                code: "P0234".into(),
                meaning: "Turbo Overboost Condition".into(),
                severity: Severity::Critical,
                notes: Some("VGT vanes stuck closed".into()),
                related_pids: None,
                category: None,
            },
        ],
        tcm: vec![],
        bcm: vec![],
        network: vec![],
    }
}

fn diagnostic_rules() -> Vec<DiagnosticRule> {
    vec![
        DiagnosticRule {
            name: "P0700 TCM redirect".into(),
            trigger: RuleTrigger::DtcPresent("P0700".into()),
            action: RuleAction::QueryModule { module: "tcm".into(), service: 0x03 },
            description: "P0700 means query TCM directly for real DTCs".into(),
        },
        DiagnosticRule {
            name: "FICM check".into(),
            trigger: RuleTrigger::DtcRange("P0201".into(), "P0208".into()),
            action: RuleAction::CheckFirst {
                pid: 0x1100,
                module: "ficm".into(),
                reason: "Check FICM 48V before condemning injectors".into(),
            },
            description: "90% of injector circuit codes are FICM failures".into(),
        },
    ]
}

fn known_issues() -> Vec<KnownIssue> {
    vec![
        KnownIssue {
            rank: 1,
            name: "turbo_vane_sticking".into(),
            description: "VGT vanes stick from carbon buildup".into(),
            symptoms: vec!["P0234".into(), "P0299".into()],
            root_cause: "Carbon/soot in unison ring".into(),
            quick_test: Some(QuickTest {
                description: "Monitor VGT Position Error under load".into(),
                pass_criteria: "Error < 10%".into(),
            }),
            fix: "Remove turbo, clean unison ring".into(),
        },
        KnownIssue {
            rank: 2,
            name: "ficm_failure".into(),
            description: "FICM 48V capacitor bank degradation".into(),
            symptoms: vec!["P0201".into(), "P0611".into(), "P2146".into()],
            root_cause: "Internal capacitor failure".into(),
            quick_test: None,
            fix: "Replace or rebuild FICM".into(),
        },
    ]
}

#[test]
fn test_enrich_from_spec() {
    let lib = dtc_library();
    let mut dtcs = vec![Dtc::from_code("P0087")];
    enrich_dtcs(&mut dtcs, Some(&lib));
    assert_eq!(dtcs[0].description.as_deref(), Some("Fuel Rail Pressure Too Low"));
    assert_eq!(dtcs[0].severity, Some(Severity::Critical));
    assert!(dtcs[0].notes.is_some());
}

#[test]
fn test_enrich_fallback_universal() {
    let lib = dtc_library();
    let mut dtcs = vec![Dtc::from_code("P0420")];
    enrich_dtcs(&mut dtcs, Some(&lib));
    assert!(dtcs[0].description.is_some());
    assert!(dtcs[0].description.as_ref().unwrap().contains("Catalyst"));
}

#[test]
fn test_enrich_no_spec() {
    let mut dtcs = vec![Dtc::from_code("P0420")];
    enrich_dtcs(&mut dtcs, None);
    assert!(dtcs[0].description.is_some());
}

#[test]
fn test_enrich_keeps_existing_description() {
    let mut d = Dtc::from_code("P9999");
    d.description = Some("custom".into());
    let mut dtcs = vec![d];
    enrich_dtcs(&mut dtcs, None);
    assert_eq!(dtcs[0].description.as_deref(), Some("custom"));
    assert!(dtcs[0].severity.is_none());
}

#[test]
fn test_active_rules_p0700() {
    let rules = diagnostic_rules();
    let dtcs = vec![Dtc::from_code("P0700")];
    let fired = active_rules(&dtcs, Some(&rules[..]));
    assert_eq!(fired.len(), 1);
    assert_eq!(fired[0].name, "P0700 TCM redirect");
}

#[test]
fn test_active_rules_injector_range() {
    let rules = diagnostic_rules();
    let dtcs = vec![Dtc::from_code("P0204")];
    let fired = active_rules(&dtcs, Some(&rules[..]));
    assert_eq!(fired.len(), 1);
    assert_eq!(fired[0].name, "FICM check");
}

#[test]
fn test_active_rules_none() {
    let rules = diagnostic_rules();
    let dtcs = vec![Dtc::from_code("P0420")];
    let fired = active_rules(&dtcs, Some(&rules[..]));
    assert!(fired.is_empty());
}

#[test]
fn test_active_rules_range_bounds_and_order() {
    let rules = diagnostic_rules();
    let dtcs = vec![Dtc::from_code("P0208"), Dtc::from_code("P0700")];
    let fired = active_rules(&dtcs, Some(&rules[..]));
    assert_eq!(fired.len(), 2);
    assert_eq!(fired[0].name, "P0700 TCM redirect");
    assert_eq!(fired[1].name, "FICM check");
    assert!(active_rules(&[Dtc::from_code("P0209")], Some(&rules[..])).is_empty());
    assert!(active_rules(&dtcs, None).is_empty());
}

#[test]
fn test_matching_issues_turbo() {
    let issues = known_issues();
    let dtcs = vec![Dtc::from_code("P0234")];
    let found = matching_issues(&dtcs, Some(&issues[..]));
    assert_eq!(found.len(), 1);
    assert_eq!(found[0].name, "turbo_vane_sticking");
}

#[test]
fn test_matching_issues_ficm() {
    let issues = known_issues();
    let dtcs = vec![Dtc::from_code("P0201")];
    let found = matching_issues(&dtcs, Some(&issues[..]));
    assert_eq!(found.len(), 1);
    assert_eq!(found[0].name, "ficm_failure");
}

#[test]
fn test_matching_issues_multiple() {
    let issues = known_issues();
    let dtcs = vec![Dtc::from_code("P0234"), Dtc::from_code("P0201")];
    let found = matching_issues(&dtcs, Some(&issues[..]));
    assert_eq!(found.len(), 2);
    assert_eq!(found[0].rank, 1);
}

#[test]
fn test_matching_issues_no_match() {
    let issues = known_issues();
    let dtcs = vec![Dtc::from_code("P0420")];
    let found = matching_issues(&dtcs, Some(&issues[..]));
    assert!(found.is_empty());
}

#[test]
fn test_matching_issues_sorted_by_rank() {
    let mut issues = known_issues();
    issues.reverse();
    let dtcs = vec![Dtc::from_code("P0611"), Dtc::from_code("P0299")];
    let found = matching_issues(&dtcs, Some(&issues[..]));
    let ranks: Vec<u8> = found.iter().map(|i| i.rank).collect();
    assert_eq!(ranks, vec![1, 2]);
}

#[test]
fn test_dedup_dtcs() {
    let mut dtcs = vec![
        Dtc::from_code("P0420"),
        Dtc::from_code("P0171"),
        Dtc::from_code("P0420"),
    ];
    dedup_dtcs(&mut dtcs);
    assert_eq!(dtcs.len(), 2);
}

#[test]
fn test_dedup_dtcs_keeps_every_code_once() {
    let mut dtcs = vec![
        Dtc::from_code("P0420"),
        Dtc::from_code("P0171"),
        Dtc::from_code("P0420"),
        Dtc::from_code("P0171"),
        Dtc::from_code("U0100"),
    ];
    dedup_dtcs(&mut dtcs);
    let mut codes: Vec<String> = dtcs.iter().map(|d| d.code.clone()).collect();
    codes.sort();
    assert_eq!(codes, vec!["P0171", "P0420", "U0100"]);
}

#[test]
fn test_dedup_dtcs_keeps_most_informative() {
    let bare = Dtc { code: "P0420".into(), ..Default::default() };
    let mut dtcs = vec![bare, Dtc::from_code("P0171"), Dtc::from_code("P0420")];
    dedup_dtcs(&mut dtcs);
    assert_eq!(dtcs.len(), 2);
    assert_eq!(dtcs[0].code, "P0420");
    assert!(dtcs[0].description.is_some());
    assert_eq!(dtcs[1].code, "P0171");
    // On a tie the earlier one stays.
    let mut first = Dtc::from_code("P0300");
    first.notes = Some("first".into());
    let mut second = Dtc::from_code("P0300");
    second.notes = Some("second".into());
    let mut tie = vec![first, second];
    dedup_dtcs(&mut tie);
    assert_eq!(tie.len(), 1);
    assert_eq!(tie[0].notes.as_deref(), Some("first"));
}

// ── modes ──────────────────────────────────────────────────────────────

#[test]
fn test_decode_readiness_diesel() {
    let data = [0x00, 0x08, 0x37, 0x00];
    let status = decode_readiness(&data).unwrap();
    assert!(!status.mil_on);
    assert_eq!(status.dtc_count, 0);
    assert!(status.compression_ignition);
    assert!(!status.monitors.is_empty());
}

#[test]
fn test_decode_readiness_gasoline() {
    let data = [0x82, 0x07, 0xFF, 0x00];
    let status = decode_readiness(&data).unwrap();
    assert!(status.mil_on);
    assert_eq!(status.dtc_count, 2);
    assert!(!status.compression_ignition);
}

#[test]
fn test_decode_readiness_mil_on() {
    let data = [0x81, 0x00, 0x00, 0x00];
    let status = decode_readiness(&data).unwrap();
    assert!(status.mil_on);
    assert_eq!(status.dtc_count, 1);
}

#[test]
fn test_decode_readiness_insufficient_bytes() {
    let data = [0x00, 0x00];
    assert!(decode_readiness(&data).is_err());
}

#[test]
fn test_decode_readiness_short_message() {
    match decode_readiness(&[0x00, 0x00]) {
        Err(Obd2Error::ParseError(m)) => assert_eq!(m, "readiness status needs 4 bytes, got 2"),
        other => panic!("unexpected: {other:?}"),
    }
}

#[test]
fn test_decode_dtc_bytes() {
    let data = [0x04, 0x20, 0x01, 0x71];
    let dtcs = decode_dtc_bytes(&data, DtcStatus::Stored);
    assert_eq!(dtcs.len(), 2);
    assert_eq!(dtcs[0].code, "P0420");
    assert_eq!(dtcs[1].code, "P0171");
    assert_eq!(dtcs[0].status, DtcStatus::Stored);
}

#[test]
fn test_decode_dtc_bytes_with_padding() {
    let data = [0x04, 0x20, 0x00, 0x00, 0x01, 0x71];
    let dtcs = decode_dtc_bytes(&data, DtcStatus::Pending);
    assert_eq!(dtcs.len(), 2);
    assert_eq!(dtcs[1].status, DtcStatus::Pending);
}

#[test]
fn test_decode_readiness_gasoline_monitors_count() {
    let data = [0x00, 0x00, 0xFF, 0x00];
    let status = decode_readiness(&data).unwrap();
    assert_eq!(status.monitors.len(), 8);
    for m in &status.monitors {
        assert!(m.supported);
        assert!(m.complete);
    }
}

#[test]
fn test_decode_readiness_diesel_monitors_count() {
    let data = [0x00, 0x08, 0x7F, 0x00];
    let status = decode_readiness(&data).unwrap();
    assert_eq!(status.monitors.len(), 7);
}

#[test]
fn test_decode_readiness_incomplete_monitors() {
    let data = [0x00, 0x00, 0x0F, 0x03];
    let status = decode_readiness(&data).unwrap();
    let catalyst = &status.monitors[0];
    assert!(catalyst.supported);
    assert!(!catalyst.complete);
    let heated_cat = &status.monitors[1];
    assert!(heated_cat.supported);
    assert!(!heated_cat.complete);
    let evap = &status.monitors[2];
    assert!(evap.supported);
    assert!(evap.complete);
    assert_eq!(evap.name, "EVAP System");
}

#[test]
fn test_decode_dtc_bytes_empty() {
    let data: [u8; 0] = [];
    let dtcs = decode_dtc_bytes(&data, DtcStatus::Stored);
    assert!(dtcs.is_empty());
}

#[test]
fn test_decode_dtc_bytes_all_padding() {
    let data = [0x00, 0x00, 0x00, 0x00];
    let dtcs = decode_dtc_bytes(&data, DtcStatus::Stored);
    assert!(dtcs.is_empty());
}

#[test]
fn test_decode_dtc_bytes_odd_trailing_byte() {
    let dtcs = decode_dtc_bytes(&[0x04, 0x20, 0x01], DtcStatus::Permanent);
    assert_eq!(dtcs.len(), 1);
    assert_eq!(dtcs[0].status, DtcStatus::Permanent);
}

#[test]
fn test_decode_test_results() {
    let data = [0x01, 0x10, 0x00, 0x64, 0x00, 0x32, 0x00, 0x96];
    let results = decode_test_results(&data);
    assert_eq!(results.len(), 1);
    assert_eq!(results[0].test_id, 0x01);
    assert_eq!(results[0].value, 100);
    assert_eq!(results[0].min, 50);
    assert_eq!(results[0].max, 150);
    assert!(results[0].passed);
    assert_eq!(results[0].name, "Test 0x01");
}

#[test]
fn test_decode_test_results_failed_and_partial() {
    let data = [0x0A, 0x10, 0x00, 0xC8, 0x00, 0x32, 0x00, 0x96, 0x0B, 0x00];
    let results = decode_test_results(&data);
    assert_eq!(results.len(), 1);
    assert!(!results[0].passed);
    assert_eq!(results[0].name, "Test 0x0A");
}

#[test]
fn test_o2_sensor_location_display() {
    assert_eq!(O2SensorLocation::Bank1Sensor1.to_string(), "B1S1");
    assert_eq!(O2SensorLocation::Bank2Sensor2.to_string(), "B2S2");
}

#[test]
fn test_o2_sensor_location_from_byte() {
    assert_eq!(O2SensorLocation::from_byte(0x01), Some(O2SensorLocation::Bank1Sensor1));
    assert_eq!(O2SensorLocation::from_byte(0x08), Some(O2SensorLocation::Bank4Sensor2));
    assert_eq!(O2SensorLocation::from_byte(0x00), None);
    assert_eq!(O2SensorLocation::from_byte(0x09), None);
}

// ── poller ─────────────────────────────────────────────────────────────

#[test]
fn test_poll_config_defaults() {
    let config = PollConfig::new(vec![Pid::ENGINE_RPM(), Pid::VEHICLE_SPEED()]);
    assert_eq!(config.pids.len(), 2);
    assert_eq!(config.interval, Duration::from_millis(250));
    assert!(config.read_voltage);
}

#[test]
fn test_poll_config_builder() {
    let config = PollConfig::new(vec![Pid::ENGINE_RPM()])
        .with_interval(Duration::from_millis(500))
        .with_voltage(false);
    assert_eq!(config.interval, Duration::from_millis(500));
    assert!(!config.read_voltage);
}

// ── discovery and routing ──────────────────────────────────────────────

fn communication() -> CommunicationSpec {
    CommunicationSpec {
        buses: vec![
            BusConfig {
                id: BusId("j1850vpw".into()),
                protocol: Protocol::J1850Vpw,
                speed_bps: 10400,
                modules: vec![
                    Module {
                        id: ModuleId::new("ecm"),
                        name: "Engine Control Module".into(),
                        address: PhysicalAddress::J1850 { node: 0x10, header: [0x6C, 0x10, 0xF1] },
                        bus: BusId("j1850vpw".into()),
                    },
                    Module {
                        id: ModuleId::new("tcm"),
                        name: "Transmission Control Module".into(),
                        address: PhysicalAddress::J1850 { node: 0x18, header: [0x6C, 0x18, 0xF1] },
                        bus: BusId("j1850vpw".into()),
                    },
                ],
                description: Some("Class 2".into()),
            },
            BusConfig {
                id: BusId("can".into()),
                protocol: Protocol::Can11Bit500,
                speed_bps: 500_000,
                modules: vec![Module {
                    id: ModuleId::new("abs"),
                    name: "ABS".into(),
                    address: PhysicalAddress::Can11Bit { request_id: 0x760, response_id: 0x768 },
                    bus: BusId("can".into()),
                }],
                description: Some("CAN".into()),
            },
        ],
        elm327_protocol_code: Some("2".into()),
    }
}

fn adapter_info(protocol: Protocol) -> AdapterInfo {
    AdapterInfo {
        chipset: Chipset::Stn,
        firmware: "STN".into(),
        protocol,
        capabilities: Capabilities {
            can_clear_dtcs: true,
            dual_can: true,
            enhanced_diag: true,
            battery_voltage: true,
            adaptive_timing: true,
            kline_init: true,
            kline_wakeup: true,
            can_filtering: true,
            can_flow_control: true,
            can_extended_addressing: true,
            can_silent_mode: true,
        },
    }
}

fn has_module(profile: &DiscoveryProfile, id: &str) -> bool {
    profile.modules.iter().any(|m| m.id == ModuleId::new(id))
}

#[test]
fn test_resolve_profile_without_spec_has_adapter_only() {
    let profile = resolve_discovery_profile(&adapter_info(Protocol::Can11Bit500), None, &[], &[]);
    assert_eq!(profile.selected_protocol, Protocol::Can11Bit500);
    assert!(profile.active_bus.is_none());
    assert!(profile.modules.is_empty());
}

#[test]
fn test_resolve_profile_matches_bus_by_protocol() {
    let comm = communication();
    let profile = resolve_discovery_profile(&adapter_info(Protocol::J1850Vpw), Some(&comm), &[], &[]);
    assert_eq!(profile.active_bus.as_ref().unwrap().id.0, "j1850vpw");
    assert!(has_module(&profile, "ecm"));
    assert!(has_module(&profile, "tcm"));
    assert!(!has_module(&profile, "abs"));
}

#[test]
fn test_resolve_profile_falls_back_to_single_bus() {
    let mut comm = communication();
    comm.buses = vec![BusConfig {
        id: BusId("kline".into()),
        protocol: Protocol::Iso9141(KLineInit::SlowInit),
        speed_bps: 10400,
        modules: vec![],
        description: None,
    }];
    let profile = resolve_discovery_profile(&adapter_info(Protocol::Auto), Some(&comm), &[], &[]);
    assert_eq!(profile.active_bus.as_ref().unwrap().id.0, "kline");
}

#[test]
fn test_resolve_profile_collects_all_modules_when_bus_unknown() {
    let comm = communication();
    let profile = resolve_discovery_profile(&adapter_info(Protocol::Auto), Some(&comm), &[], &[]);
    assert!(profile.active_bus.is_none());
    assert_eq!(profile.modules.len(), 3);
}

#[test]
fn test_resolve_profile_choice_source() {
    let auto = ProbeAttempt {
        protocol: Protocol::Auto,
        source: ProtocolSelectionSource::AutoDetect,
        result: ProbeResult::NoResponse,
        detail: None,
    };
    let explicit = ProbeAttempt {
        protocol: Protocol::Can11Bit500,
        source: ProtocolSelectionSource::ExplicitProbe,
        result: ProbeResult::Success,
        detail: None,
    };
    let info = adapter_info(Protocol::Can11Bit500);
    let p = resolve_discovery_profile(&info, None, &[auto.clone(), explicit.clone()], &[]);
    assert_eq!(p.protocol_choice_source, ProtocolSelectionSource::ExplicitProbe);
    assert_eq!(p.probe_attempts.len(), 2);
    let p = resolve_discovery_profile(&info, None, &[], &[]);
    assert_eq!(p.protocol_choice_source, ProtocolSelectionSource::AutoDetect);
}

fn profile_with_tcm_on_can() -> DiscoveryProfile {
    DiscoveryProfile {
        adapter: AdapterInfo {
            chipset: Chipset::Stn,
            firmware: "test".into(),
            protocol: Protocol::J1850Vpw,
            capabilities: Capabilities::default(),
        },
        selected_protocol: Protocol::J1850Vpw,
        protocol_choice_source: ProtocolSelectionSource::AutoDetect,
        active_bus: Some(ResolvedBus {
            id: BusId("j1850vpw".into()),
            protocol: Protocol::J1850Vpw,
            speed_bps: 10400,
            description: None,
        }),
        modules: vec![ResolvedModule {
            id: ModuleId::new("tcm"),
            name: "TCM".into(),
            bus: BusId("can".into()),
            address: PhysicalAddress::Can11Bit { request_id: 0x7E1, response_id: 0x7E9 },
        }],
        probe_attempts: Vec::new(),
        visible_ecus: Vec::new(),
    }
}

#[test]
fn test_session_resolve_module_address_from_discovery() {
    let comm = communication();
    let info = AdapterInfo {
        chipset: Chipset::Stn,
        firmware: "test".into(),
        protocol: Protocol::J1850Vpw,
        capabilities: Capabilities::default(),
    };
    let discovery = resolve_discovery_profile(&info, Some(&comm), &[], &[]);
    let address = resolve_module_address(Some(&discovery), "ecm").unwrap();
    match address {
        PhysicalAddress::J1850 { header, .. } => assert_eq!(header, [0x6C, 0x10, 0xF1]),
        other => panic!("unexpected address: {other:?}"),
    }
}

#[test]
fn test_session_resolve_module_address_bus_mismatch() {
    let discovery = profile_with_tcm_on_can();
    let err = resolve_module_address(Some(&discovery), "tcm").unwrap_err();
    assert!(matches!(err, Obd2Error::BusNotAvailable(_)));
}

#[test]
fn test_resolve_module_address_errors() {
    let discovery = profile_with_tcm_on_can();
    match resolve_module_address(Some(&discovery), "abs") {
        Err(Obd2Error::ModuleNotFound(m)) => assert_eq!(m, "abs"),
        other => panic!("unexpected: {other:?}"),
    }
    match resolve_module_address(None, "ecm") {
        Err(Obd2Error::Adapter(m)) => assert_eq!(m, "no discovery profile available"),
        other => panic!("unexpected: {other:?}"),
    }
    match resolve_module_address(Some(&discovery), "tcm") {
        Err(Obd2Error::BusNotAvailable(b)) => assert_eq!(b, "can"),
        other => panic!("unexpected: {other:?}"),
    }
}

#[test]
fn test_resolve_request_routes_modules() {
    let comm = communication();
    let discovery =
        resolve_discovery_profile(&adapter_info(Protocol::J1850Vpw), Some(&comm), &[], &[]);
    let req = ServiceRequest::enhanced_read(0x22, 0x162F, Target::Module("tcm".into()));
    let routed = resolve_request(Some(&discovery), &req).unwrap();
    assert_eq!(routed.service_id, 0x22);
    assert_eq!(routed.data, vec![0x16, 0x2F]);
    assert!(matches!(
        routed.target,
        PhysicalTarget::Addressed(PhysicalAddress::J1850 { node: 0x18, .. })
    ));
    let broadcast = resolve_request(None, &ServiceRequest::read_vin()).unwrap();
    assert!(matches!(broadcast.target, PhysicalTarget::Broadcast));
    let missing = ServiceRequest::enhanced_read(0x22, 0x1, Target::Module("abs".into()));
    assert!(matches!(resolve_request(Some(&discovery), &missing), Err(Obd2Error::ModuleNotFound(_))));
}

#[test]
fn test_address_text_and_lookup() {
    let can = PhysicalAddress::Can11Bit { request_id: 0x760, response_id: 0x768 };
    assert_eq!(address_text(&can), "Can11Bit { request_id: 1888, response_id: 1896 }");
    assert_eq!(address_text(&can), format!("{:?}", can));
    let j1850 = PhysicalAddress::J1850 { node: 0x10, header: [0x6C, 0x10, 0xF1] };
    assert_eq!(address_text(&j1850), format!("{:?}", j1850));
    let comm = communication();
    let (bus, module) = lookup_module_for_address(Some(&comm), &can);
    assert_eq!(bus, Some(BusId("can".into())));
    assert_eq!(module, Some(ModuleId::new("abs")));
    let other = PhysicalAddress::J1939 { source_address: 3 };
    assert_eq!(lookup_module_for_address(Some(&comm), &other), (None, None));
    assert_eq!(lookup_module_for_address(None, &can), (None, None));
}

#[test]
fn test_record_visible_target_counts_observations() {
    let comm = communication();
    let can = PhysicalAddress::Can11Bit { request_id: 0x760, response_id: 0x768 };
    let mut visible: Vec<VisibleEcu> = Vec::new();
    record_visible_target(&mut visible, Some(&comm), &PhysicalTarget::Addressed(can));
    record_visible_target(&mut visible, Some(&comm), &PhysicalTarget::Addressed(can));
    record_visible_target(&mut visible, Some(&comm), &PhysicalTarget::Broadcast);
    assert_eq!(visible.len(), 1);
    assert_eq!(visible[0].observation_count, 2);
    assert_eq!(visible[0].id, format!("{:?}", can));
    assert_eq!(visible[0].module, Some(ModuleId::new("abs")));
    assert_eq!(visible[0].address, Some(can));
}

// ── connection state ───────────────────────────────────────────────────

fn event(kind: AdapterEventKind, detail: Option<&str>) -> AdapterEvent {
    AdapterEvent { kind, detail: detail.map(|d| d.to_string()) }
}

#[test]
fn test_connection_state_follows_events() {
    let mut state = ConnectionState::AdapterInitialized;
    apply_adapter_event(&mut state, &event(AdapterEventKind::Reset, None));
    assert_eq!(state, ConnectionState::AdapterInitialized);
    apply_adapter_event(&mut state, &event(AdapterEventKind::ProtocolSelected(Protocol::Can11Bit500), None));
    assert_eq!(state, ConnectionState::Connected);
    apply_adapter_event(&mut state, &event(AdapterEventKind::BusBusy, Some("BUS BUSY")));
    assert_eq!(state, ConnectionState::Error("BUS BUSY".into()));
    apply_adapter_event(&mut state, &event(AdapterEventKind::Stopped, None));
    assert_eq!(state, ConnectionState::Error("Stopped".into()));
    apply_adapter_event(&mut state, &event(AdapterEventKind::LowVoltageReset, None));
    assert_eq!(state, ConnectionState::Disconnected);
    let mut s2 = ConnectionState::Connected;
    apply_adapter_events(
        &mut s2,
        &[
            event(AdapterEventKind::UnsupportedProtocol, None),
            event(AdapterEventKind::HeaderChanged { header: "7E0".into() }, None),
        ],
    );
    assert_eq!(s2, ConnectionState::UnsupportedProtocol);
    let mut s3 = ConnectionState::IgnitionOff;
    apply_adapter_events(&mut s3, &[]);
    assert_eq!(s3, ConnectionState::IgnitionOff);
}

// ── enhanced PIDs ──────────────────────────────────────────────────────

fn enhanced_keys() -> (Vec<EnhancedPidKey>, Vec<&'static str>) {
    (
        vec![
            EnhancedPidKey { service_id: 0x22, did: 0x1170, module: "ecm".into() },
            EnhancedPidKey { service_id: 0x21, did: 0x0544, module: "ficm".into() },
            EnhancedPidKey { service_id: 0x22, did: 0x162F, module: "ecm".into() },
        ],
        vec!["Fuel Rail Pressure", "FICM Voltage", "Balance Rate"],
    )
}

#[test]
fn test_list_module_pids_returns_matching() {
    let (keys, _) = enhanced_keys();
    let pids = list_module_pids(&keys, &ModuleId::new("ecm"));
    assert_eq!(pids.len(), 2, "ECM should have 2 enhanced PIDs");
    assert!(pids.iter().any(|&i| keys[i].did == 0x1170));
    assert!(pids.iter().any(|&i| keys[i].did == 0x162F));
}

#[test]
fn test_list_module_pids_case_insensitive() {
    let (keys, _) = enhanced_keys();
    let pids = list_module_pids(&keys, &ModuleId::new("FICM"));
    assert_eq!(pids.len(), 1);
    assert_eq!(keys[pids[0]].did, 0x0544);
}

#[test]
fn test_list_module_pids_no_spec() {
    let pids = list_module_pids(&[], &ModuleId::new("ecm"));
    assert!(pids.is_empty());
}

#[test]
fn test_list_module_pids_unknown_module() {
    let (keys, _) = enhanced_keys();
    assert!(list_module_pids(&keys, &ModuleId::new("abs")).is_empty());
}

#[test]
fn test_find_enhanced_pid_by_did_and_module() {
    let (keys, names) = enhanced_keys();
    let found = find_enhanced_pid(&keys, 0x1170, &ModuleId::new("ecm"));
    assert!(found.is_some());
    assert_eq!(names[found.unwrap()], "Fuel Rail Pressure");
}

#[test]
fn test_find_enhanced_pid_wrong_module() {
    let (keys, _) = enhanced_keys();
    assert!(find_enhanced_pid(&keys, 0x1170, &ModuleId::new("tcm")).is_none());
}

#[test]
fn test_find_service_id_from_spec_honda_style() {
    let (keys, _) = enhanced_keys();
    assert_eq!(find_service_id(&keys, 0x0544, &ModuleId::new("ficm")), 0x21);
}

#[test]
fn test_find_service_id_defaults_to_0x22() {
    let (keys, _) = enhanced_keys();
    assert_eq!(find_service_id(&keys, 0xFFFF, &ModuleId::new("ecm")), 0x22);
}

#[test]
fn test_bitmask_and_enumerated_values() {
    assert_eq!(bitmask_raw(&[0x12, 0x34, 0x56, 0x78, 0x9A]), 0x12345678);
    assert_eq!(bitmask_raw(&[0x12, 0x34, 0x56]), 0x1234);
    assert_eq!(bitmask_raw(&[0xAB]), 0xAB);
    assert!(bit_flag(0b100, 2));
    assert!(!bit_flag(0b100, 1));
    let values = vec![(1u8, "1st".to_string()), (2u8, "2nd".to_string()), (2u8, "dup".to_string())];
    assert_eq!(enumerated_label(&values, 2), "2nd");
    assert_eq!(enumerated_label(&values, 7), "Unknown(7)");
}

// ── responses, thresholds and captures ─────────────────────────────────

#[test]
fn test_vin_and_mode09_responses() {
    let mut data = vec![0x01];
    data.extend_from_slice(b"1GCHK23224F000001XYZ");
    assert_eq!(vin_from_bytes(&data).unwrap(), "1GCHK23224F000001");
    match vin_from_bytes(b"SHORT\x00") {
        Err(Obd2Error::ParseError(m)) => assert_eq!(m, "VIN too short: 5 chars"),
        other => panic!("unexpected: {other:?}"),
    }
    assert_eq!(printable_ascii(b"\x01AB\x7F C"), "AB C");
    assert_eq!(calibration_ids_from(&Ok(b"\x01CAL123".to_vec())), vec!["CAL123".to_string()]);
    assert!(calibration_ids_from(&Err(Obd2Error::NoData)).is_empty());
    assert_eq!(cvns_from(&Ok(vec![0x12, 0x34, 0x56, 0x78, 0x00])), vec![0x12345678]);
    assert!(cvns_from(&Ok(vec![1, 2, 3])).is_empty());
    assert_eq!(ecu_name_from(&Ok(b"ECM-Engine".to_vec())), Some("ECM-Engine".to_string()));
    assert_eq!(ecu_name_from(&Ok(vec![0, 1, 2])), None);
}

#[test]
fn test_pgn_o2_and_bitmap_responses() {
    assert_eq!(pgn_request_bytes(&Pgn::EEC1()), vec![0x04, 0xF0, 0x00]);
    assert_eq!(
        o2_sensor_reading(0x02, &[0x01, 0x2C, 0xFF]),
        Some((O2SensorLocation::Bank1Sensor2, 300))
    );
    assert_eq!(o2_sensor_reading(0x09, &[0x01, 0x2C]), None);
    assert_eq!(o2_sensor_reading(0x01, &[0x01]), None);
    assert_eq!(supported_pid_bitmap(&[0x80, 0x00, 0x00, 0x01], 0x00), vec![0x01, 0x20]);
}

#[test]
fn test_threshold_names() {
    assert_eq!(pid_threshold_name(Pid::ENGINE_RPM()), Some("rpm"));
    assert_eq!(pid_threshold_name(Pid::COOLANT_TEMP()), Some("coolant_temp_c"));
    assert_eq!(pid_threshold_name(Pid(0x01)), None);
    assert_eq!(did_threshold_name(0x162F), "0x162F");
    assert_eq!(did_threshold_name(0x00AB), "0x00AB");
    assert_eq!(did_threshold_name(0x00AB), format!("{:#06X}", 0x00ABu16));
}

#[test]
fn test_capture_names() {
    assert_eq!(sanitize_capture_name("/dev/tty.usbserial"), "dev_tty_usbserial");
    assert_eq!(sanitize_capture_name("***"), "unknown");
    assert_eq!(sanitize_capture_name("OBDLink MX+"), "OBDLink_MX");
    assert_eq!(capture_transport_type("OBDLink MX+"), "ble");
    assert_eq!(capture_transport_type("/dev/ttyUSB0"), "serial");
    assert_eq!(capture_transport_type("COM3"), "serial");
    assert_eq!(capture_transport_type("mock"), "serial");
    assert_eq!(capture_transport_type("wifi"), "transport");
    assert_eq!(
        capture_file_name(Some("1GCHK23224F000001"), "/dev/tty.usbserial", "20240101T000000Z"),
        "1GCHK23224F000001-dev_tty_usbserial-20240101T000000Z.obd2raw"
    );
    assert_eq!(capture_file_name(None, "mock", "t"), "unknown-mock-t.obd2raw");
    let now = capture_file_name_now(Some("VIN"), "mock");
    assert!(now.starts_with("VIN-mock-"));
    assert!(now.ends_with(".obd2raw"));
}

#[test]
fn test_dedup_twice_is_dedup_once() {
    let mut once = vec![
        Dtc::from_code("P0420"),
        Dtc::from_code("P0171"),
        Dtc::from_code("P0420"),
        Dtc::from_code("C0035"),
        Dtc::from_code("P0171"),
    ];
    dedup_dtcs(&mut once);
    let mut twice = once.clone();
    dedup_dtcs(&mut twice);
    assert_eq!(twice, once);
    let codes: Vec<&str> = once.iter().map(|d| d.code.as_str()).collect();
    assert_eq!(codes, vec!["P0420", "P0171", "C0035"]);
}
