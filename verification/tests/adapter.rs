use obd2_core::adapter::elm327::{
    check_header_response, check_response_error, classify_probe_result, clean_voltage_text,
    default_broadcast_header, fallback_probe_order, header_command, header_for_address,
    needs_fault_recovery, parse_hex_response, parse_protocol_response, parse_supported_pids,
    probe_succeeded, protocol_family, protocol_policy_commands, remove_null_bytes,
    request_command, response_skip, runtime_default_commands, sti_accepted, BusFamily,
    ClearTargeting, Elm327Adapter, Elm327State,
};
use obd2_core::adapter::init::{Elm327Init, InitAction, InitStep};
use obd2_core::adapter::mock::MockAdapter;
use obd2_core::adapter::{
    AdapterEventKind, AdapterInfo, Capabilities, Chipset, PhysicalTarget, ProbeResult,
    ProtocolSelectionSource, RoutedRequest,
};
use obd2_core::error::{NegativeResponse, Obd2Error};
use obd2_core::protocol::dtc::{Dtc, DtcStatus};
use obd2_core::session::modes::decode_dtc_bytes;
use obd2_core::protocol::pid::Pid;
use obd2_core::protocol::service::{ServiceRequest, Target};
use obd2_core::transport::mock::MockTransport;
use obd2_core::vehicle::{KLineInit, PhysicalAddress, Protocol};

// ── detect ─────────────────────────────────────────────────────────────

#[test]
fn test_detect_elm327_clone() {
    let info = AdapterInfo::detect("ELM327 v1.5", None);
    assert_eq!(info.chipset, Chipset::Elm327Clone);
    assert!(!info.capabilities.can_clear_dtcs);
    assert!(!info.capabilities.dual_can);
}

#[test]
fn test_detect_elm327_genuine() {
    let info = AdapterInfo::detect("ELM327 v2.1", None);
    assert_eq!(info.chipset, Chipset::Elm327Genuine);
    assert!(info.capabilities.can_clear_dtcs);
    assert!(info.capabilities.enhanced_diag);
}

#[test]
fn test_detect_stn() {
    let info = AdapterInfo::detect("ELM327 v1.5", Some("STN2120"));
    assert_eq!(info.chipset, Chipset::Stn);
    assert!(info.capabilities.dual_can);
    assert!(info.capabilities.enhanced_diag);
}

#[test]
fn test_detect_unknown() {
    let info = AdapterInfo::detect("UNKNOWN DEVICE", None);
    assert_eq!(info.chipset, Chipset::Unknown);
}

#[test]
fn test_detect_elm_with_garbage() {
    let info = AdapterInfo::detect("\r\nELM327 v2.2\r\n>", None);
    assert_eq!(info.chipset, Chipset::Elm327Genuine);
}

#[test]
fn test_capabilities_default() {
    let caps = Capabilities::default();
    assert!(!caps.can_clear_dtcs);
    assert!(!caps.dual_can);
}

#[test]
fn test_stn_has_all_capabilities() {
    let info = AdapterInfo::detect("ELM327 v1.5", Some("STN1110 v4.2"));
    assert!(info.capabilities.can_clear_dtcs);
    assert!(info.capabilities.dual_can);
    assert!(info.capabilities.enhanced_diag);
    assert!(info.capabilities.battery_voltage);
    assert!(info.capabilities.adaptive_timing);
}

#[test]
fn test_detect_firmware_text() {
    let info = AdapterInfo::detect("\r\nELM327 v2.2\r\n>", None);
    assert_eq!(info.firmware, "ELM327 v2.2\r\n>");
    assert_eq!(info.protocol, Protocol::Auto);
    let stn = AdapterInfo::detect("ELM327 v1.5", Some("  STN1110 v4.2\r"));
    assert_eq!(stn.firmware, "STN1110 v4.2");
    let unknown = AdapterInfo::detect("  something ", None);
    assert_eq!(unknown.firmware, "something");
}

#[test]
fn test_detect_version_edges() {
    // Versions compare as 32-bit floats: just below 2.0 rounds up to 2.0.
    assert_eq!(AdapterInfo::detect("ELM327 v2.0", None).chipset, Chipset::Elm327Genuine);
    assert_eq!(AdapterInfo::detect("ELM327 v1.99999997", None).chipset, Chipset::Elm327Genuine);
    assert_eq!(AdapterInfo::detect("ELM327 v1.9999999", None).chipset, Chipset::Elm327Clone);
    assert_eq!(AdapterInfo::detect("ELM327 v10", None).chipset, Chipset::Elm327Genuine);
    // A version that does not parse reads as 0.
    assert_eq!(AdapterInfo::detect("ELM327 v2.1.3", None).chipset, Chipset::Elm327Clone);
    assert_eq!(AdapterInfo::detect("ELM327", None).chipset, Chipset::Elm327Clone);
    // An STI answer without STN falls back to the ELM detection.
    assert_eq!(AdapterInfo::detect("ELM327 v2.1", Some("?")).chipset, Chipset::Elm327Genuine);
}

// ── elm327 response handling ───────────────────────────────────────────

#[test]
fn test_parse_hex_response_plain() {
    let data = parse_hex_response("41 0C 0A A0\r>", 2).unwrap();
    assert_eq!(data, vec![0x0A, 0xA0]);
}

#[test]
fn test_parse_hex_response_with_echo() {
    let data = parse_hex_response("010C\r41 0C 0A A0\r>", 2).unwrap();
    assert_eq!(data, vec![0x0A, 0xA0]);
}

#[test]
fn test_parse_hex_response_echo_only() {
    let result = parse_hex_response("010C\r>", 2);
    assert!(matches!(result, Err(Obd2Error::ParseError(_))));
}

#[test]
fn test_parse_hex_response_multiline_and_skip() {
    let data = parse_hex_response("43 01 04 20 01 71\r>", 1).unwrap();
    assert_eq!(data, vec![0x01, 0x04, 0x20, 0x01, 0x71]);
    let none = parse_hex_response("41 0C\r>", 2).unwrap();
    assert!(none.is_empty());
}

#[test]
fn test_parse_supported_pids_bitmap() {
    let pids = parse_supported_pids(&[0xBE, 0x3E, 0xB8, 0x11], 0x00);
    assert!(pids.contains(&0x01));
    assert!(pids.contains(&0x04));
    assert!(pids.contains(&0x05));
    assert!(pids.contains(&0x0C));
    assert!(pids.contains(&0x0D));
    assert!(!pids.contains(&0x02));
    let upper = parse_supported_pids(&[0x80, 0x00, 0x00, 0x01], 0x20);
    assert_eq!(upper, vec![0x21, 0x40]);
}

#[test]
fn test_check_response_error_variants() {
    let result = check_response_error("7F 22 31\r>");
    assert!(matches!(
        result,
        Err(Obd2Error::NegativeResponse { service: 0x22, nrc: NegativeResponse::RequestOutOfRange })
    ));
    assert!(matches!(check_response_error("NO DATA\r>"), Err(Obd2Error::NoData)));
    match check_response_error("UNABLE TO CONNECT\r>") {
        Err(Obd2Error::Adapter(m)) => assert_eq!(m, "unable to connect to vehicle"),
        other => panic!("unexpected: {other:?}"),
    }
    match check_response_error("BUS INIT: ...ERROR") {
        Err(Obd2Error::Adapter(m)) => assert_eq!(m, "bus initialization error"),
        other => panic!("unexpected: {other:?}"),
    }
    match check_response_error("CAN ERROR") {
        Err(Obd2Error::Adapter(m)) => assert_eq!(m, "CAN bus error"),
        other => panic!("unexpected: {other:?}"),
    }
    match check_response_error(" ? ") {
        Err(Obd2Error::Adapter(m)) => assert_eq!(m, "unknown command"),
        other => panic!("unexpected: {other:?}"),
    }
    // An unknown response code is no error of its own.
    assert!(check_response_error("7F 22 99").is_ok());
    assert!(check_response_error("41 0C 0A A0\r>").is_ok());
}

#[test]
fn test_request_command_and_skip() {
    assert_eq!(request_command(0x01, &[0x0C]), "010C");
    assert_eq!(request_command(0x22, &[0x16, 0x2F]), "22162F");
    assert_eq!(request_command(0x03, &[]), "03");
    assert_eq!(response_skip(0x01), 2);
    assert_eq!(response_skip(0x09), 2);
    assert_eq!(response_skip(0x22), 3);
    assert_eq!(response_skip(0x03), 1);
    assert_eq!(response_skip(0x19), 1);
}

#[test]
fn test_headers_for_addresses() {
    let j1850 = PhysicalAddress::J1850 { node: 0x10, header: [0x6C, 0x10, 0xF1] };
    assert_eq!(header_for_address(&j1850).unwrap(), "6C10F1");
    let can = PhysicalAddress::Can11Bit { request_id: 0x7E0, response_id: 0x7E8 };
    assert_eq!(header_for_address(&can).unwrap(), "7E0");
    let short = PhysicalAddress::Can11Bit { request_id: 0x10, response_id: 0x18 };
    assert_eq!(header_for_address(&short).unwrap(), "010");
    let can29 = PhysicalAddress::Can29Bit { request_id: 0x18DA10F1, response_id: 0x18DAF110 };
    assert_eq!(header_for_address(&can29).unwrap(), "18DA10F1");
    match header_for_address(&PhysicalAddress::J1939 { source_address: 0 }) {
        Err(Obd2Error::Adapter(m)) => {
            assert_eq!(m, "J1939 addressed routing is not implemented yet")
        }
        other => panic!("unexpected: {other:?}"),
    }
    assert_eq!(header_command("7E0"), "AT SH 7E0");
    assert!(check_header_response("OK\r>").is_ok());
    match check_header_response(" ?\r>") {
        Err(Obd2Error::Adapter(m)) => assert_eq!(m, "AT SH failed: ?\r>"),
        other => panic!("unexpected: {other:?}"),
    }
}

#[test]
fn test_broadcast_headers_and_families() {
    assert_eq!(default_broadcast_header(Protocol::J1850Vpw).unwrap(), "686AF1");
    assert_eq!(default_broadcast_header(Protocol::Can11Bit500).unwrap(), "7DF");
    assert_eq!(default_broadcast_header(Protocol::Can29Bit250).unwrap(), "18DB33F1");
    assert!(default_broadcast_header(Protocol::Auto).is_none());
    assert_eq!(protocol_family(Protocol::Can11Bit250), BusFamily::Can);
    assert_eq!(protocol_family(Protocol::Kwp2000(KLineInit::FastInit)), BusFamily::Kwp2000);
}

#[test]
fn test_probe_classification() {
    assert_eq!(classify_probe_result("UNABLE TO CONNECT"), ProbeResult::UnableToConnect);
    assert_eq!(classify_probe_result("BUS INIT: ERROR"), ProbeResult::BusInitFailure);
    assert_eq!(classify_probe_result("BUS BUSY"), ProbeResult::BusError);
    assert_eq!(classify_probe_result("CAN ERROR"), ProbeResult::CanError);
    assert_eq!(classify_probe_result("NO DATA\r>"), ProbeResult::NoResponse);
    assert_eq!(classify_probe_result("?"), ProbeResult::UnsupportedProtocol);
    assert_eq!(classify_probe_result("garbage"), ProbeResult::AdapterFault);
    assert!(probe_succeeded("41 00 BE 3E B8 11\r>"));
    assert!(probe_succeeded("4100BE3EB811"));
    assert!(!probe_succeeded("NO DATA"));
    assert!(sti_accepted("STN1110 v4.2"));
    assert!(!sti_accepted("?\r>"));
    assert!(needs_fault_recovery("LV RESET\r>"));
    assert!(needs_fault_recovery("ERR94"));
    assert!(!needs_fault_recovery("OK"));
}

#[test]
fn test_protocol_response_and_fallbacks() {
    assert_eq!(parse_protocol_response("A6\r>"), Protocol::Can11Bit500);
    assert_eq!(parse_protocol_response("2"), Protocol::J1850Vpw);
    assert_eq!(parse_protocol_response("A3 >"), Protocol::Iso9141(KLineInit::SlowInit));
    assert_eq!(parse_protocol_response(""), Protocol::Auto);
    assert_eq!(parse_protocol_response("Z"), Protocol::Auto);
    let order = fallback_probe_order();
    assert_eq!(order.len(), 9);
    assert_eq!(order[0], (Protocol::Can11Bit500, "ATTP6"));
    assert_eq!(order[8], (Protocol::Kwp2000(KLineInit::SlowInit), "ATTP4"));
    assert_eq!(
        runtime_default_commands(),
        vec!["ATE0", "ATL0", "ATH0", "ATS0", "ATAT1", "ATCAF1", "ATCFC1"]
    );
    assert_eq!(protocol_policy_commands(Protocol::Can29Bit500), vec!["ATCAF1", "ATCFC1"]);
    assert_eq!(
        protocol_policy_commands(Protocol::Kwp2000(KLineInit::FastInit)),
        vec!["ATFI", "ATSW96", "ATWMC133F13E"]
    );
    assert!(protocol_policy_commands(Protocol::J1850Pwm).is_empty());
}

#[test]
fn test_voltage_text_and_null_bytes() {
    assert_eq!(clean_voltage_text("14.4V\r>"), "14.4");
    assert_eq!(clean_voltage_text(" 12.1v\r\n"), "12.1");
    assert_eq!(remove_null_bytes(&vec![0x41, 0, 0x20, 0, 0]), vec![0x41, 0x20]);
}

// ── adapter state ──────────────────────────────────────────────────────

#[test]
fn test_state_filters_null_bytes_and_records_event() {
    let mut state = Elm327State::new();
    let text = state.sanitize_response_bytes(b"41 0C \0 0A A0\r>".to_vec());
    assert_eq!(text, "41 0C  0A A0\r>");
    let events = state.drain_events();
    assert_eq!(events.len(), 1);
    assert_eq!(events[0].kind, AdapterEventKind::NullBytesFiltered { count: 1 });
    assert_eq!(
        events[0].detail.as_deref(),
        Some("filtered 1 null bytes from adapter response")
    );
    assert!(state.drain_events().is_empty());
    let data = parse_hex_response(&text, 2).unwrap();
    assert_eq!(data, vec![0x0A, 0xA0]);
}

#[test]
fn test_state_sanitize_invalid_utf8() {
    let mut state = Elm327State::new();
    let text = state.sanitize_response_bytes(vec![0x4F, 0x4B, 0xFF]);
    assert_eq!(text, "OK\u{FFFD}");
    assert!(state.drain_events().is_empty());
}

#[test]
fn test_state_records_response_events() {
    let mut state = Elm327State::new();
    state.record_response_events("BUS BUSY\r>");
    state.record_response_events("STOPPED\r>");
    state.record_response_events("SEARCHING...\r41 00 BE\r>");
    state.record_response_events(" ? ");
    state.record_response_events("LV RESET");
    let events = state.drain_events();
    let kinds: Vec<AdapterEventKind> = events.iter().map(|e| e.kind.clone()).collect();
    assert_eq!(
        kinds,
        vec![
            AdapterEventKind::BusBusy,
            AdapterEventKind::Stopped,
            AdapterEventKind::SearchingDisplayed,
            AdapterEventKind::UnknownCommand,
            AdapterEventKind::LowVoltageReset,
        ]
    );
    assert_eq!(events[0].detail.as_deref(), Some("BUS BUSY\r>"));
    assert!(events[2].detail.is_none());
    assert!(events[3].detail.is_none());
}

#[test]
fn test_state_header_cache() {
    let mut state = Elm327State::new();
    assert!(state.header_needed("7E0"));
    state.header_accepted("7E0");
    assert!(!state.header_needed("7E0"));
    assert!(state.header_needed("7E1"));
    let events = state.drain_events();
    assert_eq!(events[0].kind, AdapterEventKind::HeaderChanged { header: "7E0".to_string() });
    state.forget_header();
    assert!(state.header_needed("7E0"));
}

#[test]
fn test_state_clear_targeting_resets_to_broadcast() {
    let mut state = Elm327State::new();
    state.info.protocol = Protocol::Can11Bit500;
    assert_eq!(state.default_broadcast_header().unwrap(), "7DF");
    state.header_accepted("7E0");
    match state.clear_targeting_step() {
        ClearTargeting::Restore(h) => assert_eq!(h, "7DF"),
        other => panic!("unexpected: {other:?}"),
    }
    state.header_restored("7DF");
    let events = state.drain_events();
    assert_eq!(
        events.last().unwrap().kind,
        AdapterEventKind::HeaderReset { header: "7DF".to_string() }
    );
}

#[test]
fn test_elm327_adapter_wraps_transport() {
    let mut adapter = Elm327Adapter::new(MockTransport::new());
    assert!(!adapter.state.initialized);
    adapter.transport_mut().expect("ATZ", "ELM327 v2.1\r>");
    assert_eq!(adapter.transport.expectations.len(), 1);
}

// ── initialization ─────────────────────────────────────────────────────

fn command_of(action: &InitAction) -> String {
    match action {
        InitAction::Command(c) | InitAction::RawCommand(c) => c.clone(),
        other => panic!("expected a command, got {other:?}"),
    }
}

#[test]
fn test_init_sequence_auto_detect() {
    let mut state = Elm327State::new();
    let (mut init, action) = Elm327Init::start(&mut state);
    let mut sent = vec![command_of(&action)];
    let answers = [
        "ELM327 v2.1\r\r>",
        "?\r>",
        "OK\r>",
        "OK\r>",
        "OK\r>",
        "OK\r>",
        "OK\r>",
        "OK\r>",
        "41 00 BE 3E B8 11\r>",
        "A6\r>",
        "OK\r>",
    ];
    let mut last = None;
    for a in answers.iter() {
        let action = init.on_response(&mut state, Ok(a.to_string()));
        match &action {
            InitAction::Command(_) | InitAction::RawCommand(_) => sent.push(command_of(&action)),
            _ => {}
        }
        last = Some(action);
    }
    let action = init.on_response(&mut state, Ok("OK\r>".to_string()));
    assert_eq!(init.step, InitStep::Finished);
    assert_eq!(
        sent,
        vec![
            "ATZ", "STI", "ATE0", "ATL0", "ATH0", "ATS0", "ATAT1", "ATSP0", "0100", "ATDPN",
            "ATCAF1", "ATCFC1",
        ]
    );
    assert!(matches!(last, Some(InitAction::RawCommand(_))));
    match action {
        InitAction::Done(report) => {
            assert_eq!(report.info.chipset, Chipset::Elm327Genuine);
            assert_eq!(report.info.protocol, Protocol::Can11Bit500);
            assert_eq!(report.probe_attempts.len(), 1);
            assert_eq!(report.probe_attempts[0].result, ProbeResult::Success);
            assert_eq!(report.probe_attempts[0].source, ProtocolSelectionSource::AutoDetect);
        }
        other => panic!("unexpected: {other:?}"),
    }
    assert!(state.initialized);
    assert_eq!(state.info.protocol, Protocol::Can11Bit500);
    // A second initialization reports the same information and sends nothing.
    let (again, action) = Elm327Init::start(&mut state);
    assert_eq!(again.step, InitStep::Finished);
    match action {
        InitAction::Done(report) => {
            assert_eq!(report.info.chipset, Chipset::Elm327Genuine);
            assert_eq!(report.info.protocol, Protocol::Can11Bit500);
            assert_eq!(report.info.firmware, state.info.firmware);
            assert!(report.probe_attempts.is_empty());
        }
        other => panic!("unexpected: {other:?}"),
    }
}

#[test]
fn test_init_reset_failure_fails() {
    let mut state = Elm327State::new();
    let (mut init, _) = Elm327Init::start(&mut state);
    let action = init.on_response(&mut state, Err(Obd2Error::Timeout));
    assert!(matches!(action, InitAction::Fail(Obd2Error::Timeout)));
    assert_eq!(init.step, InitStep::Finished);
    assert!(!state.initialized);
}

#[test]
fn test_init_falls_back_to_explicit_probe() {
    let mut state = Elm327State::new();
    let (mut init, _) = Elm327Init::start(&mut state);
    for a in ["ELM327 v1.5\r>", "?\r>", "OK", "OK", "OK", "OK", "OK", "OK"] {
        init.on_response(&mut state, Ok(a.to_string()));
    }
    // Automatic detection answers nothing: the first fallback is selected.
    let action = init.on_response(&mut state, Ok("NO DATA\r>".to_string()));
    assert_eq!(command_of(&action), "ATTP6");
    let action = init.on_response(&mut state, Ok("OK\r>".to_string()));
    assert_eq!(command_of(&action), "0100");
    let action = init.on_response(&mut state, Ok("UNABLE TO CONNECT\r>".to_string()));
    assert_eq!(command_of(&action), "ATTP7");
    let action = init.on_response(&mut state, Ok("OK\r>".to_string()));
    assert_eq!(command_of(&action), "0100");
    let action = init.on_response(&mut state, Ok("41 00 BE 3E B8 11\r>".to_string()));
    assert_eq!(command_of(&action), "ATCAF1");
    assert_eq!(init.info.protocol, Protocol::Can29Bit500);
    assert_eq!(init.probe_attempts.len(), 3);
    assert_eq!(init.probe_attempts[0].result, ProbeResult::NoResponse);
    assert_eq!(init.probe_attempts[1].result, ProbeResult::UnableToConnect);
    assert_eq!(init.probe_attempts[2].result, ProbeResult::Success);
    assert_eq!(init.info.chipset, Chipset::Elm327Clone);
}

#[test]
fn test_init_again_reports_at_once() {
    let mut state = Elm327State::new();
    state.initialized = true;
    state.info.protocol = Protocol::J1850Vpw;
    let (init, action) = Elm327Init::start(&mut state);
    assert_eq!(init.step, InitStep::Finished);
    match action {
        InitAction::Done(report) => {
            assert_eq!(report.info.protocol, Protocol::J1850Vpw);
            assert!(report.probe_attempts.is_empty());
        }
        other => panic!("unexpected: {other:?}"),
    }
}

// ── mock adapter ───────────────────────────────────────────────────────

#[test]
fn test_mock_adapter_initialize_reports_genuine() {
    let mut adapter = MockAdapter::new();
    let report = adapter.initialize().unwrap();
    assert_eq!(report.info.chipset, Chipset::Elm327Genuine);
    let again = adapter.initialize().unwrap();
    assert_eq!(again.info.chipset, report.info.chipset);
    assert_eq!(again.info.firmware, report.info.firmware);
}

#[test]
fn test_mock_adapter_supported_and_pid_reads() {
    let mut adapter = MockAdapter::new();
    let pids = adapter.supported_pids();
    assert!(pids.contains(&Pid::ENGINE_RPM()));
    assert!(pids.contains(&Pid::VEHICLE_SPEED()));
    assert!(pids.contains(&Pid::COOLANT_TEMP()));
    let response = adapter.request(&ServiceRequest::read_pid(Pid::ENGINE_RPM())).unwrap();
    assert_eq!(response.len(), 2);
    assert!(adapter.request(&ServiceRequest::read_pid(Pid(0xFF))).is_err());
}

#[test]
fn test_mock_adapter_vin_and_dtcs() {
    let mut adapter = MockAdapter::with_vin("1GCHK23224F000001");
    let response = adapter.request(&ServiceRequest::read_vin()).unwrap();
    assert_eq!(String::from_utf8_lossy(&response), "1GCHK23224F000001");
    adapter.set_dtcs(vec![Dtc::from_code("P0420"), Dtc::from_code("P0171")]);
    let response = adapter.request(&ServiceRequest::read_dtcs()).unwrap();
    assert_eq!(response, vec![0x04, 0x20, 0x01, 0x71]);
    let clear = ServiceRequest { service_id: 0x04, data: vec![], target: Target::Broadcast };
    adapter.request(&clear).unwrap();
    assert!(adapter.request(&ServiceRequest::read_dtcs()).unwrap().is_empty());
}

#[test]
fn test_mock_adapter_dtc_encoding_roundtrip() {
    // Encoding a decoded DTC gives its two bytes back.
    let mut adapter = MockAdapter::new();
    adapter.set_dtcs(vec![Dtc::from_bytes(0xC1, 0x00), Dtc::from_bytes(0x5A, 0xBC)]);
    let response = adapter.request(&ServiceRequest::read_dtcs()).unwrap();
    assert_eq!(response, vec![0xC1, 0x00, 0x5A, 0xBC]);
}

#[test]
fn test_mock_adapter_routed_and_j1939() {
    let mut adapter = MockAdapter::new();
    let routed = RoutedRequest {
        service_id: 0x09,
        data: vec![0x02],
        target: PhysicalTarget::Addressed(PhysicalAddress::Can11Bit {
            request_id: 0x7E0,
            response_id: 0x7E8,
        }),
    };
    assert_eq!(adapter.routed_request(&routed).unwrap().len(), 17);
    assert_eq!(adapter.mock_j1939_response(65226), vec![0x00, 0x00]);
    assert_eq!(adapter.mock_j1939_response(1), vec![0xFF; 8]);
}

// ── mock transport ─────────────────────────────────────────────────────

#[test]
fn test_mock_transport_expect_sync() {
    let mut t = MockTransport::new();
    t.expect("ATZ", "ELM327 v2.1\r>");
    t.write(b"ATZ").unwrap();
    let response = t.read().unwrap();
    assert!(String::from_utf8_lossy(&response).contains("ELM327"));
}

#[test]
fn test_mock_transport_no_match_sync() {
    let mut t = MockTransport::new();
    t.write(b"UNKNOWN").unwrap();
    let response = t.read().unwrap();
    assert!(String::from_utf8_lossy(&response).contains("NO DATA"));
}

#[test]
fn test_mock_transport_reset_sync() {
    let mut t = MockTransport::new();
    t.expect("ATZ", "OK\r>");
    t.write(b"ATZ").unwrap();
    t.reset().unwrap();
    assert!(matches!(t.read(), Err(Obd2Error::Timeout)));
}

#[test]
fn test_mock_transport_matches_trimmed_and_contained_commands() {
    let mut t = MockTransport::new();
    t.expect("0100", "41 00 BE\r>");
    t.expect("ATZ", "ELM327\r>");
    // The command is trimmed, and an expectation inside it matches too.
    t.write(b"ATZ\r").unwrap();
    assert_eq!(t.read().unwrap(), b"ELM327\r>".to_vec());
    t.write(b"X0100Y").unwrap();
    assert_eq!(t.read().unwrap(), b"41 00 BE\r>".to_vec());
    assert!(t.expectations.is_empty());
    assert_eq!(t.name(), "mock");
}

#[test]
fn test_mock_dtcs_read_back_through_decoding() {
    let set = vec![Dtc::from_bytes(0x04, 0x20), Dtc::from_bytes(0x81, 0x23), Dtc::from_bytes(0xC1, 0x55)];
    let mut adapter = MockAdapter::new();
    adapter.set_dtcs(set.clone());
    let answer = adapter.request(&ServiceRequest::read_dtcs()).unwrap();
    let decoded = decode_dtc_bytes(&answer, DtcStatus::Stored);
    assert_eq!(decoded, set);
}

#[test]
fn test_mock_can_encode_dtcs() {
    let mut adapter = MockAdapter::new();
    assert!(adapter.can_encode_dtcs());
    adapter.set_dtcs(vec![Dtc::from_code("P0420")]);
    assert!(adapter.can_encode_dtcs());
    adapter.set_dtcs(vec![Dtc { code: "\u{e9}123".into(), ..Default::default() }]);
    assert!(!adapter.can_encode_dtcs());
}
