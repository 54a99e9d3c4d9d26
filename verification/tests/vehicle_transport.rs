use obd2_core::hwtest::compare::{compare_report_facts, parity_ok, ReportFacts, Severity as DiffSeverity};
use obd2_core::hwtest::report::{summarize_statuses, TestStatus};
use obd2_core::hwtest::runner::{group_decision, parse_only_groups, GroupDecision, TransportArg};
use obd2_core::hwtest::vehicles::VinExpectation;
use obd2_core::protocol::dtc::Severity;
use obd2_core::transport::ble::{is_adapter_match, ADAPTER_NAME_PATTERNS};
use obd2_core::transport::logging::{
    escape_bytes, format_header, format_header_at, parse_raw_capture_text, unescape_str,
    CaptureMetadata,
};
use obd2_core::vehicle::{AlertLevel, DtcEntry, DtcLibrary, ModuleId, PhysicalAddress, VinMatcher};

// ── logging ────────────────────────────────────────────────────────────

#[test]
fn test_escape_printable_ascii() {
    assert_eq!(escape_bytes(b"ATZ"), "ATZ");
    assert_eq!(escape_bytes(b"010C"), "010C");
}

#[test]
fn test_escape_cr_and_prompt() {
    assert_eq!(escape_bytes(b"41 0C 0A A0\r\r>"), "41 0C 0A A0\\r\\r>");
}

#[test]
fn test_escape_newline_tab() {
    assert_eq!(escape_bytes(b"OK\r\n"), "OK\\r\\n");
    assert_eq!(escape_bytes(b"\t"), "\\t");
}

#[test]
fn test_escape_backslash() {
    assert_eq!(escape_bytes(b"a\\b"), "a\\\\b");
}

#[test]
fn test_escape_non_printable() {
    assert_eq!(escape_bytes(&[0x00, 0x01, 0xFF]), "\\x00\\x01\\xFF");
}

#[test]
fn test_escape_mixed_command() {
    assert_eq!(escape_bytes(b"ATZ\r"), "ATZ\\r");
}

#[test]
fn test_escape_elm327_full_response() {
    assert_eq!(escape_bytes(b"010C\r41 0C 0A A0\r\r>"), "010C\\r41 0C 0A A0\\r\\r>");
}

#[test]
fn test_unescape_inverts_escape() {
    let all: Vec<u8> = (0u8..=255).collect();
    assert_eq!(unescape_str(&escape_bytes(&all)), all);
    let sample = b"010C\r41 0C 0A A0\r\r>\\\t\n".to_vec();
    assert_eq!(unescape_str(&escape_bytes(&sample)), sample);
}

#[test]
fn test_unescape_lenient_forms() {
    assert_eq!(unescape_str("\\x4g"), vec![0u8]);
    assert_eq!(unescape_str("a\\"), b"a\\".to_vec());
    assert_eq!(unescape_str("\\q"), b"\\q".to_vec());
    assert_eq!(unescape_str("\\x41\\r"), b"A\r".to_vec());
}

#[test]
fn test_capture_metadata_header() {
    let meta = CaptureMetadata {
        transport_type: "serial".to_string(),
        port_or_device: "/dev/tty.usbserial-0001".to_string(),
        baud_rate: Some(115200),
    };
    let header = format_header(&meta);
    assert!(header.starts_with("# obd2-raw v1\n"));
    assert!(header.contains("transport=serial"));
    assert!(header.contains("port=/dev/tty.usbserial-0001"));
    assert!(header.contains("baud=115200"));
    assert!(header.contains("# started="));
}

#[test]
fn test_capture_metadata_header_ble() {
    let meta = CaptureMetadata {
        transport_type: "ble".to_string(),
        port_or_device: "OBDLink MX+".to_string(),
        baud_rate: None,
    };
    let header = format_header(&meta);
    assert!(header.contains("transport=ble"));
    assert!(header.contains("device=OBDLink MX+"));
    assert!(!header.contains("baud="));
}

#[test]
fn test_capture_header_at_exact_text() {
    let meta = CaptureMetadata {
        transport_type: "serial".to_string(),
        port_or_device: "/dev/ttyUSB0".to_string(),
        baud_rate: Some(38400),
    };
    assert_eq!(
        format_header_at(&meta, "2026-03-24T14:30:00.000Z"),
        "# obd2-raw v1\n# transport=serial port=/dev/ttyUSB0 baud=38400\n# started=2026-03-24T14:30:00.000Z\n"
    );
}

#[test]
fn test_parse_raw_capture_basic() {
    let content = "\
# obd2-raw v1
# transport=serial port=/dev/ttyUSB0 baud=115200
# started=2026-03-24T14:30:00.000Z
0.000 W ATZ\\r
0.150 R ELM327 v2.1\\r\\r>
0.200 W 010C\\r
0.328 R 41 0C 0A A0\\r\\r>
";
    let pairs = parse_raw_capture_text(content);
    assert_eq!(pairs.len(), 2);
    assert_eq!(pairs[0].0, "ATZ");
    assert_eq!(pairs[0].1, "ELM327 v2.1\r\r>");
    assert_eq!(pairs[1].0, "010C");
    assert_eq!(pairs[1].1, "41 0C 0A A0\r\r>");
}

#[test]
fn test_parse_raw_capture_ignores_chunks() {
    let content = "\
# obd2-raw v1
# transport=serial port=/dev/ttyUSB0 baud=115200
# started=2026-03-24T14:30:00.000Z
0.000 W ATZ\\r
0.045 R.chunk ELM327 v2.
0.089 R.chunk 1\\r\\r>
0.089 R ELM327 v2.1\\r\\r>
";
    let pairs = parse_raw_capture_text(content);
    assert_eq!(pairs.len(), 1);
    assert_eq!(pairs[0].0, "ATZ");
    assert_eq!(pairs[0].1, "ELM327 v2.1\r\r>");
}

#[test]
fn test_parse_raw_capture_strips_trailing_cr() {
    let content = "\
# obd2-raw v1
# transport=mock device=test
# started=2026-03-24T14:30:00.000Z
0.000 W ATE0\\r
0.050 R ATE0\\rOK\\r\\r>
";
    let pairs = parse_raw_capture_text(content);
    assert_eq!(pairs[0].0, "ATE0");
    assert_eq!(pairs[0].1, "ATE0\rOK\r\r>");
}

#[test]
fn test_parse_raw_capture_unpaired_read_and_crlf_lines() {
    let content = "0.001 R orphan\r\n0.002 W 0100\\r\r\n0.003 R 41 00\\r>\r\n";
    let pairs = parse_raw_capture_text(content);
    assert_eq!(pairs.len(), 1);
    assert_eq!(pairs[0].0, "0100");
    assert_eq!(pairs[0].1, "41 00\r>");
}

// ── ble ────────────────────────────────────────────────────────────────

#[test]
fn test_ble_adapter_name_matching() {
    assert_eq!(ADAPTER_NAME_PATTERNS.len(), 8);
    assert!(is_adapter_match("OBDLink MX+", None));
    assert!(is_adapter_match("vgate icar pro", None));
    assert!(is_adapter_match("MY-ELM327", None));
    assert!(!is_adapter_match("Headphones", None));
    assert!(is_adapter_match("Kitchen Thing", Some("kitchen")));
    assert!(!is_adapter_match("OBDLink MX+", Some("veepeak")));
}

// ── vehicle ────────────────────────────────────────────────────────────

#[test]
fn test_module_id_constants() {
    let ecm = ModuleId::new(ModuleId::ECM);
    let also_ecm = ModuleId::new("ecm");
    assert_eq!(ecm, also_ecm);
}

#[test]
fn test_module_id_custom() {
    let vsa = ModuleId::new("vsa");
    assert_eq!(vsa.0, "vsa");
}

#[test]
fn test_physical_address_variants() {
    let j1850 = PhysicalAddress::J1850 { node: 0x10, header: [0x6C, 0x10, 0xF1] };
    let can = PhysicalAddress::Can11Bit { request_id: 0x7E0, response_id: 0x7E8 };
    assert!(matches!(j1850, PhysicalAddress::J1850 { .. }));
    assert!(matches!(can, PhysicalAddress::Can11Bit { .. }));
}

#[test]
fn test_alert_level_ordering() {
    assert!(AlertLevel::Critical > AlertLevel::Warning);
    assert!(AlertLevel::Warning > AlertLevel::Normal);
}

#[test]
fn test_vin_matcher_matches() {
    let matcher = VinMatcher {
        vin_8th_digit: Some(vec!['2']),
        wmi_prefixes: vec!["1GC".into()],
        year_range: None,
    };
    assert!(matcher.matches("1GCHK23224F000001"));
}

#[test]
fn test_vin_matcher_wrong_digit() {
    let matcher = VinMatcher {
        vin_8th_digit: Some(vec!['2']),
        wmi_prefixes: vec!["1GC".into()],
        year_range: None,
    };
    assert!(!matcher.matches("1GCHK23114F000001"));
}

#[test]
fn test_vin_matcher_wrong_wmi() {
    let matcher = VinMatcher {
        vin_8th_digit: Some(vec!['2']),
        wmi_prefixes: vec!["1GC".into()],
        year_range: None,
    };
    assert!(!matcher.matches("1FTHK23124F000001"));
}

#[test]
fn test_vin_matcher_short_vin() {
    let matcher = VinMatcher { vin_8th_digit: None, wmi_prefixes: vec![], year_range: None };
    assert!(!matcher.matches("SHORT"));
}

#[test]
fn test_vin_matcher_wmi_ignores_case() {
    let matcher = VinMatcher {
        vin_8th_digit: None,
        wmi_prefixes: vec!["1gc".into(), "2GC".into()],
        year_range: None,
    };
    assert!(matcher.matches("1GCHK23224F000001"));
    assert!(matcher.matches("2gcHK23224F000001"));
}

#[test]
fn test_vin_matcher_year_range() {
    let matcher = VinMatcher {
        vin_8th_digit: Some(vec!['2']),
        wmi_prefixes: vec!["1GC".into()],
        year_range: Some((2004, 2005)),
    };
    // 10th character '4': model year 2004; 'A': 2010; '5': 2005.
    assert!(matcher.matches("1GCHK23224F000001"));
    assert!(!matcher.matches("1GCHK2322AF000001"));
    assert!(matcher.matches("1GCHK23225F000001"));
    // 'Y' stands for 2000, 'H' for 1987 or 2017.
    let older = VinMatcher { vin_8th_digit: None, wmi_prefixes: vec![], year_range: Some((1985, 2000)) };
    assert!(older.matches("1GCHK2322YF000001"));
    assert!(older.matches("1GCHK2322HF000001"));
    // 'I' is no year code.
    assert!(!older.matches("1GCHK2322IF000001"));
    let newer = VinMatcher { vin_8th_digit: None, wmi_prefixes: vec![], year_range: Some((2015, 2020)) };
    assert!(newer.matches("1GCHK2322HF000001"));
    assert!(!newer.matches("1GCHK2322AF000001"));
}

#[test]
fn test_dtc_library_lookup() {
    let lib = DtcLibrary {
        ecm: vec![DtcEntry {
            code: "P0087".into(),
            meaning: "Fuel Rail Pressure Too Low".into(),
            severity: Severity::Critical,
            notes: None,
            related_pids: None,
            category: None,
        }],
        tcm: vec![],
        bcm: vec![],
        network: vec![],
    };
    assert!(lib.lookup("P0087").is_some());
    assert_eq!(lib.lookup("P0087").unwrap().meaning, "Fuel Rail Pressure Too Low");
    assert!(lib.lookup("P9999").is_none());
}

#[test]
fn test_dtc_library_lookup_order() {
    let entry = |code: &str, meaning: &str| DtcEntry {
        code: code.into(),
        meaning: meaning.into(),
        severity: Severity::Low,
        notes: None,
        related_pids: None,
        category: None,
    };
    let lib = DtcLibrary {
        ecm: vec![],
        tcm: vec![entry("P0700", "tcm"), entry("P0700", "tcm-second")],
        bcm: vec![entry("P0700", "bcm")],
        network: vec![entry("U0100", "net")],
    };
    assert_eq!(lib.lookup("P0700").unwrap().meaning, "tcm");
    assert_eq!(lib.lookup("U0100").unwrap().meaning, "net");
}

// ── hardware test support ──────────────────────────────────────────────

fn facts(tests: Vec<(&str, TestStatus)>, codes: Option<Vec<&str>>) -> ReportFacts {
    ReportFacts {
        vehicle_id: "duramax".into(),
        fatal_error: None,
        protocol_detected: Some("J1850Vpw".into()),
        vin: Some("1GCHK23224F000001".into()),
        tests: tests.into_iter().map(|(n, s)| (n.to_string(), s)).collect(),
        supported_codes: codes.map(|c| c.into_iter().map(String::from).collect()),
    }
}

#[test]
fn test_compare_identical_reports_have_parity() {
    let a = facts(vec![("dtcs", TestStatus::Pass), ("vin", TestStatus::Pass)], Some(vec!["0x0C", "0x05"]));
    let b = facts(vec![("dtcs", TestStatus::Pass), ("vin", TestStatus::Pass)], Some(vec!["0x05", "0x0C", "0x05"]));
    let diffs = compare_report_facts(&a, &b);
    assert!(diffs.is_empty());
    assert!(parity_ok(&diffs));
}

#[test]
fn test_compare_reports_differences() {
    let a = facts(
        vec![("dtcs", TestStatus::Pass), ("supported", TestStatus::Pass), ("vin", TestStatus::Fail)],
        Some(vec!["0x0C"]),
    );
    let mut b = facts(
        vec![("freeze", TestStatus::Pass), ("supported", TestStatus::Skipped), ("vin", TestStatus::Pass)],
        Some(vec!["0x0D", "0x0C"]),
    );
    b.protocol_detected = None;
    let diffs = compare_report_facts(&a, &b);
    let fields: Vec<&str> = diffs.iter().map(|d| d.field.as_str()).collect();
    assert_eq!(
        fields,
        vec![
            "meta.protocol_detected",
            "tests.dtcs",
            "tests.freeze",
            "tests.vin.status",
            "tests.supported.supported_codes",
        ]
    );
    assert_eq!(diffs[0].report_a, "J1850Vpw");
    assert_eq!(diffs[0].report_b, "");
    assert_eq!(diffs[1].report_a, "present");
    assert_eq!(diffs[1].report_b, "missing");
    assert_eq!(diffs[3].report_a, "Fail");
    assert_eq!(diffs[3].report_b, "Pass");
    assert_eq!(diffs[4].severity, DiffSeverity::Warning);
    assert_eq!(diffs[4].report_a, "0x0C");
    assert_eq!(diffs[4].report_b, "0x0C,0x0D");
    assert!(!parity_ok(&diffs));
}

#[test]
fn test_summarize_statuses_counts() {
    let s = [TestStatus::Pass, TestStatus::Fail, TestStatus::Pass, TestStatus::Skipped];
    assert_eq!(summarize_statuses(&s), (4, 2, 1, 1));
    assert_eq!(summarize_statuses(&[]), (0, 0, 0, 0));
}

#[test]
fn test_only_groups_parsing() {
    let known = ["vin", "dtcs", "supported"];
    assert_eq!(parse_only_groups(None, &known), Ok(None));
    assert_eq!(parse_only_groups(Some(" , "), &known), Ok(None));
    assert_eq!(
        parse_only_groups(Some(" vin,dtcs ,"), &known),
        Ok(Some(vec!["vin".to_string(), "dtcs".to_string()]))
    );
    assert_eq!(
        parse_only_groups(Some("vin,bogus,nope"), &known),
        Err("Unknown group(s): bogus, nope. Known groups: vin, dtcs, supported".to_string())
    );
}

#[test]
fn test_group_decisions() {
    let only = vec!["vin".to_string()];
    assert_eq!(
        group_decision("dtcs", Some(&only[..]), false, false, false, true, true, true),
        GroupDecision::NotSelected
    );
    assert_eq!(
        group_decision("vin", Some(&only[..]), true, true, false, false, false, false),
        GroupDecision::Skip("vehicle does not support J1939")
    );
    assert_eq!(
        group_decision("vin", None, false, true, true, false, false, false),
        GroupDecision::Skip("vehicle does not have a matched spec")
    );
    assert_eq!(
        group_decision("vin", None, false, false, true, false, false, false),
        GroupDecision::Skip("requires --interactive")
    );
    assert_eq!(group_decision("vin", None, false, false, false, false, false, false), GroupDecision::Run);
}

#[test]
fn test_vin_expectations_and_transport_names() {
    let exact = VinExpectation::Exact("1GCHK23224F000001");
    assert!(exact.matches("1gchk23224f000001"));
    assert!(!exact.matches("1GCHK23224F000002"));
    assert_eq!(exact.describe(), "exact");
    assert_eq!(exact.expected(), Some("1GCHK23224F000001"));
    let unknown = VinExpectation::Unknown;
    assert!(unknown.matches("ABCDEFGHIJKLMNOPQ"));
    assert!(!unknown.matches("SHORT"));
    assert_eq!(unknown.describe(), "bootstrap-discovery");
    assert_eq!(unknown.expected(), None);
    assert_eq!(TransportArg::Usb.as_str(), "usb");
    assert_eq!(TransportArg::Ble.as_str(), "ble");
}

#[test]
fn test_capture_written_then_parsed_gives_exchanges() {
    let meta = CaptureMetadata {
        transport_type: "serial".to_string(),
        port_or_device: "/dev/ttyUSB0".to_string(),
        baud_rate: Some(115200),
    };
    let mut text = format_header_at(&meta, "2026-03-24T14:30:00.000Z");
    let exchanges: Vec<(&[u8], &[u8])> = vec![
        (b"ATZ\r", b"ELM327 v2.1\r\r>"),
        (b"010C\r", b"41 0C 0A A0\r\r>"),
        (b"0100", b"41 00 BE 3E B8 11\r\n>"),
    ];
    for (k, (cmd, resp)) in exchanges.iter().enumerate() {
        text.push_str(&format!("{}.000 W {}\n", k, escape_bytes(cmd)));
        text.push_str(&format!("{}.100 R {}\n", k, escape_bytes(resp)));
    }
    let pairs = parse_raw_capture_text(&text);
    assert_eq!(
        pairs,
        vec![
            ("ATZ".to_string(), "ELM327 v2.1\r\r>".to_string()),
            ("010C".to_string(), "41 0C 0A A0\r\r>".to_string()),
            ("0100".to_string(), "41 00 BE 3E B8 11\r\n>".to_string()),
        ]
    );
}
