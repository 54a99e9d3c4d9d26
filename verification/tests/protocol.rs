use obd2_core::error::{NegativeResponse, Obd2Error};
use obd2_core::protocol::dtc::{
    universal_dtc_description, Dtc, DtcCategory, DtcStatus, DtcStatusByte, Severity,
};
use obd2_core::protocol::enhanced::ReadingSource;
use obd2_core::protocol::j1939::{
    decode_ccvs_raw, decode_dm1, decode_eec1_raw, decode_eflp1_raw, decode_et1_raw,
    decode_lfe_raw, J1939Dtc, Pgn,
};
use obd2_core::protocol::pid::{Pid, ValueType};
use obd2_core::protocol::service::{o2_test_spec, O2Scale, O2SensorLocation, ServiceRequest, Target};

// ── error ──────────────────────────────────────────────────────────────

#[test]
fn test_error_display_timeout() {
    let err = Obd2Error::Timeout;
    assert_eq!(err.to_string(), "timeout waiting for response");
}

#[test]
fn test_error_display_nrc() {
    let err = Obd2Error::NegativeResponse {
        service: 0x22,
        nrc: NegativeResponse::RequestOutOfRange,
    };
    let s = err.to_string();
    assert!(s.contains("RequestOutOfRange"));
    assert!(s.contains("0x22"));
}

#[test]
fn test_io_error_conversion() {
    let io_err = std::io::Error::new(std::io::ErrorKind::BrokenPipe, "gone");
    let obd_err: Obd2Error = io_err.into();
    assert!(matches!(obd_err, Obd2Error::Io(_)));
}

#[test]
fn test_nrc_from_byte() {
    assert_eq!(
        NegativeResponse::from_byte(0x31),
        Some(NegativeResponse::RequestOutOfRange)
    );
    assert_eq!(
        NegativeResponse::from_byte(0x78),
        Some(NegativeResponse::ResponsePending)
    );
    assert_eq!(NegativeResponse::from_byte(0xFF), None);
}

#[test]
fn test_nrc_code() {
    assert_eq!(NegativeResponse::GeneralReject.code(), 0x10);
    assert_eq!(NegativeResponse::ResponsePending.code(), 0x78);
}

#[test]
fn test_nrc_display() {
    let nrc = NegativeResponse::SecurityAccessDenied;
    let s = nrc.to_string();
    assert!(s.contains("SecurityAccessDenied"));
    assert!(s.contains("0x33"));
}

#[test]
fn test_nrc_code_roundtrip_all_variants() {
    for b in 0u8..=255 {
        if let Some(n) = NegativeResponse::from_byte(b) {
            assert_eq!(n.code(), b);
            assert_eq!(NegativeResponse::from_byte(n.code()), Some(n));
        }
    }
}

#[test]
fn test_error_messages_exact() {
    assert_eq!(
        Obd2Error::UnsupportedPid { pid: 0x0C }.to_string(),
        "PID 0x0c not supported by this vehicle"
    );
    assert_eq!(
        Obd2Error::NegativeResponse { service: 0x22, nrc: NegativeResponse::RequestOutOfRange }
            .to_string(),
        "negative response: RequestOutOfRange (0x31) for service 0x22"
    );
    assert_eq!(
        Obd2Error::ModuleNotFound("tcm".to_string()).to_string(),
        "module 'tcm' not found in vehicle spec"
    );
    assert_eq!(
        Obd2Error::BusNotAvailable("can".to_string()).to_string(),
        "bus 'can' not available on this vehicle"
    );
    assert_eq!(Obd2Error::Other("plain".to_string()).to_string(), "plain");
}

#[test]
fn test_io_error_display_prefix() {
    let io_err = std::io::Error::new(std::io::ErrorKind::BrokenPipe, "gone");
    let obd_err: Obd2Error = io_err.into();
    assert_eq!(obd_err.to_string(), "IO error: gone");
}

// ── dtc ────────────────────────────────────────────────────────────────

#[test]
fn test_dtc_default() {
    let dtc = Dtc::default();
    assert_eq!(dtc.category, DtcCategory::Powertrain);
    assert_eq!(dtc.status, DtcStatus::Stored);
    assert!(dtc.description.is_none());
}

#[test]
fn test_severity_ordering() {
    assert!(Severity::Critical > Severity::High);
    assert!(Severity::High > Severity::Medium);
    assert!(Severity::Medium > Severity::Low);
    assert!(Severity::Low > Severity::Info);
}

#[test]
fn test_dtc_status_byte_default() {
    let status = DtcStatusByte::default();
    assert!(!status.test_failed);
    assert!(!status.confirmed);
    assert!(!status.warning_indicator_requested);
}

#[test]
fn test_dtc_from_bytes_powertrain() {
    let dtc = Dtc::from_bytes(0x04, 0x20);
    assert_eq!(dtc.code, "P0420");
    assert_eq!(dtc.category, DtcCategory::Powertrain);
    assert!(dtc.description.is_some());
    assert!(dtc.description.unwrap().contains("Catalyst"));
}

#[test]
fn test_dtc_from_bytes_chassis() {
    let dtc = Dtc::from_bytes(0x40, 0x35);
    assert_eq!(dtc.code, "C0035");
    assert_eq!(dtc.category, DtcCategory::Chassis);
}

#[test]
fn test_dtc_from_bytes_body() {
    let dtc = Dtc::from_bytes(0x80, 0x83);
    assert_eq!(dtc.code, "B0083");
    assert_eq!(dtc.category, DtcCategory::Body);
}

#[test]
fn test_dtc_from_bytes_network() {
    let dtc = Dtc::from_bytes(0xC1, 0x00);
    assert_eq!(dtc.code, "U0100");
    assert_eq!(dtc.category, DtcCategory::Network);
}

#[test]
fn test_dtc_from_bytes_high_digits() {
    // Second character is bits 4-5 of the first byte, then three hex digits.
    let dtc = Dtc::from_bytes(0x3F, 0xAB);
    assert_eq!(dtc.code, "P3FAB");
    assert!(dtc.description.is_none());
}

#[test]
fn test_dtc_from_code() {
    let dtc = Dtc::from_code("P0420");
    assert_eq!(dtc.code, "P0420");
    assert_eq!(dtc.category, DtcCategory::Powertrain);
    assert!(dtc.description.is_some());
}

#[test]
fn test_dtc_from_code_lowercase() {
    let dtc = Dtc::from_code("p0171");
    assert_eq!(dtc.code, "P0171");
}

#[test]
fn test_dtc_from_code_categories() {
    assert_eq!(Dtc::from_code("c0035").category, DtcCategory::Chassis);
    assert_eq!(Dtc::from_code("B0083").category, DtcCategory::Body);
    assert_eq!(Dtc::from_code("U0100").category, DtcCategory::Network);
    assert_eq!(Dtc::from_code("X1234").category, DtcCategory::Powertrain);
}

#[test]
fn test_universal_description_known() {
    assert!(universal_dtc_description("P0420").is_some());
    assert!(universal_dtc_description("P0300").unwrap().contains("Misfire"));
}

#[test]
fn test_universal_description_unknown() {
    assert!(universal_dtc_description("P9999").is_none());
}

#[test]
fn test_status_byte_decode() {
    let status = DtcStatusByte::from_byte(0x0B);
    assert!(status.test_failed);
    assert!(status.test_failed_this_cycle);
    assert!(!status.pending);
    assert!(status.confirmed);
}

#[test]
fn test_status_byte_roundtrip() {
    let original: u8 = 0xAF;
    let status = DtcStatusByte::from_byte(original);
    assert_eq!(status.to_byte(), original);
}

#[test]
fn test_status_byte_roundtrip_every_byte() {
    for b in 0u8..=255 {
        assert_eq!(DtcStatusByte::from_byte(b).to_byte(), b);
    }
}

#[test]
fn test_status_byte_all_flags() {
    let status = DtcStatusByte::from_byte(0xFF);
    assert!(status.test_failed);
    assert!(status.test_failed_this_cycle);
    assert!(status.pending);
    assert!(status.confirmed);
    assert!(status.test_not_completed_since_clear);
    assert!(status.test_failed_since_clear);
    assert!(status.test_not_completed_this_cycle);
    assert!(status.warning_indicator_requested);
}

#[test]
fn test_status_byte_mil_on() {
    let status = DtcStatusByte::from_byte(0x80);
    assert!(status.warning_indicator_requested);
    assert!(!status.test_failed);
}

// ── enhanced ───────────────────────────────────────────────────────────

#[test]
fn test_reading_source_equality() {
    assert_ne!(ReadingSource::Live, ReadingSource::FreezeFrame);
    assert_ne!(ReadingSource::Live, ReadingSource::Replay);
}

// ── j1939 ──────────────────────────────────────────────────────────────

#[test]
fn test_pgn_constants() {
    assert_eq!(Pgn::EEC1().0, 61444);
    assert_eq!(Pgn::CCVS().0, 65265);
    assert_eq!(Pgn::ET1().0, 65262);
    assert_eq!(Pgn::DM1().0, 65226);
}

#[test]
fn test_pgn_name() {
    assert!(Pgn::EEC1().name().contains("Electronic Engine"));
    assert!(Pgn::CCVS().name().contains("Vehicle Speed"));
    assert_eq!(Pgn(99999).name(), "Unknown PGN");
}

#[test]
fn test_pgn_display() {
    let s = Pgn::EEC1().to_string();
    assert!(s.contains("61444"));
    assert!(s.contains("EEC1"));
    assert_eq!(Pgn(7).to_string(), "PGN 7 (Unknown PGN)");
}

#[test]
fn test_decode_eec1_raw_fields() {
    let data = [0x00, 155, 155, 0x40, 0x15, 0xFF, 0xFF, 0xFF];
    let eec1 = decode_eec1_raw(&data).unwrap();
    assert_eq!(eec1.torque_mode, 0);
    assert_eq!(eec1.driver_demand_torque, Some(155));
    assert_eq!(eec1.actual_torque, Some(155));
    assert_eq!(eec1.engine_speed, Some(5440));
}

#[test]
fn test_decode_eec1_raw_not_available_and_short() {
    let data = [0x00, 0xFF, 0xFF, 0xFF, 0xFF, 0xFF, 0xFF, 0xFF];
    let eec1 = decode_eec1_raw(&data).unwrap();
    assert!(eec1.engine_speed.is_none());
    assert!(eec1.driver_demand_torque.is_none());
    assert!(eec1.actual_torque.is_none());
    assert!(decode_eec1_raw(&[0x00, 0x01]).is_none());
}

#[test]
fn test_decode_ccvs_raw_fields() {
    let data = [0x00, 0x00, 0x1A, 0x00, 0x00, 0x00, 0x00, 0x00];
    let ccvs = decode_ccvs_raw(&data).unwrap();
    assert_eq!(ccvs.vehicle_speed, Some(0x1A00));
    assert_eq!(ccvs.brake_switch, Some(false));
    assert_eq!(ccvs.cruise_active, Some(false));
    let all = decode_ccvs_raw(&[0xFF; 8]).unwrap();
    assert!(all.vehicle_speed.is_none());
    assert!(all.brake_switch.is_none());
    assert!(all.cruise_active.is_none());
    let on = decode_ccvs_raw(&[0x01, 0, 0, 0x04, 0, 0, 0, 0]).unwrap();
    assert_eq!(on.brake_switch, Some(true));
    assert_eq!(on.cruise_active, Some(true));
}

#[test]
fn test_decode_et1_eflp1_lfe_raw() {
    let et1 = decode_et1_raw(&[90, 60, 0x00, 0x00, 0xFF, 0xFF, 0xFF, 0xFF]).unwrap();
    assert_eq!(et1.coolant_temp, Some(90));
    assert_eq!(et1.fuel_temp, Some(60));
    assert_eq!(et1.oil_temp, Some(0));
    let eflp1 = decode_eflp1_raw(&[0xFF, 50, 0xFF, 100, 0xFF, 0xFF, 0xFF, 0xFF]).unwrap();
    assert_eq!(eflp1.coolant_pressure, Some(50));
    assert_eq!(eflp1.oil_pressure, Some(100));
    let lfe = decode_lfe_raw(&[100, 0x00, 0x00, 0x02, 0xFF, 0xFF, 0xFF, 0xFF]).unwrap();
    assert_eq!(lfe.fuel_rate, Some(100));
    assert_eq!(lfe.instantaneous_fuel_economy, Some(0x0200));
    assert!(decode_lfe_raw(&[0xFF; 8]).unwrap().fuel_rate.is_none());
    assert!(decode_et1_raw(&[1, 2, 3]).is_none());
}

#[test]
fn test_j1939_dtc_from_bytes() {
    let data = [0xBE, 0x00, 0x02, 0x01];
    let dtc = J1939Dtc::from_bytes(&data).unwrap();
    assert_eq!(dtc.spn, 190);
    assert_eq!(dtc.fmi, 2);
    assert_eq!(dtc.occurrence_count, 1);
}

#[test]
fn test_j1939_dtc_from_bytes_high_spn_bits() {
    // Bits 5-7 of the third byte are SPN bits 16-18; the top bit of the fourth is CM.
    let dtc = J1939Dtc::from_bytes(&[0x01, 0x02, 0xE3, 0x85]).unwrap();
    assert_eq!(dtc.spn, 0x70201);
    assert_eq!(dtc.fmi, 3);
    assert_eq!(dtc.occurrence_count, 5);
    assert_eq!(dtc.conversion_method, 1);
}

#[test]
fn test_j1939_dtc_from_bytes_too_short() {
    assert!(J1939Dtc::from_bytes(&[0x00, 0x01]).is_none());
}

#[test]
fn test_j1939_dtc_display() {
    let dtc = J1939Dtc { spn: 190, fmi: 2, occurrence_count: 1, conversion_method: 0 };
    let s = dtc.to_string();
    assert!(s.contains("SPN 190"));
    assert!(s.contains("FMI 2"));
    assert!(s.contains("Erratic"));
}

#[test]
fn test_j1939_dtc_fmi_descriptions() {
    let dtc = J1939Dtc { spn: 0, fmi: 0, occurrence_count: 0, conversion_method: 0 };
    assert!(dtc.fmi_description().contains("Above Normal"));
    let dtc = J1939Dtc { spn: 0, fmi: 11, occurrence_count: 0, conversion_method: 0 };
    assert!(dtc.fmi_description().contains("Root Cause Not Known"));
}

#[test]
fn test_decode_dm1() {
    let data = [0x00, 0x00, 0xBE, 0x00, 0x02, 0x01];
    let dtcs = decode_dm1(&data);
    assert_eq!(dtcs.len(), 1);
    assert_eq!(dtcs[0].spn, 190);
    assert_eq!(dtcs[0].fmi, 2);
}

#[test]
fn test_decode_dm1_empty() {
    assert!(decode_dm1(&[0x00, 0x00]).is_empty());
}

#[test]
fn test_decode_dm1_multiple_dtcs() {
    let data = [
        0x00, 0x00, 0xBE, 0x00, 0x02, 0x01, 0x64, 0x00, 0x03, 0x02,
    ];
    let dtcs = decode_dm1(&data);
    assert_eq!(dtcs.len(), 2);
    assert_eq!(dtcs[0].spn, 190);
    assert_eq!(dtcs[1].spn, 100);
}

#[test]
fn test_decode_dm1_drops_partial_group() {
    let data = [0x00, 0x00, 0xBE, 0x00, 0x02, 0x01, 0x64, 0x00];
    assert_eq!(decode_dm1(&data).len(), 1);
}

// ── pid ────────────────────────────────────────────────────────────────

#[test]
fn test_pid_constants() {
    assert_eq!(Pid::ENGINE_RPM().0, 0x0C);
    assert_eq!(Pid::COOLANT_TEMP().0, 0x05);
    assert_eq!(Pid::ENGINE_OIL_TEMP().0, 0x5C);
}

#[test]
fn test_pid_names() {
    assert_eq!(Pid::ENGINE_RPM().name(), "Engine RPM");
    assert_eq!(Pid::COOLANT_TEMP().name(), "Coolant Temperature");
}

#[test]
fn test_pid_units() {
    assert_eq!(Pid::ENGINE_RPM().unit(), "RPM");
    assert_eq!(Pid::COOLANT_TEMP().unit(), "\u{00B0}C");
    assert_eq!(Pid::VEHICLE_SPEED().unit(), "km/h");
}

#[test]
fn test_pid_response_bytes() {
    assert_eq!(Pid::ENGINE_RPM().response_bytes(), 2);
    assert_eq!(Pid::COOLANT_TEMP().response_bytes(), 1);
    assert_eq!(Pid::MONITOR_STATUS().response_bytes(), 4);
}

#[test]
fn test_pid_value_types() {
    assert_eq!(Pid::ENGINE_RPM().value_type(), ValueType::Scalar);
    assert_eq!(Pid::MONITOR_STATUS().value_type(), ValueType::Bitfield);
}

#[test]
fn test_all_pids_have_names() {
    for pid in Pid::all() {
        assert_ne!(pid.name(), "Unknown PID", "PID {:#04x} has no name", pid.0);
    }
}

#[test]
fn test_pid_names_distinct_and_unknown_elsewhere() {
    let all = Pid::all();
    for (i, a) in all.iter().enumerate() {
        for b in &all[i + 1..] {
            assert_ne!(a.name(), b.name());
        }
    }
    for code in 0..=255u8 {
        let listed = all.iter().any(|p| p.0 == code);
        assert_eq!(Pid(code).name() != "Unknown PID", listed, "PID {:#04x}", code);
    }
}

#[test]
fn test_pid_check_response_length() {
    assert!(Pid::ENGINE_RPM().check_response_length(&[0x1A, 0xF8]).is_ok());
    match Pid::ENGINE_RPM().check_response_length(&[0x1A]) {
        Err(Obd2Error::ParseError(m)) => assert_eq!(m, "PID 0x0C expects 2 bytes, got 1"),
        other => panic!("unexpected: {other:?}"),
    }
    assert!(Pid(0x00).check_response_length(&[]).is_err());
}

#[test]
fn test_pid_display() {
    let s = Pid::ENGINE_RPM().to_string();
    assert!(s.contains("Engine RPM"));
    assert!(s.contains("0x0C"));
    assert_eq!(Pid(0xEE).to_string(), "Unknown PID (0xEE)");
}

// ── service ────────────────────────────────────────────────────────────

#[test]
fn test_service_request_read_pid() {
    let req = ServiceRequest::read_pid(Pid::ENGINE_RPM());
    assert_eq!(req.service_id, 0x01);
    assert_eq!(req.data, vec![0x0C]);
    assert_eq!(req.target, Target::Broadcast);
}

#[test]
fn test_service_request_read_vin() {
    let req = ServiceRequest::read_vin();
    assert_eq!(req.service_id, 0x09);
    assert_eq!(req.data, vec![0x02]);
}

#[test]
fn test_service_request_enhanced_read() {
    let req = ServiceRequest::enhanced_read(0x22, 0x162F, Target::Module("ecm".into()));
    assert_eq!(req.service_id, 0x22);
    assert_eq!(req.data, vec![0x16, 0x2F]);
}

#[test]
fn test_service_request_read_dtcs() {
    let req = ServiceRequest::read_dtcs();
    assert_eq!(req.service_id, 0x03);
    assert!(req.data.is_empty());
}

#[test]
fn test_o2_sensor_location_roundtrip() {
    for b in 0x01..=0x08u8 {
        assert!(O2SensorLocation::from_byte(b).is_some());
    }
}

#[test]
fn test_o2_test_info_all_standard_tids() {
    for tid in 0x01..=0x09u8 {
        let (name, unit, _) = o2_test_spec(tid);
        assert!(!name.contains("Unknown"), "TID {:#04X} should be known", tid);
        assert!(!unit.is_empty(), "TID {:#04X} should have a unit", tid);
    }
}

#[test]
fn test_o2_test_info_unknown_tid() {
    let (name, unit, scale) = o2_test_spec(0xFF);
    assert!(name.contains("Unknown"));
    assert!(unit.is_empty());
    assert_eq!(scale, O2Scale::Unscaled);
}

#[test]
fn test_o2_test_info_voltage_and_time_scales() {
    assert_eq!(o2_test_spec(0x01).2, O2Scale::Volts5mV);
    assert_eq!(o2_test_spec(0x05).1, "s");
    assert_eq!(o2_test_spec(0x05).2, O2Scale::Seconds4ms);
    assert_eq!(o2_test_spec(0x09).2, O2Scale::Seconds40ms);
}

fn o2_step(scale: O2Scale) -> f64 {
    match scale {
        O2Scale::Volts5mV => 0.005,
        O2Scale::Seconds4ms => 0.004,
        O2Scale::Seconds40ms => 0.04,
        O2Scale::Unscaled => 1.0,
    }
}

#[test]
fn test_o2_test_info_voltage_tid() {
    let (name, unit, scale) = o2_test_spec(0x01);
    assert_eq!(name, "Rich-to-Lean Threshold Voltage");
    assert_eq!(unit, "V");
    assert!((90.0 * o2_step(scale) - 0.45).abs() < 0.001);
}

#[test]
fn test_o2_test_info_time_tid() {
    let (name, unit, scale) = o2_test_spec(0x05);
    assert_eq!(name, "Rich-to-Lean Switch Time");
    assert_eq!(unit, "s");
    assert!((250.0 * o2_step(scale) - 1.0).abs() < 0.001);
}

#[test]
fn test_dtc_rebuilt_from_its_code() {
    for (a, b) in [(0x04u8, 0x20u8), (0x40, 0x35), (0x8F, 0xFF), (0xC1, 0x00), (0x3A, 0x0B)] {
        let decoded = Dtc::from_bytes(a, b);
        let rebuilt = Dtc::from_code(&decoded.code);
        assert_eq!(rebuilt, decoded);
    }
}
