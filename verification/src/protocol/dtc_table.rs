//! The universal (SAE J2012) DTC description table.
//!
//! A code such as `P0420` is looked up by its category letter and the value of
//! its four decimal digits; a string equals the literal `"P0420"` exactly when
//! it has five characters, starts with `P` and its last four characters are the
//! decimal digits of 420, so the lookup by letter and number answers for every
//! code what a lookup by the whole string would.

use vstd::prelude::*;

verus! {

/// Universal description of the code with category `letter` and number `n`.
pub open spec fn universal_table(letter: char, n: u16) -> Option<&'static str> {
    if letter == 'P' {
        powertrain_table(n)
    } else if letter == 'C' {
        chassis_table(n)
    } else if letter == 'B' {
        body_table(n)
    } else if letter == 'U' {
        network_table(n)
    } else {
        None
    }
}

/// Looks up the code with category `letter` and number `n`.
pub fn universal_lookup(letter: char, n: u16) -> (r: Option<&'static str>)
    ensures
        r == universal_table(letter, n),
{
    if letter == 'P' {
        powertrain_lookup(n)
    } else if letter == 'C' {
        chassis_lookup(n)
    } else if letter == 'B' {
        body_lookup(n)
    } else if letter == 'U' {
        network_lookup(n)
    } else {
        None
    }
}

pub open spec fn powertrain_table(n: u16) -> Option<&'static str> {
    match n {
        10 => Some("Intake Camshaft Position Actuator Circuit (Bank 1)"),
        11 => Some("Intake Camshaft Position Timing Over-Advanced (Bank 1)"),
        12 => Some("Intake Camshaft Position Timing Over-Retarded (Bank 1)"),
        14 => Some("Exhaust Camshaft Position Timing Over-Advanced (Bank 1)"),
        16 => Some("Crankshaft Position / Camshaft Position Correlation (Bank 1 Sensor A)"),
        30 => Some("HO2S Heater Control Circuit (Bank 1 Sensor 1)"),
        36 => Some("HO2S Heater Control Circuit (Bank 1 Sensor 2)"),
        87 => Some("Fuel Rail/System Pressure Too Low"),
        88 => Some("Fuel Rail/System Pressure Too High"),
        93 => Some("Fuel System Leak Detected (Large)"),
        100 => Some("MAF/VAF Circuit Malfunction"),
        101 => Some("MAF/VAF Circuit Range/Performance"),
        102 => Some("MAF/VAF Circuit Low Input"),
        103 => Some("MAF/VAF Circuit High Input"),
        106 => Some("MAP/Barometric Pressure Circuit Range/Performance"),
        107 => Some("MAP/Barometric Pressure Circuit Low Input"),
        108 => Some("MAP/Barometric Pressure Circuit High Input"),
        110 => Some("Intake Air Temperature Sensor 1 Circuit"),
        111 => Some("Intake Air Temperature Sensor 1 Circuit Range/Performance"),
        112 => Some("Intake Air Temperature Sensor 1 Circuit Low"),
        113 => Some("Intake Air Temperature Sensor 1 Circuit High"),
        115 => Some("Engine Coolant Temperature Circuit"),
        116 => Some("Engine Coolant Temperature Circuit Range/Performance"),
        117 => Some("Engine Coolant Temperature Circuit Low"),
        118 => Some("Engine Coolant Temperature Circuit High"),
        120 => Some("Throttle Position Sensor A Circuit"),
        121 => Some("Throttle Position Sensor A Circuit Range/Performance"),
        122 => Some("Throttle Position Sensor A Circuit Low"),
        123 => Some("Throttle Position Sensor A Circuit High"),
        125 => Some("Insufficient Coolant Temperature for Closed Loop"),
        128 => Some("Coolant Thermostat Below Operating Temperature"),
        130 => Some("O2 Sensor Circuit Bank 1 Sensor 1"),
        131 => Some("O2 Sensor Circuit Low Voltage B1S1"),
        132 => Some("O2 Sensor Circuit High Voltage B1S1"),
        133 => Some("O2 Sensor Circuit Slow Response B1S1"),
        134 => Some("O2 Sensor Circuit No Activity B1S1"),
        135 => Some("O2 Sensor Heater Circuit B1S1"),
        136 => Some("O2 Sensor Circuit Bank 1 Sensor 2"),
        137 => Some("O2 Sensor Circuit Low Voltage B1S2"),
        138 => Some("O2 Sensor Circuit High Voltage B1S2"),
        139 => Some("O2 Sensor Circuit Slow Response B1S2"),
        140 => Some("O2 Sensor Circuit No Activity B1S2"),
        141 => Some("O2 Sensor Heater Circuit B1S2"),
        150 => Some("O2 Sensor Circuit Bank 2 Sensor 1"),
        151 => Some("O2 Sensor Circuit Low Voltage B2S1"),
        152 => Some("O2 Sensor Circuit High Voltage B2S1"),
        153 => Some("O2 Sensor Circuit Slow Response B2S1"),
        154 => Some("O2 Sensor Circuit No Activity B2S1"),
        155 => Some("O2 Sensor Heater Circuit B2S1"),
        156 => Some("O2 Sensor Circuit Bank 2 Sensor 2"),
        157 => Some("O2 Sensor Circuit Low Voltage B2S2"),
        158 => Some("O2 Sensor Circuit High Voltage B2S2"),
        159 => Some("O2 Sensor Circuit Slow Response B2S2"),
        160 => Some("O2 Sensor Circuit No Activity B2S2"),
        161 => Some("O2 Sensor Heater Circuit B2S2"),
        171 => Some("System Too Lean Bank 1"),
        172 => Some("System Too Rich Bank 1"),
        174 => Some("System Too Lean Bank 2"),
        175 => Some("System Too Rich Bank 2"),
        192 => Some("Fuel Rail Pressure Sensor Circuit Low"),
        193 => Some("Fuel Rail Pressure Sensor Circuit High"),
        201 => Some("Injector Circuit/Open Cylinder 1"),
        202 => Some("Injector Circuit/Open Cylinder 2"),
        203 => Some("Injector Circuit/Open Cylinder 3"),
        204 => Some("Injector Circuit/Open Cylinder 4"),
        205 => Some("Injector Circuit/Open Cylinder 5"),
        206 => Some("Injector Circuit/Open Cylinder 6"),
        207 => Some("Injector Circuit/Open Cylinder 7"),
        208 => Some("Injector Circuit/Open Cylinder 8"),
        234 => Some("Turbo/Supercharger Overboost Condition"),
        236 => Some("Turbocharger Boost Sensor A Circuit Range/Performance"),
        299 => Some("Turbo/Supercharger Underboost"),
        300 => Some("Random/Multiple Cylinder Misfire Detected"),
        301 => Some("Cylinder 1 Misfire Detected"),
        302 => Some("Cylinder 2 Misfire Detected"),
        303 => Some("Cylinder 3 Misfire Detected"),
        304 => Some("Cylinder 4 Misfire Detected"),
        305 => Some("Cylinder 5 Misfire Detected"),
        306 => Some("Cylinder 6 Misfire Detected"),
        307 => Some("Cylinder 7 Misfire Detected"),
        308 => Some("Cylinder 8 Misfire Detected"),
        325 => Some("Knock Sensor 1 Circuit Bank 1"),
        335 => Some("Crankshaft Position Sensor A Circuit"),
        336 => Some("Crankshaft Position Sensor A Range/Performance"),
        340 => Some("Camshaft Position Sensor A Circuit Bank 1"),
        341 => Some("Camshaft Position Sensor A Range/Performance Bank 1"),
        365 => Some("Camshaft Position Sensor B Circuit (Bank 1)"),
        366 => Some("Camshaft Position Sensor B Circuit Range/Performance (Bank 1)"),
        380 => Some("Glow Plug/Heater Circuit A Malfunction"),
        400 => Some("EGR Flow Malfunction"),
        401 => Some("EGR Flow Insufficient"),
        402 => Some("EGR Flow Excessive"),
        404 => Some("EGR System Range/Performance"),
        405 => Some("EGR Position Sensor A Circuit Low"),
        406 => Some("EGR Position Sensor A Circuit High"),
        420 => Some("Catalyst System Efficiency Below Threshold Bank 1"),
        430 => Some("Catalyst System Efficiency Below Threshold Bank 2"),
        440 => Some("Evaporative Emission System Malfunction"),
        441 => Some("Evaporative Emission System Incorrect Purge Flow"),
        442 => Some("Evaporative Emission System Leak Detected (Small)"),
        443 => Some("Evaporative Emission System Purge Control Valve Circuit"),
        446 => Some("Evaporative Emission System Vent Control Circuit"),
        449 => Some("Evaporative Emission System Vent Valve/Solenoid Circuit"),
        451 => Some("Evaporative Emission System Pressure Sensor Range/Performance"),
        455 => Some("Evaporative Emission System Leak Detected (Large)"),
        456 => Some("Evaporative Emission System Leak Detected (Very Small)"),
        496 => Some("Evaporative Emission System High Purge Flow"),
        500 => Some("Vehicle Speed Sensor A Malfunction"),
        503 => Some("Vehicle Speed Sensor Intermittent/Erratic/High"),
        505 => Some("Idle Air Control System Malfunction"),
        506 => Some("Idle Air Control System RPM Lower Than Expected"),
        507 => Some("Idle Air Control System RPM Higher Than Expected"),
        562 => Some("System Voltage Low"),
        563 => Some("System Voltage High"),
        597 => Some("Thermostat Heater Control Circuit Open"),
        598 => Some("Thermostat Heater Control Circuit Low"),
        599 => Some("Thermostat Heater Control Circuit High"),
        600 => Some("Serial Communication Link Malfunction"),
        601 => Some("Internal Control Module Memory Check Sum Error"),
        602 => Some("Control Module Programming Error"),
        606 => Some("ECM/PCM Processor Fault"),
        700 => Some("Transmission Control System Malfunction"),
        705 => Some("Transmission Range Sensor Circuit Malfunction"),
        710 => Some("Transmission Fluid Temperature Sensor Circuit"),
        711 => Some("Transmission Fluid Temperature Sensor Circuit Range/Performance"),
        715 => Some("Input/Turbine Speed Sensor Circuit"),
        717 => Some("Input/Turbine Speed Sensor Circuit No Signal"),
        720 => Some("Output Speed Sensor Circuit"),
        725 => Some("Engine Speed Input Circuit"),
        730 => Some("Incorrect Gear Ratio"),
        731 => Some("Gear 1 Incorrect Ratio"),
        732 => Some("Gear 2 Incorrect Ratio"),
        733 => Some("Gear 3 Incorrect Ratio"),
        734 => Some("Gear 4 Incorrect Ratio"),
        735 => Some("Gear 5 Incorrect Ratio"),
        740 => Some("Torque Converter Clutch Circuit Malfunction"),
        741 => Some("Torque Converter Clutch System Stuck Off"),
        742 => Some("Torque Converter Clutch System Stuck On"),
        743 => Some("Torque Converter Clutch System Electrical"),
        747 => Some("Pressure Control Solenoid A Stuck On"),
        748 => Some("Pressure Control Solenoid A Electrical"),
        750 => Some("Shift Solenoid A Malfunction"),
        751 => Some("Shift Solenoid A Performance/Stuck Off"),
        752 => Some("Shift Solenoid A Stuck On"),
        753 => Some("Shift Solenoid A Electrical"),
        755 => Some("Shift Solenoid B Malfunction"),
        756 => Some("Shift Solenoid B Performance/Stuck Off"),
        757 => Some("Shift Solenoid B Stuck On"),
        758 => Some("Shift Solenoid B Electrical"),
        1101 => Some("Intake Airflow System Performance"),
        2097 => Some("Post Catalyst Fuel Trim System Too Rich (Bank 1)"),
        2227 => Some("Barometric Pressure Circuit Range/Performance"),
        2270 => Some("O2 Sensor Signal Stuck Lean (Bank 1 Sensor 2)"),
        2271 => Some("O2 Sensor Signal Stuck Rich (Bank 1 Sensor 2)"),
        2797 => Some("Auxiliary Transmission Fluid Pump Performance"),
        _ => None,
    }
}

fn powertrain_lookup(n: u16) -> (r: Option<&'static str>)
    ensures
        r == powertrain_table(n),
{
    match n {
        10 => Some("Intake Camshaft Position Actuator Circuit (Bank 1)"),
        11 => Some("Intake Camshaft Position Timing Over-Advanced (Bank 1)"),
        12 => Some("Intake Camshaft Position Timing Over-Retarded (Bank 1)"),
        14 => Some("Exhaust Camshaft Position Timing Over-Advanced (Bank 1)"),
        16 => Some("Crankshaft Position / Camshaft Position Correlation (Bank 1 Sensor A)"),
        30 => Some("HO2S Heater Control Circuit (Bank 1 Sensor 1)"),
        36 => Some("HO2S Heater Control Circuit (Bank 1 Sensor 2)"),
        87 => Some("Fuel Rail/System Pressure Too Low"),
        88 => Some("Fuel Rail/System Pressure Too High"),
        93 => Some("Fuel System Leak Detected (Large)"),
        100 => Some("MAF/VAF Circuit Malfunction"),
        101 => Some("MAF/VAF Circuit Range/Performance"),
        102 => Some("MAF/VAF Circuit Low Input"),
        103 => Some("MAF/VAF Circuit High Input"),
        106 => Some("MAP/Barometric Pressure Circuit Range/Performance"),
        107 => Some("MAP/Barometric Pressure Circuit Low Input"),
        108 => Some("MAP/Barometric Pressure Circuit High Input"),
        110 => Some("Intake Air Temperature Sensor 1 Circuit"),
        111 => Some("Intake Air Temperature Sensor 1 Circuit Range/Performance"),
        112 => Some("Intake Air Temperature Sensor 1 Circuit Low"),
        113 => Some("Intake Air Temperature Sensor 1 Circuit High"),
        115 => Some("Engine Coolant Temperature Circuit"),
        116 => Some("Engine Coolant Temperature Circuit Range/Performance"),
        117 => Some("Engine Coolant Temperature Circuit Low"),
        118 => Some("Engine Coolant Temperature Circuit High"),
        120 => Some("Throttle Position Sensor A Circuit"),
        121 => Some("Throttle Position Sensor A Circuit Range/Performance"),
        122 => Some("Throttle Position Sensor A Circuit Low"),
        123 => Some("Throttle Position Sensor A Circuit High"),
        125 => Some("Insufficient Coolant Temperature for Closed Loop"),
        128 => Some("Coolant Thermostat Below Operating Temperature"),
        130 => Some("O2 Sensor Circuit Bank 1 Sensor 1"),
        131 => Some("O2 Sensor Circuit Low Voltage B1S1"),
        132 => Some("O2 Sensor Circuit High Voltage B1S1"),
        133 => Some("O2 Sensor Circuit Slow Response B1S1"),
        134 => Some("O2 Sensor Circuit No Activity B1S1"),
        135 => Some("O2 Sensor Heater Circuit B1S1"),
        136 => Some("O2 Sensor Circuit Bank 1 Sensor 2"),
        137 => Some("O2 Sensor Circuit Low Voltage B1S2"),
        138 => Some("O2 Sensor Circuit High Voltage B1S2"),
        139 => Some("O2 Sensor Circuit Slow Response B1S2"),
        140 => Some("O2 Sensor Circuit No Activity B1S2"),
        141 => Some("O2 Sensor Heater Circuit B1S2"),
        150 => Some("O2 Sensor Circuit Bank 2 Sensor 1"),
        151 => Some("O2 Sensor Circuit Low Voltage B2S1"),
        152 => Some("O2 Sensor Circuit High Voltage B2S1"),
        153 => Some("O2 Sensor Circuit Slow Response B2S1"),
        154 => Some("O2 Sensor Circuit No Activity B2S1"),
        155 => Some("O2 Sensor Heater Circuit B2S1"),
        156 => Some("O2 Sensor Circuit Bank 2 Sensor 2"),
        157 => Some("O2 Sensor Circuit Low Voltage B2S2"),
        158 => Some("O2 Sensor Circuit High Voltage B2S2"),
        159 => Some("O2 Sensor Circuit Slow Response B2S2"),
        160 => Some("O2 Sensor Circuit No Activity B2S2"),
        161 => Some("O2 Sensor Heater Circuit B2S2"),
        171 => Some("System Too Lean Bank 1"),
        172 => Some("System Too Rich Bank 1"),
        174 => Some("System Too Lean Bank 2"),
        175 => Some("System Too Rich Bank 2"),
        192 => Some("Fuel Rail Pressure Sensor Circuit Low"),
        193 => Some("Fuel Rail Pressure Sensor Circuit High"),
        201 => Some("Injector Circuit/Open Cylinder 1"),
        202 => Some("Injector Circuit/Open Cylinder 2"),
        203 => Some("Injector Circuit/Open Cylinder 3"),
        204 => Some("Injector Circuit/Open Cylinder 4"),
        205 => Some("Injector Circuit/Open Cylinder 5"),
        206 => Some("Injector Circuit/Open Cylinder 6"),
        207 => Some("Injector Circuit/Open Cylinder 7"),
        208 => Some("Injector Circuit/Open Cylinder 8"),
        234 => Some("Turbo/Supercharger Overboost Condition"),
        236 => Some("Turbocharger Boost Sensor A Circuit Range/Performance"),
        299 => Some("Turbo/Supercharger Underboost"),
        300 => Some("Random/Multiple Cylinder Misfire Detected"),
        301 => Some("Cylinder 1 Misfire Detected"),
        302 => Some("Cylinder 2 Misfire Detected"),
        303 => Some("Cylinder 3 Misfire Detected"),
        304 => Some("Cylinder 4 Misfire Detected"),
        305 => Some("Cylinder 5 Misfire Detected"),
        306 => Some("Cylinder 6 Misfire Detected"),
        307 => Some("Cylinder 7 Misfire Detected"),
        308 => Some("Cylinder 8 Misfire Detected"),
        325 => Some("Knock Sensor 1 Circuit Bank 1"),
        335 => Some("Crankshaft Position Sensor A Circuit"),
        336 => Some("Crankshaft Position Sensor A Range/Performance"),
        340 => Some("Camshaft Position Sensor A Circuit Bank 1"),
        341 => Some("Camshaft Position Sensor A Range/Performance Bank 1"),
        365 => Some("Camshaft Position Sensor B Circuit (Bank 1)"),
        366 => Some("Camshaft Position Sensor B Circuit Range/Performance (Bank 1)"),
        380 => Some("Glow Plug/Heater Circuit A Malfunction"),
        400 => Some("EGR Flow Malfunction"),
        401 => Some("EGR Flow Insufficient"),
        402 => Some("EGR Flow Excessive"),
        404 => Some("EGR System Range/Performance"),
        405 => Some("EGR Position Sensor A Circuit Low"),
        406 => Some("EGR Position Sensor A Circuit High"),
        420 => Some("Catalyst System Efficiency Below Threshold Bank 1"),
        430 => Some("Catalyst System Efficiency Below Threshold Bank 2"),
        440 => Some("Evaporative Emission System Malfunction"),
        441 => Some("Evaporative Emission System Incorrect Purge Flow"),
        442 => Some("Evaporative Emission System Leak Detected (Small)"),
        443 => Some("Evaporative Emission System Purge Control Valve Circuit"),
        446 => Some("Evaporative Emission System Vent Control Circuit"),
        449 => Some("Evaporative Emission System Vent Valve/Solenoid Circuit"),
        451 => Some("Evaporative Emission System Pressure Sensor Range/Performance"),
        455 => Some("Evaporative Emission System Leak Detected (Large)"),
        456 => Some("Evaporative Emission System Leak Detected (Very Small)"),
        496 => Some("Evaporative Emission System High Purge Flow"),
        500 => Some("Vehicle Speed Sensor A Malfunction"),
        503 => Some("Vehicle Speed Sensor Intermittent/Erratic/High"),
        505 => Some("Idle Air Control System Malfunction"),
        506 => Some("Idle Air Control System RPM Lower Than Expected"),
        507 => Some("Idle Air Control System RPM Higher Than Expected"),
        562 => Some("System Voltage Low"),
        563 => Some("System Voltage High"),
        597 => Some("Thermostat Heater Control Circuit Open"),
        598 => Some("Thermostat Heater Control Circuit Low"),
        599 => Some("Thermostat Heater Control Circuit High"),
        600 => Some("Serial Communication Link Malfunction"),
        601 => Some("Internal Control Module Memory Check Sum Error"),
        602 => Some("Control Module Programming Error"),
        606 => Some("ECM/PCM Processor Fault"),
        700 => Some("Transmission Control System Malfunction"),
        705 => Some("Transmission Range Sensor Circuit Malfunction"),
        710 => Some("Transmission Fluid Temperature Sensor Circuit"),
        711 => Some("Transmission Fluid Temperature Sensor Circuit Range/Performance"),
        715 => Some("Input/Turbine Speed Sensor Circuit"),
        717 => Some("Input/Turbine Speed Sensor Circuit No Signal"),
        720 => Some("Output Speed Sensor Circuit"),
        725 => Some("Engine Speed Input Circuit"),
        730 => Some("Incorrect Gear Ratio"),
        731 => Some("Gear 1 Incorrect Ratio"),
        732 => Some("Gear 2 Incorrect Ratio"),
        733 => Some("Gear 3 Incorrect Ratio"),
        734 => Some("Gear 4 Incorrect Ratio"),
        735 => Some("Gear 5 Incorrect Ratio"),
        740 => Some("Torque Converter Clutch Circuit Malfunction"),
        741 => Some("Torque Converter Clutch System Stuck Off"),
        742 => Some("Torque Converter Clutch System Stuck On"),
        743 => Some("Torque Converter Clutch System Electrical"),
        747 => Some("Pressure Control Solenoid A Stuck On"),
        748 => Some("Pressure Control Solenoid A Electrical"),
        750 => Some("Shift Solenoid A Malfunction"),
        751 => Some("Shift Solenoid A Performance/Stuck Off"),
        752 => Some("Shift Solenoid A Stuck On"),
        753 => Some("Shift Solenoid A Electrical"),
        755 => Some("Shift Solenoid B Malfunction"),
        756 => Some("Shift Solenoid B Performance/Stuck Off"),
        757 => Some("Shift Solenoid B Stuck On"),
        758 => Some("Shift Solenoid B Electrical"),
        1101 => Some("Intake Airflow System Performance"),
        2097 => Some("Post Catalyst Fuel Trim System Too Rich (Bank 1)"),
        2227 => Some("Barometric Pressure Circuit Range/Performance"),
        2270 => Some("O2 Sensor Signal Stuck Lean (Bank 1 Sensor 2)"),
        2271 => Some("O2 Sensor Signal Stuck Rich (Bank 1 Sensor 2)"),
        2797 => Some("Auxiliary Transmission Fluid Pump Performance"),
        _ => None,
    }
}

pub open spec fn chassis_table(n: u16) -> Option<&'static str> {
    match n {
        35 => Some("Left Front Wheel Speed Sensor Circuit"),
        40 => Some("Right Front Wheel Speed Sensor Circuit"),
        45 => Some("Left Rear Wheel Speed Sensor Circuit"),
        50 => Some("Right Rear Wheel Speed Sensor Circuit"),
        110 => Some("Pump Motor Circuit Malfunction"),
        161 => Some("ABS/TCS Brake Switch Circuit Malfunction"),
        186 => Some("Lateral Accelerometer Circuit"),
        196 => Some("Yaw Rate Sensor Circuit"),
        550 => Some("ECU Malfunction (Stability System)"),
        899 => Some("Device Voltage Low"),
        900 => Some("Device Voltage High"),
        _ => None,
    }
}

fn chassis_lookup(n: u16) -> (r: Option<&'static str>)
    ensures
        r == chassis_table(n),
{
    match n {
        35 => Some("Left Front Wheel Speed Sensor Circuit"),
        40 => Some("Right Front Wheel Speed Sensor Circuit"),
        45 => Some("Left Rear Wheel Speed Sensor Circuit"),
        50 => Some("Right Rear Wheel Speed Sensor Circuit"),
        110 => Some("Pump Motor Circuit Malfunction"),
        161 => Some("ABS/TCS Brake Switch Circuit Malfunction"),
        186 => Some("Lateral Accelerometer Circuit"),
        196 => Some("Yaw Rate Sensor Circuit"),
        550 => Some("ECU Malfunction (Stability System)"),
        899 => Some("Device Voltage Low"),
        900 => Some("Device Voltage High"),
        _ => None,
    }
}

pub open spec fn body_table(n: u16) -> Option<&'static str> {
    match n {
        83 => Some("Left Side/Front Impact Sensor Circuit"),
        92 => Some("Left Side/Rear Impact Sensor Circuit"),
        96 => Some("Right Side/Rear Impact Sensor Circuit"),
        408 => Some("Temperature Control A Circuit"),
        1325 => Some("Control Module General Memory Failure"),
        1517 => Some("Steering Wheel Controls Switch 1 Circuit"),
        _ => None,
    }
}

fn body_lookup(n: u16) -> (r: Option<&'static str>)
    ensures
        r == body_table(n),
{
    match n {
        83 => Some("Left Side/Front Impact Sensor Circuit"),
        92 => Some("Left Side/Rear Impact Sensor Circuit"),
        96 => Some("Right Side/Rear Impact Sensor Circuit"),
        408 => Some("Temperature Control A Circuit"),
        1325 => Some("Control Module General Memory Failure"),
        1517 => Some("Steering Wheel Controls Switch 1 Circuit"),
        _ => None,
    }
}

pub open spec fn network_table(n: u16) -> Option<&'static str> {
    match n {
        1 => Some("High Speed CAN Communication Bus"),
        73 => Some("Control Module Communication Bus Off"),
        100 => Some("Lost Communication with ECM/PCM"),
        101 => Some("Lost Communication with TCM"),
        121 => Some("Lost Communication with ABS"),
        140 => Some("Lost Communication with BCM"),
        146 => Some("Lost Communication with Gateway A"),
        151 => Some("Lost Communication with SIR Module"),
        155 => Some("Lost Communication with Instrument Panel Cluster"),
        168 => Some("Lost Communication with HVAC Control Module"),
        184 => Some("Lost Communication with Radio"),
        401 => Some("Invalid Data Received from ECM/PCM A"),
        _ => None,
    }
}

fn network_lookup(n: u16) -> (r: Option<&'static str>)
    ensures
        r == network_table(n),
{
    match n {
        1 => Some("High Speed CAN Communication Bus"),
        73 => Some("Control Module Communication Bus Off"),
        100 => Some("Lost Communication with ECM/PCM"),
        101 => Some("Lost Communication with TCM"),
        121 => Some("Lost Communication with ABS"),
        140 => Some("Lost Communication with BCM"),
        146 => Some("Lost Communication with Gateway A"),
        151 => Some("Lost Communication with SIR Module"),
        155 => Some("Lost Communication with Instrument Panel Cluster"),
        168 => Some("Lost Communication with HVAC Control Module"),
        184 => Some("Lost Communication with Radio"),
        401 => Some("Invalid Data Received from ECM/PCM A"),
        _ => None,
    }
}

} // verus!
