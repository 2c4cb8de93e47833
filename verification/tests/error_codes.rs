use asic_rs::error_codes::{error_message, lookup, slot_chip_template};

#[test]
fn short_code_returns_unknown() {
    let result = error_message(12);
    assert_eq!(result, "Unknown error type.");
}

#[test]
fn fan_intake_speed_error() {
    let result = error_message(110);
    assert_eq!(result, "Intake fan speed error.");
}

#[test]
fn power_low_voltage_for_high_power() {
    let result = error_message(218);
    assert_eq!(
        result,
        "Power input voltage is lower than 230V for high power mode."
    );
}

#[test]
fn temperature_slot_template() {
    let result = error_message(301);
    assert_eq!(result, "Slot 1 temperature sensor detection error.");
}

#[test]
fn temperature_reading_exact_override() {
    // code 329 matches the exact (2, 9) entry, not the template
    let result = error_message(329);
    assert_eq!(
        result,
        "Control board temperature sensor communication error."
    );
}

#[test]
fn slot_chip_template_error_nonce() {
    // type 52, subtype 1, value 3
    let result = error_message(5213);
    assert_eq!(result, "Slot 1 chip 3 error nonce.");
}

#[test]
fn slot_chip_template_zero_nonce() {
    // type 56, subtype 2, value 5
    let result = error_message(5625);
    assert_eq!(result, "Slot 2 chip 5 zero nonce.");
}

#[test]
fn pool_connection_failed_template() {
    let result = error_message(2022);
    assert_eq!(result, "Pool 2 connection failed.");
}

#[test]
fn substandard_hashrate() {
    // type 85, subtype 3, value 0
    let result = error_message(8530);
    assert_eq!(result, "Hashrate substandard L3.");
}

#[test]
fn security_library_error() {
    // type 1000, subtype 0, value 0
    let result = error_message(100000);
    assert_eq!(result, "Security library error, please upgrade firmware");
}

#[test]
fn unknown_type_returns_unknown() {
    let result = error_message(999);
    assert_eq!(result, "Unknown error type.");
}

#[test]
fn env_temp_too_high() {
    let result = error_message(600);
    assert_eq!(result, "Environment temperature is too high.");
}

#[test]
fn hashboard_not_found() {
    // type 5, subtype 3, value 2
    let result = error_message(532);
    assert_eq!(result, "Slot 2 not found.");
}

#[test]
fn wide_code_splits_two_three_digits() {
    // 205123: type 20, subtype 5, value 123 -> pool table has no (5, 123)
    assert_eq!(error_message(205123), "Unknown error type.");
    // 202123: type 20, subtype 2, value 123 -> pool template
    assert_eq!(error_message(202123), "Pool 123 connection failed.");
    // 521045: type 52, subtype 1, value 45
    assert_eq!(error_message(521045), "Slot 1 chip 45 error nonce.");
}

#[test]
fn six_digit_codes_starting_with_one_use_narrow_split() {
    // 100101: type 1001, subtype 0, value 1 -> unknown
    assert_eq!(error_message(100101), "Unknown error type.");
    // 100100: type 1001, subtype 0, value 0
    assert_eq!(
        error_message(100100),
        "Security BTMiner removed, please upgrade firmware."
    );
    // 110001: type 1100, subtype 0, value 1
    assert_eq!(
        error_message(110001),
        "Security virus 0001 is removed, please upgrade firmware."
    );
}

#[test]
fn boundary_codes() {
    assert_eq!(error_message(99), "Unknown error type.");
    assert_eq!(error_message(100), "Fan unknown.");
    assert_eq!(error_message(0), "Unknown error type.");
    assert_eq!(error_message(u64::MAX), "Unknown error type.");
    assert_eq!(error_message(9999), "Miner unknown error.");
}

#[test]
fn power_ranges_and_alternatives() {
    assert_eq!(
        error_message(234),
        "Power output high temperature protection error."
    );
    assert_eq!(error_message(247), "Power input high voltage protection error.");
    assert_eq!(error_message(260), "Unknown error type.");
    assert_eq!(error_message(288), "Power vendor status 1 bit 7 error.");
    assert_eq!(error_message(296), "Power vendor status 2 bit 7 error.");
    assert_eq!(error_message(297), "Unknown error type.");
}

#[test]
fn other_tables() {
    assert_eq!(error_message(363), "Hashboard high temperature error.");
    assert_eq!(error_message(364), "Unknown error type.");
    assert_eq!(error_message(415), "Slot 5 eeprom detection error.");
    assert_eq!(error_message(712), "Control board rebooted as an exception.");
    assert_eq!(error_message(727), "Control board slot 7 frame error.");
    assert_eq!(error_message(810), "Air to liquid PCB serial # does not match.");
    assert_eq!(error_message(901), "Power rate error.");
    assert_eq!(error_message(2114), "Slot 4 factory test step failed.");
    assert_eq!(error_message(2320), "Hashrate is too low.");
    assert_eq!(error_message(5071), "Slot 1 water velocity is abnormal.");
    assert_eq!(error_message(5172), "Slot 2 frequency up timeout.");
    assert_eq!(error_message(8035), "High env temp.");
    assert_eq!(error_message(8100), "Chip data error.");
    assert_eq!(error_message(8220), "Version info error.");
    assert_eq!(error_message(8300), "Empty level error.");
    assert_eq!(error_message(8410), "Software version error.");
    assert_eq!(error_message(8523), "Fan speed substandard L2.");
    assert_eq!(error_message(8544), "Voltage substandard L4.");
    assert_eq!(error_message(8644), "Wrong power model format.");
    assert_eq!(error_message(8700), "Miner power mismatch.");
    assert_eq!(error_message(9010), "Process error, exited with signal: 3.");
}

#[test]
fn lookup_and_template_directly() {
    assert_eq!(lookup(55, 3, 7), "Slot 3 chip 7 has been reset.");
    assert_eq!(lookup(1000, 0, 3), "/antiv/dig/pf_partial.dig illegal.");
    assert_eq!(slot_chip_template("temp protected", 12, 0), "Slot 12 chip 0 temp protected.");
}
