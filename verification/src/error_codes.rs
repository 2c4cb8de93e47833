//! Human-readable descriptions of WhatsMiner error codes.
//!
//! A code is split into its decimal digits `(type, subtype, value)`:
//! codes below 100 are unknown; six-digit codes whose leading digit is not
//! `1` use the first two digits as the type, the third as the subtype and
//! the last three as the value; every other code uses all but the last two
//! digits as the type, the second-to-last digit as the subtype and the last
//! digit as the value.
use vstd::prelude::*;

use crate::text::{decimal, push_decimal};

verus! {

/// The description given to any code the table does not know.
pub open spec fn unknown_text() -> Seq<char> {
    "Unknown error type."@
}

fn unknown() -> (r: String)
    ensures
        r@ == unknown_text(),
{
    String::from_str("Unknown error type.")
}

/// `prefix`, the decimal form of `n`, then `suffix`.
pub open spec fn numbered_text(prefix: Seq<char>, n: u64, suffix: Seq<char>) -> Seq<char> {
    prefix + decimal(n as nat) + suffix
}

fn numbered(prefix: &str, n: u64, suffix: &str) -> (r: String)
    ensures
        r@ == numbered_text(prefix@, n, suffix@),
{
    let mut s = String::from_str(prefix);
    push_decimal(&mut s, n);
    s.append(suffix);
    s
}

/// Whether a code uses the wide layout (six digits, leading digit not `1`).
pub open spec fn is_wide_code(code: u64) -> bool {
    100_000 <= code < 1_000_000 && code / 100_000 != 1
}

/// The `(type, subtype, value)` triple of a code of at least three digits.
pub open spec fn decode(code: u64) -> (u64, u64, u64) {
    if is_wide_code(code) {
        (code / 10_000, (code / 1_000) % 10, code % 1_000)
    } else {
        (code / 100, (code / 10) % 10, code % 10)
    }
}

/// The description of a WhatsMiner error code.
pub open spec fn error_message_text(code: u64) -> Seq<char> {
    if code < 100 {
        unknown_text()
    } else {
        let (t, s, v) = decode(code);
        lookup_text(t, s, v)
    }
}

/// Look up a human-readable description for a WhatsMiner error code.
pub fn error_message(code: u64) -> (r: String)
    ensures
        r@ == error_message_text(code),
{
    if code < 100 {
        return unknown();
    }
    let (err_type, err_subtype, err_value) = if 100_000 <= code && code < 1_000_000 && code
        / 100_000 != 1 {
        (code / 10_000, (code / 1_000) % 10, code % 1_000)
    } else {
        (code / 100, (code / 10) % 10, code % 10)
    };
    lookup(err_type, err_subtype, err_value)
}

/// Decoding splits the digits of a code without losing any: a wide code is
/// `type * 10000 + subtype * 1000 + value` with a two-digit type from 20 to
/// 99, any other code of three digits or more is
/// `type * 100 + subtype * 10 + value` with a one-digit value; the subtype
/// is always a single digit.
pub proof fn lemma_decode_reassembles(code: u64)
    requires
        code >= 100,
    ensures
        ({
            let (t, s, v) = decode(code);
            &&& s < 10
            &&& (is_wide_code(code) ==> t * 10_000 + s * 1_000 + v == code && 20 <= t <= 99 && v
                < 1_000)
            &&& (!is_wide_code(code) ==> t * 100 + s * 10 + v == code && 1 <= t && v < 10)
        }),
{
}

/// Codes of types 52 to 56 name a slot and a chip: the subtype is the slot,
/// the value the chip.
pub proof fn lemma_slot_chip_codes(code: u64)
    requires
        100 <= code,
        !is_wide_code(code),
        52 <= code / 100 <= 56,
    ensures
        error_message_text(code) == slot_chip_text(
            if code / 100 == 52 {
                "error nonce"@
            } else if code / 100 == 53 {
                "too few nonce"@
            } else if code / 100 == 54 {
                "temp protected"@
            } else if code / 100 == 55 {
                "has been reset"@
            } else {
                "zero nonce"@
            },
            (code / 10) % 10,
            code % 10,
        ),
{
}

/// The message of the slot/chip templates used by types 52 to 56.
pub open spec fn slot_chip_text(desc: Seq<char>, slot: u64, chip: u64) -> Seq<char> {
    "Slot "@ + decimal(slot as nat) + " chip "@ + decimal(chip as nat) + " "@ + desc + "."@
}

/// `Slot {slot} chip {chip} {desc}.`
pub fn slot_chip_template(desc: &str, slot: u64, chip: u64) -> (r: String)
    ensures
        r@ == slot_chip_text(desc@, slot, chip),
{
    let mut s = String::from_str("Slot ");
    push_decimal(&mut s, slot);
    s.append(" chip ");
    push_decimal(&mut s, chip);
    s.append(" ");
    s.append(desc);
    s.append(".");
    s
}

/// The three-level table: error type, then subtype and value.
pub open spec fn lookup_text(t: u64, sub: u64, val: u64) -> Seq<char> {
    if t == 1 {
        fan_error_text(sub, val)
    } else if t == 2 {
        power_error_text(sub, val)
    } else if t == 3 {
        temperature_error_text(sub, val)
    } else if t == 4 {
        eeprom_error_text(sub, val)
    } else if t == 5 {
        hashboard_error_text(sub, val)
    } else if t == 6 {
        env_temp_error_text(sub, val)
    } else if t == 7 {
        control_board_error_text(sub, val)
    } else if t == 8 {
        checksum_error_text(sub, val)
    } else if t == 9 {
        power_rate_error_text(sub, val)
    } else if t == 20 {
        pool_error_text(sub, val)
    } else if t == 21 {
        factory_test_error_text(sub, val)
    } else if t == 23 {
        hashrate_error_text(sub, val)
    } else if t == 50 {
        voltage_water_error_text(sub, val)
    } else if t == 51 {
        frequency_error_text(sub, val)
    } else if t == 52 {
        slot_chip_text("error nonce"@, sub, val)
    } else if t == 53 {
        slot_chip_text("too few nonce"@, sub, val)
    } else if t == 54 {
        slot_chip_text("temp protected"@, sub, val)
    } else if t == 55 {
        slot_chip_text("has been reset"@, sub, val)
    } else if t == 56 {
        slot_chip_text("zero nonce"@, sub, val)
    } else if t == 80 {
        tool_error_text(sub, val)
    } else if t == 81 {
        if sub == 0 && val == 0 { "Chip data error."@ } else { unknown_text() }
    } else if t == 82 {
        if sub == 0 && val == 0 {
            "Power version error."@
        } else if sub == 1 && val == 0 {
            "Miner type error."@
        } else if sub == 2 && val == 0 {
            "Version info error."@
        } else {
            unknown_text()
        }
    } else if t == 83 {
        if sub == 0 && val == 0 { "Empty level error."@ } else { unknown_text() }
    } else if t == 84 {
        if sub == 0 && val == 0 {
            "Old firmware."@
        } else if sub == 1 && val == 0 {
            "Software version error."@
        } else {
            unknown_text()
        }
    } else if t == 85 {
        substandard_error_text(sub, val)
    } else if t == 86 {
        serial_info_error_text(sub, val)
    } else if t == 87 {
        if sub == 0 && val == 0 { "Miner power mismatch."@ } else { unknown_text() }
    } else if t == 90 {
        if (sub == 0 || sub == 1) && val == 0 {
            "Process error, exited with signal: 3."@
        } else {
            unknown_text()
        }
    } else if t == 99 {
        if sub == 9 && val == 9 { "Miner unknown error."@ } else { unknown_text() }
    } else if t == 1000 {
        if sub == 0 && val == 0 {
            "Security library error, please upgrade firmware"@
        } else if sub == 0 && val == 1 {
            "/antiv/signature illegal."@
        } else if sub == 0 && val == 2 {
            "/antiv/dig/init.d illegal."@
        } else if sub == 0 && val == 3 {
            "/antiv/dig/pf_partial.dig illegal."@
        } else {
            unknown_text()
        }
    } else if t == 1001 {
        if sub == 0 && val == 0 {
            "Security BTMiner removed, please upgrade firmware."@
        } else {
            unknown_text()
        }
    } else if t == 1100 {
        if sub == 0 && val == 0 {
            "Security illegal file, please upgrade firmware."@
        } else if sub == 0 && val == 1 {
            "Security virus 0001 is removed, please upgrade firmware."@
        } else {
            unknown_text()
        }
    } else {
        unknown_text()
    }
}

/// Three-level lookup against the WhatsMiner error code table.
pub fn lookup(err_type: u64, err_subtype: u64, err_value: u64) -> (r: String)
    ensures
        r@ == lookup_text(err_type, err_subtype, err_value),
{
    let sub = err_subtype;
    let val = err_value;
    match err_type {
        1 => fan_error(sub, val),
        2 => power_error(sub, val),
        3 => temperature_error(sub, val),
        4 => eeprom_error(sub, val),
        5 => hashboard_error(sub, val),
        6 => env_temp_error(sub, val),
        7 => control_board_error(sub, val),
        8 => checksum_error(sub, val),
        9 => power_rate_error(sub, val),
        20 => pool_error(sub, val),
        21 => factory_test_error(sub, val),
        23 => hashrate_error(sub, val),
        50 => voltage_water_error(sub, val),
        51 => frequency_error(sub, val),
        52 => slot_chip_template("error nonce", sub, val),
        53 => slot_chip_template("too few nonce", sub, val),
        54 => slot_chip_template("temp protected", sub, val),
        55 => slot_chip_template("has been reset", sub, val),
        56 => slot_chip_template("zero nonce", sub, val),
        80 => tool_error(sub, val),
        81 => if sub == 0 && val == 0 {
            String::from_str("Chip data error.")
        } else {
            unknown()
        },
        82 => if sub == 0 && val == 0 {
            String::from_str("Power version error.")
        } else if sub == 1 && val == 0 {
            String::from_str("Miner type error.")
        } else if sub == 2 && val == 0 {
            String::from_str("Version info error.")
        } else {
            unknown()
        },
        83 => if sub == 0 && val == 0 {
            String::from_str("Empty level error.")
        } else {
            unknown()
        },
        84 => if sub == 0 && val == 0 {
            String::from_str("Old firmware.")
        } else if sub == 1 && val == 0 {
            String::from_str("Software version error.")
        } else {
            unknown()
        },
        85 => substandard_error(sub, val),
        86 => serial_info_error(sub, val),
        87 => if sub == 0 && val == 0 {
            String::from_str("Miner power mismatch.")
        } else {
            unknown()
        },
        90 => if (sub == 0 || sub == 1) && val == 0 {
            String::from_str("Process error, exited with signal: 3.")
        } else {
            unknown()
        },
        99 => if sub == 9 && val == 9 {
            String::from_str("Miner unknown error.")
        } else {
            unknown()
        },
        1000 => if sub == 0 && val == 0 {
            String::from_str("Security library error, please upgrade firmware")
        } else if sub == 0 && val == 1 {
            String::from_str("/antiv/signature illegal.")
        } else if sub == 0 && val == 2 {
            String::from_str("/antiv/dig/init.d illegal.")
        } else if sub == 0 && val == 3 {
            String::from_str("/antiv/dig/pf_partial.dig illegal.")
        } else {
            unknown()
        },
        1001 => if sub == 0 && val == 0 {
            String::from_str("Security BTMiner removed, please upgrade firmware.")
        } else {
            unknown()
        },
        1100 => if sub == 0 && val == 0 {
            String::from_str("Security illegal file, please upgrade firmware.")
        } else if sub == 0 && val == 1 {
            String::from_str("Security virus 0001 is removed, please upgrade firmware.")
        } else {
            unknown()
        },
        _ => unknown(),
    }
}

/// Type 1: fans.
pub open spec fn fan_error_text(sub: u64, val: u64) -> Seq<char> {
    if sub == 0 && val == 0 {
        "Fan unknown."@
    } else if sub == 1 && val == 0 {
        "Intake fan speed error."@
    } else if sub == 1 && val == 1 {
        "Exhaust fan speed error."@
    } else if sub == 2 && val == 0 {
        "Intake fan speed error.  Fan speed deviates by more than 2000."@
    } else if sub == 2 && val == 1 {
        "Exhaust fan speed error.  Fan speed deviates by more than 2000."@
    } else if sub == 3 && val == 0 {
        "Intake fan speed error.  Fan speed deviates by more than 3000."@
    } else if sub == 3 && val == 1 {
        "Exhaust fan speed error.  Fan speed deviates by more than 3000."@
    } else if sub == 4 && val == 0 {
        "Fan speed too high."@
    } else {
        unknown_text()
    }
}

/// Type 1: fans.
pub fn fan_error(sub: u64, val: u64) -> (r: String)
    ensures
        r@ == fan_error_text(sub, val),
{
    if sub == 0 && val == 0 {
        String::from_str("Fan unknown.")
    } else if sub == 1 && val == 0 {
        String::from_str("Intake fan speed error.")
    } else if sub == 1 && val == 1 {
        String::from_str("Exhaust fan speed error.")
    } else if sub == 2 && val == 0 {
        String::from_str("Intake fan speed error.  Fan speed deviates by more than 2000.")
    } else if sub == 2 && val == 1 {
        String::from_str("Exhaust fan speed error.  Fan speed deviates by more than 2000.")
    } else if sub == 3 && val == 0 {
        String::from_str("Intake fan speed error.  Fan speed deviates by more than 3000.")
    } else if sub == 3 && val == 1 {
        String::from_str("Exhaust fan speed error.  Fan speed deviates by more than 3000.")
    } else if sub == 4 && val == 0 {
        String::from_str("Fan speed too high.")
    } else {
        unknown()
    }
}

/// Type 2: power supply.
pub open spec fn power_error_text(sub: u64, val: u64) -> Seq<char> {
    if sub == 0 && val == 0 {
        "Power probing error.  No power found."@
    } else if sub == 0 && val == 1 {
        "Power supply and configuration file don't match."@
    } else if sub == 0 && val == 2 {
        "Power output voltage error."@
    } else if sub == 0 && val == 3 {
        "Power protecting due to high environment temperature."@
    } else if sub == 0 && val == 4 {
        "Power current protecting due to high environment temperature."@
    } else if sub == 0 && val == 5 {
        "Power current error."@
    } else if sub == 0 && val == 6 {
        "Power input low voltage error."@
    } else if sub == 0 && val == 7 {
        "Power input current protecting due to bad power input."@
    } else if sub == 0 && val == 8 {
        "Power power error."@
    } else if sub == 0 && val == 9 {
        "Power voltage offset error."@
    } else if sub == 1 && val == 0 {
        "Power error."@
    } else if sub == 1 && val == 1 {
        "Power iout error, please reboot."@
    } else if sub == 1 && val == 2 {
        "Power vout error, reach vout border. Border: [1150, 1500]"@
    } else if sub == 1 && val == 3 {
        "Power input voltage and current do not match power output."@
    } else if sub == 1 && val == 4 {
        "Power pin did not change."@
    } else if sub == 1 && val == 5 {
        "Power vout set error."@
    } else if sub == 1 && val == 6 {
        "Power remained unchanged for a long time."@
    } else if sub == 1 && val == 7 {
        "Power set enable error."@
    } else if sub == 1 && val == 8 {
        "Power input voltage is lower than 230V for high power mode."@
    } else if sub == 1 && val == 9 {
        "Power input current is incorrect."@
    } else if sub == 3 && 3 <= val && val <= 5 {
        "Power output high temperature protection error."@
    } else if sub == 3 && 6 <= val && val <= 8 {
        "Power output high current protection error."@
    } else if sub == 3 && val == 9 {
        "Power output high voltage protection error."@
    } else if sub == 4 && val == 0 {
        "Power output low voltage protection error."@
    } else if sub == 4 && val == 1 {
        "Power output current imbalance error."@
    } else if sub == 4 && 3 <= val && val <= 5 {
        "Power input high temperature protection error."@
    } else if sub == 4 && (val == 6 || val == 7) {
        "Power input high voltage protection error."@
    } else if sub == 4 && (val == 8 || val == 9) {
        "Power input high current protection error."@
    } else if sub == 5 && (val == 0 || val == 1) {
        "Power input low voltage protection error."@
    } else if sub == 5 && (val == 3 || val == 4) {
        "Power supply fan error."@
    } else if sub == 5 && (val == 5 || val == 6) {
        "Power output high power protection error."@
    } else if sub == 5 && val == 7 {
        "Input over current protection of power supply on primary side."@
    } else if sub == 6 && val == 3 {
        "Power communication warning."@
    } else if sub == 6 && val == 4 {
        "Power communication error."@
    } else if sub == 6 && (val == 5 || val == 6) {
        "Power unknown error."@
    } else if sub == 6 && val == 7 {
        "Power watchdog protection."@
    } else if sub == 6 && val == 8 {
        "Power output high current protection."@
    } else if sub == 6 && val == 9 {
        "Power input high current protection."@
    } else if sub == 7 && val == 0 {
        "Power input high voltage protection."@
    } else if sub == 7 && val == 1 {
        "Power input low voltage protection."@
    } else if sub == 7 && val == 2 {
        "Excessive power supply output warning."@
    } else if sub == 7 && val == 3 {
        "Power input too high warning."@
    } else if sub == 7 && val == 4 {
        "Power fan warning."@
    } else if sub == 7 && val == 5 {
        "Power high temperature warning."@
    } else if sub == 7 && 6 <= val && val <= 9 {
        "Power unknown error."@
    } else if sub == 8 && val == 0 {
        "Power unknown error."@
    } else if sub == 8 && val == 1 {
        "Power vendor status 1 bit 0 error."@
    } else if sub == 8 && val == 2 {
        "Power vendor status 1 bit 1 error."@
    } else if sub == 8 && val == 3 {
        "Power vendor status 1 bit 2 error."@
    } else if sub == 8 && val == 4 {
        "Power vendor status 1 bit 3 error."@
    } else if sub == 8 && val == 5 {
        "Power vendor status 1 bit 4 error."@
    } else if sub == 8 && val == 6 {
        "Power vendor status 1 bit 5 error."@
    } else if sub == 8 && val == 7 {
        "Power vendor status 1 bit 6 error."@
    } else if sub == 8 && val == 8 {
        "Power vendor status 1 bit 7 error."@
    } else if sub == 8 && val == 9 {
        "Power vendor status 2 bit 0 error."@
    } else if sub == 9 && val == 0 {
        "Power vendor status 2 bit 1 error."@
    } else if sub == 9 && val == 1 {
        "Power vendor status 2 bit 2 error."@
    } else if sub == 9 && val == 2 {
        "Power vendor status 2 bit 3 error."@
    } else if sub == 9 && val == 3 {
        "Power vendor status 2 bit 4 error."@
    } else if sub == 9 && val == 4 {
        "Power vendor status 2 bit 5 error."@
    } else if sub == 9 && val == 5 {
        "Power vendor status 2 bit 6 error."@
    } else if sub == 9 && val == 6 {
        "Power vendor status 2 bit 7 error."@
    } else {
        unknown_text()
    }
}

/// Type 2: power supply.
pub fn power_error(sub: u64, val: u64) -> (r: String)
    ensures
        r@ == power_error_text(sub, val),
{
    if sub == 0 && val == 0 {
        String::from_str("Power probing error.  No power found.")
    } else if sub == 0 && val == 1 {
        String::from_str("Power supply and configuration file don't match.")
    } else if sub == 0 && val == 2 {
        String::from_str("Power output voltage error.")
    } else if sub == 0 && val == 3 {
        String::from_str("Power protecting due to high environment temperature.")
    } else if sub == 0 && val == 4 {
        String::from_str("Power current protecting due to high environment temperature.")
    } else if sub == 0 && val == 5 {
        String::from_str("Power current error.")
    } else if sub == 0 && val == 6 {
        String::from_str("Power input low voltage error.")
    } else if sub == 0 && val == 7 {
        String::from_str("Power input current protecting due to bad power input.")
    } else if sub == 0 && val == 8 {
        String::from_str("Power power error.")
    } else if sub == 0 && val == 9 {
        String::from_str("Power voltage offset error.")
    } else if sub == 1 && val == 0 {
        String::from_str("Power error.")
    } else if sub == 1 && val == 1 {
        String::from_str("Power iout error, please reboot.")
    } else if sub == 1 && val == 2 {
        String::from_str("Power vout error, reach vout border. Border: [1150, 1500]")
    } else if sub == 1 && val == 3 {
        String::from_str("Power input voltage and current do not match power output.")
    } else if sub == 1 && val == 4 {
        String::from_str("Power pin did not change.")
    } else if sub == 1 && val == 5 {
        String::from_str("Power vout set error.")
    } else if sub == 1 && val == 6 {
        String::from_str("Power remained unchanged for a long time.")
    } else if sub == 1 && val == 7 {
        String::from_str("Power set enable error.")
    } else if sub == 1 && val == 8 {
        String::from_str("Power input voltage is lower than 230V for high power mode.")
    } else if sub == 1 && val == 9 {
        String::from_str("Power input current is incorrect.")
    } else if sub == 3 && 3 <= val && val <= 5 {
        String::from_str("Power output high temperature protection error.")
    } else if sub == 3 && 6 <= val && val <= 8 {
        String::from_str("Power output high current protection error.")
    } else if sub == 3 && val == 9 {
        String::from_str("Power output high voltage protection error.")
    } else if sub == 4 && val == 0 {
        String::from_str("Power output low voltage protection error.")
    } else if sub == 4 && val == 1 {
        String::from_str("Power output current imbalance error.")
    } else if sub == 4 && 3 <= val && val <= 5 {
        String::from_str("Power input high temperature protection error.")
    } else if sub == 4 && (val == 6 || val == 7) {
        String::from_str("Power input high voltage protection error.")
    } else if sub == 4 && (val == 8 || val == 9) {
        String::from_str("Power input high current protection error.")
    } else if sub == 5 && (val == 0 || val == 1) {
        String::from_str("Power input low voltage protection error.")
    } else if sub == 5 && (val == 3 || val == 4) {
        String::from_str("Power supply fan error.")
    } else if sub == 5 && (val == 5 || val == 6) {
        String::from_str("Power output high power protection error.")
    } else if sub == 5 && val == 7 {
        String::from_str("Input over current protection of power supply on primary side.")
    } else if sub == 6 && val == 3 {
        String::from_str("Power communication warning.")
    } else if sub == 6 && val == 4 {
        String::from_str("Power communication error.")
    } else if sub == 6 && (val == 5 || val == 6) {
        String::from_str("Power unknown error.")
    } else if sub == 6 && val == 7 {
        String::from_str("Power watchdog protection.")
    } else if sub == 6 && val == 8 {
        String::from_str("Power output high current protection.")
    } else if sub == 6 && val == 9 {
        String::from_str("Power input high current protection.")
    } else if sub == 7 && val == 0 {
        String::from_str("Power input high voltage protection.")
    } else if sub == 7 && val == 1 {
        String::from_str("Power input low voltage protection.")
    } else if sub == 7 && val == 2 {
        String::from_str("Excessive power supply output warning.")
    } else if sub == 7 && val == 3 {
        String::from_str("Power input too high warning.")
    } else if sub == 7 && val == 4 {
        String::from_str("Power fan warning.")
    } else if sub == 7 && val == 5 {
        String::from_str("Power high temperature warning.")
    } else if sub == 7 && 6 <= val && val <= 9 {
        String::from_str("Power unknown error.")
    } else if sub == 8 && val == 0 {
        String::from_str("Power unknown error.")
    } else if sub == 8 && val == 1 {
        String::from_str("Power vendor status 1 bit 0 error.")
    } else if sub == 8 && val == 2 {
        String::from_str("Power vendor status 1 bit 1 error.")
    } else if sub == 8 && val == 3 {
        String::from_str("Power vendor status 1 bit 2 error.")
    } else if sub == 8 && val == 4 {
        String::from_str("Power vendor status 1 bit 3 error.")
    } else if sub == 8 && val == 5 {
        String::from_str("Power vendor status 1 bit 4 error.")
    } else if sub == 8 && val == 6 {
        String::from_str("Power vendor status 1 bit 5 error.")
    } else if sub == 8 && val == 7 {
        String::from_str("Power vendor status 1 bit 6 error.")
    } else if sub == 8 && val == 8 {
        String::from_str("Power vendor status 1 bit 7 error.")
    } else if sub == 8 && val == 9 {
        String::from_str("Power vendor status 2 bit 0 error.")
    } else if sub == 9 && val == 0 {
        String::from_str("Power vendor status 2 bit 1 error.")
    } else if sub == 9 && val == 1 {
        String::from_str("Power vendor status 2 bit 2 error.")
    } else if sub == 9 && val == 2 {
        String::from_str("Power vendor status 2 bit 3 error.")
    } else if sub == 9 && val == 3 {
        String::from_str("Power vendor status 2 bit 4 error.")
    } else if sub == 9 && val == 4 {
        String::from_str("Power vendor status 2 bit 5 error.")
    } else if sub == 9 && val == 5 {
        String::from_str("Power vendor status 2 bit 6 error.")
    } else if sub == 9 && val == 6 {
        String::from_str("Power vendor status 2 bit 7 error.")
    } else {
        unknown()
    }
}

/// Type 3: temperature sensors.
pub open spec fn temperature_error_text(sub: u64, val: u64) -> Seq<char> {
    if sub == 0 {
        numbered_text("Slot "@, val, " temperature sensor detection error."@)
    } else if sub == 2 && val == 9 {
        "Control board temperature sensor communication error."@
    } else if sub == 2 {
        numbered_text("Slot "@, val, " temperature reading error."@)
    } else if sub == 5 {
        numbered_text("Slot "@, val, " temperature protecting."@)
    } else if sub == 6 && val <= 3 {
        "Hashboard high temperature error."@
    } else if sub == 7 && val == 0 {
        "The environment temperature fluctuates too much."@
    } else if sub == 8 && val == 0 {
        "Humidity sensor not found."@
    } else if sub == 8 && (val == 1 || val == 2) {
        "Humidity sensor read error."@
    } else if sub == 8 && val == 3 {
        "Humidity sensor protecting."@
    } else {
        unknown_text()
    }
}

/// Type 3: temperature sensors.
pub fn temperature_error(sub: u64, val: u64) -> (r: String)
    ensures
        r@ == temperature_error_text(sub, val),
{
    if sub == 0 {
        numbered("Slot ", val, " temperature sensor detection error.")
    } else if sub == 2 && val == 9 {
        String::from_str("Control board temperature sensor communication error.")
    } else if sub == 2 {
        numbered("Slot ", val, " temperature reading error.")
    } else if sub == 5 {
        numbered("Slot ", val, " temperature protecting.")
    } else if sub == 6 && val <= 3 {
        String::from_str("Hashboard high temperature error.")
    } else if sub == 7 && val == 0 {
        String::from_str("The environment temperature fluctuates too much.")
    } else if sub == 8 && val == 0 {
        String::from_str("Humidity sensor not found.")
    } else if sub == 8 && (val == 1 || val == 2) {
        String::from_str("Humidity sensor read error.")
    } else if sub == 8 && val == 3 {
        String::from_str("Humidity sensor protecting.")
    } else {
        unknown()
    }
}

/// Type 4: EEPROM.
pub open spec fn eeprom_error_text(sub: u64, val: u64) -> Seq<char> {
    if sub == 0 && val == 0 {
        "Eeprom unknown error."@
    } else if sub == 1 {
        numbered_text("Slot "@, val, " eeprom detection error."@)
    } else if sub == 2 {
        numbered_text("Slot "@, val, " eeprom parsing error."@)
    } else if sub == 3 {
        numbered_text("Slot "@, val, " chip bin type error."@)
    } else if sub == 4 {
        numbered_text("Slot "@, val, " eeprom chip number X error."@)
    } else if sub == 5 {
        numbered_text("Slot "@, val, " eeprom xfer error."@)
    } else {
        unknown_text()
    }
}

/// Type 4: EEPROM.
pub fn eeprom_error(sub: u64, val: u64) -> (r: String)
    ensures
        r@ == eeprom_error_text(sub, val),
{
    if sub == 0 && val == 0 {
        String::from_str("Eeprom unknown error.")
    } else if sub == 1 {
        numbered("Slot ", val, " eeprom detection error.")
    } else if sub == 2 {
        numbered("Slot ", val, " eeprom parsing error.")
    } else if sub == 3 {
        numbered("Slot ", val, " chip bin type error.")
    } else if sub == 4 {
        numbered("Slot ", val, " eeprom chip number X error.")
    } else if sub == 5 {
        numbered("Slot ", val, " eeprom xfer error.")
    } else {
        unknown()
    }
}

/// Type 5: hashboards.
pub open spec fn hashboard_error_text(sub: u64, val: u64) -> Seq<char> {
    if sub == 0 && val == 0 {
        "Board unknown error."@
    } else if sub == 1 {
        numbered_text("Slot "@, val, " miner type error."@)
    } else if sub == 2 {
        numbered_text("Slot "@, val, " bin type error."@)
    } else if sub == 3 {
        numbered_text("Slot "@, val, " not found."@)
    } else if sub == 4 {
        numbered_text("Slot "@, val, " error reading chip id."@)
    } else if sub == 5 {
        numbered_text("Slot "@, val, " has bad chips."@)
    } else if sub == 6 {
        numbered_text("Slot "@, val, " loss of balance error."@)
    } else if sub == 7 {
        numbered_text("Slot "@, val, " xfer error chip."@)
    } else if sub == 8 {
        numbered_text("Slot "@, val, " reset error."@)
    } else if sub == 9 {
        numbered_text("Slot "@, val, " frequency too low."@)
    } else {
        unknown_text()
    }
}

/// Type 5: hashboards.
pub fn hashboard_error(sub: u64, val: u64) -> (r: String)
    ensures
        r@ == hashboard_error_text(sub, val),
{
    if sub == 0 && val == 0 {
        String::from_str("Board unknown error.")
    } else if sub == 1 {
        numbered("Slot ", val, " miner type error.")
    } else if sub == 2 {
        numbered("Slot ", val, " bin type error.")
    } else if sub == 3 {
        numbered("Slot ", val, " not found.")
    } else if sub == 4 {
        numbered("Slot ", val, " error reading chip id.")
    } else if sub == 5 {
        numbered("Slot ", val, " has bad chips.")
    } else if sub == 6 {
        numbered("Slot ", val, " loss of balance error.")
    } else if sub == 7 {
        numbered("Slot ", val, " xfer error chip.")
    } else if sub == 8 {
        numbered("Slot ", val, " reset error.")
    } else if sub == 9 {
        numbered("Slot ", val, " frequency too low.")
    } else {
        unknown()
    }
}

/// Type 6: environment temperature.
pub open spec fn env_temp_error_text(sub: u64, val: u64) -> Seq<char> {
    if sub == 0 && val == 0 {
        "Environment temperature is too high."@
    } else if sub == 1 && val == 0 {
        "Environment temperature is too high for high performance mode."@
    } else {
        unknown_text()
    }
}

/// Type 6: environment temperature.
pub fn env_temp_error(sub: u64, val: u64) -> (r: String)
    ensures
        r@ == env_temp_error_text(sub, val),
{
    if sub == 0 && val == 0 {
        String::from_str("Environment temperature is too high.")
    } else if sub == 1 && val == 0 {
        String::from_str("Environment temperature is too high for high performance mode.")
    } else {
        unknown()
    }
}

/// Type 7: control board.
pub open spec fn control_board_error_text(sub: u64, val: u64) -> Seq<char> {
    if sub == 0 && val == 0 {
        "MAC address invalid"@
    } else if sub == 0 && val == 1 {
        "Control board no support chip."@
    } else if sub == 1 && (val == 0 || val == 2) {
        "Control board rebooted as an exception."@
    } else if sub == 1 && val == 1 {
        "Control board rebooted as exception and cpufreq reduced, please upgrade the firmware"@
    } else if sub == 1 && val == 3 {
        "The network is unstable, change time."@
    } else if sub == 1 && val == 4 {
        "Unknown error."@
    } else if sub == 2 {
        numbered_text("Control board slot "@, val, " frame error."@)
    } else {
        unknown_text()
    }
}

/// Type 7: control board.
pub fn control_board_error(sub: u64, val: u64) -> (r: String)
    ensures
        r@ == control_board_error_text(sub, val),
{
    if sub == 0 && val == 0 {
        String::from_str("MAC address invalid")
    } else if sub == 0 && val == 1 {
        String::from_str("Control board no support chip.")
    } else if sub == 1 && (val == 0 || val == 2) {
        String::from_str("Control board rebooted as an exception.")
    } else if sub == 1 && val == 1 {
        String::from_str("Control board rebooted as exception and cpufreq reduced, please upgrade the firmware")
    } else if sub == 1 && val == 3 {
        String::from_str("The network is unstable, change time.")
    } else if sub == 1 && val == 4 {
        String::from_str("Unknown error.")
    } else if sub == 2 {
        numbered("Control board slot ", val, " frame error.")
    } else {
        unknown()
    }
}

/// Type 8: checksums.
pub open spec fn checksum_error_text(sub: u64, val: u64) -> Seq<char> {
    if sub == 0 && val == 0 {
        "CGMiner checksum error."@
    } else if sub == 0 && val == 1 {
        "System monitor checksum error."@
    } else if sub == 0 && val == 2 {
        "Remote daemon checksum error."@
    } else if sub == 1 && val == 0 {
        "Air to liquid PCB serial # does not match."@
    } else {
        unknown_text()
    }
}

/// Type 8: checksums.
pub fn checksum_error(sub: u64, val: u64) -> (r: String)
    ensures
        r@ == checksum_error_text(sub, val),
{
    if sub == 0 && val == 0 {
        String::from_str("CGMiner checksum error.")
    } else if sub == 0 && val == 1 {
        String::from_str("System monitor checksum error.")
    } else if sub == 0 && val == 2 {
        String::from_str("Remote daemon checksum error.")
    } else if sub == 1 && val == 0 {
        String::from_str("Air to liquid PCB serial # does not match.")
    } else {
        unknown()
    }
}

/// Type 9: power rate.
pub open spec fn power_rate_error_text(sub: u64, val: u64) -> Seq<char> {
    if sub == 0 && val == 0 {
        "Unknown error."@
    } else if sub == 0 && val == 1 {
        "Power rate error."@
    } else if sub == 0 && val == 2 {
        "Unknown error."@
    } else {
        unknown_text()
    }
}

/// Type 9: power rate.
pub fn power_rate_error(sub: u64, val: u64) -> (r: String)
    ensures
        r@ == power_rate_error_text(sub, val),
{
    if sub == 0 && val == 0 {
        String::from_str("Unknown error.")
    } else if sub == 0 && val == 1 {
        String::from_str("Power rate error.")
    } else if sub == 0 && val == 2 {
        String::from_str("Unknown error.")
    } else {
        unknown()
    }
}

/// Type 20: pools.
pub open spec fn pool_error_text(sub: u64, val: u64) -> Seq<char> {
    if sub == 0 && val == 0 {
        "No pool information configured."@
    } else if sub == 1 && val == 0 {
        "All pools are disabled."@
    } else if sub == 2 {
        numbered_text("Pool "@, val, " connection failed."@)
    } else if sub == 3 && val == 0 {
        "High rejection rate on pool."@
    } else if sub == 4 && val == 0 {
        "The pool does not support asicboost mode."@
    } else {
        unknown_text()
    }
}

/// Type 20: pools.
pub fn pool_error(sub: u64, val: u64) -> (r: String)
    ensures
        r@ == pool_error_text(sub, val),
{
    if sub == 0 && val == 0 {
        String::from_str("No pool information configured.")
    } else if sub == 1 && val == 0 {
        String::from_str("All pools are disabled.")
    } else if sub == 2 {
        numbered("Pool ", val, " connection failed.")
    } else if sub == 3 && val == 0 {
        String::from_str("High rejection rate on pool.")
    } else if sub == 4 && val == 0 {
        String::from_str("The pool does not support asicboost mode.")
    } else {
        unknown()
    }
}

/// Type 21: factory tests.
pub open spec fn factory_test_error_text(sub: u64, val: u64) -> Seq<char> {
    if sub == 1 {
        numbered_text("Slot "@, val, " factory test step failed."@)
    } else {
        unknown_text()
    }
}

/// Type 21: factory tests.
pub fn factory_test_error(sub: u64, val: u64) -> (r: String)
    ensures
        r@ == factory_test_error_text(sub, val),
{
    if sub == 1 {
        numbered("Slot ", val, " factory test step failed.")
    } else {
        unknown()
    }
}

/// Type 23: hash rate.
pub open spec fn hashrate_error_text(sub: u64, val: u64) -> Seq<char> {
    if (sub == 1 || sub == 2) && val == 0 {
        "Hashrate is too low."@
    } else if (sub == 3 || sub == 4) && val == 0 {
        "Hashrate loss is too high."@
    } else if sub == 5 && val == 0 {
        "Hashrate loss."@
    } else {
        unknown_text()
    }
}

/// Type 23: hash rate.
pub fn hashrate_error(sub: u64, val: u64) -> (r: String)
    ensures
        r@ == hashrate_error_text(sub, val),
{
    if (sub == 1 || sub == 2) && val == 0 {
        String::from_str("Hashrate is too low.")
    } else if (sub == 3 || sub == 4) && val == 0 {
        String::from_str("Hashrate loss is too high.")
    } else if sub == 5 && val == 0 {
        String::from_str("Hashrate loss.")
    } else {
        unknown()
    }
}

/// Type 50: chip voltage and water velocity.
pub open spec fn voltage_water_error_text(sub: u64, val: u64) -> Seq<char> {
    if sub == 1 {
        numbered_text("Slot "@, val, " chip voltage too low."@)
    } else if sub == 2 {
        numbered_text("Slot "@, val, " chip voltage changed."@)
    } else if sub == 3 {
        numbered_text("Slot "@, val, " chip temperature difference is too large."@)
    } else if sub == 4 {
        numbered_text("Slot "@, val, " chip hottest temperature difference is too large."@)
    } else if sub == 5 {
        numbered_text("Slot "@, val, " stopped hashing, chips temperature protecting."@)
    } else if sub == 7 {
        numbered_text("Slot "@, val, " water velocity is abnormal."@)
    } else if sub == 8 && val == 0 {
        "Chip temp calibration failed, please restore factory settings."@
    } else if sub == 9 {
        numbered_text("Slot "@, val, " chip temp calibration check no balance."@)
    } else {
        unknown_text()
    }
}

/// Type 50: chip voltage and water velocity.
pub fn voltage_water_error(sub: u64, val: u64) -> (r: String)
    ensures
        r@ == voltage_water_error_text(sub, val),
{
    if sub == 1 {
        numbered("Slot ", val, " chip voltage too low.")
    } else if sub == 2 {
        numbered("Slot ", val, " chip voltage changed.")
    } else if sub == 3 {
        numbered("Slot ", val, " chip temperature difference is too large.")
    } else if sub == 4 {
        numbered("Slot ", val, " chip hottest temperature difference is too large.")
    } else if sub == 5 {
        numbered("Slot ", val, " stopped hashing, chips temperature protecting.")
    } else if sub == 7 {
        numbered("Slot ", val, " water velocity is abnormal.")
    } else if sub == 8 && val == 0 {
        String::from_str("Chip temp calibration failed, please restore factory settings.")
    } else if sub == 9 {
        numbered("Slot ", val, " chip temp calibration check no balance.")
    } else {
        unknown()
    }
}

/// Type 51: frequency.
pub open spec fn frequency_error_text(sub: u64, val: u64) -> Seq<char> {
    if sub == 1 || sub == 7 {
        numbered_text("Slot "@, val, " frequency up timeout."@)
    } else if sub == 2 {
        numbered_text("Slot "@, val, " too many CRC errors."@)
    } else if sub == 3 {
        numbered_text("Slot "@, val, " unstable."@)
    } else {
        unknown_text()
    }
}

/// Type 51: frequency.
pub fn frequency_error(sub: u64, val: u64) -> (r: String)
    ensures
        r@ == frequency_error_text(sub, val),
{
    if sub == 1 || sub == 7 {
        numbered("Slot ", val, " frequency up timeout.")
    } else if sub == 2 {
        numbered("Slot ", val, " too many CRC errors.")
    } else if sub == 3 {
        numbered("Slot ", val, " unstable.")
    } else {
        unknown()
    }
}

/// Type 80: tooling and performance.
pub open spec fn tool_error_text(sub: u64, val: u64) -> Seq<char> {
    if sub == 0 && val == 0 {
        "The tool version is too low, please update."@
    } else if sub == 1 && val == 0 {
        "Low freq."@
    } else if sub == 2 && val == 0 {
        "Low hashrate."@
    } else if sub == 3 && val == 5 {
        "High env temp."@
    } else {
        unknown_text()
    }
}

/// Type 80: tooling and performance.
pub fn tool_error(sub: u64, val: u64) -> (r: String)
    ensures
        r@ == tool_error_text(sub, val),
{
    if sub == 0 && val == 0 {
        String::from_str("The tool version is too low, please update.")
    } else if sub == 1 && val == 0 {
        String::from_str("Low freq.")
    } else if sub == 2 && val == 0 {
        String::from_str("Low hashrate.")
    } else if sub == 3 && val == 5 {
        String::from_str("High env temp.")
    } else {
        unknown()
    }
}

/// Type 85: substandard operation, level given by the subtype.
pub open spec fn substandard_error_text(sub: u64, val: u64) -> Seq<char> {
    if val == 0 {
        numbered_text("Hashrate substandard L"@, sub, "."@)
    } else if val == 1 {
        numbered_text("Power consumption substandard L"@, sub, "."@)
    } else if val == 2 || val == 3 {
        numbered_text("Fan speed substandard L"@, sub, "."@)
    } else if val == 4 {
        numbered_text("Voltage substandard L"@, sub, "."@)
    } else {
        unknown_text()
    }
}

/// Type 85: substandard operation, level given by the subtype.
pub fn substandard_error(sub: u64, val: u64) -> (r: String)
    ensures
        r@ == substandard_error_text(sub, val),
{
    if val == 0 {
        numbered("Hashrate substandard L", sub, ".")
    } else if val == 1 {
        numbered("Power consumption substandard L", sub, ".")
    } else if val == 2 || val == 3 {
        numbered("Fan speed substandard L", sub, ".")
    } else if val == 4 {
        numbered("Voltage substandard L", sub, ".")
    } else {
        unknown()
    }
}

/// Type 86: serial numbers and product information.
pub open spec fn serial_info_error_text(sub: u64, val: u64) -> Seq<char> {
    if sub == 0 && val == 0 {
        "Missing product serial #."@
    } else if sub == 1 && val == 0 {
        "Missing product type."@
    } else if sub == 2 && val == 0 {
        "Missing miner serial #."@
    } else if sub == 2 && val == 1 {
        "Wrong miner serial # length."@
    } else if sub == 3 && val == 0 {
        "Missing power serial #."@
    } else if sub == 3 && val == 1 {
        "Wrong power serial #."@
    } else if sub == 3 && val == 2 {
        "Fault miner serial #."@
    } else if sub == 4 && val == 0 {
        "Missing power model."@
    } else if sub == 4 && val == 1 {
        "Wrong power model name."@
    } else if sub == 4 && val == 2 {
        "Wrong power model vout."@
    } else if sub == 4 && val == 3 {
        "Wrong power model rate."@
    } else if sub == 4 && val == 4 {
        "Wrong power model format."@
    } else if sub == 5 && val == 0 {
        "Wrong hash board struct."@
    } else if sub == 6 && val == 0 {
        "Wrong miner cooling type."@
    } else if sub == 7 && val == 0 {
        "Missing PCB serial #."@
    } else {
        unknown_text()
    }
}

/// Type 86: serial numbers and product information.
pub fn serial_info_error(sub: u64, val: u64) -> (r: String)
    ensures
        r@ == serial_info_error_text(sub, val),
{
    if sub == 0 && val == 0 {
        String::from_str("Missing product serial #.")
    } else if sub == 1 && val == 0 {
        String::from_str("Missing product type.")
    } else if sub == 2 && val == 0 {
        String::from_str("Missing miner serial #.")
    } else if sub == 2 && val == 1 {
        String::from_str("Wrong miner serial # length.")
    } else if sub == 3 && val == 0 {
        String::from_str("Missing power serial #.")
    } else if sub == 3 && val == 1 {
        String::from_str("Wrong power serial #.")
    } else if sub == 3 && val == 2 {
        String::from_str("Fault miner serial #.")
    } else if sub == 4 && val == 0 {
        String::from_str("Missing power model.")
    } else if sub == 4 && val == 1 {
        String::from_str("Wrong power model name.")
    } else if sub == 4 && val == 2 {
        String::from_str("Wrong power model vout.")
    } else if sub == 4 && val == 3 {
        String::from_str("Wrong power model rate.")
    } else if sub == 4 && val == 4 {
        String::from_str("Wrong power model format.")
    } else if sub == 5 && val == 0 {
        String::from_str("Wrong hash board struct.")
    } else if sub == 6 && val == 0 {
        String::from_str("Wrong miner cooling type.")
    } else if sub == 7 && val == 0 {
        String::from_str("Missing PCB serial #.")
    } else {
        unknown()
    }
}
} // verus!
