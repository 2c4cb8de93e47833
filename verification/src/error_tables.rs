//! The WhatsMiner error-description table, entry by entry, stated as facts
//! about `lookup_text` (and so about `lookup` and `error_message`).
use vstd::prelude::*;

use crate::error_codes::lookup_text;
use crate::text::decimal;

verus! {

/// The value digit of a fan code names the fan: for subtypes 1 to 3,
/// value 0 is the intake fan and value 1 the exhaust fan, with the same
/// rest of the description.
pub proof fn lemma_fan_value_names_the_fan(sub: u64)
    requires
        1 <= sub <= 3,
    ensures
        lookup_text(1, sub, 0).take(6) == "Intake"@,
        lookup_text(1, sub, 1).take(7) == "Exhaust"@,
        lookup_text(1, sub, 0).skip(6) == lookup_text(1, sub, 1).skip(7),
{
    reveal_strlit("Intake fan speed error.");
    reveal_strlit("Exhaust fan speed error.");
    reveal_strlit("Intake fan speed error.  Fan speed deviates by more than 2000.");
    reveal_strlit("Exhaust fan speed error.  Fan speed deviates by more than 2000.");
    reveal_strlit("Intake fan speed error.  Fan speed deviates by more than 3000.");
    reveal_strlit("Exhaust fan speed error.  Fan speed deviates by more than 3000.");
    reveal_strlit("Intake");
    reveal_strlit("Exhaust");
    assert(lookup_text(1, sub, 0).take(6) =~= "Intake"@);
    assert(lookup_text(1, sub, 1).take(7) =~= "Exhaust"@);
    assert(lookup_text(1, sub, 0).skip(6) =~= lookup_text(1, sub, 1).skip(7));
}

/// The WhatsMiner descriptions of type 1, entry by entry, as the
/// firmware reports them; every other subtype and value is unknown.
pub proof fn lemma_table_fan()
    ensures
        lookup_text(1, 0, 0) == "Fan unknown."@,
        lookup_text(1, 1, 0) == "Intake fan speed error."@,
        lookup_text(1, 1, 1) == "Exhaust fan speed error."@,
        lookup_text(1, 2, 0) == "Intake fan speed error.  Fan speed deviates by more than 2000."@,
        lookup_text(1, 2, 1) == "Exhaust fan speed error.  Fan speed deviates by more than 2000."@,
        lookup_text(1, 3, 0) == "Intake fan speed error.  Fan speed deviates by more than 3000."@,
        lookup_text(1, 3, 1) == "Exhaust fan speed error.  Fan speed deviates by more than 3000."@,
        lookup_text(1, 4, 0) == "Fan speed too high."@,
        forall|v: u64| v != 0 ==> #[trigger] lookup_text(1, 0, v) == "Unknown error type."@,
        forall|v: u64| v != 0 && v != 1 ==> #[trigger] lookup_text(1, 1, v) == "Unknown error type."@,
        forall|v: u64| v != 0 && v != 1 ==> #[trigger] lookup_text(1, 2, v) == "Unknown error type."@,
        forall|v: u64| v != 0 && v != 1 ==> #[trigger] lookup_text(1, 3, v) == "Unknown error type."@,
        forall|v: u64| v != 0 ==> #[trigger] lookup_text(1, 4, v) == "Unknown error type."@,
        forall|s: u64, v: u64| s != 0 && s != 1 && s != 2 && s != 3 && s != 4 ==> #[trigger] lookup_text(1, s, v) == "Unknown error type."@,
{
}

/// The WhatsMiner descriptions of type 2, entry by entry, as the
/// firmware reports them; every other subtype and value is unknown.
pub proof fn lemma_table_power()
    ensures
        lookup_text(2, 0, 0) == "Power probing error.  No power found."@,
        lookup_text(2, 0, 1) == "Power supply and configuration file don't match."@,
        lookup_text(2, 0, 2) == "Power output voltage error."@,
        lookup_text(2, 0, 3) == "Power protecting due to high environment temperature."@,
        lookup_text(2, 0, 4) == "Power current protecting due to high environment temperature."@,
        lookup_text(2, 0, 5) == "Power current error."@,
        lookup_text(2, 0, 6) == "Power input low voltage error."@,
        lookup_text(2, 0, 7) == "Power input current protecting due to bad power input."@,
        lookup_text(2, 0, 8) == "Power power error."@,
        lookup_text(2, 0, 9) == "Power voltage offset error."@,
        lookup_text(2, 1, 0) == "Power error."@,
        lookup_text(2, 1, 1) == "Power iout error, please reboot."@,
        lookup_text(2, 1, 2) == "Power vout error, reach vout border. Border: [1150, 1500]"@,
        lookup_text(2, 1, 3) == "Power input voltage and current do not match power output."@,
        lookup_text(2, 1, 4) == "Power pin did not change."@,
        lookup_text(2, 1, 5) == "Power vout set error."@,
        lookup_text(2, 1, 6) == "Power remained unchanged for a long time."@,
        lookup_text(2, 1, 7) == "Power set enable error."@,
        lookup_text(2, 1, 8) == "Power input voltage is lower than 230V for high power mode."@,
        lookup_text(2, 1, 9) == "Power input current is incorrect."@,
        lookup_text(2, 3, 3) == "Power output high temperature protection error."@,
        lookup_text(2, 3, 4) == "Power output high temperature protection error."@,
        lookup_text(2, 3, 5) == "Power output high temperature protection error."@,
        lookup_text(2, 3, 6) == "Power output high current protection error."@,
        lookup_text(2, 3, 7) == "Power output high current protection error."@,
        lookup_text(2, 3, 8) == "Power output high current protection error."@,
        lookup_text(2, 3, 9) == "Power output high voltage protection error."@,
        lookup_text(2, 4, 0) == "Power output low voltage protection error."@,
        lookup_text(2, 4, 1) == "Power output current imbalance error."@,
        lookup_text(2, 4, 3) == "Power input high temperature protection error."@,
        lookup_text(2, 4, 4) == "Power input high temperature protection error."@,
        lookup_text(2, 4, 5) == "Power input high temperature protection error."@,
        lookup_text(2, 4, 6) == "Power input high voltage protection error."@,
        lookup_text(2, 4, 7) == "Power input high voltage protection error."@,
        lookup_text(2, 4, 8) == "Power input high current protection error."@,
        lookup_text(2, 4, 9) == "Power input high current protection error."@,
        lookup_text(2, 5, 0) == "Power input low voltage protection error."@,
        lookup_text(2, 5, 1) == "Power input low voltage protection error."@,
        lookup_text(2, 5, 3) == "Power supply fan error."@,
        lookup_text(2, 5, 4) == "Power supply fan error."@,
        lookup_text(2, 5, 5) == "Power output high power protection error."@,
        lookup_text(2, 5, 6) == "Power output high power protection error."@,
        lookup_text(2, 5, 7) == "Input over current protection of power supply on primary side."@,
        lookup_text(2, 6, 3) == "Power communication warning."@,
        lookup_text(2, 6, 4) == "Power communication error."@,
        lookup_text(2, 6, 5) == "Power unknown error."@,
        lookup_text(2, 6, 6) == "Power unknown error."@,
        lookup_text(2, 6, 7) == "Power watchdog protection."@,
        lookup_text(2, 6, 8) == "Power output high current protection."@,
        lookup_text(2, 6, 9) == "Power input high current protection."@,
        lookup_text(2, 7, 0) == "Power input high voltage protection."@,
        lookup_text(2, 7, 1) == "Power input low voltage protection."@,
        lookup_text(2, 7, 2) == "Excessive power supply output warning."@,
        lookup_text(2, 7, 3) == "Power input too high warning."@,
        lookup_text(2, 7, 4) == "Power fan warning."@,
        lookup_text(2, 7, 5) == "Power high temperature warning."@,
        lookup_text(2, 7, 6) == "Power unknown error."@,
        lookup_text(2, 7, 7) == "Power unknown error."@,
        lookup_text(2, 7, 8) == "Power unknown error."@,
        lookup_text(2, 7, 9) == "Power unknown error."@,
        lookup_text(2, 8, 0) == "Power unknown error."@,
        lookup_text(2, 8, 1) == "Power vendor status 1 bit 0 error."@,
        lookup_text(2, 8, 2) == "Power vendor status 1 bit 1 error."@,
        lookup_text(2, 8, 3) == "Power vendor status 1 bit 2 error."@,
        lookup_text(2, 8, 4) == "Power vendor status 1 bit 3 error."@,
        lookup_text(2, 8, 5) == "Power vendor status 1 bit 4 error."@,
        lookup_text(2, 8, 6) == "Power vendor status 1 bit 5 error."@,
        lookup_text(2, 8, 7) == "Power vendor status 1 bit 6 error."@,
        lookup_text(2, 8, 8) == "Power vendor status 1 bit 7 error."@,
        lookup_text(2, 8, 9) == "Power vendor status 2 bit 0 error."@,
        lookup_text(2, 9, 0) == "Power vendor status 2 bit 1 error."@,
        lookup_text(2, 9, 1) == "Power vendor status 2 bit 2 error."@,
        lookup_text(2, 9, 2) == "Power vendor status 2 bit 3 error."@,
        lookup_text(2, 9, 3) == "Power vendor status 2 bit 4 error."@,
        lookup_text(2, 9, 4) == "Power vendor status 2 bit 5 error."@,
        lookup_text(2, 9, 5) == "Power vendor status 2 bit 6 error."@,
        lookup_text(2, 9, 6) == "Power vendor status 2 bit 7 error."@,
        forall|v: u64| v != 0 && v != 1 && v != 2 && v != 3 && v != 4 && v != 5 && v != 6 && v != 7 && v != 8 && v != 9 ==> #[trigger] lookup_text(2, 0, v) == "Unknown error type."@,
        forall|v: u64| v != 0 && v != 1 && v != 2 && v != 3 && v != 4 && v != 5 && v != 6 && v != 7 && v != 8 && v != 9 ==> #[trigger] lookup_text(2, 1, v) == "Unknown error type."@,
        forall|v: u64| v != 3 && v != 4 && v != 5 && v != 6 && v != 7 && v != 8 && v != 9 ==> #[trigger] lookup_text(2, 3, v) == "Unknown error type."@,
        forall|v: u64| v != 0 && v != 1 && v != 3 && v != 4 && v != 5 && v != 6 && v != 7 && v != 8 && v != 9 ==> #[trigger] lookup_text(2, 4, v) == "Unknown error type."@,
        forall|v: u64| v != 0 && v != 1 && v != 3 && v != 4 && v != 5 && v != 6 && v != 7 ==> #[trigger] lookup_text(2, 5, v) == "Unknown error type."@,
        forall|v: u64| v != 3 && v != 4 && v != 5 && v != 6 && v != 7 && v != 8 && v != 9 ==> #[trigger] lookup_text(2, 6, v) == "Unknown error type."@,
        forall|v: u64| v != 0 && v != 1 && v != 2 && v != 3 && v != 4 && v != 5 && v != 6 && v != 7 && v != 8 && v != 9 ==> #[trigger] lookup_text(2, 7, v) == "Unknown error type."@,
        forall|v: u64| v != 0 && v != 1 && v != 2 && v != 3 && v != 4 && v != 5 && v != 6 && v != 7 && v != 8 && v != 9 ==> #[trigger] lookup_text(2, 8, v) == "Unknown error type."@,
        forall|v: u64| v != 0 && v != 1 && v != 2 && v != 3 && v != 4 && v != 5 && v != 6 ==> #[trigger] lookup_text(2, 9, v) == "Unknown error type."@,
        forall|s: u64, v: u64| s != 0 && s != 1 && s != 3 && s != 4 && s != 5 && s != 6 && s != 7 && s != 8 && s != 9 ==> #[trigger] lookup_text(2, s, v) == "Unknown error type."@,
{
}

/// The WhatsMiner descriptions of type 3, entry by entry, as the
/// firmware reports them; every other subtype and value is unknown.
pub proof fn lemma_table_temperature()
    ensures
        forall|n: u64| #[trigger] lookup_text(3, 0, n) == "Slot "@ + decimal(n as nat) + " temperature sensor detection error."@,
        lookup_text(3, 2, 9) == "Control board temperature sensor communication error."@,
        forall|n: u64| n != 9 ==> #[trigger] lookup_text(3, 2, n) == "Slot "@ + decimal(n as nat) + " temperature reading error."@,
        forall|n: u64| #[trigger] lookup_text(3, 5, n) == "Slot "@ + decimal(n as nat) + " temperature protecting."@,
        lookup_text(3, 6, 0) == "Hashboard high temperature error."@,
        lookup_text(3, 6, 1) == "Hashboard high temperature error."@,
        lookup_text(3, 6, 2) == "Hashboard high temperature error."@,
        lookup_text(3, 6, 3) == "Hashboard high temperature error."@,
        lookup_text(3, 7, 0) == "The environment temperature fluctuates too much."@,
        lookup_text(3, 8, 0) == "Humidity sensor not found."@,
        lookup_text(3, 8, 1) == "Humidity sensor read error."@,
        lookup_text(3, 8, 2) == "Humidity sensor read error."@,
        lookup_text(3, 8, 3) == "Humidity sensor protecting."@,
        forall|v: u64| v != 0 && v != 1 && v != 2 && v != 3 ==> #[trigger] lookup_text(3, 6, v) == "Unknown error type."@,
        forall|v: u64| v != 0 ==> #[trigger] lookup_text(3, 7, v) == "Unknown error type."@,
        forall|v: u64| v != 0 && v != 1 && v != 2 && v != 3 ==> #[trigger] lookup_text(3, 8, v) == "Unknown error type."@,
        forall|s: u64, v: u64| s != 0 && s != 2 && s != 5 && s != 6 && s != 7 && s != 8 ==> #[trigger] lookup_text(3, s, v) == "Unknown error type."@,
{
}

/// The WhatsMiner descriptions of type 4, entry by entry, as the
/// firmware reports them; every other subtype and value is unknown.
pub proof fn lemma_table_eeprom()
    ensures
        lookup_text(4, 0, 0) == "Eeprom unknown error."@,
        forall|n: u64| #[trigger] lookup_text(4, 1, n) == "Slot "@ + decimal(n as nat) + " eeprom detection error."@,
        forall|n: u64| #[trigger] lookup_text(4, 2, n) == "Slot "@ + decimal(n as nat) + " eeprom parsing error."@,
        forall|n: u64| #[trigger] lookup_text(4, 3, n) == "Slot "@ + decimal(n as nat) + " chip bin type error."@,
        forall|n: u64| #[trigger] lookup_text(4, 4, n) == "Slot "@ + decimal(n as nat) + " eeprom chip number X error."@,
        forall|n: u64| #[trigger] lookup_text(4, 5, n) == "Slot "@ + decimal(n as nat) + " eeprom xfer error."@,
        forall|v: u64| v != 0 ==> #[trigger] lookup_text(4, 0, v) == "Unknown error type."@,
        forall|s: u64, v: u64| s != 0 && s != 1 && s != 2 && s != 3 && s != 4 && s != 5 ==> #[trigger] lookup_text(4, s, v) == "Unknown error type."@,
{
}

/// The WhatsMiner descriptions of type 5, entry by entry, as the
/// firmware reports them; every other subtype and value is unknown.
pub proof fn lemma_table_hashboard()
    ensures
        lookup_text(5, 0, 0) == "Board unknown error."@,
        forall|n: u64| #[trigger] lookup_text(5, 1, n) == "Slot "@ + decimal(n as nat) + " miner type error."@,
        forall|n: u64| #[trigger] lookup_text(5, 2, n) == "Slot "@ + decimal(n as nat) + " bin type error."@,
        forall|n: u64| #[trigger] lookup_text(5, 3, n) == "Slot "@ + decimal(n as nat) + " not found."@,
        forall|n: u64| #[trigger] lookup_text(5, 4, n) == "Slot "@ + decimal(n as nat) + " error reading chip id."@,
        forall|n: u64| #[trigger] lookup_text(5, 5, n) == "Slot "@ + decimal(n as nat) + " has bad chips."@,
        forall|n: u64| #[trigger] lookup_text(5, 6, n) == "Slot "@ + decimal(n as nat) + " loss of balance error."@,
        forall|n: u64| #[trigger] lookup_text(5, 7, n) == "Slot "@ + decimal(n as nat) + " xfer error chip."@,
        forall|n: u64| #[trigger] lookup_text(5, 8, n) == "Slot "@ + decimal(n as nat) + " reset error."@,
        forall|n: u64| #[trigger] lookup_text(5, 9, n) == "Slot "@ + decimal(n as nat) + " frequency too low."@,
        forall|v: u64| v != 0 ==> #[trigger] lookup_text(5, 0, v) == "Unknown error type."@,
        forall|s: u64, v: u64| s != 0 && s != 1 && s != 2 && s != 3 && s != 4 && s != 5 && s != 6 && s != 7 && s != 8 && s != 9 ==> #[trigger] lookup_text(5, s, v) == "Unknown error type."@,
{
}

/// The WhatsMiner descriptions of type 6, entry by entry, as the
/// firmware reports them; every other subtype and value is unknown.
pub proof fn lemma_table_env_temp()
    ensures
        lookup_text(6, 0, 0) == "Environment temperature is too high."@,
        lookup_text(6, 1, 0) == "Environment temperature is too high for high performance mode."@,
        forall|v: u64| v != 0 ==> #[trigger] lookup_text(6, 0, v) == "Unknown error type."@,
        forall|v: u64| v != 0 ==> #[trigger] lookup_text(6, 1, v) == "Unknown error type."@,
        forall|s: u64, v: u64| s != 0 && s != 1 ==> #[trigger] lookup_text(6, s, v) == "Unknown error type."@,
{
}

/// The WhatsMiner descriptions of type 7, entry by entry, as the
/// firmware reports them; every other subtype and value is unknown.
pub proof fn lemma_table_control_board()
    ensures
        lookup_text(7, 0, 0) == "MAC address invalid"@,
        lookup_text(7, 0, 1) == "Control board no support chip."@,
        lookup_text(7, 1, 0) == "Control board rebooted as an exception."@,
        lookup_text(7, 1, 2) == "Control board rebooted as an exception."@,
        lookup_text(7, 1, 1) == "Control board rebooted as exception and cpufreq reduced, please upgrade the firmware"@,
        lookup_text(7, 1, 3) == "The network is unstable, change time."@,
        lookup_text(7, 1, 4) == "Unknown error."@,
        forall|n: u64| #[trigger] lookup_text(7, 2, n) == "Control board slot "@ + decimal(n as nat) + " frame error."@,
        forall|v: u64| v != 0 && v != 1 ==> #[trigger] lookup_text(7, 0, v) == "Unknown error type."@,
        forall|v: u64| v != 0 && v != 1 && v != 2 && v != 3 && v != 4 ==> #[trigger] lookup_text(7, 1, v) == "Unknown error type."@,
        forall|s: u64, v: u64| s != 0 && s != 1 && s != 2 ==> #[trigger] lookup_text(7, s, v) == "Unknown error type."@,
{
}

/// The WhatsMiner descriptions of type 8, entry by entry, as the
/// firmware reports them; every other subtype and value is unknown.
pub proof fn lemma_table_checksum()
    ensures
        lookup_text(8, 0, 0) == "CGMiner checksum error."@,
        lookup_text(8, 0, 1) == "System monitor checksum error."@,
        lookup_text(8, 0, 2) == "Remote daemon checksum error."@,
        lookup_text(8, 1, 0) == "Air to liquid PCB serial # does not match."@,
        forall|v: u64| v != 0 && v != 1 && v != 2 ==> #[trigger] lookup_text(8, 0, v) == "Unknown error type."@,
        forall|v: u64| v != 0 ==> #[trigger] lookup_text(8, 1, v) == "Unknown error type."@,
        forall|s: u64, v: u64| s != 0 && s != 1 ==> #[trigger] lookup_text(8, s, v) == "Unknown error type."@,
{
}

/// The WhatsMiner descriptions of type 9, entry by entry, as the
/// firmware reports them; every other subtype and value is unknown.
pub proof fn lemma_table_power_rate()
    ensures
        lookup_text(9, 0, 0) == "Unknown error."@,
        lookup_text(9, 0, 1) == "Power rate error."@,
        lookup_text(9, 0, 2) == "Unknown error."@,
        forall|v: u64| v != 0 && v != 1 && v != 2 ==> #[trigger] lookup_text(9, 0, v) == "Unknown error type."@,
        forall|s: u64, v: u64| s != 0 ==> #[trigger] lookup_text(9, s, v) == "Unknown error type."@,
{
}

/// The WhatsMiner descriptions of type 20, entry by entry, as the
/// firmware reports them; every other subtype and value is unknown.
pub proof fn lemma_table_pool()
    ensures
        lookup_text(20, 0, 0) == "No pool information configured."@,
        lookup_text(20, 1, 0) == "All pools are disabled."@,
        forall|n: u64| #[trigger] lookup_text(20, 2, n) == "Pool "@ + decimal(n as nat) + " connection failed."@,
        lookup_text(20, 3, 0) == "High rejection rate on pool."@,
        lookup_text(20, 4, 0) == "The pool does not support asicboost mode."@,
        forall|v: u64| v != 0 ==> #[trigger] lookup_text(20, 0, v) == "Unknown error type."@,
        forall|v: u64| v != 0 ==> #[trigger] lookup_text(20, 1, v) == "Unknown error type."@,
        forall|v: u64| v != 0 ==> #[trigger] lookup_text(20, 3, v) == "Unknown error type."@,
        forall|v: u64| v != 0 ==> #[trigger] lookup_text(20, 4, v) == "Unknown error type."@,
        forall|s: u64, v: u64| s != 0 && s != 1 && s != 2 && s != 3 && s != 4 ==> #[trigger] lookup_text(20, s, v) == "Unknown error type."@,
{
}

/// The WhatsMiner descriptions of type 21, entry by entry, as the
/// firmware reports them; every other subtype and value is unknown.
pub proof fn lemma_table_factory_test()
    ensures
        forall|n: u64| #[trigger] lookup_text(21, 1, n) == "Slot "@ + decimal(n as nat) + " factory test step failed."@,
        forall|s: u64, v: u64| s != 1 ==> #[trigger] lookup_text(21, s, v) == "Unknown error type."@,
{
}

/// The WhatsMiner descriptions of type 23, entry by entry, as the
/// firmware reports them; every other subtype and value is unknown.
pub proof fn lemma_table_hashrate()
    ensures
        lookup_text(23, 1, 0) == "Hashrate is too low."@,
        lookup_text(23, 2, 0) == "Hashrate is too low."@,
        lookup_text(23, 3, 0) == "Hashrate loss is too high."@,
        lookup_text(23, 4, 0) == "Hashrate loss is too high."@,
        lookup_text(23, 5, 0) == "Hashrate loss."@,
        forall|v: u64| v != 0 ==> #[trigger] lookup_text(23, 1, v) == "Unknown error type."@,
        forall|v: u64| v != 0 ==> #[trigger] lookup_text(23, 2, v) == "Unknown error type."@,
        forall|v: u64| v != 0 ==> #[trigger] lookup_text(23, 3, v) == "Unknown error type."@,
        forall|v: u64| v != 0 ==> #[trigger] lookup_text(23, 4, v) == "Unknown error type."@,
        forall|v: u64| v != 0 ==> #[trigger] lookup_text(23, 5, v) == "Unknown error type."@,
        forall|s: u64, v: u64| s != 1 && s != 2 && s != 3 && s != 4 && s != 5 ==> #[trigger] lookup_text(23, s, v) == "Unknown error type."@,
{
}

/// The WhatsMiner descriptions of type 50, entry by entry, as the
/// firmware reports them; every other subtype and value is unknown.
pub proof fn lemma_table_voltage_water()
    ensures
        forall|n: u64| #[trigger] lookup_text(50, 1, n) == "Slot "@ + decimal(n as nat) + " chip voltage too low."@,
        forall|n: u64| #[trigger] lookup_text(50, 2, n) == "Slot "@ + decimal(n as nat) + " chip voltage changed."@,
        forall|n: u64| #[trigger] lookup_text(50, 3, n) == "Slot "@ + decimal(n as nat) + " chip temperature difference is too large."@,
        forall|n: u64| #[trigger] lookup_text(50, 4, n) == "Slot "@ + decimal(n as nat) + " chip hottest temperature difference is too large."@,
        forall|n: u64| #[trigger] lookup_text(50, 5, n) == "Slot "@ + decimal(n as nat) + " stopped hashing, chips temperature protecting."@,
        forall|n: u64| #[trigger] lookup_text(50, 7, n) == "Slot "@ + decimal(n as nat) + " water velocity is abnormal."@,
        lookup_text(50, 8, 0) == "Chip temp calibration failed, please restore factory settings."@,
        forall|n: u64| #[trigger] lookup_text(50, 9, n) == "Slot "@ + decimal(n as nat) + " chip temp calibration check no balance."@,
        forall|v: u64| v != 0 ==> #[trigger] lookup_text(50, 8, v) == "Unknown error type."@,
        forall|s: u64, v: u64| s != 1 && s != 2 && s != 3 && s != 4 && s != 5 && s != 7 && s != 8 && s != 9 ==> #[trigger] lookup_text(50, s, v) == "Unknown error type."@,
{
}

/// The WhatsMiner descriptions of type 51, entry by entry, as the
/// firmware reports them; every other subtype and value is unknown.
pub proof fn lemma_table_frequency()
    ensures
        forall|n: u64| #[trigger] lookup_text(51, 1, n) == "Slot "@ + decimal(n as nat) + " frequency up timeout."@,
        forall|n: u64| #[trigger] lookup_text(51, 7, n) == "Slot "@ + decimal(n as nat) + " frequency up timeout."@,
        forall|n: u64| #[trigger] lookup_text(51, 2, n) == "Slot "@ + decimal(n as nat) + " too many CRC errors."@,
        forall|n: u64| #[trigger] lookup_text(51, 3, n) == "Slot "@ + decimal(n as nat) + " unstable."@,
        forall|s: u64, v: u64| s != 1 && s != 2 && s != 3 && s != 7 ==> #[trigger] lookup_text(51, s, v) == "Unknown error type."@,
{
}

/// The WhatsMiner descriptions of type 80, entry by entry, as the
/// firmware reports them; every other subtype and value is unknown.
pub proof fn lemma_table_tool()
    ensures
        lookup_text(80, 0, 0) == "The tool version is too low, please update."@,
        lookup_text(80, 1, 0) == "Low freq."@,
        lookup_text(80, 2, 0) == "Low hashrate."@,
        lookup_text(80, 3, 5) == "High env temp."@,
        forall|v: u64| v != 0 ==> #[trigger] lookup_text(80, 0, v) == "Unknown error type."@,
        forall|v: u64| v != 0 ==> #[trigger] lookup_text(80, 1, v) == "Unknown error type."@,
        forall|v: u64| v != 0 ==> #[trigger] lookup_text(80, 2, v) == "Unknown error type."@,
        forall|v: u64| v != 5 ==> #[trigger] lookup_text(80, 3, v) == "Unknown error type."@,
        forall|s: u64, v: u64| s != 0 && s != 1 && s != 2 && s != 3 ==> #[trigger] lookup_text(80, s, v) == "Unknown error type."@,
{
}

/// The WhatsMiner descriptions of type 81, entry by entry, as the
/// firmware reports them; every other subtype and value is unknown.
pub proof fn lemma_table_type_81()
    ensures
        lookup_text(81, 0, 0) == "Chip data error."@,
        forall|v: u64| v != 0 ==> #[trigger] lookup_text(81, 0, v) == "Unknown error type."@,
        forall|s: u64, v: u64| s != 0 ==> #[trigger] lookup_text(81, s, v) == "Unknown error type."@,
{
}

/// The WhatsMiner descriptions of type 82, entry by entry, as the
/// firmware reports them; every other subtype and value is unknown.
pub proof fn lemma_table_type_82()
    ensures
        lookup_text(82, 0, 0) == "Power version error."@,
        lookup_text(82, 1, 0) == "Miner type error."@,
        lookup_text(82, 2, 0) == "Version info error."@,
        forall|v: u64| v != 0 ==> #[trigger] lookup_text(82, 0, v) == "Unknown error type."@,
        forall|v: u64| v != 0 ==> #[trigger] lookup_text(82, 1, v) == "Unknown error type."@,
        forall|v: u64| v != 0 ==> #[trigger] lookup_text(82, 2, v) == "Unknown error type."@,
        forall|s: u64, v: u64| s != 0 && s != 1 && s != 2 ==> #[trigger] lookup_text(82, s, v) == "Unknown error type."@,
{
}

/// The WhatsMiner descriptions of type 83, entry by entry, as the
/// firmware reports them; every other subtype and value is unknown.
pub proof fn lemma_table_type_83()
    ensures
        lookup_text(83, 0, 0) == "Empty level error."@,
        forall|v: u64| v != 0 ==> #[trigger] lookup_text(83, 0, v) == "Unknown error type."@,
        forall|s: u64, v: u64| s != 0 ==> #[trigger] lookup_text(83, s, v) == "Unknown error type."@,
{
}

/// The WhatsMiner descriptions of type 84, entry by entry, as the
/// firmware reports them; every other subtype and value is unknown.
pub proof fn lemma_table_type_84()
    ensures
        lookup_text(84, 0, 0) == "Old firmware."@,
        lookup_text(84, 1, 0) == "Software version error."@,
        forall|v: u64| v != 0 ==> #[trigger] lookup_text(84, 0, v) == "Unknown error type."@,
        forall|v: u64| v != 0 ==> #[trigger] lookup_text(84, 1, v) == "Unknown error type."@,
        forall|s: u64, v: u64| s != 0 && s != 1 ==> #[trigger] lookup_text(84, s, v) == "Unknown error type."@,
{
}

/// The WhatsMiner descriptions of type 86, entry by entry, as the
/// firmware reports them; every other subtype and value is unknown.
pub proof fn lemma_table_serial_info()
    ensures
        lookup_text(86, 0, 0) == "Missing product serial #."@,
        lookup_text(86, 1, 0) == "Missing product type."@,
        lookup_text(86, 2, 0) == "Missing miner serial #."@,
        lookup_text(86, 2, 1) == "Wrong miner serial # length."@,
        lookup_text(86, 3, 0) == "Missing power serial #."@,
        lookup_text(86, 3, 1) == "Wrong power serial #."@,
        lookup_text(86, 3, 2) == "Fault miner serial #."@,
        lookup_text(86, 4, 0) == "Missing power model."@,
        lookup_text(86, 4, 1) == "Wrong power model name."@,
        lookup_text(86, 4, 2) == "Wrong power model vout."@,
        lookup_text(86, 4, 3) == "Wrong power model rate."@,
        lookup_text(86, 4, 4) == "Wrong power model format."@,
        lookup_text(86, 5, 0) == "Wrong hash board struct."@,
        lookup_text(86, 6, 0) == "Wrong miner cooling type."@,
        lookup_text(86, 7, 0) == "Missing PCB serial #."@,
        forall|v: u64| v != 0 ==> #[trigger] lookup_text(86, 0, v) == "Unknown error type."@,
        forall|v: u64| v != 0 ==> #[trigger] lookup_text(86, 1, v) == "Unknown error type."@,
        forall|v: u64| v != 0 && v != 1 ==> #[trigger] lookup_text(86, 2, v) == "Unknown error type."@,
        forall|v: u64| v != 0 && v != 1 && v != 2 ==> #[trigger] lookup_text(86, 3, v) == "Unknown error type."@,
        forall|v: u64| v != 0 && v != 1 && v != 2 && v != 3 && v != 4 ==> #[trigger] lookup_text(86, 4, v) == "Unknown error type."@,
        forall|v: u64| v != 0 ==> #[trigger] lookup_text(86, 5, v) == "Unknown error type."@,
        forall|v: u64| v != 0 ==> #[trigger] lookup_text(86, 6, v) == "Unknown error type."@,
        forall|v: u64| v != 0 ==> #[trigger] lookup_text(86, 7, v) == "Unknown error type."@,
        forall|s: u64, v: u64| s != 0 && s != 1 && s != 2 && s != 3 && s != 4 && s != 5 && s != 6 && s != 7 ==> #[trigger] lookup_text(86, s, v) == "Unknown error type."@,
{
}

/// The WhatsMiner descriptions of type 87, entry by entry, as the
/// firmware reports them; every other subtype and value is unknown.
pub proof fn lemma_table_type_87()
    ensures
        lookup_text(87, 0, 0) == "Miner power mismatch."@,
        forall|v: u64| v != 0 ==> #[trigger] lookup_text(87, 0, v) == "Unknown error type."@,
        forall|s: u64, v: u64| s != 0 ==> #[trigger] lookup_text(87, s, v) == "Unknown error type."@,
{
}

/// The WhatsMiner descriptions of type 90, entry by entry, as the
/// firmware reports them; every other subtype and value is unknown.
pub proof fn lemma_table_type_90()
    ensures
        lookup_text(90, 0, 0) == "Process error, exited with signal: 3."@,
        lookup_text(90, 1, 0) == "Process error, exited with signal: 3."@,
        forall|v: u64| v != 0 ==> #[trigger] lookup_text(90, 0, v) == "Unknown error type."@,
        forall|v: u64| v != 0 ==> #[trigger] lookup_text(90, 1, v) == "Unknown error type."@,
        forall|s: u64, v: u64| s != 0 && s != 1 ==> #[trigger] lookup_text(90, s, v) == "Unknown error type."@,
{
}

/// The WhatsMiner descriptions of type 99, entry by entry, as the
/// firmware reports them; every other subtype and value is unknown.
pub proof fn lemma_table_type_99()
    ensures
        lookup_text(99, 9, 9) == "Miner unknown error."@,
        forall|v: u64| v != 9 ==> #[trigger] lookup_text(99, 9, v) == "Unknown error type."@,
        forall|s: u64, v: u64| s != 9 ==> #[trigger] lookup_text(99, s, v) == "Unknown error type."@,
{
}

/// The WhatsMiner descriptions of type 1000, entry by entry, as the
/// firmware reports them; every other subtype and value is unknown.
pub proof fn lemma_table_type_1000()
    ensures
        lookup_text(1000, 0, 0) == "Security library error, please upgrade firmware"@,
        lookup_text(1000, 0, 1) == "/antiv/signature illegal."@,
        lookup_text(1000, 0, 2) == "/antiv/dig/init.d illegal."@,
        lookup_text(1000, 0, 3) == "/antiv/dig/pf_partial.dig illegal."@,
        forall|v: u64| v != 0 && v != 1 && v != 2 && v != 3 ==> #[trigger] lookup_text(1000, 0, v) == "Unknown error type."@,
        forall|s: u64, v: u64| s != 0 ==> #[trigger] lookup_text(1000, s, v) == "Unknown error type."@,
{
}

/// The WhatsMiner descriptions of type 1001, entry by entry, as the
/// firmware reports them; every other subtype and value is unknown.
pub proof fn lemma_table_type_1001()
    ensures
        lookup_text(1001, 0, 0) == "Security BTMiner removed, please upgrade firmware."@,
        forall|v: u64| v != 0 ==> #[trigger] lookup_text(1001, 0, v) == "Unknown error type."@,
        forall|s: u64, v: u64| s != 0 ==> #[trigger] lookup_text(1001, s, v) == "Unknown error type."@,
{
}

/// The WhatsMiner descriptions of type 1100, entry by entry, as the
/// firmware reports them; every other subtype and value is unknown.
pub proof fn lemma_table_type_1100()
    ensures
        lookup_text(1100, 0, 0) == "Security illegal file, please upgrade firmware."@,
        lookup_text(1100, 0, 1) == "Security virus 0001 is removed, please upgrade firmware."@,
        forall|v: u64| v != 0 && v != 1 ==> #[trigger] lookup_text(1100, 0, v) == "Unknown error type."@,
        forall|s: u64, v: u64| s != 0 ==> #[trigger] lookup_text(1100, s, v) == "Unknown error type."@,
{
}

/// Type 85 gives the level in the subtype and the kind of shortfall in
/// the value.
pub proof fn lemma_table_substandard()
    ensures
        forall|s: u64| #[trigger] lookup_text(85, s, 0) == "Hashrate substandard L"@ + decimal(s as nat) + "."@,
        forall|s: u64| #[trigger] lookup_text(85, s, 1) == "Power consumption substandard L"@ + decimal(s as nat) + "."@,
        forall|s: u64| #[trigger] lookup_text(85, s, 2) == "Fan speed substandard L"@ + decimal(s as nat) + "."@,
        forall|s: u64| #[trigger] lookup_text(85, s, 3) == "Fan speed substandard L"@ + decimal(s as nat) + "."@,
        forall|s: u64| #[trigger] lookup_text(85, s, 4) == "Voltage substandard L"@ + decimal(s as nat) + "."@,
        forall|s: u64, v: u64| v > 4 ==> #[trigger] lookup_text(85, s, v) == "Unknown error type."@,
{
}

/// Types 52 to 56 name a slot (the subtype) and a chip (the value).
pub proof fn lemma_table_slot_chip()
    ensures
        forall|s: u64, v: u64| #[trigger] lookup_text(52, s, v) == "Slot "@ + decimal(s as nat) + " chip "@ + decimal(v as nat) + " error nonce."@,
        forall|s: u64, v: u64| #[trigger] lookup_text(53, s, v) == "Slot "@ + decimal(s as nat) + " chip "@ + decimal(v as nat) + " too few nonce."@,
        forall|s: u64, v: u64| #[trigger] lookup_text(54, s, v) == "Slot "@ + decimal(s as nat) + " chip "@ + decimal(v as nat) + " temp protected."@,
        forall|s: u64, v: u64| #[trigger] lookup_text(55, s, v) == "Slot "@ + decimal(s as nat) + " chip "@ + decimal(v as nat) + " has been reset."@,
        forall|s: u64, v: u64| #[trigger] lookup_text(56, s, v) == "Slot "@ + decimal(s as nat) + " chip "@ + decimal(v as nat) + " zero nonce."@,
{
    reveal_strlit(" ");
    reveal_strlit(".");
    reveal_strlit("error nonce");
    reveal_strlit(" error nonce.");
    assert forall|s: u64, v: u64| #[trigger] lookup_text(52, s, v) == "Slot "@ + decimal(s as nat) + " chip "@
        + decimal(v as nat) + " error nonce."@ by {
        assert(lookup_text(52, s, v) =~= "Slot "@ + decimal(s as nat) + " chip "@ + decimal(v as nat)
            + " error nonce."@);
    }
    reveal_strlit("too few nonce");
    reveal_strlit(" too few nonce.");
    assert forall|s: u64, v: u64| #[trigger] lookup_text(53, s, v) == "Slot "@ + decimal(s as nat) + " chip "@
        + decimal(v as nat) + " too few nonce."@ by {
        assert(lookup_text(53, s, v) =~= "Slot "@ + decimal(s as nat) + " chip "@ + decimal(v as nat)
            + " too few nonce."@);
    }
    reveal_strlit("temp protected");
    reveal_strlit(" temp protected.");
    assert forall|s: u64, v: u64| #[trigger] lookup_text(54, s, v) == "Slot "@ + decimal(s as nat) + " chip "@
        + decimal(v as nat) + " temp protected."@ by {
        assert(lookup_text(54, s, v) =~= "Slot "@ + decimal(s as nat) + " chip "@ + decimal(v as nat)
            + " temp protected."@);
    }
    reveal_strlit("has been reset");
    reveal_strlit(" has been reset.");
    assert forall|s: u64, v: u64| #[trigger] lookup_text(55, s, v) == "Slot "@ + decimal(s as nat) + " chip "@
        + decimal(v as nat) + " has been reset."@ by {
        assert(lookup_text(55, s, v) =~= "Slot "@ + decimal(s as nat) + " chip "@ + decimal(v as nat)
            + " has been reset."@);
    }
    reveal_strlit("zero nonce");
    reveal_strlit(" zero nonce.");
    assert forall|s: u64, v: u64| #[trigger] lookup_text(56, s, v) == "Slot "@ + decimal(s as nat) + " chip "@
        + decimal(v as nat) + " zero nonce."@ by {
        assert(lookup_text(56, s, v) =~= "Slot "@ + decimal(s as nat) + " chip "@ + decimal(v as nat)
            + " zero nonce."@);
    }
}

/// A type outside the table is unknown, whatever its subtype and value.
pub proof fn lemma_table_unknown_types()
    ensures
        forall|t: u64, s: u64, v: u64|
            !(1 <= t <= 9 || t == 20 || t == 21 || t == 23 || (50 <= t <= 56) || (80 <= t <= 87)
                || t == 90 || t == 99 || t == 1000 || t == 1001 || t == 1100) ==> #[trigger] lookup_text(t, s, v)
                == "Unknown error type."@,
{
}

} // verus!
