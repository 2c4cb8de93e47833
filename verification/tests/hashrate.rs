use std::str::FromStr;

use asic_rs::hashrate::HashRateUnit;

const ALL: [HashRateUnit; 9] = [
    HashRateUnit::Hash,
    HashRateUnit::KiloHash,
    HashRateUnit::MegaHash,
    HashRateUnit::GigaHash,
    HashRateUnit::TeraHash,
    HashRateUnit::PetaHash,
    HashRateUnit::ExaHash,
    HashRateUnit::ZettaHash,
    HashRateUnit::YottaHash,
];

#[test]
fn unit_names_parse() {
    assert_eq!(HashRateUnit::from_str("TH/s").unwrap(), HashRateUnit::TeraHash);
    assert_eq!(HashRateUnit::from_str(" terahash ").unwrap(), HashRateUnit::TeraHash);
    assert_eq!(HashRateUnit::from_str("gh s").unwrap(), HashRateUnit::GigaHash);
    assert_eq!(HashRateUnit::from_str("Mega_Hash").unwrap(), HashRateUnit::MegaHash);
    assert_eq!(HashRateUnit::from_str("h").unwrap(), HashRateUnit::Hash);
    assert_eq!(HashRateUnit::from_str("YHS").unwrap(), HashRateUnit::YottaHash);
}

#[test]
fn unknown_unit_is_an_error() {
    let err = HashRateUnit::from_str("parsecs").unwrap_err();
    assert_eq!(err.input, "parsecs");
    assert_eq!(err.message(), "Unknown hash rate unit: parsecs");
    assert!(HashRateUnit::from_str("").is_err());
    assert!(HashRateUnit::from_str("T H/ S").is_ok());
    assert!(HashRateUnit::from_str("TH-S").is_err());
}

#[test]
fn display_names_round_trip() {
    for u in ALL {
        assert_eq!(HashRateUnit::from_str(&u.to_string()).unwrap(), u);
    }
    assert_eq!(HashRateUnit::PetaHash.to_string(), "PH/s");
}

#[test]
fn multipliers_step_by_thousand() {
    assert_eq!(HashRateUnit::Hash.to_multiplier(), 1);
    assert_eq!(HashRateUnit::TeraHash.to_multiplier(), 1_000_000_000_000);
    assert_eq!(
        HashRateUnit::YottaHash.to_multiplier(),
        1_000_000_000_000_000_000_000_000
    );
    for w in ALL.windows(2) {
        assert_eq!(w[1].to_multiplier(), 1000 * w[0].to_multiplier());
    }
}

#[test]
fn default_unit_is_terahash() {
    assert_eq!(HashRateUnit::default(), HashRateUnit::TeraHash);
}
