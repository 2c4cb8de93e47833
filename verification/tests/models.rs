use std::str::FromStr;

use asic_rs::hardware::{AntMinerModel, MinerHardware};
use asic_rs::models::{BitaxeModel, BraiinsModel, EPicModel, MinerModel, NerdAxeModel};

#[test]
fn models_known_model_parses() {
    let result = BitaxeModel::from_str("BM1370").unwrap();
    assert_eq!(result, BitaxeModel::Gamma);
}

#[test]
fn models_unknown_model_falls_back() {
    let result = BitaxeModel::from_str("BM9999").unwrap();
    assert_eq!(result, BitaxeModel::Unknown("BM9999".to_string()));
}

#[test]
fn epic_known_model_parses() {
    let result = EPicModel::from_str("BLOCKMINER 520i").unwrap();
    assert_eq!(result, EPicModel::BM520i);
}

#[test]
fn epic_unknown_model_falls_back() {
    let result = EPicModel::from_str("BLOCKMINER 999").unwrap();
    assert_eq!(result, EPicModel::Unknown("BLOCKMINER 999".to_string()));
}

#[test]
fn parsing() {
    fn case(s: &str, expected: NerdAxeModel) {
        assert_eq!(NerdAxeModel::from_str(s).unwrap(), expected);
    }

    case("NerdAxe", NerdAxeModel::NerdAxe);
    case("NerdQAxe", NerdAxeModel::NerdQAxe);
    case("NerdMiner", NerdAxeModel::NerdMiner);
    case("NerdAxeUltra", NerdAxeModel::NerdAxeUltra);
}

#[test]
fn nerdaxe_unknown_model_falls_back() {
    let result = NerdAxeModel::from_str("NerdAxeXXX").unwrap();
    assert_eq!(result, NerdAxeModel::Unknown("NerdAxeXXX".to_string()));
}

#[test]
fn aliases_and_case() {
    assert_eq!(NerdAxeModel::parse_name("nerdqaxe++"), NerdAxeModel::NerdQAxe);
    assert_eq!(NerdAxeModel::parse_name("NerdQAxe++"), NerdAxeModel::NerdQAxe);
    assert_eq!(
        NerdAxeModel::parse_name("NERDQAXE++"),
        NerdAxeModel::Unknown("NERDQAXE++".to_string())
    );
    assert_eq!(BitaxeModel::parse_name("Supra"), BitaxeModel::Supra);
    assert_eq!(BitaxeModel::parse_name("BM1366"), BitaxeModel::Ultra);
    assert_eq!(
        BitaxeModel::parse_name("gamma"),
        BitaxeModel::Unknown("gamma".to_string())
    );
    assert_eq!(EPicModel::parse_name("ANTMINER S19J PRO DUAL"), EPicModel::S19JProDual);
}

#[test]
fn names_and_makes() {
    assert_eq!(BitaxeModel::Gamma.name(), "Gamma");
    assert_eq!(BitaxeModel::Unknown("X1".to_string()).name(), "X1");
    assert_eq!(BitaxeModel::Max.make_name(), "Bitaxe");
    assert_eq!(EPicModel::BM520i.make_name(), "ePIC");
    assert_eq!(NerdAxeModel::NerdMiner.make_name(), "Nerdaxe");
    assert_eq!(EPicModel::S19JProDual.model_name(), "S19JProDual");
}

#[test]
fn hardware_tables() {
    let none = MinerHardware { chips: None, fans: None, boards: None };
    assert_eq!(
        MinerHardware::from(BitaxeModel::Gamma),
        MinerHardware { chips: Some(1), fans: Some(1), boards: Some(1) }
    );
    assert_eq!(MinerHardware::from(BitaxeModel::Unknown("x".to_string())), none);
    assert_eq!(
        MinerHardware::from(EPicModel::S19JProDual),
        MinerHardware { chips: Some(126), fans: Some(8), boards: Some(6) }
    );
    assert_eq!(
        MinerHardware::from(BraiinsModel::BMM101),
        MinerHardware { chips: None, fans: Some(1), boards: Some(1) }
    );
    assert_eq!(
        MinerHardware::from(AntMinerModel::S19jPro),
        MinerHardware { chips: Some(126), fans: Some(4), boards: Some(3) }
    );
    assert_eq!(
        MinerHardware::from(AntMinerModel::S21Hydro),
        MinerHardware { chips: Some(216), fans: Some(0), boards: Some(3) }
    );
    assert_eq!(
        MinerHardware::from(AntMinerModel::L3Plus),
        MinerHardware { chips: Some(72), fans: Some(2), boards: Some(4) }
    );
    assert_eq!(MinerHardware::from(AntMinerModel::Unknown("S99".to_string())), none);
    assert_eq!(MinerHardware::default(), none);
}
