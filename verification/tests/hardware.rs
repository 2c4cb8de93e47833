use asic_rs::hardware::{
    AntMinerControlBoard, BitaxeControlBoard, BraiinsControlBoard, EPicControlBoard,
};

#[test]
fn antminer_board_names() {
    assert_eq!(AntMinerControlBoard::parse("Xilinx"), Some(AntMinerControlBoard::Xilinx));
    assert_eq!(
        AntMinerControlBoard::parse("  beagle-bone black "),
        Some(AntMinerControlBoard::BeagleBoneBlack)
    );
    assert_eq!(AntMinerControlBoard::parse("BB"), Some(AntMinerControlBoard::BeagleBoneBlack));
    assert_eq!(AntMinerControlBoard::parse("cv_ctrl"), Some(AntMinerControlBoard::CVITek));
    assert_eq!(AntMinerControlBoard::parse("aml"), Some(AntMinerControlBoard::AMLogic));
    assert_eq!(AntMinerControlBoard::parse("AMCB07"), Some(AntMinerControlBoard::Xilinx));
    assert_eq!(AntMinerControlBoard::parse("Zynq-7007"), Some(AntMinerControlBoard::Xilinx));
    assert_eq!(AntMinerControlBoard::parse("unknown board"), None);
    assert_eq!(AntMinerControlBoard::parse(""), None);
}

#[test]
fn antminer_board_uses_unicode_uppercase() {
    // U+0131 (dotless i) uppercases to an ASCII `I`.
    assert_eq!(
        AntMinerControlBoard::parse("x\u{131}l\u{131}nx"),
        Some(AntMinerControlBoard::Xilinx)
    );
}

#[test]
fn bitaxe_board_numbers() {
    assert_eq!(BitaxeControlBoard::parse("204"), Some(BitaxeControlBoard::B204));
    assert_eq!(BitaxeControlBoard::parse(" 6 0 1\n"), Some(BitaxeControlBoard::B601));
    assert_eq!(BitaxeControlBoard::parse("800"), Some(BitaxeControlBoard::B800));
    assert_eq!(BitaxeControlBoard::parse("B204"), None);
    assert_eq!(BitaxeControlBoard::parse("999"), None);
    assert_eq!(BitaxeControlBoard::B402.name(), "B402");
}

#[test]
fn braiins_and_epic_boards() {
    assert_eq!(
        BraiinsControlBoard::parse(" Braiins CB "),
        Some(BraiinsControlBoard::BraiinsCB)
    );
    assert_eq!(BraiinsControlBoard::parse("braiins-cb"), None);
    assert_eq!(EPicControlBoard::parse("ePIC UMC"), Some(EPicControlBoard::EPicUMC));
    assert_eq!(EPicControlBoard::parse("epicumc\t"), Some(EPicControlBoard::EPicUMC));
    assert_eq!(EPicControlBoard::parse("ePIC"), None);
}

#[test]
fn board_names_parse_back() {
    for cb in [
        AntMinerControlBoard::Xilinx,
        AntMinerControlBoard::BeagleBoneBlack,
        AntMinerControlBoard::AMLogic,
        AntMinerControlBoard::CVITek,
    ] {
        assert_eq!(AntMinerControlBoard::parse(&cb.name()), Some(cb));
    }
    assert_eq!(
        BraiinsControlBoard::parse(&BraiinsControlBoard::BraiinsCB.name()),
        Some(BraiinsControlBoard::BraiinsCB)
    );
    assert_eq!(
        EPicControlBoard::parse(&EPicControlBoard::EPicUMC.name()),
        Some(EPicControlBoard::EPicUMC)
    );
    assert_eq!(BitaxeControlBoard::parse(&BitaxeControlBoard::B205.name()[1..]), Some(BitaxeControlBoard::B205));
}

#[test]
fn lowercase_board_names_parse_back() {
    for cb in [
        AntMinerControlBoard::Xilinx,
        AntMinerControlBoard::BeagleBoneBlack,
        AntMinerControlBoard::AMLogic,
        AntMinerControlBoard::CVITek,
    ] {
        assert_eq!(AntMinerControlBoard::parse(&cb.name().to_lowercase()), Some(cb));
    }
    assert_eq!(
        BraiinsControlBoard::parse(&BraiinsControlBoard::BraiinsCB.name().to_lowercase()),
        Some(BraiinsControlBoard::BraiinsCB)
    );
    assert_eq!(
        EPicControlBoard::parse(&EPicControlBoard::EPicUMC.name().to_lowercase()),
        Some(EPicControlBoard::EPicUMC)
    );
    assert_eq!(BitaxeControlBoard::parse(&BitaxeControlBoard::B205.name()), None);
    assert_eq!(BitaxeControlBoard::parse(&BitaxeControlBoard::B205.name().to_lowercase()), None);
}
