//! Hardware counts of known models and the control boards of each make.
use vstd::prelude::*;

use crate::text::{
    all_ascii, ascii_alphanumerics, ascii_lower, ascii_lowercase, ascii_upper, equals,
    is_ascii_alphanumeric, lemma_retain_keeps_ascii, lemma_trim_keeps_ascii, lemma_trim_unpadded,
    lemma_upper_of_lower, not_space, retain, to_uppercase, trim, trim_text, unicode_uppercase,
    without_spaces,
};

verus! {

/// Expected chip, fan and board counts of a miner model; `None` where unknown.
#[derive(Debug, PartialEq, Eq, Clone, Copy, Hash, Structural)]
pub struct MinerHardware {
    pub chips: Option<u16>,
    pub fans: Option<u8>,
    pub boards: Option<u8>,
}

impl MinerHardware {
    /// The hardware of a model nothing is known of.
    pub open spec fn unknown() -> MinerHardware {
        MinerHardware { chips: None, fans: None, boards: None }
    }

    /// Known counts.
    pub open spec fn known(chips: Option<u16>, fans: u8, boards: u8) -> MinerHardware {
        MinerHardware { chips, fans: Some(fans), boards: Some(boards) }
    }
}

impl Default for MinerHardware {
    fn default() -> (r: Self)
        ensures
            r == MinerHardware::unknown(),
    {
        MinerHardware { chips: None, fans: None, boards: None }
    }
}

/// The control boards found in AntMiner miners.
#[derive(Debug, PartialEq, Eq, Clone, Copy, Hash, Structural)]
pub enum AntMinerControlBoard {
    Xilinx,
    BeagleBoneBlack,
    AMLogic,
    CVITek,
}

impl AntMinerControlBoard {
    /// The display name of this control board.
    pub open spec fn name_text(self) -> Seq<char> {
        match self {
            AntMinerControlBoard::Xilinx => "Xilinx"@,
            AntMinerControlBoard::BeagleBoneBlack => "BeagleBoneBlack"@,
            AntMinerControlBoard::AMLogic => "AMLogic"@,
            AntMinerControlBoard::CVITek => "CVITek"@,
        }
    }

    /// The display name of this control board.
    pub fn name(&self) -> (r: String)
        ensures
            r@ == self.name_text(),
    {
        match self {
            AntMinerControlBoard::Xilinx => String::from_str("Xilinx"),
            AntMinerControlBoard::BeagleBoneBlack => String::from_str("BeagleBoneBlack"),
            AntMinerControlBoard::AMLogic => String::from_str("AMLogic"),
            AntMinerControlBoard::CVITek => String::from_str("CVITek"),
        }
    }

    /// The board named by an already uppercased text, once everything but
    /// ASCII letters and digits is dropped from it.
    pub open spec fn from_uppercased_text(upper: Seq<char>) -> Option<Self> {
        let compact = retain(upper, |c: char| is_ascii_alphanumeric(c));
        if compact == "XILINX"@ {
            Some(Self::Xilinx)
        } else if compact == "BBB"@
            || compact == "BBCTRL"@
            || compact == "BB"@
            || compact == "BEAGLEBONE"@
            || compact == "BEAGLEBONEBLACK"@ {
            Some(Self::BeagleBoneBlack)
        } else if compact == "CVITEK"@ || compact == "CVCTRL"@ {
            Some(Self::CVITek)
        } else if compact == "AMLOGIC"@ || compact == "AML"@ {
            Some(Self::AMLogic)
        } else if compact == "AMCB07"@ {
            Some(Self::Xilinx)
        } else if compact == "ZYNQ7007"@ {
            Some(Self::Xilinx)
        } else {
            None
        }
    }

    /// The board named by an already uppercased text.
    pub fn from_uppercased(upper: &str) -> (r: Option<Self>)
        ensures
            r == Self::from_uppercased_text(upper@),
    {
        let compact = ascii_alphanumerics(upper);
        let compact = compact.as_str();
        if equals(compact, "XILINX") {
            Some(Self::Xilinx)
        } else if equals(compact, "BBB")
            || equals(compact, "BBCTRL")
            || equals(compact, "BB")
            || equals(compact, "BEAGLEBONE")
            || equals(compact, "BEAGLEBONEBLACK") {
            Some(Self::BeagleBoneBlack)
        } else if equals(compact, "CVITEK") || equals(compact, "CVCTRL") {
            Some(Self::CVITek)
        } else if equals(compact, "AMLOGIC") || equals(compact, "AML") {
            Some(Self::AMLogic)
        } else if equals(compact, "AMCB07") {
            Some(Self::Xilinx)
        } else if equals(compact, "ZYNQ7007") {
            Some(Self::Xilinx)
        } else {
            None
        }
    }

    /// The board a free-form text names: trimmed, uppercased, then reduced
    /// to its ASCII letters and digits.
    pub open spec fn parse_text(s: Seq<char>) -> Option<Self> {
        Self::from_uppercased_text(unicode_uppercase(trim_text(s)))
    }

    /// What `parse_text` is on ASCII text, where uppercasing is the ASCII
    /// mapping.
    pub open spec fn ascii_parse_text(s: Seq<char>) -> Option<Self> {
        Self::from_uppercased_text(trim_text(s).map_values(|c: char| ascii_upper(c)))
    }

    /// Parse a control board name as reported by the miner.
    pub fn parse(s: &str) -> (r: Option<Self>)
        ensures
            r == Self::parse_text(s@),
            all_ascii(s@) ==> r == Self::ascii_parse_text(s@),
    {
        let trimmed = trim(s);
        proof {
            if all_ascii(s@) {
                lemma_trim_keeps_ascii(s@);
            }
        }
        let upper = to_uppercase(trimmed);
        Self::from_uppercased(upper.as_str())
    }
}

/// The control boards found in Bitaxe miners.
#[derive(Debug, PartialEq, Eq, Clone, Copy, Hash, Structural)]
pub enum BitaxeControlBoard {
    B102,
    B201,
    B202,
    B203,
    B204,
    B205,
    B207,
    B401,
    B402,
    B403,
    B601,
    B602,
    B800,
}

impl BitaxeControlBoard {
    /// The display name of this control board.
    pub open spec fn name_text(self) -> Seq<char> {
        match self {
            BitaxeControlBoard::B102 => "B102"@,
            BitaxeControlBoard::B201 => "B201"@,
            BitaxeControlBoard::B202 => "B202"@,
            BitaxeControlBoard::B203 => "B203"@,
            BitaxeControlBoard::B204 => "B204"@,
            BitaxeControlBoard::B205 => "B205"@,
            BitaxeControlBoard::B207 => "B207"@,
            BitaxeControlBoard::B401 => "B401"@,
            BitaxeControlBoard::B402 => "B402"@,
            BitaxeControlBoard::B403 => "B403"@,
            BitaxeControlBoard::B601 => "B601"@,
            BitaxeControlBoard::B602 => "B602"@,
            BitaxeControlBoard::B800 => "B800"@,
        }
    }

    /// The display name of this control board.
    pub fn name(&self) -> (r: String)
        ensures
            r@ == self.name_text(),
    {
        match self {
            BitaxeControlBoard::B102 => String::from_str("B102"),
            BitaxeControlBoard::B201 => String::from_str("B201"),
            BitaxeControlBoard::B202 => String::from_str("B202"),
            BitaxeControlBoard::B203 => String::from_str("B203"),
            BitaxeControlBoard::B204 => String::from_str("B204"),
            BitaxeControlBoard::B205 => String::from_str("B205"),
            BitaxeControlBoard::B207 => String::from_str("B207"),
            BitaxeControlBoard::B401 => String::from_str("B401"),
            BitaxeControlBoard::B402 => String::from_str("B402"),
            BitaxeControlBoard::B403 => String::from_str("B403"),
            BitaxeControlBoard::B601 => String::from_str("B601"),
            BitaxeControlBoard::B602 => String::from_str("B602"),
            BitaxeControlBoard::B800 => String::from_str("B800"),
        }
    }

    /// The board named by a text that is already trimmed, stripped of
    /// spaces and uppercased.
    pub open spec fn from_normalized_text(n: Seq<char>) -> Option<Self> {
        if n == "102"@ {
            Some(Self::B102)
        } else if n == "201"@ {
            Some(Self::B201)
        } else if n == "202"@ {
            Some(Self::B202)
        } else if n == "203"@ {
            Some(Self::B203)
        } else if n == "204"@ {
            Some(Self::B204)
        } else if n == "205"@ {
            Some(Self::B205)
        } else if n == "207"@ {
            Some(Self::B207)
        } else if n == "401"@ {
            Some(Self::B401)
        } else if n == "402"@ {
            Some(Self::B402)
        } else if n == "403"@ {
            Some(Self::B403)
        } else if n == "601"@ {
            Some(Self::B601)
        } else if n == "602"@ {
            Some(Self::B602)
        } else if n == "800"@ {
            Some(Self::B800)
        } else {
            None
        }
    }

    /// The board named by a normalized text.
    pub fn from_normalized(n: &str) -> (r: Option<Self>)
        ensures
            r == Self::from_normalized_text(n@),
    {
        if equals(n, "102") {
            Some(Self::B102)
        } else if equals(n, "201") {
            Some(Self::B201)
        } else if equals(n, "202") {
            Some(Self::B202)
        } else if equals(n, "203") {
            Some(Self::B203)
        } else if equals(n, "204") {
            Some(Self::B204)
        } else if equals(n, "205") {
            Some(Self::B205)
        } else if equals(n, "207") {
            Some(Self::B207)
        } else if equals(n, "401") {
            Some(Self::B401)
        } else if equals(n, "402") {
            Some(Self::B402)
        } else if equals(n, "403") {
            Some(Self::B403)
        } else if equals(n, "601") {
            Some(Self::B601)
        } else if equals(n, "602") {
            Some(Self::B602)
        } else if equals(n, "800") {
            Some(Self::B800)
        } else {
            None
        }
    }

    /// The board a free-form text names: trimmed, stripped of spaces,
    /// then uppercased.
    pub open spec fn parse_text(s: Seq<char>) -> Option<Self> {
        Self::from_normalized_text(unicode_uppercase(retain(trim_text(s), |c: char| not_space(c))))
    }

    /// What `parse_text` is on ASCII text, where uppercasing is the ASCII
    /// mapping.
    pub open spec fn ascii_parse_text(s: Seq<char>) -> Option<Self> {
        Self::from_normalized_text(
            retain(trim_text(s), |c: char| not_space(c)).map_values(|c: char| ascii_upper(c)),
        )
    }

    /// Parse a control board name as reported by the miner.
    pub fn parse(s: &str) -> (r: Option<Self>)
        ensures
            r == Self::parse_text(s@),
            all_ascii(s@) ==> r == Self::ascii_parse_text(s@),
    {
        let compact = without_spaces(trim(s));
        proof {
            if all_ascii(s@) {
                lemma_trim_keeps_ascii(s@);
                lemma_retain_keeps_ascii(trim_text(s@), |c: char| not_space(c));
            }
        }
        let upper = to_uppercase(compact.as_str());
        Self::from_normalized(upper.as_str())
    }
}

/// The control boards found in Braiins miners.
#[derive(Debug, PartialEq, Eq, Clone, Copy, Hash, Structural)]
pub enum BraiinsControlBoard {
    BraiinsCB,
}

impl BraiinsControlBoard {
    /// The display name of this control board.
    pub open spec fn name_text(self) -> Seq<char> {
        match self {
            BraiinsControlBoard::BraiinsCB => "BraiinsCB"@,
        }
    }

    /// The display name of this control board.
    pub fn name(&self) -> (r: String)
        ensures
            r@ == self.name_text(),
    {
        match self {
            BraiinsControlBoard::BraiinsCB => String::from_str("BraiinsCB"),
        }
    }

    /// The board named by a text that is already trimmed, stripped of
    /// spaces and uppercased.
    pub open spec fn from_normalized_text(n: Seq<char>) -> Option<Self> {
        if n == "BRAIINSCB"@ {
            Some(Self::BraiinsCB)
        } else {
            None
        }
    }

    /// The board named by a normalized text.
    pub fn from_normalized(n: &str) -> (r: Option<Self>)
        ensures
            r == Self::from_normalized_text(n@),
    {
        if equals(n, "BRAIINSCB") {
            Some(Self::BraiinsCB)
        } else {
            None
        }
    }

    /// The board a free-form text names: trimmed, stripped of spaces,
    /// then uppercased.
    pub open spec fn parse_text(s: Seq<char>) -> Option<Self> {
        Self::from_normalized_text(unicode_uppercase(retain(trim_text(s), |c: char| not_space(c))))
    }

    /// What `parse_text` is on ASCII text, where uppercasing is the ASCII
    /// mapping.
    pub open spec fn ascii_parse_text(s: Seq<char>) -> Option<Self> {
        Self::from_normalized_text(
            retain(trim_text(s), |c: char| not_space(c)).map_values(|c: char| ascii_upper(c)),
        )
    }

    /// Parse a control board name as reported by the miner.
    pub fn parse(s: &str) -> (r: Option<Self>)
        ensures
            r == Self::parse_text(s@),
            all_ascii(s@) ==> r == Self::ascii_parse_text(s@),
    {
        let compact = without_spaces(trim(s));
        proof {
            if all_ascii(s@) {
                lemma_trim_keeps_ascii(s@);
                lemma_retain_keeps_ascii(trim_text(s@), |c: char| not_space(c));
            }
        }
        let upper = to_uppercase(compact.as_str());
        Self::from_normalized(upper.as_str())
    }
}

/// The control boards found in ePIC miners.
#[derive(Debug, PartialEq, Eq, Clone, Copy, Hash, Structural)]
pub enum EPicControlBoard {
    EPicUMC,
}

impl EPicControlBoard {
    /// The display name of this control board.
    pub open spec fn name_text(self) -> Seq<char> {
        match self {
            EPicControlBoard::EPicUMC => "EPicUMC"@,
        }
    }

    /// The display name of this control board.
    pub fn name(&self) -> (r: String)
        ensures
            r@ == self.name_text(),
    {
        match self {
            EPicControlBoard::EPicUMC => String::from_str("EPicUMC"),
        }
    }

    /// The board named by a text that is already trimmed, stripped of
    /// spaces and uppercased.
    pub open spec fn from_normalized_text(n: Seq<char>) -> Option<Self> {
        if n == "EPICUMC"@ {
            Some(Self::EPicUMC)
        } else {
            None
        }
    }

    /// The board named by a normalized text.
    pub fn from_normalized(n: &str) -> (r: Option<Self>)
        ensures
            r == Self::from_normalized_text(n@),
    {
        if equals(n, "EPICUMC") {
            Some(Self::EPicUMC)
        } else {
            None
        }
    }

    /// The board a free-form text names: trimmed, stripped of spaces,
    /// then uppercased.
    pub open spec fn parse_text(s: Seq<char>) -> Option<Self> {
        Self::from_normalized_text(unicode_uppercase(retain(trim_text(s), |c: char| not_space(c))))
    }

    /// What `parse_text` is on ASCII text, where uppercasing is the ASCII
    /// mapping.
    pub open spec fn ascii_parse_text(s: Seq<char>) -> Option<Self> {
        Self::from_normalized_text(
            retain(trim_text(s), |c: char| not_space(c)).map_values(|c: char| ascii_upper(c)),
        )
    }

    /// Parse a control board name as reported by the miner.
    pub fn parse(s: &str) -> (r: Option<Self>)
        ensures
            r == Self::parse_text(s@),
            all_ascii(s@) ==> r == Self::ascii_parse_text(s@),
    {
        let compact = without_spaces(trim(s));
        proof {
            if all_ascii(s@) {
                lemma_trim_keeps_ascii(s@);
                lemma_retain_keeps_ascii(trim_text(s@), |c: char| not_space(c));
            }
        }
        let upper = to_uppercase(compact.as_str());
        Self::from_normalized(upper.as_str())
    }
}

/// AntMiner models with known hardware; other models are `Unknown`.
#[derive(Debug, PartialEq, Eq, Clone, Hash)]
pub enum AntMinerModel {
    D3,
    HS3,
    L3Plus,
    KA3,
    KS3,
    DR5,
    KS5,
    KS5Pro,
    L7,
    K7,
    D7,
    E9Pro,
    D9,
    S9,
    S9i,
    S9j,
    T9,
    L9,
    Z15,
    Z15Pro,
    S17,
    S17Plus,
    S17Pro,
    S17e,
    T17,
    T17Plus,
    T17e,
    S19,
    S19L,
    S19Pro,
    S19j,
    S19i,
    S19Plus,
    S19jNoPIC,
    S19ProPlus,
    S19jPro,
    S19jProPlus,
    S19XP,
    S19a,
    S19aPro,
    S19Hydro,
    S19ProHydro,
    S19ProPlusHydro,
    S19KPro,
    S19jXP,
    T19,
    S21,
    S21Plus,
    S21PlusHydro,
    S21Pro,
    S21XP,
    T21,
    S21Hydro,
    S21eXPHydro,
    Unknown(String),
}

impl AntMinerModel {
    /// The expected hardware of each AntMiner model.
    pub open spec fn hardware_spec(&self) -> MinerHardware {
        match self {
            AntMinerModel::D3 => MinerHardware { chips: Some(60), fans: Some(4), boards: Some(3) },
            AntMinerModel::HS3 => MinerHardware { chips: Some(92), fans: Some(4), boards: Some(3) },
            AntMinerModel::L3Plus => MinerHardware { chips: Some(72), fans: Some(2), boards: Some(4) },
            AntMinerModel::KA3 => MinerHardware { chips: Some(92), fans: Some(4), boards: Some(3) },
            AntMinerModel::KS3 => MinerHardware { chips: Some(92), fans: Some(2), boards: Some(3) },
            AntMinerModel::DR5 => MinerHardware { chips: Some(72), fans: Some(2), boards: Some(3) },
            AntMinerModel::KS5 => MinerHardware { chips: Some(92), fans: Some(4), boards: Some(3) },
            AntMinerModel::KS5Pro => MinerHardware { chips: Some(92), fans: Some(4), boards: Some(3) },
            AntMinerModel::L7 => MinerHardware { chips: Some(120), fans: Some(4), boards: Some(3) },
            AntMinerModel::K7 => MinerHardware { chips: Some(92), fans: Some(2), boards: Some(3) },
            AntMinerModel::D7 => MinerHardware { chips: Some(70), fans: Some(4), boards: Some(3) },
            AntMinerModel::E9Pro => MinerHardware { chips: Some(8), fans: Some(4), boards: Some(2) },
            AntMinerModel::D9 => MinerHardware { chips: Some(126), fans: Some(4), boards: Some(3) },
            AntMinerModel::S9 => MinerHardware { chips: Some(63), fans: Some(2), boards: Some(3) },
            AntMinerModel::S9i => MinerHardware { chips: Some(63), fans: Some(2), boards: Some(3) },
            AntMinerModel::S9j => MinerHardware { chips: Some(63), fans: Some(2), boards: Some(3) },
            AntMinerModel::T9 => MinerHardware { chips: Some(54), fans: Some(2), boards: Some(3) },
            AntMinerModel::L9 => MinerHardware { chips: Some(110), fans: Some(4), boards: Some(3) },
            AntMinerModel::Z15 => MinerHardware { chips: Some(3), fans: Some(2), boards: Some(3) },
            AntMinerModel::Z15Pro => MinerHardware { chips: Some(6), fans: Some(2), boards: Some(3) },
            AntMinerModel::S17 => MinerHardware { chips: Some(48), fans: Some(4), boards: Some(3) },
            AntMinerModel::S17Plus => MinerHardware { chips: Some(65), fans: Some(4), boards: Some(3) },
            AntMinerModel::S17Pro => MinerHardware { chips: Some(48), fans: Some(4), boards: Some(3) },
            AntMinerModel::S17e => MinerHardware { chips: Some(135), fans: Some(4), boards: Some(3) },
            AntMinerModel::T17 => MinerHardware { chips: Some(30), fans: Some(4), boards: Some(3) },
            AntMinerModel::T17Plus => MinerHardware { chips: Some(44), fans: Some(4), boards: Some(3) },
            AntMinerModel::T17e => MinerHardware { chips: Some(78), fans: Some(4), boards: Some(3) },
            AntMinerModel::S19 => MinerHardware { chips: Some(76), fans: Some(4), boards: Some(3) },
            AntMinerModel::S19L => MinerHardware { chips: Some(76), fans: Some(4), boards: Some(3) },
            AntMinerModel::S19Pro => MinerHardware { chips: Some(114), fans: Some(4), boards: Some(3) },
            AntMinerModel::S19j => MinerHardware { chips: Some(114), fans: Some(4), boards: Some(3) },
            AntMinerModel::S19i => MinerHardware { chips: Some(80), fans: Some(4), boards: Some(3) },
            AntMinerModel::S19Plus => MinerHardware { chips: Some(80), fans: Some(4), boards: Some(3) },
            AntMinerModel::S19jNoPIC => MinerHardware { chips: Some(88), fans: Some(4), boards: Some(3) },
            AntMinerModel::S19ProPlus => MinerHardware { chips: Some(120), fans: Some(4), boards: Some(3) },
            AntMinerModel::S19jPro => MinerHardware { chips: Some(126), fans: Some(4), boards: Some(3) },
            AntMinerModel::S19jProPlus => MinerHardware { chips: Some(120), fans: Some(4), boards: Some(3) },
            AntMinerModel::S19XP => MinerHardware { chips: Some(110), fans: Some(4), boards: Some(3) },
            AntMinerModel::S19a => MinerHardware { chips: Some(72), fans: Some(4), boards: Some(3) },
            AntMinerModel::S19aPro => MinerHardware { chips: Some(100), fans: Some(4), boards: Some(3) },
            AntMinerModel::S19Hydro => MinerHardware { chips: Some(104), fans: Some(0), boards: Some(4) },
            AntMinerModel::S19ProHydro => MinerHardware { chips: Some(180), fans: Some(0), boards: Some(4) },
            AntMinerModel::S19ProPlusHydro => MinerHardware { chips: Some(180), fans: Some(0), boards: Some(4) },
            AntMinerModel::S19KPro => MinerHardware { chips: Some(77), fans: Some(4), boards: Some(3) },
            AntMinerModel::S19jXP => MinerHardware { chips: Some(110), fans: Some(4), boards: Some(3) },
            AntMinerModel::T19 => MinerHardware { chips: Some(76), fans: Some(4), boards: Some(3) },
            AntMinerModel::S21 => MinerHardware { chips: Some(108), fans: Some(4), boards: Some(3) },
            AntMinerModel::S21Plus => MinerHardware { chips: Some(55), fans: Some(4), boards: Some(3) },
            AntMinerModel::S21PlusHydro => MinerHardware { chips: Some(95), fans: Some(0), boards: Some(3) },
            AntMinerModel::S21Pro => MinerHardware { chips: Some(65), fans: Some(4), boards: Some(3) },
            AntMinerModel::S21XP => MinerHardware { chips: Some(91), fans: Some(4), boards: Some(3) },
            AntMinerModel::T21 => MinerHardware { chips: Some(108), fans: Some(4), boards: Some(3) },
            AntMinerModel::S21Hydro => MinerHardware { chips: Some(216), fans: Some(0), boards: Some(3) },
            AntMinerModel::S21eXPHydro => MinerHardware { chips: Some(160), fans: Some(0), boards: Some(3) },
            AntMinerModel::Unknown(_) => MinerHardware::unknown(),
        }
    }

    /// The expected hardware of this model.
    pub fn hardware(&self) -> (r: MinerHardware)
        ensures
            r == self.hardware_spec(),
    {
        match self {
            AntMinerModel::D3 => MinerHardware { chips: Some(60), fans: Some(4), boards: Some(3) },
            AntMinerModel::HS3 => MinerHardware { chips: Some(92), fans: Some(4), boards: Some(3) },
            AntMinerModel::L3Plus => MinerHardware { chips: Some(72), fans: Some(2), boards: Some(4) },
            AntMinerModel::KA3 => MinerHardware { chips: Some(92), fans: Some(4), boards: Some(3) },
            AntMinerModel::KS3 => MinerHardware { chips: Some(92), fans: Some(2), boards: Some(3) },
            AntMinerModel::DR5 => MinerHardware { chips: Some(72), fans: Some(2), boards: Some(3) },
            AntMinerModel::KS5 => MinerHardware { chips: Some(92), fans: Some(4), boards: Some(3) },
            AntMinerModel::KS5Pro => MinerHardware { chips: Some(92), fans: Some(4), boards: Some(3) },
            AntMinerModel::L7 => MinerHardware { chips: Some(120), fans: Some(4), boards: Some(3) },
            AntMinerModel::K7 => MinerHardware { chips: Some(92), fans: Some(2), boards: Some(3) },
            AntMinerModel::D7 => MinerHardware { chips: Some(70), fans: Some(4), boards: Some(3) },
            AntMinerModel::E9Pro => MinerHardware { chips: Some(8), fans: Some(4), boards: Some(2) },
            AntMinerModel::D9 => MinerHardware { chips: Some(126), fans: Some(4), boards: Some(3) },
            AntMinerModel::S9 => MinerHardware { chips: Some(63), fans: Some(2), boards: Some(3) },
            AntMinerModel::S9i => MinerHardware { chips: Some(63), fans: Some(2), boards: Some(3) },
            AntMinerModel::S9j => MinerHardware { chips: Some(63), fans: Some(2), boards: Some(3) },
            AntMinerModel::T9 => MinerHardware { chips: Some(54), fans: Some(2), boards: Some(3) },
            AntMinerModel::L9 => MinerHardware { chips: Some(110), fans: Some(4), boards: Some(3) },
            AntMinerModel::Z15 => MinerHardware { chips: Some(3), fans: Some(2), boards: Some(3) },
            AntMinerModel::Z15Pro => MinerHardware { chips: Some(6), fans: Some(2), boards: Some(3) },
            AntMinerModel::S17 => MinerHardware { chips: Some(48), fans: Some(4), boards: Some(3) },
            AntMinerModel::S17Plus => MinerHardware { chips: Some(65), fans: Some(4), boards: Some(3) },
            AntMinerModel::S17Pro => MinerHardware { chips: Some(48), fans: Some(4), boards: Some(3) },
            AntMinerModel::S17e => MinerHardware { chips: Some(135), fans: Some(4), boards: Some(3) },
            AntMinerModel::T17 => MinerHardware { chips: Some(30), fans: Some(4), boards: Some(3) },
            AntMinerModel::T17Plus => MinerHardware { chips: Some(44), fans: Some(4), boards: Some(3) },
            AntMinerModel::T17e => MinerHardware { chips: Some(78), fans: Some(4), boards: Some(3) },
            AntMinerModel::S19 => MinerHardware { chips: Some(76), fans: Some(4), boards: Some(3) },
            AntMinerModel::S19L => MinerHardware { chips: Some(76), fans: Some(4), boards: Some(3) },
            AntMinerModel::S19Pro => MinerHardware { chips: Some(114), fans: Some(4), boards: Some(3) },
            AntMinerModel::S19j => MinerHardware { chips: Some(114), fans: Some(4), boards: Some(3) },
            AntMinerModel::S19i => MinerHardware { chips: Some(80), fans: Some(4), boards: Some(3) },
            AntMinerModel::S19Plus => MinerHardware { chips: Some(80), fans: Some(4), boards: Some(3) },
            AntMinerModel::S19jNoPIC => MinerHardware { chips: Some(88), fans: Some(4), boards: Some(3) },
            AntMinerModel::S19ProPlus => MinerHardware { chips: Some(120), fans: Some(4), boards: Some(3) },
            AntMinerModel::S19jPro => MinerHardware { chips: Some(126), fans: Some(4), boards: Some(3) },
            AntMinerModel::S19jProPlus => MinerHardware { chips: Some(120), fans: Some(4), boards: Some(3) },
            AntMinerModel::S19XP => MinerHardware { chips: Some(110), fans: Some(4), boards: Some(3) },
            AntMinerModel::S19a => MinerHardware { chips: Some(72), fans: Some(4), boards: Some(3) },
            AntMinerModel::S19aPro => MinerHardware { chips: Some(100), fans: Some(4), boards: Some(3) },
            AntMinerModel::S19Hydro => MinerHardware { chips: Some(104), fans: Some(0), boards: Some(4) },
            AntMinerModel::S19ProHydro => MinerHardware { chips: Some(180), fans: Some(0), boards: Some(4) },
            AntMinerModel::S19ProPlusHydro => MinerHardware { chips: Some(180), fans: Some(0), boards: Some(4) },
            AntMinerModel::S19KPro => MinerHardware { chips: Some(77), fans: Some(4), boards: Some(3) },
            AntMinerModel::S19jXP => MinerHardware { chips: Some(110), fans: Some(4), boards: Some(3) },
            AntMinerModel::T19 => MinerHardware { chips: Some(76), fans: Some(4), boards: Some(3) },
            AntMinerModel::S21 => MinerHardware { chips: Some(108), fans: Some(4), boards: Some(3) },
            AntMinerModel::S21Plus => MinerHardware { chips: Some(55), fans: Some(4), boards: Some(3) },
            AntMinerModel::S21PlusHydro => MinerHardware { chips: Some(95), fans: Some(0), boards: Some(3) },
            AntMinerModel::S21Pro => MinerHardware { chips: Some(65), fans: Some(4), boards: Some(3) },
            AntMinerModel::S21XP => MinerHardware { chips: Some(91), fans: Some(4), boards: Some(3) },
            AntMinerModel::T21 => MinerHardware { chips: Some(108), fans: Some(4), boards: Some(3) },
            AntMinerModel::S21Hydro => MinerHardware { chips: Some(216), fans: Some(0), boards: Some(3) },
            AntMinerModel::S21eXPHydro => MinerHardware { chips: Some(160), fans: Some(0), boards: Some(3) },
            AntMinerModel::Unknown(_) => MinerHardware::default(),
        }
    }
}

impl From<AntMinerModel> for MinerHardware {
    fn from(value: AntMinerModel) -> (r: Self) {
        value.hardware()
    }
}

impl vstd::std_specs::convert::FromSpecImpl<AntMinerModel> for MinerHardware {
    open spec fn obeys_from_spec() -> bool {
        true
    }

    open spec fn from_spec(v: AntMinerModel) -> Self {
        v.hardware_spec()
    }
}

/// Keeping the characters that all satisfy a predicate keeps the text.
pub proof fn lemma_retain_keeps_all(s: Seq<char>, keep: spec_fn(char) -> bool)
    requires
        forall|i: int| 0 <= i < s.len() ==> keep(s[i]),
    ensures
        retain(s, keep) == s,
    decreases s.len(),
{
    if s.len() > 0 {
        lemma_retain_keeps_all(s.drop_last(), keep);
        assert(s.drop_last().push(s.last()) =~= s);
    }
}

/// A name made of ASCII letters and digits is ASCII, is its own trim, has
/// no spaces, and so is its lowercase form, which uppercases as it does.
proof fn lemma_alphanumeric_name_forms(name: Seq<char>)
    requires
        name.len() > 0,
        forall|i: int| 0 <= i < name.len() ==> is_ascii_alphanumeric(#[trigger] name[i]),
    ensures
        all_ascii(name),
        all_ascii(ascii_lowercase(name)),
        trim_text(name) == name,
        trim_text(ascii_lowercase(name)) == ascii_lowercase(name),
        retain(name, |c: char| not_space(c)) == name,
        retain(ascii_lowercase(name), |c: char| not_space(c)) == ascii_lowercase(name),
        ascii_lowercase(name).map_values(|c: char| ascii_upper(c)) == name.map_values(
            |c: char| ascii_upper(c),
        ),
{
    let lower = ascii_lowercase(name);
    assert forall|i: int| 0 <= i < lower.len() implies is_ascii_alphanumeric(#[trigger] lower[i]) by {
        assert(lower[i] == ascii_lower(name[i]));
    }
    lemma_trim_unpadded(name);
    lemma_trim_unpadded(lower);
    lemma_retain_keeps_all(name, |c: char| not_space(c));
    lemma_retain_keeps_all(lower, |c: char| not_space(c));
    assert forall|i: int| 0 <= i < lower.len() implies #[trigger] ascii_upper(lower[i])
        == ascii_upper(name[i]) by {
        lemma_upper_of_lower(name[i]);
    }
    assert(lower.map_values(|c: char| ascii_upper(c)) =~= name.map_values(|c: char| ascii_upper(c)));
}

/// The display name of an AntMiner control board parses back to the board,
/// and so does its lowercase form: both are ASCII, where `parse` gives
/// `ascii_parse_text`.
pub proof fn lemma_antminer_board_name_parses_back(cb: AntMinerControlBoard)
    ensures
        all_ascii(cb.name_text()),
        AntMinerControlBoard::ascii_parse_text(cb.name_text()) == Some(cb),
        all_ascii(ascii_lowercase(cb.name_text())),
        AntMinerControlBoard::ascii_parse_text(ascii_lowercase(cb.name_text())) == Some(cb),
{
    reveal_strlit("Xilinx");
    reveal_strlit("BeagleBoneBlack");
    reveal_strlit("AMLogic");
    reveal_strlit("CVITek");
    reveal_strlit("XILINX");
    reveal_strlit("BBB");
    reveal_strlit("BBCTRL");
    reveal_strlit("BB");
    reveal_strlit("BEAGLEBONE");
    reveal_strlit("BEAGLEBONEBLACK");
    reveal_strlit("CVITEK");
    reveal_strlit("CVCTRL");
    reveal_strlit("AMLOGIC");
    reveal_strlit("AML");
    let name = cb.name_text();
    assert forall|i: int| 0 <= i < name.len() implies is_ascii_alphanumeric(#[trigger] name[i]) by {
    }
    lemma_alphanumeric_name_forms(name);
    let up = name.map_values(|c: char| ascii_upper(c));
    lemma_retain_keeps_all(up, |c: char| is_ascii_alphanumeric(c));
    match cb {
        AntMinerControlBoard::Xilinx => assert(up =~= "XILINX"@),
        AntMinerControlBoard::BeagleBoneBlack => assert(up =~= "BEAGLEBONEBLACK"@),
        AntMinerControlBoard::AMLogic => assert(up =~= "AMLOGIC"@),
        AntMinerControlBoard::CVITek => assert(up =~= "CVITEK"@),
    }
}

/// The display names of the Braiins and ePIC boards parse back to the
/// board, and so do their lowercase forms: all are ASCII, where `parse`
/// gives `ascii_parse_text`.
pub proof fn lemma_braiins_and_epic_board_names_parse_back()
    ensures
        all_ascii(BraiinsControlBoard::BraiinsCB.name_text()),
        BraiinsControlBoard::ascii_parse_text(BraiinsControlBoard::BraiinsCB.name_text()) == Some(
            BraiinsControlBoard::BraiinsCB,
        ),
        all_ascii(ascii_lowercase(BraiinsControlBoard::BraiinsCB.name_text())),
        BraiinsControlBoard::ascii_parse_text(
            ascii_lowercase(BraiinsControlBoard::BraiinsCB.name_text()),
        ) == Some(BraiinsControlBoard::BraiinsCB),
        all_ascii(EPicControlBoard::EPicUMC.name_text()),
        EPicControlBoard::ascii_parse_text(EPicControlBoard::EPicUMC.name_text()) == Some(
            EPicControlBoard::EPicUMC,
        ),
        all_ascii(ascii_lowercase(EPicControlBoard::EPicUMC.name_text())),
        EPicControlBoard::ascii_parse_text(ascii_lowercase(EPicControlBoard::EPicUMC.name_text()))
            == Some(EPicControlBoard::EPicUMC),
{
    reveal_strlit("BraiinsCB");
    reveal_strlit("BRAIINSCB");
    reveal_strlit("EPicUMC");
    reveal_strlit("EPICUMC");
    let braiins = BraiinsControlBoard::BraiinsCB.name_text();
    let epic = EPicControlBoard::EPicUMC.name_text();
    assert forall|i: int| 0 <= i < braiins.len() implies is_ascii_alphanumeric(
        #[trigger] braiins[i],
    ) by {}
    assert forall|i: int| 0 <= i < epic.len() implies is_ascii_alphanumeric(#[trigger] epic[i]) by {}
    lemma_alphanumeric_name_forms(braiins);
    lemma_alphanumeric_name_forms(epic);
    assert(braiins.map_values(|c: char| ascii_upper(c)) =~= "BRAIINSCB"@);
    assert(epic.map_values(|c: char| ascii_upper(c)) =~= "EPICUMC"@);
}

/// A Bitaxe board is named `B` and its number, and parsing takes the
/// number alone: the number parses back to the board, the full name does
/// not parse. Both are ASCII, where `parse` gives `ascii_parse_text`.
pub proof fn lemma_bitaxe_board_number_parses_back(cb: BitaxeControlBoard)
    ensures
        BitaxeControlBoard::from_normalized_text(cb.name_text().drop_first()) == Some(cb),
        BitaxeControlBoard::from_normalized_text(cb.name_text()) is None,
        all_ascii(cb.name_text().drop_first()),
        BitaxeControlBoard::ascii_parse_text(cb.name_text().drop_first()) == Some(cb),
        all_ascii(cb.name_text()),
        BitaxeControlBoard::ascii_parse_text(cb.name_text()) is None,
{
    reveal_strlit("102");
    reveal_strlit("B102");
    reveal_strlit("201");
    reveal_strlit("B201");
    reveal_strlit("202");
    reveal_strlit("B202");
    reveal_strlit("203");
    reveal_strlit("B203");
    reveal_strlit("204");
    reveal_strlit("B204");
    reveal_strlit("205");
    reveal_strlit("B205");
    reveal_strlit("207");
    reveal_strlit("B207");
    reveal_strlit("401");
    reveal_strlit("B401");
    reveal_strlit("402");
    reveal_strlit("B402");
    reveal_strlit("403");
    reveal_strlit("B403");
    reveal_strlit("601");
    reveal_strlit("B601");
    reveal_strlit("602");
    reveal_strlit("B602");
    reveal_strlit("800");
    reveal_strlit("B800");
    let name = cb.name_text();
    let number = name.drop_first();
    assert forall|i: int| 0 <= i < name.len() implies is_ascii_alphanumeric(#[trigger] name[i])
        && ascii_upper(name[i]) == name[i] by {}
    assert forall|i: int| 0 <= i < number.len() implies is_ascii_alphanumeric(#[trigger] number[i])
        by {
        assert(number[i] == name[i + 1]);
    }
    lemma_alphanumeric_name_forms(name);
    lemma_alphanumeric_name_forms(number);
    assert(name.map_values(|c: char| ascii_upper(c)) =~= name);
    assert(number.map_values(|c: char| ascii_upper(c)) =~= number) by {
        assert forall|i: int| 0 <= i < number.len() implies ascii_upper(#[trigger] number[i])
            == number[i] by {
            assert(number[i] == name[i + 1]);
        }
    }
    match cb {
        BitaxeControlBoard::B102 => {
            assert(cb.name_text().drop_first() =~= "102"@);
        },
        BitaxeControlBoard::B201 => {
            assert(cb.name_text().drop_first() =~= "201"@);
            assert("201"@[0] != "102"@[0]);
        },
        BitaxeControlBoard::B202 => {
            assert(cb.name_text().drop_first() =~= "202"@);
            assert("202"@[0] != "102"@[0]);
            assert("202"@[2] != "201"@[2]);
        },
        BitaxeControlBoard::B203 => {
            assert(cb.name_text().drop_first() =~= "203"@);
            assert("203"@[0] != "102"@[0]);
            assert("203"@[2] != "201"@[2]);
            assert("203"@[2] != "202"@[2]);
        },
        BitaxeControlBoard::B204 => {
            assert(cb.name_text().drop_first() =~= "204"@);
            assert("204"@[0] != "102"@[0]);
            assert("204"@[2] != "201"@[2]);
            assert("204"@[2] != "202"@[2]);
            assert("204"@[2] != "203"@[2]);
        },
        BitaxeControlBoard::B205 => {
            assert(cb.name_text().drop_first() =~= "205"@);
            assert("205"@[0] != "102"@[0]);
            assert("205"@[2] != "201"@[2]);
            assert("205"@[2] != "202"@[2]);
            assert("205"@[2] != "203"@[2]);
            assert("205"@[2] != "204"@[2]);
        },
        BitaxeControlBoard::B207 => {
            assert(cb.name_text().drop_first() =~= "207"@);
            assert("207"@[0] != "102"@[0]);
            assert("207"@[2] != "201"@[2]);
            assert("207"@[2] != "202"@[2]);
            assert("207"@[2] != "203"@[2]);
            assert("207"@[2] != "204"@[2]);
            assert("207"@[2] != "205"@[2]);
        },
        BitaxeControlBoard::B401 => {
            assert(cb.name_text().drop_first() =~= "401"@);
            assert("401"@[0] != "102"@[0]);
            assert("401"@[0] != "201"@[0]);
            assert("401"@[0] != "202"@[0]);
            assert("401"@[0] != "203"@[0]);
            assert("401"@[0] != "204"@[0]);
            assert("401"@[0] != "205"@[0]);
            assert("401"@[0] != "207"@[0]);
        },
        BitaxeControlBoard::B402 => {
            assert(cb.name_text().drop_first() =~= "402"@);
            assert("402"@[0] != "102"@[0]);
            assert("402"@[0] != "201"@[0]);
            assert("402"@[0] != "202"@[0]);
            assert("402"@[0] != "203"@[0]);
            assert("402"@[0] != "204"@[0]);
            assert("402"@[0] != "205"@[0]);
            assert("402"@[0] != "207"@[0]);
            assert("402"@[2] != "401"@[2]);
        },
        BitaxeControlBoard::B403 => {
            assert(cb.name_text().drop_first() =~= "403"@);
            assert("403"@[0] != "102"@[0]);
            assert("403"@[0] != "201"@[0]);
            assert("403"@[0] != "202"@[0]);
            assert("403"@[0] != "203"@[0]);
            assert("403"@[0] != "204"@[0]);
            assert("403"@[0] != "205"@[0]);
            assert("403"@[0] != "207"@[0]);
            assert("403"@[2] != "401"@[2]);
            assert("403"@[2] != "402"@[2]);
        },
        BitaxeControlBoard::B601 => {
            assert(cb.name_text().drop_first() =~= "601"@);
            assert("601"@[0] != "102"@[0]);
            assert("601"@[0] != "201"@[0]);
            assert("601"@[0] != "202"@[0]);
            assert("601"@[0] != "203"@[0]);
            assert("601"@[0] != "204"@[0]);
            assert("601"@[0] != "205"@[0]);
            assert("601"@[0] != "207"@[0]);
            assert("601"@[0] != "401"@[0]);
            assert("601"@[0] != "402"@[0]);
            assert("601"@[0] != "403"@[0]);
        },
        BitaxeControlBoard::B602 => {
            assert(cb.name_text().drop_first() =~= "602"@);
            assert("602"@[0] != "102"@[0]);
            assert("602"@[0] != "201"@[0]);
            assert("602"@[0] != "202"@[0]);
            assert("602"@[0] != "203"@[0]);
            assert("602"@[0] != "204"@[0]);
            assert("602"@[0] != "205"@[0]);
            assert("602"@[0] != "207"@[0]);
            assert("602"@[0] != "401"@[0]);
            assert("602"@[0] != "402"@[0]);
            assert("602"@[0] != "403"@[0]);
            assert("602"@[2] != "601"@[2]);
        },
        BitaxeControlBoard::B800 => {
            assert(cb.name_text().drop_first() =~= "800"@);
            assert("800"@[0] != "102"@[0]);
            assert("800"@[0] != "201"@[0]);
            assert("800"@[0] != "202"@[0]);
            assert("800"@[0] != "203"@[0]);
            assert("800"@[0] != "204"@[0]);
            assert("800"@[0] != "205"@[0]);
            assert("800"@[0] != "207"@[0]);
            assert("800"@[0] != "401"@[0]);
            assert("800"@[0] != "402"@[0]);
            assert("800"@[0] != "403"@[0]);
            assert("800"@[0] != "601"@[0]);
            assert("800"@[0] != "602"@[0]);
        },
    }
}

/// A name of capital letters and digits is its own trim, ASCII uppercase
/// and reduction to letters and digits.
proof fn lemma_upper_alphanumeric_name(t: Seq<char>)
    requires
        t.len() > 0,
        forall|i: int| 0 <= i < t.len() ==> ('A' <= #[trigger] t[i] && t[i] <= 'Z') || ('0' <= t[i]
            && t[i] <= '9'),
    ensures
        trim_text(t) == t,
        t.map_values(|c: char| ascii_upper(c)) == t,
        retain(t, |c: char| is_ascii_alphanumeric(c)) == t,
{
    lemma_trim_unpadded(t);
    assert(t.map_values(|c: char| ascii_upper(c)) =~= t);
    lemma_retain_keeps_all(t, |c: char| is_ascii_alphanumeric(c));
}

/// Every name the AntMiner firmwares report for a control board is read
/// as that board: `XILINX`, `AMCB07` (Marathon firmware) and `ZYNQ7007` as
/// the Xilinx board, `BBB`, `BBCTRL`, `BB`, `BEAGLEBONE` and
/// `BEAGLEBONEBLACK` as the BeagleBone Black, `CVITEK` and `CVCTRL` as the
/// CVITek board, `AMLOGIC` and `AML` as the AMLogic board; no other
/// letters and digits name a board.
pub proof fn lemma_antminer_board_aliases()
    ensures
        AntMinerControlBoard::ascii_parse_text("XILINX"@) == Some(AntMinerControlBoard::Xilinx),
        AntMinerControlBoard::ascii_parse_text("BBB"@) == Some(AntMinerControlBoard::BeagleBoneBlack),
        AntMinerControlBoard::ascii_parse_text("BBCTRL"@) == Some(AntMinerControlBoard::BeagleBoneBlack),
        AntMinerControlBoard::ascii_parse_text("BB"@) == Some(AntMinerControlBoard::BeagleBoneBlack),
        AntMinerControlBoard::ascii_parse_text("BEAGLEBONE"@) == Some(AntMinerControlBoard::BeagleBoneBlack),
        AntMinerControlBoard::ascii_parse_text("BEAGLEBONEBLACK"@) == Some(AntMinerControlBoard::BeagleBoneBlack),
        AntMinerControlBoard::ascii_parse_text("CVITEK"@) == Some(AntMinerControlBoard::CVITek),
        AntMinerControlBoard::ascii_parse_text("CVCTRL"@) == Some(AntMinerControlBoard::CVITek),
        AntMinerControlBoard::ascii_parse_text("AMLOGIC"@) == Some(AntMinerControlBoard::AMLogic),
        AntMinerControlBoard::ascii_parse_text("AML"@) == Some(AntMinerControlBoard::AMLogic),
        AntMinerControlBoard::ascii_parse_text("AMCB07"@) == Some(AntMinerControlBoard::Xilinx),
        AntMinerControlBoard::ascii_parse_text("ZYNQ7007"@) == Some(AntMinerControlBoard::Xilinx),
        forall|u: Seq<char>| #[trigger] AntMinerControlBoard::from_uppercased_text(u) is Some ==> (retain(u, |c: char| is_ascii_alphanumeric(c)) == "XILINX"@ || retain(u, |c: char| is_ascii_alphanumeric(c)) == "BBB"@ || retain(u, |c: char| is_ascii_alphanumeric(c)) == "BBCTRL"@ || retain(u, |c: char| is_ascii_alphanumeric(c)) == "BB"@ || retain(u, |c: char| is_ascii_alphanumeric(c)) == "BEAGLEBONE"@ || retain(u, |c: char| is_ascii_alphanumeric(c)) == "BEAGLEBONEBLACK"@ || retain(u, |c: char| is_ascii_alphanumeric(c)) == "CVITEK"@ || retain(u, |c: char| is_ascii_alphanumeric(c)) == "CVCTRL"@ || retain(u, |c: char| is_ascii_alphanumeric(c)) == "AMLOGIC"@ || retain(u, |c: char| is_ascii_alphanumeric(c)) == "AML"@ || retain(u, |c: char| is_ascii_alphanumeric(c)) == "AMCB07"@ || retain(u, |c: char| is_ascii_alphanumeric(c)) == "ZYNQ7007"@),
{
    reveal_strlit("XILINX");
    reveal_strlit("BBB");
    reveal_strlit("BBCTRL");
    reveal_strlit("BB");
    reveal_strlit("BEAGLEBONE");
    reveal_strlit("BEAGLEBONEBLACK");
    reveal_strlit("CVITEK");
    reveal_strlit("CVCTRL");
    reveal_strlit("AMLOGIC");
    reveal_strlit("AML");
    reveal_strlit("AMCB07");
    reveal_strlit("ZYNQ7007");
    assert forall|i: int| 0 <= i < "XILINX"@.len() implies ('A' <= #[trigger] "XILINX"@[i] && "XILINX"@[i] <= 'Z') || ('0' <= "XILINX"@[i] && "XILINX"@[i] <= '9') by {}
    lemma_upper_alphanumeric_name("XILINX"@);
    assert forall|i: int| 0 <= i < "BBB"@.len() implies ('A' <= #[trigger] "BBB"@[i] && "BBB"@[i] <= 'Z') || ('0' <= "BBB"@[i] && "BBB"@[i] <= '9') by {}
    lemma_upper_alphanumeric_name("BBB"@);
    assert forall|i: int| 0 <= i < "BBCTRL"@.len() implies ('A' <= #[trigger] "BBCTRL"@[i] && "BBCTRL"@[i] <= 'Z') || ('0' <= "BBCTRL"@[i] && "BBCTRL"@[i] <= '9') by {}
    lemma_upper_alphanumeric_name("BBCTRL"@);
    assert forall|i: int| 0 <= i < "BB"@.len() implies ('A' <= #[trigger] "BB"@[i] && "BB"@[i] <= 'Z') || ('0' <= "BB"@[i] && "BB"@[i] <= '9') by {}
    lemma_upper_alphanumeric_name("BB"@);
    assert forall|i: int| 0 <= i < "BEAGLEBONE"@.len() implies ('A' <= #[trigger] "BEAGLEBONE"@[i] && "BEAGLEBONE"@[i] <= 'Z') || ('0' <= "BEAGLEBONE"@[i] && "BEAGLEBONE"@[i] <= '9') by {}
    lemma_upper_alphanumeric_name("BEAGLEBONE"@);
    assert forall|i: int| 0 <= i < "BEAGLEBONEBLACK"@.len() implies ('A' <= #[trigger] "BEAGLEBONEBLACK"@[i] && "BEAGLEBONEBLACK"@[i] <= 'Z') || ('0' <= "BEAGLEBONEBLACK"@[i] && "BEAGLEBONEBLACK"@[i] <= '9') by {}
    lemma_upper_alphanumeric_name("BEAGLEBONEBLACK"@);
    assert forall|i: int| 0 <= i < "CVITEK"@.len() implies ('A' <= #[trigger] "CVITEK"@[i] && "CVITEK"@[i] <= 'Z') || ('0' <= "CVITEK"@[i] && "CVITEK"@[i] <= '9') by {}
    lemma_upper_alphanumeric_name("CVITEK"@);
    assert forall|i: int| 0 <= i < "CVCTRL"@.len() implies ('A' <= #[trigger] "CVCTRL"@[i] && "CVCTRL"@[i] <= 'Z') || ('0' <= "CVCTRL"@[i] && "CVCTRL"@[i] <= '9') by {}
    lemma_upper_alphanumeric_name("CVCTRL"@);
    assert forall|i: int| 0 <= i < "AMLOGIC"@.len() implies ('A' <= #[trigger] "AMLOGIC"@[i] && "AMLOGIC"@[i] <= 'Z') || ('0' <= "AMLOGIC"@[i] && "AMLOGIC"@[i] <= '9') by {}
    lemma_upper_alphanumeric_name("AMLOGIC"@);
    assert forall|i: int| 0 <= i < "AML"@.len() implies ('A' <= #[trigger] "AML"@[i] && "AML"@[i] <= 'Z') || ('0' <= "AML"@[i] && "AML"@[i] <= '9') by {}
    lemma_upper_alphanumeric_name("AML"@);
    assert forall|i: int| 0 <= i < "AMCB07"@.len() implies ('A' <= #[trigger] "AMCB07"@[i] && "AMCB07"@[i] <= 'Z') || ('0' <= "AMCB07"@[i] && "AMCB07"@[i] <= '9') by {}
    lemma_upper_alphanumeric_name("AMCB07"@);
    assert forall|i: int| 0 <= i < "ZYNQ7007"@.len() implies ('A' <= #[trigger] "ZYNQ7007"@[i] && "ZYNQ7007"@[i] <= 'Z') || ('0' <= "ZYNQ7007"@[i] && "ZYNQ7007"@[i] <= '9') by {}
    lemma_upper_alphanumeric_name("ZYNQ7007"@);
}

/// The chip, fan and board counts of each AntMiner model, as the maker
/// builds it; an unknown model has no known counts.
pub proof fn lemma_antminer_hardware_table()
    ensures
        AntMinerModel::D3.hardware_spec() == (MinerHardware { chips: Some(60), fans: Some(4), boards: Some(3) }),
        AntMinerModel::HS3.hardware_spec() == (MinerHardware { chips: Some(92), fans: Some(4), boards: Some(3) }),
        AntMinerModel::L3Plus.hardware_spec() == (MinerHardware { chips: Some(72), fans: Some(2), boards: Some(4) }),
        AntMinerModel::KA3.hardware_spec() == (MinerHardware { chips: Some(92), fans: Some(4), boards: Some(3) }),
        AntMinerModel::KS3.hardware_spec() == (MinerHardware { chips: Some(92), fans: Some(2), boards: Some(3) }),
        AntMinerModel::DR5.hardware_spec() == (MinerHardware { chips: Some(72), fans: Some(2), boards: Some(3) }),
        AntMinerModel::KS5.hardware_spec() == (MinerHardware { chips: Some(92), fans: Some(4), boards: Some(3) }),
        AntMinerModel::KS5Pro.hardware_spec() == (MinerHardware { chips: Some(92), fans: Some(4), boards: Some(3) }),
        AntMinerModel::L7.hardware_spec() == (MinerHardware { chips: Some(120), fans: Some(4), boards: Some(3) }),
        AntMinerModel::K7.hardware_spec() == (MinerHardware { chips: Some(92), fans: Some(2), boards: Some(3) }),
        AntMinerModel::D7.hardware_spec() == (MinerHardware { chips: Some(70), fans: Some(4), boards: Some(3) }),
        AntMinerModel::E9Pro.hardware_spec() == (MinerHardware { chips: Some(8), fans: Some(4), boards: Some(2) }),
        AntMinerModel::D9.hardware_spec() == (MinerHardware { chips: Some(126), fans: Some(4), boards: Some(3) }),
        AntMinerModel::S9.hardware_spec() == (MinerHardware { chips: Some(63), fans: Some(2), boards: Some(3) }),
        AntMinerModel::S9i.hardware_spec() == (MinerHardware { chips: Some(63), fans: Some(2), boards: Some(3) }),
        AntMinerModel::S9j.hardware_spec() == (MinerHardware { chips: Some(63), fans: Some(2), boards: Some(3) }),
        AntMinerModel::T9.hardware_spec() == (MinerHardware { chips: Some(54), fans: Some(2), boards: Some(3) }),
        AntMinerModel::L9.hardware_spec() == (MinerHardware { chips: Some(110), fans: Some(4), boards: Some(3) }),
        AntMinerModel::Z15.hardware_spec() == (MinerHardware { chips: Some(3), fans: Some(2), boards: Some(3) }),
        AntMinerModel::Z15Pro.hardware_spec() == (MinerHardware { chips: Some(6), fans: Some(2), boards: Some(3) }),
        AntMinerModel::S17.hardware_spec() == (MinerHardware { chips: Some(48), fans: Some(4), boards: Some(3) }),
        AntMinerModel::S17Plus.hardware_spec() == (MinerHardware { chips: Some(65), fans: Some(4), boards: Some(3) }),
        AntMinerModel::S17Pro.hardware_spec() == (MinerHardware { chips: Some(48), fans: Some(4), boards: Some(3) }),
        AntMinerModel::S17e.hardware_spec() == (MinerHardware { chips: Some(135), fans: Some(4), boards: Some(3) }),
        AntMinerModel::T17.hardware_spec() == (MinerHardware { chips: Some(30), fans: Some(4), boards: Some(3) }),
        AntMinerModel::T17Plus.hardware_spec() == (MinerHardware { chips: Some(44), fans: Some(4), boards: Some(3) }),
        AntMinerModel::T17e.hardware_spec() == (MinerHardware { chips: Some(78), fans: Some(4), boards: Some(3) }),
        AntMinerModel::S19.hardware_spec() == (MinerHardware { chips: Some(76), fans: Some(4), boards: Some(3) }),
        AntMinerModel::S19L.hardware_spec() == (MinerHardware { chips: Some(76), fans: Some(4), boards: Some(3) }),
        AntMinerModel::S19Pro.hardware_spec() == (MinerHardware { chips: Some(114), fans: Some(4), boards: Some(3) }),
        AntMinerModel::S19j.hardware_spec() == (MinerHardware { chips: Some(114), fans: Some(4), boards: Some(3) }),
        AntMinerModel::S19i.hardware_spec() == (MinerHardware { chips: Some(80), fans: Some(4), boards: Some(3) }),
        AntMinerModel::S19Plus.hardware_spec() == (MinerHardware { chips: Some(80), fans: Some(4), boards: Some(3) }),
        AntMinerModel::S19jNoPIC.hardware_spec() == (MinerHardware { chips: Some(88), fans: Some(4), boards: Some(3) }),
        AntMinerModel::S19ProPlus.hardware_spec() == (MinerHardware { chips: Some(120), fans: Some(4), boards: Some(3) }),
        AntMinerModel::S19jPro.hardware_spec() == (MinerHardware { chips: Some(126), fans: Some(4), boards: Some(3) }),
        AntMinerModel::S19jProPlus.hardware_spec() == (MinerHardware { chips: Some(120), fans: Some(4), boards: Some(3) }),
        AntMinerModel::S19XP.hardware_spec() == (MinerHardware { chips: Some(110), fans: Some(4), boards: Some(3) }),
        AntMinerModel::S19a.hardware_spec() == (MinerHardware { chips: Some(72), fans: Some(4), boards: Some(3) }),
        AntMinerModel::S19aPro.hardware_spec() == (MinerHardware { chips: Some(100), fans: Some(4), boards: Some(3) }),
        AntMinerModel::S19Hydro.hardware_spec() == (MinerHardware { chips: Some(104), fans: Some(0), boards: Some(4) }),
        AntMinerModel::S19ProHydro.hardware_spec() == (MinerHardware { chips: Some(180), fans: Some(0), boards: Some(4) }),
        AntMinerModel::S19ProPlusHydro.hardware_spec() == (MinerHardware { chips: Some(180), fans: Some(0), boards: Some(4) }),
        AntMinerModel::S19KPro.hardware_spec() == (MinerHardware { chips: Some(77), fans: Some(4), boards: Some(3) }),
        AntMinerModel::S19jXP.hardware_spec() == (MinerHardware { chips: Some(110), fans: Some(4), boards: Some(3) }),
        AntMinerModel::T19.hardware_spec() == (MinerHardware { chips: Some(76), fans: Some(4), boards: Some(3) }),
        AntMinerModel::S21.hardware_spec() == (MinerHardware { chips: Some(108), fans: Some(4), boards: Some(3) }),
        AntMinerModel::S21Plus.hardware_spec() == (MinerHardware { chips: Some(55), fans: Some(4), boards: Some(3) }),
        AntMinerModel::S21PlusHydro.hardware_spec() == (MinerHardware { chips: Some(95), fans: Some(0), boards: Some(3) }),
        AntMinerModel::S21Pro.hardware_spec() == (MinerHardware { chips: Some(65), fans: Some(4), boards: Some(3) }),
        AntMinerModel::S21XP.hardware_spec() == (MinerHardware { chips: Some(91), fans: Some(4), boards: Some(3) }),
        AntMinerModel::T21.hardware_spec() == (MinerHardware { chips: Some(108), fans: Some(4), boards: Some(3) }),
        AntMinerModel::S21Hydro.hardware_spec() == (MinerHardware { chips: Some(216), fans: Some(0), boards: Some(3) }),
        AntMinerModel::S21eXPHydro.hardware_spec() == (MinerHardware { chips: Some(160), fans: Some(0), boards: Some(3) }),
        forall|name: String| #[trigger] AntMinerModel::Unknown(name).hardware_spec() == (MinerHardware {
            chips: None,
            fans: None,
            boards: None,
        }),
{
}

} // verus!
