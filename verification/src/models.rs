//! Miner models of each make, parsed from the names their firmware reports.
use vstd::prelude::*;

use crate::errors::ModelSelectionError;
use crate::hardware::MinerHardware;
use crate::text::equals;

verus! {

/// What every model knows of itself.
pub trait MinerModel {
    /// The make this model belongs to.
    spec fn make_name_text(&self) -> Seq<char>;

    /// The display name of this model.
    spec fn model_name_text(&self) -> Seq<char>;

    /// The expected hardware of this model.
    spec fn hardware_spec(&self) -> MinerHardware;

    /// The make this model belongs to.
    fn make_name(&self) -> (r: String)
        ensures
            r@ == self.make_name_text(),
    ;

    /// The display name of this model.
    fn model_name(&self) -> (r: String)
        ensures
            r@ == self.model_name_text(),
    ;

    /// The expected hardware of this model.
    fn hardware(&self) -> (r: MinerHardware)
        ensures
            r == self.hardware_spec(),
    ;
}

/// Bitaxe models; any other reported name is kept as `Unknown`.
#[derive(Debug, PartialEq, Eq, Clone, Hash)]
pub enum BitaxeModel {
    Supra,
    Gamma,
    Max,
    Ultra,
    Unknown(String),
}

impl BitaxeModel {
    /// The known model a reported name stands for: a variant's own name or
    /// one of the chip names the firmware reports for it.
    pub open spec fn known_text(s: Seq<char>) -> Option<BitaxeModel> {
        if s == "Supra"@ || s == "BM1368"@ {
            Some(BitaxeModel::Supra)
        } else if s == "Gamma"@ || s == "BM1370"@ {
            Some(BitaxeModel::Gamma)
        } else if s == "Max"@ || s == "BM1397"@ {
            Some(BitaxeModel::Max)
        } else if s == "Ultra"@ || s == "BM1366"@ {
            Some(BitaxeModel::Ultra)
        } else {
            None
        }
    }

    /// The model a reported name stands for. Accepted names: `Supra`, `BM1368`, `Gamma`, `BM1370`,
    /// `Max`, `BM1397`, `Ultra`, `BM1366`;
    /// any other name is kept as it is in `Unknown`.
    pub fn parse_name(s: &str) -> (r: BitaxeModel)
        ensures
            match Self::known_text(s@) {
                Some(m) => r == m,
                None => r matches BitaxeModel::Unknown(u) && u@ == s@,
            },
    {
        if equals(s, "Supra") || equals(s, "BM1368") {
            BitaxeModel::Supra
        } else if equals(s, "Gamma") || equals(s, "BM1370") {
            BitaxeModel::Gamma
        } else if equals(s, "Max") || equals(s, "BM1397") {
            BitaxeModel::Max
        } else if equals(s, "Ultra") || equals(s, "BM1366") {
            BitaxeModel::Ultra
        } else {
            BitaxeModel::Unknown(s.to_string())
        }
    }

    /// The display name of the model.
    pub open spec fn name_text(&self) -> Seq<char> {
        match self {
            BitaxeModel::Supra => "Supra"@,
            BitaxeModel::Gamma => "Gamma"@,
            BitaxeModel::Max => "Max"@,
            BitaxeModel::Ultra => "Ultra"@,
            BitaxeModel::Unknown(s) => s@,
        }
    }

    /// The display name of the model.
    pub fn name(&self) -> (r: String)
        ensures
            r@ == self.name_text(),
    {
        match self {
            BitaxeModel::Supra => String::from_str("Supra"),
            BitaxeModel::Gamma => String::from_str("Gamma"),
            BitaxeModel::Max => String::from_str("Max"),
            BitaxeModel::Ultra => String::from_str("Ultra"),
            BitaxeModel::Unknown(s) => s.clone(),
        }
    }

    /// The make of these models.
    pub open spec fn make_text() -> Seq<char> {
        "Bitaxe"@
    }
}

impl std::str::FromStr for BitaxeModel {
    type Err = ModelSelectionError;

    fn from_str(s: &str) -> (r: Result<Self, Self::Err>)
        ensures
            match Self::known_text(s@) {
                Some(m) => r == Ok::<BitaxeModel, ModelSelectionError>(m),
                None => r matches Ok(BitaxeModel::Unknown(u)) && u@ == s@,
            },
    {
        Ok(Self::parse_name(s))
    }
}

impl MinerModel for BitaxeModel {
    open spec fn make_name_text(&self) -> Seq<char> {
        Self::make_text()
    }

    open spec fn model_name_text(&self) -> Seq<char> {
        self.name_text()
    }

    open spec fn hardware_spec(&self) -> MinerHardware {
        match self {
            BitaxeModel::Unknown(_) => MinerHardware::unknown(),
            _ => MinerHardware::known(Some(1), 1, 1),
        }
    }

    fn make_name(&self) -> (r: String) {
        String::from_str("Bitaxe")
    }

    fn model_name(&self) -> (r: String) {
        self.name()
    }

    fn hardware(&self) -> (r: MinerHardware) {
        match self {
            BitaxeModel::Unknown(_) => MinerHardware::default(),
            _ => MinerHardware { chips: Some(1), fans: Some(1), boards: Some(1) },
        }
    }
}

impl From<BitaxeModel> for MinerHardware {
    fn from(value: BitaxeModel) -> (r: Self) {
        value.hardware()
    }
}

impl vstd::std_specs::convert::FromSpecImpl<BitaxeModel> for MinerHardware {
    open spec fn obeys_from_spec() -> bool {
        true
    }

    open spec fn from_spec(v: BitaxeModel) -> Self {
        v.hardware_spec()
    }
}

/// ePIC models; any other reported name is kept as `Unknown`.
#[derive(Debug, PartialEq, Eq, Clone, Hash)]
pub enum EPicModel {
    BM520i,
    S19JProDual,
    Unknown(String),
}

impl EPicModel {
    /// The known model a reported name stands for: a variant's own name or
    /// one of the chip names the firmware reports for it.
    pub open spec fn known_text(s: Seq<char>) -> Option<EPicModel> {
        if s == "BM520i"@ || s == "BLOCKMINER 520i"@ {
            Some(EPicModel::BM520i)
        } else if s == "S19JProDual"@ || s == "ANTMINER S19J PRO DUAL"@ {
            Some(EPicModel::S19JProDual)
        } else {
            None
        }
    }

    /// The model a reported name stands for. Accepted names: `BM520i`, `BLOCKMINER 520i`,
    /// `S19JProDual`, `ANTMINER S19J PRO DUAL`;
    /// any other name is kept as it is in `Unknown`.
    pub fn parse_name(s: &str) -> (r: EPicModel)
        ensures
            match Self::known_text(s@) {
                Some(m) => r == m,
                None => r matches EPicModel::Unknown(u) && u@ == s@,
            },
    {
        if equals(s, "BM520i") || equals(s, "BLOCKMINER 520i") {
            EPicModel::BM520i
        } else if equals(s, "S19JProDual") || equals(s, "ANTMINER S19J PRO DUAL") {
            EPicModel::S19JProDual
        } else {
            EPicModel::Unknown(s.to_string())
        }
    }

    /// The display name of the model.
    pub open spec fn name_text(&self) -> Seq<char> {
        match self {
            EPicModel::BM520i => "BM520i"@,
            EPicModel::S19JProDual => "S19JProDual"@,
            EPicModel::Unknown(s) => s@,
        }
    }

    /// The display name of the model.
    pub fn name(&self) -> (r: String)
        ensures
            r@ == self.name_text(),
    {
        match self {
            EPicModel::BM520i => String::from_str("BM520i"),
            EPicModel::S19JProDual => String::from_str("S19JProDual"),
            EPicModel::Unknown(s) => s.clone(),
        }
    }

    /// The make of these models.
    pub open spec fn make_text() -> Seq<char> {
        "ePIC"@
    }
}

impl std::str::FromStr for EPicModel {
    type Err = ModelSelectionError;

    fn from_str(s: &str) -> (r: Result<Self, Self::Err>)
        ensures
            match Self::known_text(s@) {
                Some(m) => r == Ok::<EPicModel, ModelSelectionError>(m),
                None => r matches Ok(EPicModel::Unknown(u)) && u@ == s@,
            },
    {
        Ok(Self::parse_name(s))
    }
}

impl MinerModel for EPicModel {
    open spec fn make_name_text(&self) -> Seq<char> {
        Self::make_text()
    }

    open spec fn model_name_text(&self) -> Seq<char> {
        self.name_text()
    }

    open spec fn hardware_spec(&self) -> MinerHardware {
        match self {
            EPicModel::BM520i => MinerHardware::known(Some(124), 4, 3),
            EPicModel::S19JProDual => MinerHardware::known(Some(126), 8, 6),
            EPicModel::Unknown(_) => MinerHardware::unknown(),
        }
    }

    fn make_name(&self) -> (r: String) {
        String::from_str("ePIC")
    }

    fn model_name(&self) -> (r: String) {
        self.name()
    }

    fn hardware(&self) -> (r: MinerHardware) {
        match self {
            EPicModel::BM520i => MinerHardware { chips: Some(124), fans: Some(4), boards: Some(3) },
            EPicModel::S19JProDual => MinerHardware { chips: Some(126), fans: Some(8), boards: Some(6) },
            EPicModel::Unknown(_) => MinerHardware::default(),
        }
    }
}

impl From<EPicModel> for MinerHardware {
    fn from(value: EPicModel) -> (r: Self) {
        value.hardware()
    }
}

impl vstd::std_specs::convert::FromSpecImpl<EPicModel> for MinerHardware {
    open spec fn obeys_from_spec() -> bool {
        true
    }

    open spec fn from_spec(v: EPicModel) -> Self {
        v.hardware_spec()
    }
}

/// NerdAxe models; any other reported name is kept as `Unknown`.
#[derive(Debug, PartialEq, Eq, Clone, Hash)]
pub enum NerdAxeModel {
    NerdAxe,
    NerdQAxe,
    NerdMiner,
    NerdAxeUltra,
    Unknown(String),
}

impl NerdAxeModel {
    /// The known model a reported name stands for: a variant's own name or
    /// one of the chip names the firmware reports for it.
    pub open spec fn known_text(s: Seq<char>) -> Option<NerdAxeModel> {
        if s == "NerdAxe"@ || s == "BM1368"@ {
            Some(NerdAxeModel::NerdAxe)
        } else if s == "NerdQAxe"@ || s == "BM1370"@ || s == "nerdqaxe++"@ || s == "NerdQAxe++"@ {
            Some(NerdAxeModel::NerdQAxe)
        } else if s == "NerdMiner"@ || s == "BM1397"@ {
            Some(NerdAxeModel::NerdMiner)
        } else if s == "NerdAxeUltra"@ || s == "BM1366"@ {
            Some(NerdAxeModel::NerdAxeUltra)
        } else {
            None
        }
    }

    /// The model a reported name stands for. Accepted names: `NerdAxe`, `BM1368`, `NerdQAxe`,
    /// `BM1370`, `nerdqaxe++`, `NerdQAxe++`, `NerdMiner`, `BM1397`, `NerdAxeUltra`, `BM1366`;
    /// any other name is kept as it is in `Unknown`.
    pub fn parse_name(s: &str) -> (r: NerdAxeModel)
        ensures
            match Self::known_text(s@) {
                Some(m) => r == m,
                None => r matches NerdAxeModel::Unknown(u) && u@ == s@,
            },
    {
        if equals(s, "NerdAxe") || equals(s, "BM1368") {
            NerdAxeModel::NerdAxe
        } else if equals(s, "NerdQAxe")
            || equals(s, "BM1370")
            || equals(s, "nerdqaxe++")
            || equals(s, "NerdQAxe++") {
            NerdAxeModel::NerdQAxe
        } else if equals(s, "NerdMiner") || equals(s, "BM1397") {
            NerdAxeModel::NerdMiner
        } else if equals(s, "NerdAxeUltra") || equals(s, "BM1366") {
            NerdAxeModel::NerdAxeUltra
        } else {
            NerdAxeModel::Unknown(s.to_string())
        }
    }

    /// The display name of the model.
    pub open spec fn name_text(&self) -> Seq<char> {
        match self {
            NerdAxeModel::NerdAxe => "NerdAxe"@,
            NerdAxeModel::NerdQAxe => "NerdQAxe"@,
            NerdAxeModel::NerdMiner => "NerdMiner"@,
            NerdAxeModel::NerdAxeUltra => "NerdAxeUltra"@,
            NerdAxeModel::Unknown(s) => s@,
        }
    }

    /// The display name of the model.
    pub fn name(&self) -> (r: String)
        ensures
            r@ == self.name_text(),
    {
        match self {
            NerdAxeModel::NerdAxe => String::from_str("NerdAxe"),
            NerdAxeModel::NerdQAxe => String::from_str("NerdQAxe"),
            NerdAxeModel::NerdMiner => String::from_str("NerdMiner"),
            NerdAxeModel::NerdAxeUltra => String::from_str("NerdAxeUltra"),
            NerdAxeModel::Unknown(s) => s.clone(),
        }
    }

    /// The make of these models.
    pub open spec fn make_text() -> Seq<char> {
        "Nerdaxe"@
    }
}

impl std::str::FromStr for NerdAxeModel {
    type Err = ModelSelectionError;

    fn from_str(s: &str) -> (r: Result<Self, Self::Err>)
        ensures
            match Self::known_text(s@) {
                Some(m) => r == Ok::<NerdAxeModel, ModelSelectionError>(m),
                None => r matches Ok(NerdAxeModel::Unknown(u)) && u@ == s@,
            },
    {
        Ok(Self::parse_name(s))
    }
}

impl NerdAxeModel {
    /// The make of these models.
    pub fn make_name(&self) -> (r: String)
        ensures
            r@ == Self::make_text(),
    {
        String::from_str("Nerdaxe")
    }
}

/// Every known Bitaxe model is read back from its display name, and from
/// the name of the chip it is built on: `BM1368` is the Supra, `BM1370` the
/// Gamma, `BM1397` the Max and `BM1366` the Ultra; no other name is known.
pub proof fn lemma_bitaxe_model_names()
    ensures
        forall|m: BitaxeModel| !(m is Unknown) ==> #[trigger] BitaxeModel::known_text(m.name_text()) == Some(m),
        BitaxeModel::known_text("Supra"@) == Some(BitaxeModel::Supra),
        BitaxeModel::known_text("BM1368"@) == Some(BitaxeModel::Supra),
        BitaxeModel::known_text("Gamma"@) == Some(BitaxeModel::Gamma),
        BitaxeModel::known_text("BM1370"@) == Some(BitaxeModel::Gamma),
        BitaxeModel::known_text("Max"@) == Some(BitaxeModel::Max),
        BitaxeModel::known_text("BM1397"@) == Some(BitaxeModel::Max),
        BitaxeModel::known_text("Ultra"@) == Some(BitaxeModel::Ultra),
        BitaxeModel::known_text("BM1366"@) == Some(BitaxeModel::Ultra),
        forall|s: Seq<char>| #[trigger] BitaxeModel::known_text(s) is Some ==> (s == "Supra"@ || s == "BM1368"@ || s == "Gamma"@ || s == "BM1370"@ || s == "Max"@ || s == "BM1397"@ || s == "Ultra"@ || s == "BM1366"@),
{
    reveal_strlit("BM1366");
    reveal_strlit("BM1368");
    reveal_strlit("BM1370");
    reveal_strlit("BM1397");
    reveal_strlit("Gamma");
    reveal_strlit("Max");
    reveal_strlit("Supra");
    reveal_strlit("Ultra");
    assert("BM1366"@[5] != "BM1368"@[5]);
    assert("BM1366"@[4] != "BM1370"@[4]);
    assert("BM1366"@[4] != "BM1397"@[4]);
    assert("BM1368"@[4] != "BM1370"@[4]);
    assert("BM1368"@[4] != "BM1397"@[4]);
    assert("BM1370"@[4] != "BM1397"@[4]);
    assert("Gamma"@[0] != "Supra"@[0]);
    assert("Gamma"@[0] != "Ultra"@[0]);
    assert("Supra"@[0] != "Ultra"@[0]);
    assert("BM1366"@.len() != "Gamma"@.len());
    assert("BM1366"@.len() != "Max"@.len());
    assert("BM1366"@.len() != "Supra"@.len());
    assert("BM1366"@.len() != "Ultra"@.len());
    assert("BM1368"@.len() != "Gamma"@.len());
    assert("BM1368"@.len() != "Max"@.len());
    assert("BM1368"@.len() != "Supra"@.len());
    assert("BM1368"@.len() != "Ultra"@.len());
    assert("BM1370"@.len() != "Gamma"@.len());
    assert("BM1370"@.len() != "Max"@.len());
    assert("BM1370"@.len() != "Supra"@.len());
    assert("BM1370"@.len() != "Ultra"@.len());
    assert("BM1397"@.len() != "Gamma"@.len());
    assert("BM1397"@.len() != "Max"@.len());
    assert("BM1397"@.len() != "Supra"@.len());
    assert("BM1397"@.len() != "Ultra"@.len());
    assert("Gamma"@.len() != "Max"@.len());
    assert("Max"@.len() != "Supra"@.len());
    assert("Max"@.len() != "Ultra"@.len());
    assert forall|m: BitaxeModel| !(m is Unknown) implies #[trigger] BitaxeModel::known_text(m.name_text()) == Some(m) by {
        match m {
            BitaxeModel::Supra => {},
            BitaxeModel::Gamma => {},
            BitaxeModel::Max => {},
            BitaxeModel::Ultra => {},
            BitaxeModel::Unknown(_) => {},
        }
    }
}

/// Every known NerdAxe model is read back from its display name, and from
/// the other names its firmware reports: `BM1368` is the NerdAxe, `BM1370`
/// and `nerdqaxe++` the NerdQAxe, `BM1397` the NerdMiner and `BM1366` the
/// NerdAxeUltra; no other name is known.
pub proof fn lemma_nerdaxe_model_names()
    ensures
        forall|m: NerdAxeModel| !(m is Unknown) ==> #[trigger] NerdAxeModel::known_text(m.name_text()) == Some(m),
        NerdAxeModel::known_text("NerdAxe"@) == Some(NerdAxeModel::NerdAxe),
        NerdAxeModel::known_text("BM1368"@) == Some(NerdAxeModel::NerdAxe),
        NerdAxeModel::known_text("NerdQAxe"@) == Some(NerdAxeModel::NerdQAxe),
        NerdAxeModel::known_text("BM1370"@) == Some(NerdAxeModel::NerdQAxe),
        NerdAxeModel::known_text("nerdqaxe++"@) == Some(NerdAxeModel::NerdQAxe),
        NerdAxeModel::known_text("NerdQAxe++"@) == Some(NerdAxeModel::NerdQAxe),
        NerdAxeModel::known_text("NerdMiner"@) == Some(NerdAxeModel::NerdMiner),
        NerdAxeModel::known_text("BM1397"@) == Some(NerdAxeModel::NerdMiner),
        NerdAxeModel::known_text("NerdAxeUltra"@) == Some(NerdAxeModel::NerdAxeUltra),
        NerdAxeModel::known_text("BM1366"@) == Some(NerdAxeModel::NerdAxeUltra),
        forall|s: Seq<char>| #[trigger] NerdAxeModel::known_text(s) is Some ==> (s == "NerdAxe"@ || s == "BM1368"@ || s == "NerdQAxe"@ || s == "BM1370"@ || s == "nerdqaxe++"@ || s == "NerdQAxe++"@ || s == "NerdMiner"@ || s == "BM1397"@ || s == "NerdAxeUltra"@ || s == "BM1366"@),
{
    reveal_strlit("BM1366");
    reveal_strlit("BM1368");
    reveal_strlit("BM1370");
    reveal_strlit("BM1397");
    reveal_strlit("NerdAxe");
    reveal_strlit("NerdAxeUltra");
    reveal_strlit("NerdMiner");
    reveal_strlit("NerdQAxe");
    reveal_strlit("NerdQAxe++");
    reveal_strlit("nerdqaxe++");
    assert("BM1366"@[5] != "BM1368"@[5]);
    assert("BM1366"@[4] != "BM1370"@[4]);
    assert("BM1366"@[4] != "BM1397"@[4]);
    assert("BM1368"@[4] != "BM1370"@[4]);
    assert("BM1368"@[4] != "BM1397"@[4]);
    assert("BM1370"@[4] != "BM1397"@[4]);
    assert("NerdQAxe++"@[0] != "nerdqaxe++"@[0]);
    assert("BM1366"@.len() != "NerdAxe"@.len());
    assert("BM1366"@.len() != "NerdAxeUltra"@.len());
    assert("BM1366"@.len() != "NerdMiner"@.len());
    assert("BM1366"@.len() != "NerdQAxe"@.len());
    assert("BM1366"@.len() != "NerdQAxe++"@.len());
    assert("BM1366"@.len() != "nerdqaxe++"@.len());
    assert("BM1368"@.len() != "NerdAxe"@.len());
    assert("BM1368"@.len() != "NerdAxeUltra"@.len());
    assert("BM1368"@.len() != "NerdMiner"@.len());
    assert("BM1368"@.len() != "NerdQAxe"@.len());
    assert("BM1368"@.len() != "NerdQAxe++"@.len());
    assert("BM1368"@.len() != "nerdqaxe++"@.len());
    assert("BM1370"@.len() != "NerdAxe"@.len());
    assert("BM1370"@.len() != "NerdAxeUltra"@.len());
    assert("BM1370"@.len() != "NerdMiner"@.len());
    assert("BM1370"@.len() != "NerdQAxe"@.len());
    assert("BM1370"@.len() != "NerdQAxe++"@.len());
    assert("BM1370"@.len() != "nerdqaxe++"@.len());
    assert("BM1397"@.len() != "NerdAxe"@.len());
    assert("BM1397"@.len() != "NerdAxeUltra"@.len());
    assert("BM1397"@.len() != "NerdMiner"@.len());
    assert("BM1397"@.len() != "NerdQAxe"@.len());
    assert("BM1397"@.len() != "NerdQAxe++"@.len());
    assert("BM1397"@.len() != "nerdqaxe++"@.len());
    assert("NerdAxe"@.len() != "NerdAxeUltra"@.len());
    assert("NerdAxe"@.len() != "NerdMiner"@.len());
    assert("NerdAxe"@.len() != "NerdQAxe"@.len());
    assert("NerdAxe"@.len() != "NerdQAxe++"@.len());
    assert("NerdAxe"@.len() != "nerdqaxe++"@.len());
    assert("NerdAxeUltra"@.len() != "NerdMiner"@.len());
    assert("NerdAxeUltra"@.len() != "NerdQAxe"@.len());
    assert("NerdAxeUltra"@.len() != "NerdQAxe++"@.len());
    assert("NerdAxeUltra"@.len() != "nerdqaxe++"@.len());
    assert("NerdMiner"@.len() != "NerdQAxe"@.len());
    assert("NerdMiner"@.len() != "NerdQAxe++"@.len());
    assert("NerdMiner"@.len() != "nerdqaxe++"@.len());
    assert("NerdQAxe"@.len() != "NerdQAxe++"@.len());
    assert("NerdQAxe"@.len() != "nerdqaxe++"@.len());
    assert forall|m: NerdAxeModel| !(m is Unknown) implies #[trigger] NerdAxeModel::known_text(m.name_text()) == Some(m) by {
        match m {
            NerdAxeModel::NerdAxe => {},
            NerdAxeModel::NerdQAxe => {},
            NerdAxeModel::NerdMiner => {},
            NerdAxeModel::NerdAxeUltra => {},
            NerdAxeModel::Unknown(_) => {},
        }
    }
}

/// Every known ePIC model is read back from its display name, and from the
/// long name its firmware reports; no other name is known.
pub proof fn lemma_epic_model_names()
    ensures
        forall|m: EPicModel| !(m is Unknown) ==> #[trigger] EPicModel::known_text(m.name_text()) == Some(m),
        EPicModel::known_text("BM520i"@) == Some(EPicModel::BM520i),
        EPicModel::known_text("BLOCKMINER 520i"@) == Some(EPicModel::BM520i),
        EPicModel::known_text("S19JProDual"@) == Some(EPicModel::S19JProDual),
        EPicModel::known_text("ANTMINER S19J PRO DUAL"@) == Some(EPicModel::S19JProDual),
        forall|s: Seq<char>| #[trigger] EPicModel::known_text(s) is Some ==> (s == "BM520i"@ || s == "BLOCKMINER 520i"@ || s == "S19JProDual"@ || s == "ANTMINER S19J PRO DUAL"@),
{
    reveal_strlit("ANTMINER S19J PRO DUAL");
    reveal_strlit("BLOCKMINER 520i");
    reveal_strlit("BM520i");
    reveal_strlit("S19JProDual");
    assert("ANTMINER S19J PRO DUAL"@.len() != "BLOCKMINER 520i"@.len());
    assert("ANTMINER S19J PRO DUAL"@.len() != "BM520i"@.len());
    assert("ANTMINER S19J PRO DUAL"@.len() != "S19JProDual"@.len());
    assert("BLOCKMINER 520i"@.len() != "BM520i"@.len());
    assert("BLOCKMINER 520i"@.len() != "S19JProDual"@.len());
    assert("BM520i"@.len() != "S19JProDual"@.len());
    assert forall|m: EPicModel| !(m is Unknown) implies #[trigger] EPicModel::known_text(m.name_text()) == Some(m) by {
        match m {
            EPicModel::BM520i => {},
            EPicModel::S19JProDual => {},
            EPicModel::Unknown(_) => {},
        }
    }
}

/// Braiins control-board models with known hardware.
#[derive(Debug, PartialEq, Eq, Clone, Hash)]
pub enum BraiinsModel {
    BMM100,
    BMM101,
    Unknown(String),
}

impl BraiinsModel {
    /// The expected hardware of each Braiins model.
    pub open spec fn hardware_spec(&self) -> MinerHardware {
        match self {
            BraiinsModel::BMM100 => MinerHardware::known(None, 1, 1),
            BraiinsModel::BMM101 => MinerHardware::known(None, 1, 1),
            BraiinsModel::Unknown(_) => MinerHardware::unknown(),
        }
    }

    /// The expected hardware of this model.
    pub fn hardware(&self) -> (r: MinerHardware)
        ensures
            r == self.hardware_spec(),
    {
        match self {
            BraiinsModel::BMM100 => MinerHardware { chips: None, fans: Some(1), boards: Some(1) },
            BraiinsModel::BMM101 => MinerHardware { chips: None, fans: Some(1), boards: Some(1) },
            BraiinsModel::Unknown(_) => MinerHardware::default(),
        }
    }
}

impl From<BraiinsModel> for MinerHardware {
    fn from(value: BraiinsModel) -> (r: Self) {
        value.hardware()
    }
}

impl vstd::std_specs::convert::FromSpecImpl<BraiinsModel> for MinerHardware {
    open spec fn obeys_from_spec() -> bool {
        true
    }

    open spec fn from_spec(v: BraiinsModel) -> Self {
        v.hardware_spec()
    }
}

} // verus!
