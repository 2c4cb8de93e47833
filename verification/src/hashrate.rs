//! Hash-rate units, from single hashes per second up to yotta-hashes.
use vstd::prelude::*;

use crate::hardware::lemma_retain_keeps_all;
use crate::text::{
    ascii_lower, ascii_lowercase, ascii_upper, equals, lemma_trim_unpadded, lemma_upper_of_lower,
    not_space_or_underscore, retain, to_ascii_uppercase, trim, trim_end_text, trim_start_text,
    trim_text, without_spaces_and_underscores,
};

verus! {

/// A unit of hash rate. The default unit is tera-hashes per second.
#[derive(Debug, Clone, Copy, PartialEq, Eq, Structural)]
pub enum HashRateUnit {
    Hash,
    KiloHash,
    MegaHash,
    GigaHash,
    TeraHash,
    PetaHash,
    ExaHash,
    ZettaHash,
    YottaHash,
}

/// A text that names no hash-rate unit.
#[derive(Debug, Clone, PartialEq, Eq)]
pub struct HashRateUnitParseError {
    pub input: String,
}

impl HashRateUnitParseError {
    /// The human-readable description of this error.
    pub open spec fn message_text(&self) -> Seq<char> {
        "Unknown hash rate unit: "@ + self.input@
    }

    /// The human-readable description of this error.
    pub fn message(&self) -> (r: String)
        ensures
            r@ == self.message_text(),
    {
        let mut s = String::from_str("Unknown hash rate unit: ");
        s.append(self.input.as_str());
        s
    }
}

impl Default for HashRateUnit {
    fn default() -> (r: Self)
        ensures
            r == HashRateUnit::TeraHash,
    {
        HashRateUnit::TeraHash
    }
}

impl HashRateUnit {
    /// The number of hashes per second one unit stands for.
    pub open spec fn multiplier(self) -> u128 {
        match self {
            HashRateUnit::Hash => 1,
            HashRateUnit::KiloHash => 1_000,
            HashRateUnit::MegaHash => 1_000_000,
            HashRateUnit::GigaHash => 1_000_000_000,
            HashRateUnit::TeraHash => 1_000_000_000_000,
            HashRateUnit::PetaHash => 1_000_000_000_000_000,
            HashRateUnit::ExaHash => 1_000_000_000_000_000_000,
            HashRateUnit::ZettaHash => 1_000_000_000_000_000_000_000,
            HashRateUnit::YottaHash => 1_000_000_000_000_000_000_000_000,
        }
    }

    /// The number of hashes per second one unit stands for.
    pub fn to_multiplier(self) -> (r: u128)
        ensures
            r == self.multiplier(),
    {
        match self {
            HashRateUnit::Hash => 1,
            HashRateUnit::KiloHash => 1_000,
            HashRateUnit::MegaHash => 1_000_000,
            HashRateUnit::GigaHash => 1_000_000_000,
            HashRateUnit::TeraHash => 1_000_000_000_000,
            HashRateUnit::PetaHash => 1_000_000_000_000_000,
            HashRateUnit::ExaHash => 1_000_000_000_000_000_000,
            HashRateUnit::ZettaHash => 1_000_000_000_000_000_000_000,
            HashRateUnit::YottaHash => 1_000_000_000_000_000_000_000_000,
        }
    }

    /// The next larger unit, a thousand times this one.
    pub open spec fn next_larger(self) -> Option<HashRateUnit> {
        match self {
            HashRateUnit::Hash => Some(HashRateUnit::KiloHash),
            HashRateUnit::KiloHash => Some(HashRateUnit::MegaHash),
            HashRateUnit::MegaHash => Some(HashRateUnit::GigaHash),
            HashRateUnit::GigaHash => Some(HashRateUnit::TeraHash),
            HashRateUnit::TeraHash => Some(HashRateUnit::PetaHash),
            HashRateUnit::PetaHash => Some(HashRateUnit::ExaHash),
            HashRateUnit::ExaHash => Some(HashRateUnit::ZettaHash),
            HashRateUnit::ZettaHash => Some(HashRateUnit::YottaHash),
            HashRateUnit::YottaHash => None,
        }
    }

    /// The unit's short name.
    pub open spec fn display_text(self) -> Seq<char> {
        match self {
            HashRateUnit::Hash => "H/s"@,
            HashRateUnit::KiloHash => "KH/s"@,
            HashRateUnit::MegaHash => "MH/s"@,
            HashRateUnit::GigaHash => "GH/s"@,
            HashRateUnit::TeraHash => "TH/s"@,
            HashRateUnit::PetaHash => "PH/s"@,
            HashRateUnit::ExaHash => "EH/s"@,
            HashRateUnit::ZettaHash => "ZH/s"@,
            HashRateUnit::YottaHash => "YH/s"@,
        }
    }

    /// The unit's short name, such as `TH/s`.
    pub fn to_string(&self) -> (r: String)
        ensures
            r@ == self.display_text(),
    {
        match self {
            HashRateUnit::Hash => String::from_str("H/s"),
            HashRateUnit::KiloHash => String::from_str("KH/s"),
            HashRateUnit::MegaHash => String::from_str("MH/s"),
            HashRateUnit::GigaHash => String::from_str("GH/s"),
            HashRateUnit::TeraHash => String::from_str("TH/s"),
            HashRateUnit::PetaHash => String::from_str("PH/s"),
            HashRateUnit::ExaHash => String::from_str("EH/s"),
            HashRateUnit::ZettaHash => String::from_str("ZH/s"),
            HashRateUnit::YottaHash => String::from_str("YH/s"),
        }
    }

    /// A name reduced to the form the parser compares: trimmed, ASCII
    /// uppercased, with spaces and underscores removed.
    pub open spec fn normalize(s: Seq<char>) -> Seq<char> {
        retain(trim_text(s).map_values(|c: char| ascii_upper(c)), |c: char| not_space_or_underscore(c))
    }

    /// The unit a normalized name stands for: its long name, its letters,
    /// its letters followed by `S`, or its letters followed by `/S`.
    pub open spec fn from_normalized(n: Seq<char>) -> Option<HashRateUnit> {
        if n == "HASH"@ || n == "H"@ || n == "HS"@ || n == "H/S"@ {
            Some(HashRateUnit::Hash)
        } else if n == "KILOHASH"@ || n == "KH"@ || n == "KHS"@ || n == "KH/S"@ {
            Some(HashRateUnit::KiloHash)
        } else if n == "MEGAHASH"@ || n == "MH"@ || n == "MHS"@ || n == "MH/S"@ {
            Some(HashRateUnit::MegaHash)
        } else if n == "GIGAHASH"@ || n == "GH"@ || n == "GHS"@ || n == "GH/S"@ {
            Some(HashRateUnit::GigaHash)
        } else if n == "TERAHASH"@ || n == "TH"@ || n == "THS"@ || n == "TH/S"@ {
            Some(HashRateUnit::TeraHash)
        } else if n == "PETAHASH"@ || n == "PH"@ || n == "PHS"@ || n == "PH/S"@ {
            Some(HashRateUnit::PetaHash)
        } else if n == "EXAHASH"@ || n == "EH"@ || n == "EHS"@ || n == "EH/S"@ {
            Some(HashRateUnit::ExaHash)
        } else if n == "ZETTAHASH"@ || n == "ZH"@ || n == "ZHS"@ || n == "ZH/S"@ {
            Some(HashRateUnit::ZettaHash)
        } else if n == "YOTTAHASH"@ || n == "YH"@ || n == "YHS"@ || n == "YH/S"@ {
            Some(HashRateUnit::YottaHash)
        } else {
            None
        }
    }

    /// The result of parsing a unit name.
    pub open spec fn parse_result(s: Seq<char>) -> Option<HashRateUnit> {
        Self::from_normalized(Self::normalize(s))
    }

    /// Parse a unit name such as `TH/s`, `terahash` or `th s`.
    pub fn parse(s: &str) -> (r: Result<HashRateUnit, HashRateUnitParseError>)
        ensures
            match Self::parse_result(s@) {
                Some(u) => r == Ok::<HashRateUnit, HashRateUnitParseError>(u),
                None => r matches Err(e) && e.input@ == s@,
            },
    {
        let upper = to_ascii_uppercase(trim(s));
        let normalized = without_spaces_and_underscores(upper.as_str());
        let n = normalized.as_str();
        if equals(n, "HASH") || equals(n, "H") || equals(n, "HS") || equals(n, "H/S") {
            Ok(HashRateUnit::Hash)
        } else if equals(n, "KILOHASH") || equals(n, "KH") || equals(n, "KHS") || equals(n, "KH/S") {
            Ok(HashRateUnit::KiloHash)
        } else if equals(n, "MEGAHASH") || equals(n, "MH") || equals(n, "MHS") || equals(n, "MH/S") {
            Ok(HashRateUnit::MegaHash)
        } else if equals(n, "GIGAHASH") || equals(n, "GH") || equals(n, "GHS") || equals(n, "GH/S") {
            Ok(HashRateUnit::GigaHash)
        } else if equals(n, "TERAHASH") || equals(n, "TH") || equals(n, "THS") || equals(n, "TH/S") {
            Ok(HashRateUnit::TeraHash)
        } else if equals(n, "PETAHASH") || equals(n, "PH") || equals(n, "PHS") || equals(n, "PH/S") {
            Ok(HashRateUnit::PetaHash)
        } else if equals(n, "EXAHASH") || equals(n, "EH") || equals(n, "EHS") || equals(n, "EH/S") {
            Ok(HashRateUnit::ExaHash)
        } else if equals(n, "ZETTAHASH") || equals(n, "ZH") || equals(n, "ZHS") || equals(n, "ZH/S") {
            Ok(HashRateUnit::ZettaHash)
        } else if equals(n, "YOTTAHASH") || equals(n, "YH") || equals(n, "YHS") || equals(n, "YH/S") {
            Ok(HashRateUnit::YottaHash)
        } else {
            Err(HashRateUnitParseError { input: s.to_string() })
        }
    }
}

impl std::str::FromStr for HashRateUnit {
    type Err = HashRateUnitParseError;

    fn from_str(s: &str) -> (r: Result<Self, Self::Err>)
        ensures
            match Self::parse_result(s@) {
                Some(u) => r == Ok::<HashRateUnit, HashRateUnitParseError>(u),
                None => r matches Err(e) && e.input@ == s@,
            },
    {
        Self::parse(s)
    }
}

/// Each unit is a thousand times the unit below it.
pub proof fn lemma_units_step_by_thousand(u: HashRateUnit)
    ensures
        u.next_larger() matches Some(v) ==> v.multiplier() == 1000 * u.multiplier(),
{
}

/// Parsing the short name of a unit gives the unit back.
pub proof fn lemma_parse_display_roundtrip(u: HashRateUnit)
    ensures
        HashRateUnit::parse_result(u.display_text()) == Some(u),
{
    let d = u.display_text();
    reveal_strlit("H/s");
    reveal_strlit("KH/s");
    reveal_strlit("MH/s");
    reveal_strlit("GH/s");
    reveal_strlit("TH/s");
    reveal_strlit("PH/s");
    reveal_strlit("EH/s");
    reveal_strlit("ZH/s");
    reveal_strlit("YH/s");
    reveal_strlit("H/S");
    reveal_strlit("KH/S");
    reveal_strlit("MH/S");
    reveal_strlit("GH/S");
    reveal_strlit("TH/S");
    reveal_strlit("PH/S");
    reveal_strlit("EH/S");
    reveal_strlit("ZH/S");
    reveal_strlit("YH/S");
    reveal_strlit("HASH");
    reveal_strlit("H");
    reveal_strlit("HS");
    reveal_strlit("KILOHASH");
    reveal_strlit("KH");
    reveal_strlit("KHS");
    reveal_strlit("MEGAHASH");
    reveal_strlit("MH");
    reveal_strlit("MHS");
    reveal_strlit("GIGAHASH");
    reveal_strlit("GH");
    reveal_strlit("GHS");
    reveal_strlit("TERAHASH");
    reveal_strlit("TH");
    reveal_strlit("THS");
    reveal_strlit("PETAHASH");
    reveal_strlit("PH");
    reveal_strlit("PHS");
    reveal_strlit("EXAHASH");
    reveal_strlit("EH");
    reveal_strlit("EHS");
    reveal_strlit("ZETTAHASH");
    reveal_strlit("ZH");
    reveal_strlit("ZHS");
    reveal_strlit("YOTTAHASH");
    reveal_strlit("YH");
    reveal_strlit("YHS");
    reveal_with_fuel(trim_start_text, 2);
    reveal_with_fuel(trim_end_text, 2);
    assert(trim_start_text(d) == d);
    assert(trim_end_text(d) == d);
    let up = d.map_values(|c: char| ascii_upper(c));
    reveal_with_fuel(retain, 5);
    let n = retain(up, |c: char| not_space_or_underscore(c));
    assert(n =~= up);
    assert(HashRateUnit::normalize(d) == n);
    match u {
        HashRateUnit::Hash => assert(up =~= "H/S"@),
        HashRateUnit::KiloHash => assert(up =~= "KH/S"@),
        HashRateUnit::MegaHash => assert(up =~= "MH/S"@),
        HashRateUnit::GigaHash => assert(up =~= "GH/S"@),
        HashRateUnit::TeraHash => assert(up =~= "TH/S"@),
        HashRateUnit::PetaHash => assert(up =~= "PH/S"@),
        HashRateUnit::ExaHash => assert(up =~= "EH/S"@),
        HashRateUnit::ZettaHash => assert(up =~= "ZH/S"@),
        HashRateUnit::YottaHash => assert(up =~= "YH/S"@),
    }
}

/// Characters the parser's normalization leaves as they are.
pub open spec fn is_normal_unit_char(c: char) -> bool {
    ('A' <= c && c <= 'Z') || ('0' <= c && c <= '9') || c == '/'
}

/// A name already in normal form (capital letters, digits and `/`) is
/// its own normalization, and so is read the same in lower case.
pub proof fn lemma_normal_name(t: Seq<char>)
    requires
        t.len() > 0,
        forall|i: int| 0 <= i < t.len() ==> is_normal_unit_char(#[trigger] t[i]),
    ensures
        HashRateUnit::normalize(t) == t,
        HashRateUnit::normalize(ascii_lowercase(t)) == t,
{
    let lower = ascii_lowercase(t);
    lemma_trim_unpadded(t);
    lemma_trim_unpadded(lower);
    assert(t.map_values(|c: char| ascii_upper(c)) =~= t);
    assert forall|i: int| 0 <= i < lower.len() implies #[trigger] ascii_upper(lower[i]) == t[i] by {
        lemma_upper_of_lower(t[i]);
    }
    assert(lower.map_values(|c: char| ascii_upper(c)) =~= t);
    lemma_retain_keeps_all(t, |c: char| not_space_or_underscore(c));
}

/// The short forms of every unit parse to it: the letters of its short
/// name (`GH` for `GH/s`), those letters followed by `S`, and followed by
/// `/S`, in upper or lower case.
pub proof fn lemma_short_forms_parse(u: HashRateUnit)
    ensures
        ({
            let d = u.display_text();
            let letters = d.take(d.len() - 2);
            &&& d.skip(d.len() - 2) == "/s"@
            &&& HashRateUnit::parse_result(letters) == Some(u)
            &&& HashRateUnit::parse_result(letters + "S"@) == Some(u)
            &&& HashRateUnit::parse_result(letters + "/S"@) == Some(u)
            &&& HashRateUnit::parse_result(ascii_lowercase(letters)) == Some(u)
            &&& HashRateUnit::parse_result(ascii_lowercase(letters + "S"@)) == Some(u)
        }),
{
    reveal_strlit("/s");
    reveal_strlit("S");
    reveal_strlit("/S");
    reveal_strlit("H");
    reveal_strlit("HASH");
    reveal_strlit("HS");
    reveal_strlit("H/S");
    reveal_strlit("KH");
    reveal_strlit("KILOHASH");
    reveal_strlit("KHS");
    reveal_strlit("KH/S");
    reveal_strlit("MH");
    reveal_strlit("MEGAHASH");
    reveal_strlit("MHS");
    reveal_strlit("MH/S");
    reveal_strlit("GH");
    reveal_strlit("GIGAHASH");
    reveal_strlit("GHS");
    reveal_strlit("GH/S");
    reveal_strlit("TH");
    reveal_strlit("TERAHASH");
    reveal_strlit("THS");
    reveal_strlit("TH/S");
    reveal_strlit("PH");
    reveal_strlit("PETAHASH");
    reveal_strlit("PHS");
    reveal_strlit("PH/S");
    reveal_strlit("EH");
    reveal_strlit("EXAHASH");
    reveal_strlit("EHS");
    reveal_strlit("EH/S");
    reveal_strlit("ZH");
    reveal_strlit("ZETTAHASH");
    reveal_strlit("ZHS");
    reveal_strlit("ZH/S");
    reveal_strlit("YH");
    reveal_strlit("YOTTAHASH");
    reveal_strlit("YHS");
    reveal_strlit("YH/S");
    reveal_strlit("H/s");
    reveal_strlit("H");
    reveal_strlit("HS");
    reveal_strlit("H/S");
    reveal_strlit("KH/s");
    reveal_strlit("KH");
    reveal_strlit("KHS");
    reveal_strlit("KH/S");
    reveal_strlit("MH/s");
    reveal_strlit("MH");
    reveal_strlit("MHS");
    reveal_strlit("MH/S");
    reveal_strlit("GH/s");
    reveal_strlit("GH");
    reveal_strlit("GHS");
    reveal_strlit("GH/S");
    reveal_strlit("TH/s");
    reveal_strlit("TH");
    reveal_strlit("THS");
    reveal_strlit("TH/S");
    reveal_strlit("PH/s");
    reveal_strlit("PH");
    reveal_strlit("PHS");
    reveal_strlit("PH/S");
    reveal_strlit("EH/s");
    reveal_strlit("EH");
    reveal_strlit("EHS");
    reveal_strlit("EH/S");
    reveal_strlit("ZH/s");
    reveal_strlit("ZH");
    reveal_strlit("ZHS");
    reveal_strlit("ZH/S");
    reveal_strlit("YH/s");
    reveal_strlit("YH");
    reveal_strlit("YHS");
    reveal_strlit("YH/S");
    let d = u.display_text();
    let letters = d.take(d.len() - 2);
    let with_s = letters + "S"@;
    let with_slash_s = letters + "/S"@;
    match u {
        HashRateUnit::Hash => {
            assert(d.skip(d.len() - 2) =~= "/s"@);
            assert(letters =~= "H"@);
            assert(with_s =~= "HS"@);
            assert(with_slash_s =~= "H/S"@);
        },
        HashRateUnit::KiloHash => {
            assert(d.skip(d.len() - 2) =~= "/s"@);
            assert(letters =~= "KH"@);
            assert(with_s =~= "KHS"@);
            assert(with_slash_s =~= "KH/S"@);
        },
        HashRateUnit::MegaHash => {
            assert(d.skip(d.len() - 2) =~= "/s"@);
            assert(letters =~= "MH"@);
            assert(with_s =~= "MHS"@);
            assert(with_slash_s =~= "MH/S"@);
        },
        HashRateUnit::GigaHash => {
            assert(d.skip(d.len() - 2) =~= "/s"@);
            assert(letters =~= "GH"@);
            assert(with_s =~= "GHS"@);
            assert(with_slash_s =~= "GH/S"@);
        },
        HashRateUnit::TeraHash => {
            assert(d.skip(d.len() - 2) =~= "/s"@);
            assert(letters =~= "TH"@);
            assert(with_s =~= "THS"@);
            assert(with_slash_s =~= "TH/S"@);
        },
        HashRateUnit::PetaHash => {
            assert(d.skip(d.len() - 2) =~= "/s"@);
            assert(letters =~= "PH"@);
            assert(with_s =~= "PHS"@);
            assert(with_slash_s =~= "PH/S"@);
        },
        HashRateUnit::ExaHash => {
            assert(d.skip(d.len() - 2) =~= "/s"@);
            assert(letters =~= "EH"@);
            assert(with_s =~= "EHS"@);
            assert(with_slash_s =~= "EH/S"@);
        },
        HashRateUnit::ZettaHash => {
            assert(d.skip(d.len() - 2) =~= "/s"@);
            assert(letters =~= "ZH"@);
            assert(with_s =~= "ZHS"@);
            assert(with_slash_s =~= "ZH/S"@);
        },
        HashRateUnit::YottaHash => {
            assert(d.skip(d.len() - 2) =~= "/s"@);
            assert(letters =~= "YH"@);
            assert(with_s =~= "YHS"@);
            assert(with_slash_s =~= "YH/S"@);
        },
    }
    assert forall|i: int| 0 <= i < letters.len() implies is_normal_unit_char(#[trigger] letters[i]) by {}
    assert forall|i: int| 0 <= i < with_s.len() implies is_normal_unit_char(#[trigger] with_s[i]) by {}
    assert forall|i: int| 0 <= i < with_slash_s.len() implies is_normal_unit_char(
        #[trigger] with_slash_s[i],
    ) by {}
    lemma_normal_name(letters);
    lemma_normal_name(with_s);
    lemma_normal_name(with_slash_s);
}

/// Each unit name, short or long, stands for the number of hashes per
/// second that its SI prefix says, and nothing else names a unit.
pub proof fn lemma_unit_names_scale()
    ensures
        HashRateUnit::parse_result("H"@) matches Some(u) && u.multiplier() == 1,
        HashRateUnit::parse_result("HASH"@) matches Some(u) && u.multiplier() == 1,
        HashRateUnit::parse_result("KH"@) matches Some(u) && u.multiplier() == 1000,
        HashRateUnit::parse_result("KILOHASH"@) matches Some(u) && u.multiplier() == 1000,
        HashRateUnit::parse_result("MH"@) matches Some(u) && u.multiplier() == 1000000,
        HashRateUnit::parse_result("MEGAHASH"@) matches Some(u) && u.multiplier() == 1000000,
        HashRateUnit::parse_result("GH"@) matches Some(u) && u.multiplier() == 1000000000,
        HashRateUnit::parse_result("GIGAHASH"@) matches Some(u) && u.multiplier() == 1000000000,
        HashRateUnit::parse_result("TH"@) matches Some(u) && u.multiplier() == 1000000000000,
        HashRateUnit::parse_result("TERAHASH"@) matches Some(u) && u.multiplier() == 1000000000000,
        HashRateUnit::parse_result("PH"@) matches Some(u) && u.multiplier() == 1000000000000000,
        HashRateUnit::parse_result("PETAHASH"@) matches Some(u) && u.multiplier() == 1000000000000000,
        HashRateUnit::parse_result("EH"@) matches Some(u) && u.multiplier() == 1000000000000000000,
        HashRateUnit::parse_result("EXAHASH"@) matches Some(u) && u.multiplier() == 1000000000000000000,
        HashRateUnit::parse_result("ZH"@) matches Some(u) && u.multiplier() == 1000000000000000000000,
        HashRateUnit::parse_result("ZETTAHASH"@) matches Some(u) && u.multiplier() == 1000000000000000000000,
        HashRateUnit::parse_result("YH"@) matches Some(u) && u.multiplier() == 1000000000000000000000000,
        HashRateUnit::parse_result("YOTTAHASH"@) matches Some(u) && u.multiplier() == 1000000000000000000000000,
        forall|s: Seq<char>| #[trigger] HashRateUnit::parse_result(s) is Some ==> (HashRateUnit::normalize(s) == "HASH"@ || HashRateUnit::normalize(s) == "H"@ || HashRateUnit::normalize(s) == "HS"@ || HashRateUnit::normalize(s) == "H/S"@ || HashRateUnit::normalize(s) == "KILOHASH"@ || HashRateUnit::normalize(s) == "KH"@ || HashRateUnit::normalize(s) == "KHS"@ || HashRateUnit::normalize(s) == "KH/S"@ || HashRateUnit::normalize(s) == "MEGAHASH"@ || HashRateUnit::normalize(s) == "MH"@ || HashRateUnit::normalize(s) == "MHS"@ || HashRateUnit::normalize(s) == "MH/S"@ || HashRateUnit::normalize(s) == "GIGAHASH"@ || HashRateUnit::normalize(s) == "GH"@ || HashRateUnit::normalize(s) == "GHS"@ || HashRateUnit::normalize(s) == "GH/S"@ || HashRateUnit::normalize(s) == "TERAHASH"@ || HashRateUnit::normalize(s) == "TH"@ || HashRateUnit::normalize(s) == "THS"@ || HashRateUnit::normalize(s) == "TH/S"@ || HashRateUnit::normalize(s) == "PETAHASH"@ || HashRateUnit::normalize(s) == "PH"@ || HashRateUnit::normalize(s) == "PHS"@ || HashRateUnit::normalize(s) == "PH/S"@ || HashRateUnit::normalize(s) == "EXAHASH"@ || HashRateUnit::normalize(s) == "EH"@ || HashRateUnit::normalize(s) == "EHS"@ || HashRateUnit::normalize(s) == "EH/S"@ || HashRateUnit::normalize(s) == "ZETTAHASH"@ || HashRateUnit::normalize(s) == "ZH"@ || HashRateUnit::normalize(s) == "ZHS"@ || HashRateUnit::normalize(s) == "ZH/S"@ || HashRateUnit::normalize(s) == "YOTTAHASH"@ || HashRateUnit::normalize(s) == "YH"@ || HashRateUnit::normalize(s) == "YHS"@ || HashRateUnit::normalize(s) == "YH/S"@),
{
    reveal_strlit("H");
    reveal_strlit("HASH");
    reveal_strlit("HS");
    reveal_strlit("H/S");
    reveal_strlit("KH");
    reveal_strlit("KILOHASH");
    reveal_strlit("KHS");
    reveal_strlit("KH/S");
    reveal_strlit("MH");
    reveal_strlit("MEGAHASH");
    reveal_strlit("MHS");
    reveal_strlit("MH/S");
    reveal_strlit("GH");
    reveal_strlit("GIGAHASH");
    reveal_strlit("GHS");
    reveal_strlit("GH/S");
    reveal_strlit("TH");
    reveal_strlit("TERAHASH");
    reveal_strlit("THS");
    reveal_strlit("TH/S");
    reveal_strlit("PH");
    reveal_strlit("PETAHASH");
    reveal_strlit("PHS");
    reveal_strlit("PH/S");
    reveal_strlit("EH");
    reveal_strlit("EXAHASH");
    reveal_strlit("EHS");
    reveal_strlit("EH/S");
    reveal_strlit("ZH");
    reveal_strlit("ZETTAHASH");
    reveal_strlit("ZHS");
    reveal_strlit("ZH/S");
    reveal_strlit("YH");
    reveal_strlit("YOTTAHASH");
    reveal_strlit("YHS");
    reveal_strlit("YH/S");
    reveal_strlit("H");
    reveal_strlit("HASH");
    assert forall|i: int| 0 <= i < "H"@.len() implies is_normal_unit_char(#[trigger] "H"@[i]) by {}
    assert forall|i: int| 0 <= i < "HASH"@.len() implies is_normal_unit_char(#[trigger] "HASH"@[i]) by {}
    lemma_normal_name("H"@);
    lemma_normal_name("HASH"@);
    reveal_strlit("KH");
    reveal_strlit("KILOHASH");
    assert forall|i: int| 0 <= i < "KH"@.len() implies is_normal_unit_char(#[trigger] "KH"@[i]) by {}
    assert forall|i: int| 0 <= i < "KILOHASH"@.len() implies is_normal_unit_char(#[trigger] "KILOHASH"@[i]) by {}
    lemma_normal_name("KH"@);
    lemma_normal_name("KILOHASH"@);
    reveal_strlit("MH");
    reveal_strlit("MEGAHASH");
    assert forall|i: int| 0 <= i < "MH"@.len() implies is_normal_unit_char(#[trigger] "MH"@[i]) by {}
    assert forall|i: int| 0 <= i < "MEGAHASH"@.len() implies is_normal_unit_char(#[trigger] "MEGAHASH"@[i]) by {}
    lemma_normal_name("MH"@);
    lemma_normal_name("MEGAHASH"@);
    reveal_strlit("GH");
    reveal_strlit("GIGAHASH");
    assert forall|i: int| 0 <= i < "GH"@.len() implies is_normal_unit_char(#[trigger] "GH"@[i]) by {}
    assert forall|i: int| 0 <= i < "GIGAHASH"@.len() implies is_normal_unit_char(#[trigger] "GIGAHASH"@[i]) by {}
    lemma_normal_name("GH"@);
    lemma_normal_name("GIGAHASH"@);
    reveal_strlit("TH");
    reveal_strlit("TERAHASH");
    assert forall|i: int| 0 <= i < "TH"@.len() implies is_normal_unit_char(#[trigger] "TH"@[i]) by {}
    assert forall|i: int| 0 <= i < "TERAHASH"@.len() implies is_normal_unit_char(#[trigger] "TERAHASH"@[i]) by {}
    lemma_normal_name("TH"@);
    lemma_normal_name("TERAHASH"@);
    reveal_strlit("PH");
    reveal_strlit("PETAHASH");
    assert forall|i: int| 0 <= i < "PH"@.len() implies is_normal_unit_char(#[trigger] "PH"@[i]) by {}
    assert forall|i: int| 0 <= i < "PETAHASH"@.len() implies is_normal_unit_char(#[trigger] "PETAHASH"@[i]) by {}
    lemma_normal_name("PH"@);
    lemma_normal_name("PETAHASH"@);
    reveal_strlit("EH");
    reveal_strlit("EXAHASH");
    assert forall|i: int| 0 <= i < "EH"@.len() implies is_normal_unit_char(#[trigger] "EH"@[i]) by {}
    assert forall|i: int| 0 <= i < "EXAHASH"@.len() implies is_normal_unit_char(#[trigger] "EXAHASH"@[i]) by {}
    lemma_normal_name("EH"@);
    lemma_normal_name("EXAHASH"@);
    reveal_strlit("ZH");
    reveal_strlit("ZETTAHASH");
    assert forall|i: int| 0 <= i < "ZH"@.len() implies is_normal_unit_char(#[trigger] "ZH"@[i]) by {}
    assert forall|i: int| 0 <= i < "ZETTAHASH"@.len() implies is_normal_unit_char(#[trigger] "ZETTAHASH"@[i]) by {}
    lemma_normal_name("ZH"@);
    lemma_normal_name("ZETTAHASH"@);
    reveal_strlit("YH");
    reveal_strlit("YOTTAHASH");
    assert forall|i: int| 0 <= i < "YH"@.len() implies is_normal_unit_char(#[trigger] "YH"@[i]) by {}
    assert forall|i: int| 0 <= i < "YOTTAHASH"@.len() implies is_normal_unit_char(#[trigger] "YOTTAHASH"@[i]) by {}
    lemma_normal_name("YH"@);
    lemma_normal_name("YOTTAHASH"@);
}

} // verus!
