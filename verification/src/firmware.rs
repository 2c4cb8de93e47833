//! Firmware identification from discovery replies, and the backend chosen
//! for each firmware version.
use vstd::prelude::*;

use crate::device::MinerFirmware;
use crate::errors::ModelSelectionError;
use crate::json::{read_string_member, string_member_of};
use crate::models::BitaxeModel;
use crate::text::{contains, has_substring, to_uppercase, unicode_uppercase};

verus! {

/// What a web discovery request got back.
pub struct WebResponse {
    pub body: String,
    pub auth_header: String,
    pub algo_header: String,
    pub redirect_header: String,
    pub status: u16,
}

/// The stock Bitaxe firmware (AxeOS).
#[derive(Debug, Default, Clone, Copy, PartialEq, Eq)]
pub struct BitaxeFirmware {}

/// The Marathon firmware.
#[derive(Debug, Default, Clone, Copy, PartialEq, Eq)]
pub struct MarathonFirmware {}

/// The discovery command a firmware answers.
#[derive(Debug, Clone, Copy, PartialEq, Eq, Hash, Structural)]
pub enum DiscoveryCommand {
    /// `GET /` on the web interface.
    HttpWebRoot,
    /// The `version` command on the RPC port.
    RpcVersion,
}

impl MinerFirmware for BitaxeFirmware {
    open spec fn name_text(&self) -> Seq<char> {
        "Bitaxe Stock"@
    }

    fn name(&self) -> (r: String) {
        String::from_str("Bitaxe Stock")
    }
}

impl BitaxeFirmware {
    /// The command that identifies this firmware.
    pub fn get_discovery_commands(&self) -> (r: Vec<DiscoveryCommand>)
        ensures
            r@ == seq![DiscoveryCommand::HttpWebRoot],
    {
        let mut v = Vec::new();
        v.push(DiscoveryCommand::HttpWebRoot);
        v
    }

    /// Whether a web reply comes from this firmware: its body names AxeOS.
    pub fn identify_web(&self, response: &WebResponse) -> (r: bool)
        ensures
            r == has_substring(response.body@, "AxeOS"@),
    {
        contains(response.body.as_str(), "AxeOS")
    }

    /// This firmware does not answer on the RPC port.
    pub fn identify_rpc(&self, response: &str) -> (r: bool)
        ensures
            !r,
    {
        false
    }

    /// Bitaxe miners run this firmware from the factory.
    pub fn is_stock(&self) -> (r: bool)
        ensures
            r,
    {
        true
    }

    /// The model named by the `ASICModel` member of the system information,
    /// read after uppercasing.
    pub open spec fn model_from_member(member: Option<Option<Seq<char>>>) -> Result<
        Option<BitaxeModel>,
        ModelSelectionError,
    > {
        match member {
            None => Err(ModelSelectionError::UnexpectedModelResponse),
            Some(None) => Err(ModelSelectionError::UnexpectedModelResponse),
            Some(Some(m)) => Ok(BitaxeModel::known_text(unicode_uppercase(m))),
        }
    }

    /// The model a system-information reply names: the reply must be JSON
    /// with a string `ASICModel` member, which is uppercased and parsed.
    pub fn model_from_system_info(raw_json: &str) -> (r: Result<BitaxeModel, ModelSelectionError>)
        ensures
            match Self::model_from_member(string_member_of(raw_json@, "ASICModel"@)) {
                Err(e) => r == Err::<BitaxeModel, ModelSelectionError>(e),
                Ok(Some(m)) => r == Ok::<BitaxeModel, ModelSelectionError>(m),
                Ok(None) => r matches Ok(BitaxeModel::Unknown(u)) && u@ == unicode_uppercase(
                    string_member_of(raw_json@, "ASICModel"@)->0->0,
                ),
            },
    {
        match read_string_member(raw_json, "ASICModel") {
            None => Err(ModelSelectionError::UnexpectedModelResponse),
            Some(None) => Err(ModelSelectionError::UnexpectedModelResponse),
            Some(Some(model)) => {
                let upper = to_uppercase(model.as_str());
                Ok(BitaxeModel::parse_name(upper.as_str()))
            },
        }
    }
}

impl MinerFirmware for MarathonFirmware {
    open spec fn name_text(&self) -> Seq<char> {
        "Marathon"@
    }

    fn name(&self) -> (r: String) {
        String::from_str("Marathon")
    }
}

impl MarathonFirmware {
    /// The command that identifies this firmware.
    pub fn get_discovery_commands(&self) -> (r: Vec<DiscoveryCommand>)
        ensures
            r@ == seq![DiscoveryCommand::RpcVersion],
    {
        let mut v = Vec::new();
        v.push(DiscoveryCommand::RpcVersion);
        v
    }

    /// Whether an uppercased RPC reply comes from this firmware.
    pub open spec fn identifies_rpc(response: Seq<char>) -> bool {
        has_substring(response, "MARAFW"@) || has_substring(response, "KAONSU"@)
    }

    /// Whether an uppercased RPC reply comes from this firmware: it names
    /// MARAFW or KAONSU.
    pub fn identify_rpc(&self, response: &str) -> (r: bool)
        ensures
            r == Self::identifies_rpc(response@),
    {
        contains(response, "MARAFW") || contains(response, "KAONSU")
    }

    /// Whether a web reply comes from this firmware: it asks for digest
    /// authentication with MD5.
    pub fn identify_web(&self, response: &WebResponse) -> (r: bool)
        ensures
            r == (response.status == 401 && has_substring(response.algo_header@, "MD5"@)),
    {
        response.status == 401 && contains(response.algo_header.as_str(), "MD5")
    }

    /// Marathon is an aftermarket firmware.
    pub fn is_stock(&self) -> (r: bool)
        ensures
            !r,
    {
        false
    }
}

/// The firmwares a discovery registry can hold.
#[derive(Debug, Clone, Copy, PartialEq, Eq, Structural)]
pub enum FirmwareKind {
    Bitaxe,
    Marathon,
}

impl FirmwareKind {
    /// Whether this firmware recognizes an uppercased RPC reply.
    pub open spec fn identifies_rpc(self, upper: Seq<char>) -> bool {
        match self {
            FirmwareKind::Bitaxe => false,
            FirmwareKind::Marathon => MarathonFirmware::identifies_rpc(upper),
        }
    }

    /// Whether this firmware recognizes a web reply.
    pub open spec fn identifies_web(self, r: &WebResponse) -> bool {
        match self {
            FirmwareKind::Bitaxe => has_substring(r.body@, "AxeOS"@),
            FirmwareKind::Marathon => r.status == 401 && has_substring(r.algo_header@, "MD5"@),
        }
    }

    /// Whether this is the miner's stock firmware.
    pub open spec fn spec_is_stock(self) -> bool {
        self == FirmwareKind::Bitaxe
    }

    /// Whether this firmware recognizes an uppercased RPC reply.
    pub fn identify_rpc(&self, upper: &str) -> (r: bool)
        ensures
            r == self.identifies_rpc(upper@),
    {
        match self {
            FirmwareKind::Bitaxe => BitaxeFirmware {}.identify_rpc(upper),
            FirmwareKind::Marathon => MarathonFirmware {}.identify_rpc(upper),
        }
    }

    /// Whether this firmware recognizes a web reply.
    pub fn identify_web(&self, response: &WebResponse) -> (r: bool)
        ensures
            r == self.identifies_web(response),
    {
        match self {
            FirmwareKind::Bitaxe => BitaxeFirmware {}.identify_web(response),
            FirmwareKind::Marathon => MarathonFirmware {}.identify_web(response),
        }
    }

    /// Whether this is the miner's stock firmware.
    pub fn is_stock(&self) -> (r: bool)
        ensures
            r == self.spec_is_stock(),
    {
        match self {
            FirmwareKind::Bitaxe => BitaxeFirmware {}.is_stock(),
            FirmwareKind::Marathon => MarathonFirmware {}.is_stock(),
        }
    }
}

/// The firmware of the registry that an RPC discovery reply identifies: the
/// reply is uppercased and offered to each firmware in turn; the first that
/// recognizes it wins.
pub fn identify_from_rpc(registry: &Vec<FirmwareKind>, response: &str) -> (r: Option<usize>)
    ensures
        match r {
            Some(i) => i < registry@.len() && registry@[i as int].identifies_rpc(
                unicode_uppercase(response@),
            ) && forall|j: int|
                0 <= j < i ==> !(#[trigger] registry@[j].identifies_rpc(
                    unicode_uppercase(response@),
                )),
            None => forall|j: int|
                0 <= j < registry@.len() ==> !(#[trigger] registry@[j].identifies_rpc(
                    unicode_uppercase(response@),
                )),
        },
{
    let upper = to_uppercase(response);
    let mut i: usize = 0;
    while i < registry.len()
        invariant
            i <= registry@.len(),
            upper@ == unicode_uppercase(response@),
            forall|j: int| 0 <= j < i ==> !(#[trigger] registry@[j].identifies_rpc(upper@)),
        decreases registry@.len() - i,
    {
        if registry[i].identify_rpc(upper.as_str()) {
            return Some(i);
        }
        i = i + 1;
    }
    None
}

/// The firmware of the registry that a web discovery reply identifies: the
/// first that recognizes it.
pub fn identify_from_web(registry: &Vec<FirmwareKind>, response: &WebResponse) -> (r: Option<
    usize,
>)
    ensures
        match r {
            Some(i) => i < registry@.len() && registry@[i as int].identifies_web(response)
                && forall|j: int| 0 <= j < i ==> !(#[trigger] registry@[j].identifies_web(response)),
            None => forall|j: int|
                0 <= j < registry@.len() ==> !(#[trigger] registry@[j].identifies_web(response)),
        },
{
    let mut i: usize = 0;
    while i < registry.len()
        invariant
            i <= registry@.len(),
            forall|j: int| 0 <= j < i ==> !(#[trigger] registry@[j].identifies_web(response)),
        decreases registry@.len() - i,
    {
        if registry[i].identify_web(response) {
            return Some(i);
        }
        i = i + 1;
    }
    None
}

/// A header value, or the empty text when the header is absent or not
/// readable as text.
pub fn header_or_empty(value: Option<String>) -> (r: String)
    ensures
        r@ == (match value {
            Some(v) => v@,
            None => Seq::<char>::empty(),
        }),
{
    match value {
        Some(v) => v,
        None => String::new(),
    }
}

/// A firmware version, as the semantic-version parts the backend choice
/// reads: major, minor and patch numbers and the pre-release text (empty
/// for a release).
#[derive(Debug, Clone, PartialEq, Eq)]
pub struct FirmwareVersion {
    pub major: u64,
    pub minor: u64,
    pub patch: u64,
    pub pre: String,
}

/// What `semver::VersionReq::parse(req)` and `VersionReq::matches` answer
/// for the version with these parts: `None` when the requirement or the
/// pre-release text does not parse.
pub uninterp spec fn semver_matches(
    req: Seq<char>,
    major: u64,
    minor: u64,
    patch: u64,
    pre: Seq<char>,
) -> Option<bool>;

/// Whether a version's major, minor and patch numbers are at least the
/// given ones, compared in that order.
pub open spec fn at_least(v: &FirmwareVersion, major: u64, minor: u64, patch: u64) -> bool {
    v.major > major || (v.major == major && (v.minor > minor || (v.minor == minor && v.patch
        >= patch)))
}

/// Whether a requirement matches a version (`semver::Prerelease::new`,
/// `semver::VersionReq::parse`, `VersionReq::matches`). The answer is named
/// by `semver_matches`. For the two requirements the backend choice uses,
/// the crate's comparators give the answer directly: a release version
/// matches `>=2.0.0, <2.9.0` when it is at least 2.0.0 and below 2.9.0, and
/// `>=25.7.0` when it is at least 25.7.0; a pre-release version matches
/// neither, since neither requirement names a pre-release (and a
/// pre-release text that does not parse gives `None`).
#[verifier::external_body]
fn version_matches(req: &str, version: &FirmwareVersion) -> (r: Option<bool>)
    ensures
        r == semver_matches(req@, version.major, version.minor, version.patch, version.pre@),
        req@ == ">=2.0.0, <2.9.0"@ ==> if version.pre@.len() == 0 {
            r == Some(at_least(version, 2, 0, 0) && !at_least(version, 2, 9, 0))
        } else {
            r != Some(true)
        },
        req@ == ">=25.7.0"@ ==> if version.pre@.len() == 0 {
            r == Some(at_least(version, 25, 7, 0))
        } else {
            r != Some(true)
        },
{
    let pre = semver::Prerelease::new(&version.pre).ok()?;
    let build = semver::BuildMetadata::EMPTY;
    let v = semver::Version { major: version.major, minor: version.minor, patch: version.patch, pre, build };
    Some(semver::VersionReq::parse(req).ok()?.matches(&v))
}

/// Whether a version is known, a release, and in the 2.0 to 2.9 range:
/// at least 2.0.0 and below 2.9.0.
pub open spec fn in_bitaxe_2_0_range(version: Option<&FirmwareVersion>) -> bool {
    match version {
        Some(v) => v.pre@.len() == 0 && at_least(v, 2, 0, 0) && !at_least(v, 2, 9, 0),
        None => false,
    }
}

/// Whether a version is known, a release, and at least 25.7.0.
pub open spec fn at_least_braiins_25_7(version: Option<&FirmwareVersion>) -> bool {
    match version {
        Some(v) => v.pre@.len() == 0 && at_least(v, 25, 7, 0),
        None => false,
    }
}

/// The Bitaxe backends, by the firmware version they speak to.
#[derive(Debug, Clone, Copy, PartialEq, Eq, Structural)]
pub enum BitaxeBackend {
    /// Firmware 2.0.0 up to, not including, 2.9.0.
    V2_0_0,
    /// Firmware 2.9.0 and later, and any firmware of unknown version.
    V2_9_0,
}

/// Chooses the backend of a Bitaxe miner.
pub struct Bitaxe;

impl Bitaxe {
    /// The backend for a firmware that is, or is not, in the 2.0 to 2.9 range.
    pub fn backend_for(in_2_0_range: bool) -> (r: BitaxeBackend)
        ensures
            r == (if in_2_0_range { BitaxeBackend::V2_0_0 } else { BitaxeBackend::V2_9_0 }),
    {
        if in_2_0_range {
            BitaxeBackend::V2_0_0
        } else {
            BitaxeBackend::V2_9_0
        }
    }

    /// The backend for a firmware version: a release from 2.0.0 up to 2.9.0
    /// gets the older backend, anything else (a pre-release, an unknown
    /// version) the newer one.
    pub fn select_backend(version: Option<&FirmwareVersion>) -> (r: BitaxeBackend)
        ensures
            r == (if in_bitaxe_2_0_range(version) {
                BitaxeBackend::V2_0_0
            } else {
                BitaxeBackend::V2_9_0
            }),
    {
        match version {
            Some(v) => match version_matches(">=2.0.0, <2.9.0", v) {
                Some(true) => Self::backend_for(true),
                _ => Self::backend_for(false),
            },
            None => Self::backend_for(false),
        }
    }
}

/// The Braiins backends, by the firmware version they speak to.
#[derive(Debug, Clone, Copy, PartialEq, Eq, Structural)]
pub enum BraiinsBackend {
    /// Firmware before 25.7.0, and any firmware of unknown version.
    V21_09,
    /// Firmware 25.7.0 and later.
    V25_07,
}

/// Chooses the backend of a Braiins miner.
pub struct Braiins;

impl Braiins {
    /// The backend for a firmware that is, or is not, at least 25.7.0.
    pub fn backend_for(at_least_25_7: bool) -> (r: BraiinsBackend)
        ensures
            r == (if at_least_25_7 { BraiinsBackend::V25_07 } else { BraiinsBackend::V21_09 }),
    {
        if at_least_25_7 {
            BraiinsBackend::V25_07
        } else {
            BraiinsBackend::V21_09
        }
    }

    /// The backend for a firmware version: a release of 25.7.0 or later gets
    /// the newer backend, anything else (a pre-release, an unknown version)
    /// the older one.
    pub fn select_backend(version: Option<&FirmwareVersion>) -> (r: BraiinsBackend)
        ensures
            r == (if at_least_braiins_25_7(version) {
                BraiinsBackend::V25_07
            } else {
                BraiinsBackend::V21_09
            }),
    {
        match version {
            Some(v) => match version_matches(">=25.7.0", v) {
                Some(true) => Self::backend_for(true),
                _ => Self::backend_for(false),
            },
            None => Self::backend_for(false),
        }
    }
}

/// The edges of the backend ranges, for releases: 2.0.0 and 2.8.x are in
/// the Bitaxe 2.0 range, 1.x and 2.9.0 are not; 25.7.0 and 26.0.0 get the
/// newer Braiins backend, 25.6.x does not. A pre-release is in neither.
/// Marathon is recognized by `MARAFW` or `KAONSU` in its reply.
pub proof fn lemma_backend_range_edges(v: FirmwareVersion)
    ensures
        v.pre@.len() == 0 && v.major == 2 && v.minor <= 8 ==> in_bitaxe_2_0_range(Some(&v)),
        v.major == 2 && v.minor >= 9 ==> !in_bitaxe_2_0_range(Some(&v)),
        v.major < 2 || v.major > 2 ==> !in_bitaxe_2_0_range(Some(&v)),
        v.pre@.len() == 0 && (v.major > 25 || (v.major == 25 && v.minor >= 7))
            ==> at_least_braiins_25_7(Some(&v)),
        v.major < 25 || (v.major == 25 && v.minor < 7) ==> !at_least_braiins_25_7(Some(&v)),
        v.pre@.len() > 0 ==> !in_bitaxe_2_0_range(Some(&v)) && !at_least_braiins_25_7(Some(&v)),
        !in_bitaxe_2_0_range(None) && !at_least_braiins_25_7(None),
        forall|r: Seq<char>| #[trigger] MarathonFirmware::identifies_rpc(r) <==> (has_substring(r, "MARAFW"@)
            || has_substring(r, "KAONSU"@)),
{
}

} // verus!
