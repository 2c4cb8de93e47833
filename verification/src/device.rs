//! What a miner is: its make, model, hardware, firmware and hash algorithm,
//! and the messages it reports.
use vstd::prelude::*;

use crate::hardware::MinerHardware;
use crate::models::MinerModel;

verus! {

/// A hashing algorithm.
#[derive(Debug, PartialEq, Eq, Clone, Copy, Hash, Structural)]
pub enum HashAlgorithm {
    SHA256,
    Scrypt,
    X11,
    Blake2S256,
    Kadena,
}

impl HashAlgorithm {
    /// The name of the algorithm.
    pub open spec fn name_text(self) -> Seq<char> {
        match self {
            HashAlgorithm::SHA256 => "SHA256"@,
            HashAlgorithm::Scrypt => "Scrypt"@,
            HashAlgorithm::X11 => "X11"@,
            HashAlgorithm::Blake2S256 => "Blake2S256"@,
            HashAlgorithm::Kadena => "Kadena"@,
        }
    }

    /// The name of the algorithm.
    pub fn to_string(&self) -> (r: String)
        ensures
            r@ == self.name_text(),
    {
        match self {
            HashAlgorithm::SHA256 => String::from_str("SHA256"),
            HashAlgorithm::Scrypt => String::from_str("Scrypt"),
            HashAlgorithm::X11 => String::from_str("X11"),
            HashAlgorithm::Blake2S256 => String::from_str("Blake2S256"),
            HashAlgorithm::Kadena => String::from_str("Kadena"),
        }
    }
}

/// A firmware that can name itself.
pub trait MinerFirmware {
    /// The firmware's name.
    spec fn name_text(&self) -> Seq<char>;

    /// The firmware's name.
    fn name(&self) -> (r: String)
        ensures
            r@ == self.name_text(),
    ;
}

/// The identity of a miner.
#[derive(Debug, Clone, PartialEq, Eq)]
pub struct DeviceInfo {
    pub make: String,
    pub model: String,
    pub hardware: MinerHardware,
    pub firmware: String,
    pub algo: HashAlgorithm,
}

impl DeviceInfo {
    /// The identity of a miner of `model` running `firmware`.
    pub fn new<M: MinerModel, F: MinerFirmware>(model: M, firmware: F, algo: HashAlgorithm) -> (r:
        DeviceInfo)
        ensures
            r.hardware == model.hardware_spec(),
            r.make@ == model.make_name_text(),
            r.model@ == model.model_name_text(),
            r.firmware@ == firmware.name_text(),
            r.algo == algo,
    {
        DeviceInfo {
            hardware: model.hardware(),
            make: model.make_name(),
            model: model.model_name(),
            firmware: firmware.name(),
            algo,
        }
    }
}

/// How serious a message is.
#[derive(Debug, Clone, Copy, PartialEq, Eq, Structural)]
pub enum MessageSeverity {
    Error,
    Warning,
    Info,
}

impl MessageSeverity {
    /// The name of the severity.
    pub open spec fn name_text(self) -> Seq<char> {
        match self {
            MessageSeverity::Error => "Error"@,
            MessageSeverity::Warning => "Warning"@,
            MessageSeverity::Info => "Info"@,
        }
    }

    /// The name of the severity.
    pub fn to_string(&self) -> (r: String)
        ensures
            r@ == self.name_text(),
    {
        match self {
            MessageSeverity::Error => String::from_str("Error"),
            MessageSeverity::Warning => String::from_str("Warning"),
            MessageSeverity::Info => String::from_str("Info"),
        }
    }
}

/// A message a miner reports, errors included.
#[derive(Debug, Clone, PartialEq, Eq)]
pub struct MinerMessage {
    /// The time this message was generated or occurred
    pub timestamp: u32,
    /// The message code
    /// May be set to 0 if no code is set by the device
    pub code: u64,
    /// The human-readable message being relayed by the device
    pub message: String,
    /// The severity of this message
    pub severity: MessageSeverity,
}

impl MinerMessage {
    /// A message with the given fields.
    pub fn new(timestamp: u32, code: u64, message: String, severity: MessageSeverity) -> (r:
        MinerMessage)
        ensures
            r == (MinerMessage { timestamp, code, message, severity }),
    {
        MinerMessage { timestamp, code, message, severity }
    }
}

/// The power mode a miner can be tuned to.
#[derive(Debug, Clone, Copy, PartialEq, Eq, Structural)]
pub enum MiningMode {
    Low,
    Normal,
    High,
}

impl MiningMode {
    /// The name of the mode.
    pub open spec fn name_text(self) -> Seq<char> {
        match self {
            MiningMode::Low => "Low"@,
            MiningMode::Normal => "Normal"@,
            MiningMode::High => "High"@,
        }
    }

    /// The name of the mode.
    pub fn to_string(&self) -> (r: String)
        ensures
            r@ == self.name_text(),
    {
        match self {
            MiningMode::Low => String::from_str("Low"),
            MiningMode::Normal => String::from_str("Normal"),
            MiningMode::High => String::from_str("High"),
        }
    }
}

/// Each algorithm, severity and mining mode is shown by its own name, and
/// no two of a kind share a name.
pub proof fn lemma_device_names()
    ensures
        HashAlgorithm::SHA256.name_text() == "SHA256"@,
        HashAlgorithm::Scrypt.name_text() == "Scrypt"@,
        HashAlgorithm::X11.name_text() == "X11"@,
        HashAlgorithm::Blake2S256.name_text() == "Blake2S256"@,
        HashAlgorithm::Kadena.name_text() == "Kadena"@,
        forall|a: HashAlgorithm, b: HashAlgorithm| #[trigger] a.name_text() == #[trigger] b.name_text() ==> a == b,
        MessageSeverity::Error.name_text() == "Error"@,
        MessageSeverity::Warning.name_text() == "Warning"@,
        MessageSeverity::Info.name_text() == "Info"@,
        forall|a: MessageSeverity, b: MessageSeverity| #[trigger] a.name_text() == #[trigger] b.name_text() ==> a == b,
        MiningMode::Low.name_text() == "Low"@,
        MiningMode::Normal.name_text() == "Normal"@,
        MiningMode::High.name_text() == "High"@,
        forall|a: MiningMode, b: MiningMode| #[trigger] a.name_text() == #[trigger] b.name_text() ==> a == b,
{
    reveal_strlit("SHA256");
    reveal_strlit("Scrypt");
    reveal_strlit("X11");
    reveal_strlit("Blake2S256");
    reveal_strlit("Kadena");
    reveal_strlit("Error");
    reveal_strlit("Warning");
    reveal_strlit("Info");
    reveal_strlit("Low");
    reveal_strlit("Normal");
    reveal_strlit("High");
    assert("SHA256"@[1] != "Scrypt"@[1]);
    assert("SHA256"@.len() != "X11"@.len());
    assert("SHA256"@.len() != "Blake2S256"@.len());
    assert("SHA256"@[0] != "Kadena"@[0]);
    assert("Scrypt"@.len() != "X11"@.len());
    assert("Scrypt"@.len() != "Blake2S256"@.len());
    assert("Scrypt"@[0] != "Kadena"@[0]);
    assert("X11"@.len() != "Blake2S256"@.len());
    assert("X11"@.len() != "Kadena"@.len());
    assert("Blake2S256"@.len() != "Kadena"@.len());
    assert("Error"@.len() != "Warning"@.len());
    assert("Error"@.len() != "Info"@.len());
    assert("Warning"@.len() != "Info"@.len());
    assert("Low"@.len() != "Normal"@.len());
    assert("Low"@.len() != "High"@.len());
    assert("Normal"@.len() != "High"@.len());
}

} // verus!
