//! The NerdAxe firmware (version 1): where each data point is read from,
//! and how its pool and status replies become library data.
use vstd::prelude::*;

use crate::device::{MessageSeverity, MinerMessage};
use crate::pool::{PoolData, PoolGroupData, PoolScheme, PoolURL};

verus! {

/// The data points a miner can report.
#[derive(Debug, Clone, Copy, PartialEq, Eq, Hash, Structural)]
pub enum DataField {
    Mac,
    SerialNumber,
    Hostname,
    ApiVersion,
    FirmwareVersion,
    ControlBoardVersion,
    Hashboards,
    Hashrate,
    ExpectedHashrate,
    Fans,
    PsuFans,
    AverageTemperature,
    FluidTemperature,
    Wattage,
    TuningTarget,
    LightFlashing,
    Messages,
    Uptime,
    IsMining,
    Pools,
}

/// A command sent to a miner's API.
#[derive(Debug, Clone, Copy, PartialEq, Eq)]
pub enum MinerCommand {
    /// A command on the RPC port.
    RPC { command: &'static str },
    /// A path of the web API.
    WebAPI { command: &'static str },
}

/// How a value is taken out of a reply.
#[derive(Debug, Clone, Copy, PartialEq, Eq, Structural)]
pub enum ExtractFn {
    /// The member named by the key.
    ByKey,
    /// The value at the JSON pointer given by the key.
    ByPointer,
}

/// How one data point is read from a reply.
#[derive(Debug, Clone, Copy, PartialEq, Eq)]
pub struct DataExtractor {
    pub func: ExtractFn,
    pub key: Option<&'static str>,
    pub tag: Option<&'static str>,
}

/// A command and the way its reply gives a data point.
pub type DataLocation = (MinerCommand, DataExtractor);

/// The NerdAxe firmware, version 1.
pub struct NerdAxeV1;

impl NerdAxeV1 {
    /// The way a data point is read from the system information reply, or
    /// `None` for a data point this firmware does not report.
    pub open spec fn location_spec(field: DataField) -> Option<(ExtractFn, Seq<char>)> {
        match field {
            DataField::Mac => Some((ExtractFn::ByKey, "macAddr"@)),
            DataField::Hostname => Some((ExtractFn::ByKey, "hostname"@)),
            DataField::FirmwareVersion => Some((ExtractFn::ByKey, "version"@)),
            DataField::ApiVersion => Some((ExtractFn::ByKey, "version"@)),
            DataField::ControlBoardVersion => Some((ExtractFn::ByKey, "boardVersion"@)),
            DataField::Hashboards => Some((ExtractFn::ByPointer, ""@)),
            DataField::Hashrate => Some((ExtractFn::ByKey, "hashRate"@)),
            DataField::ExpectedHashrate => Some((ExtractFn::ByPointer, ""@)),
            DataField::Fans => Some((ExtractFn::ByKey, "fanrpm"@)),
            DataField::AverageTemperature => Some((ExtractFn::ByKey, "temp"@)),
            DataField::Wattage => Some((ExtractFn::ByKey, "power"@)),
            DataField::Uptime => Some((ExtractFn::ByKey, "uptimeSeconds"@)),
            DataField::Pools => Some((ExtractFn::ByPointer, ""@)),
            _ => None,
        }
    }

    /// Where each data point is read: every reported data point comes from
    /// the `system/info` web command.
    pub fn get_locations(data_field: DataField) -> (r: Vec<DataLocation>)
        ensures
            match Self::location_spec(data_field) {
                None => r@.len() == 0,
                Some((func, key)) => {
                    &&& r@.len() == 1
                    &&& r@[0].0 matches MinerCommand::WebAPI { command }
                    &&& command@ == "system/info"@
                    &&& r@[0].1.func == func
                    &&& r@[0].1.key matches Some(k)
                    &&& k@ == key
                    &&& r@[0].1.tag is None
                },
            },
    {
        let mut locations = Vec::new();
        let key: &'static str = match data_field {
            DataField::Mac => "macAddr",
            DataField::Hostname => "hostname",
            DataField::FirmwareVersion => "version",
            DataField::ApiVersion => "version",
            DataField::ControlBoardVersion => "boardVersion",
            DataField::Hashboards => "",
            DataField::Hashrate => "hashRate",
            DataField::ExpectedHashrate => "",
            DataField::Fans => "fanrpm",
            DataField::AverageTemperature => "temp",
            DataField::Wattage => "power",
            DataField::Uptime => "uptimeSeconds",
            DataField::Pools => "",
            _ => return locations,
        };
        let func = match data_field {
            DataField::Mac => ExtractFn::ByKey,
            DataField::Hostname => ExtractFn::ByKey,
            DataField::FirmwareVersion => ExtractFn::ByKey,
            DataField::ApiVersion => ExtractFn::ByKey,
            DataField::ControlBoardVersion => ExtractFn::ByKey,
            DataField::Hashboards => ExtractFn::ByPointer,
            DataField::Hashrate => ExtractFn::ByKey,
            DataField::ExpectedHashrate => ExtractFn::ByPointer,
            DataField::Fans => ExtractFn::ByKey,
            DataField::AverageTemperature => ExtractFn::ByKey,
            DataField::Wattage => ExtractFn::ByKey,
            DataField::Uptime => ExtractFn::ByKey,
            DataField::Pools => ExtractFn::ByPointer,
            _ => return locations,
        };
        let command = MinerCommand::WebAPI { command: "system/info" };
        locations.push((command, DataExtractor { func, key: Some(key), tag: None }));
        locations
    }
}

/// The pool members of the NerdAxe system information reply.
pub struct NerdAxePoolInfo {
    pub stratum_url: Option<String>,
    pub stratum_port: Option<u64>,
    pub shares_accepted: Option<u64>,
    pub shares_rejected: Option<u64>,
    pub stratum_user: Option<String>,
    pub is_using_fallback: Option<bool>,
    pub fallback_url: Option<String>,
    pub fallback_port: Option<u64>,
    pub fallback_user: Option<String>,
}

/// The view of an optional string, the empty text when absent.
pub open spec fn text_or_empty(s: Option<String>) -> Seq<char> {
    match s {
        Some(s) => s@,
        None => Seq::<char>::empty(),
    }
}

/// A port read from the reply, 0 when absent, kept to its low 16 bits.
pub open spec fn port_or_zero(p: Option<u64>) -> u16 {
    match p {
        Some(p) => p as u16,
        None => 0,
    }
}

/// Whether `p` is a plain Stratum V1 pool entry at `position`.
pub open spec fn stratum_pool(p: PoolData, position: u16, host: Seq<char>, port: u16) -> bool {
    &&& p.position == Some(position)
    &&& p.url matches Some(u)
    &&& u.scheme == PoolScheme::StratumV1
    &&& u.host@ == host
    &&& u.port == port
    &&& u.pubkey is None
    &&& p.alive is None
}

impl NerdAxeV1 {
    /// The pools a NerdAxe reports: one group of quota 1 holding the main
    /// pool, active unless the fallback is in use, and the fallback pool.
    /// Only the main pool reports share counts.
    pub fn parse_pools(info: NerdAxePoolInfo) -> (r: Vec<PoolGroupData>)
        ensures
            r@.len() == 1,
            r@[0].name@ == Seq::<char>::empty(),
            r@[0].quota == 1,
            r@[0].pools@.len() == 2,
            ({
                let fallback = match info.is_using_fallback {
                    Some(b) => b,
                    None => false,
                };
                let main = r@[0].pools@[0];
                let backup = r@[0].pools@[1];
                &&& stratum_pool(main, 0, text_or_empty(info.stratum_url), port_or_zero(info.stratum_port))
                &&& main.accepted_shares == info.shares_accepted
                &&& main.rejected_shares == info.shares_rejected
                &&& main.active == Some(!fallback)
                &&& main.user == info.stratum_user
                &&& stratum_pool(backup, 1, text_or_empty(info.fallback_url), port_or_zero(info.fallback_port))
                &&& backup.accepted_shares is None
                &&& backup.rejected_shares is None
                &&& backup.active == Some(fallback)
                &&& backup.user == info.fallback_user
            }),
    {
        let NerdAxePoolInfo {
            stratum_url,
            stratum_port,
            shares_accepted,
            shares_rejected,
            stratum_user,
            is_using_fallback,
            fallback_url,
            fallback_port,
            fallback_user,
        } = info;
        let is_using_fallback = match is_using_fallback {
            Some(b) => b,
            None => false,
        };
        let main_url = match stratum_url {
            Some(u) => u,
            None => String::new(),
        };
        let main_port: u64 = match stratum_port {
            Some(p) => p,
            None => 0,
        };
        let main_pool = PoolData {
            position: Some(0),
            url: Some(
                PoolURL {
                    scheme: PoolScheme::StratumV1,
                    host: main_url,
                    port: main_port as u16,
                    pubkey: None,
                },
            ),
            accepted_shares: shares_accepted,
            rejected_shares: shares_rejected,
            active: Some(!is_using_fallback),
            alive: None,
            user: stratum_user,
        };
        let backup_url = match fallback_url {
            Some(u) => u,
            None => String::new(),
        };
        let backup_port: u64 = match fallback_port {
            Some(p) => p,
            None => 0,
        };
        let backup_pool = PoolData {
            position: Some(1),
            url: Some(
                PoolURL {
                    scheme: PoolScheme::StratumV1,
                    host: backup_url,
                    port: backup_port as u16,
                    pubkey: None,
                },
            ),
            accepted_shares: None,
            rejected_shares: None,
            active: Some(is_using_fallback),
            alive: None,
            user: fallback_user,
        };
        let mut pools = Vec::new();
        pools.push(main_pool);
        pools.push(backup_pool);
        let mut groups = Vec::new();
        groups.push(PoolGroupData { name: String::new(), quota: 1, pools });
        groups
    }

    /// The messages of a NerdAxe: a warning when overheat mode is on,
    /// stamped with the low 32 bits of the given time in seconds.
    pub fn parse_messages(overheat_mode: Option<bool>, now_secs: u64) -> (r: Vec<MinerMessage>)
        ensures
            overheat_mode == Some(true) ==> {
                &&& r@.len() == 1
                &&& r@[0].timestamp == now_secs as u32
                &&& r@[0].code == 0
                &&& r@[0].message@ == "Overheat Mode is Enabled!"@
                &&& r@[0].severity == MessageSeverity::Warning
            },
            overheat_mode != Some(true) ==> r@.len() == 0,
    {
        let mut messages = Vec::new();
        if let Some(true) = overheat_mode {
            messages.push(
                MinerMessage {
                    timestamp: now_secs as u32,
                    code: 0u64,
                    message: String::from_str("Overheat Mode is Enabled!"),
                    severity: MessageSeverity::Warning,
                },
            );
        }
        messages
    }
}

/// Where the NerdAxe system information gives each data point: the MAC
/// address under `macAddr`, the host name under `hostname`, the firmware
/// and API versions both under `version`, the board version under
/// `boardVersion`, the hash rate under `hashRate`, the fan speed under
/// `fanrpm`, the temperature under `temp`, the power under `power` and the
/// uptime under `uptimeSeconds`; hashboards, the expected hash rate and
/// pools are read from the whole reply. The other data points are not
/// reported. A member read by key always has a key.
pub proof fn lemma_nerdaxe_locations()
    ensures
        NerdAxeV1::location_spec(DataField::Mac) == Some((ExtractFn::ByKey, "macAddr"@)),
        NerdAxeV1::location_spec(DataField::Hostname) == Some((ExtractFn::ByKey, "hostname"@)),
        NerdAxeV1::location_spec(DataField::FirmwareVersion) == Some((ExtractFn::ByKey, "version"@)),
        NerdAxeV1::location_spec(DataField::ApiVersion) == Some((ExtractFn::ByKey, "version"@)),
        NerdAxeV1::location_spec(DataField::ControlBoardVersion) == Some((ExtractFn::ByKey, "boardVersion"@)),
        NerdAxeV1::location_spec(DataField::Hashboards) == Some((ExtractFn::ByPointer, ""@)),
        NerdAxeV1::location_spec(DataField::Hashrate) == Some((ExtractFn::ByKey, "hashRate"@)),
        NerdAxeV1::location_spec(DataField::ExpectedHashrate) == Some((ExtractFn::ByPointer, ""@)),
        NerdAxeV1::location_spec(DataField::Fans) == Some((ExtractFn::ByKey, "fanrpm"@)),
        NerdAxeV1::location_spec(DataField::AverageTemperature) == Some((ExtractFn::ByKey, "temp"@)),
        NerdAxeV1::location_spec(DataField::Wattage) == Some((ExtractFn::ByKey, "power"@)),
        NerdAxeV1::location_spec(DataField::Uptime) == Some((ExtractFn::ByKey, "uptimeSeconds"@)),
        NerdAxeV1::location_spec(DataField::Pools) == Some((ExtractFn::ByPointer, ""@)),
        NerdAxeV1::location_spec(DataField::SerialNumber) is None,
        NerdAxeV1::location_spec(DataField::PsuFans) is None,
        NerdAxeV1::location_spec(DataField::FluidTemperature) is None,
        NerdAxeV1::location_spec(DataField::TuningTarget) is None,
        NerdAxeV1::location_spec(DataField::LightFlashing) is None,
        NerdAxeV1::location_spec(DataField::Messages) is None,
        NerdAxeV1::location_spec(DataField::IsMining) is None,
        forall|f: DataField|
            #[trigger] NerdAxeV1::location_spec(f) matches Some((ExtractFn::ByKey, key)) ==> key.len() > 0,
{
    reveal_strlit("boardVersion");
    reveal_strlit("fanrpm");
    reveal_strlit("hashRate");
    reveal_strlit("hostname");
    reveal_strlit("macAddr");
    reveal_strlit("power");
    reveal_strlit("temp");
    reveal_strlit("uptimeSeconds");
    reveal_strlit("version");
}

} // verus!
