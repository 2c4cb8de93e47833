use asic_rs::device::{MessageSeverity, MinerMessage, MiningMode};
use asic_rs::nerdaxe::{DataField, ExtractFn, MinerCommand, NerdAxePoolInfo, NerdAxeV1};
use asic_rs::pool::PoolScheme;

#[test]
fn locations() {
    let mac = NerdAxeV1::get_locations(DataField::Mac);
    assert_eq!(mac.len(), 1);
    assert_eq!(mac[0].0, MinerCommand::WebAPI { command: "system/info" });
    assert_eq!(mac[0].1.func, ExtractFn::ByKey);
    assert_eq!(mac[0].1.key, Some("macAddr"));
    assert_eq!(mac[0].1.tag, None);
    let pools = NerdAxeV1::get_locations(DataField::Pools);
    assert_eq!(pools[0].1.func, ExtractFn::ByPointer);
    assert_eq!(pools[0].1.key, Some(""));
    assert_eq!(NerdAxeV1::get_locations(DataField::Uptime)[0].1.key, Some("uptimeSeconds"));
    assert!(NerdAxeV1::get_locations(DataField::SerialNumber).is_empty());
    assert!(NerdAxeV1::get_locations(DataField::LightFlashing).is_empty());
}

#[test]
fn pools() {
    let info = NerdAxePoolInfo {
        stratum_url: Some("public-pool.io".to_string()),
        stratum_port: Some(21496),
        shares_accepted: Some(10),
        shares_rejected: Some(1),
        stratum_user: Some("bc1q.worker".to_string()),
        is_using_fallback: Some(true),
        fallback_url: None,
        fallback_port: Some(65536 + 3333),
        fallback_user: None,
    };
    let groups = NerdAxeV1::parse_pools(info);
    assert_eq!(groups.len(), 1);
    assert_eq!(groups[0].quota, 1);
    assert_eq!(groups[0].name, "");
    let main = &groups[0].pools[0];
    let backup = &groups[0].pools[1];
    assert_eq!(main.position, Some(0));
    assert_eq!(main.url.as_ref().unwrap().host, "public-pool.io");
    assert_eq!(main.url.as_ref().unwrap().port, 21496);
    assert_eq!(main.url.as_ref().unwrap().scheme, PoolScheme::StratumV1);
    assert_eq!(main.accepted_shares, Some(10));
    assert_eq!(main.active, Some(false));
    assert_eq!(main.user.as_deref(), Some("bc1q.worker"));
    assert_eq!(backup.position, Some(1));
    assert_eq!(backup.url.as_ref().unwrap().host, "");
    assert_eq!(backup.url.as_ref().unwrap().port, 3333);
    assert_eq!(backup.active, Some(true));
    assert_eq!(backup.accepted_shares, None);
}

#[test]
fn nerdaxe_messages() {
    let m = NerdAxeV1::parse_messages(Some(true), (1u64 << 32) + 5);
    assert_eq!(
        m,
        vec![MinerMessage::new(5, 0, "Overheat Mode is Enabled!".to_string(), MessageSeverity::Warning)]
    );
    assert!(NerdAxeV1::parse_messages(Some(false), 1).is_empty());
    assert!(NerdAxeV1::parse_messages(None, 1).is_empty());
    assert_eq!(MessageSeverity::Warning.to_string(), "Warning");
    assert_eq!(MiningMode::High.to_string(), "High");
}
