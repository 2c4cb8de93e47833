use std::str::FromStr;

use asic_rs::pool::{PoolData, PoolGroupConfig, PoolGroupData, PoolScheme, PoolURL};

#[test]
fn schemes_parse() {
    assert_eq!(PoolScheme::from_str("stratum+tcp").unwrap(), PoolScheme::StratumV1);
    assert_eq!(PoolScheme::from_str("stratum+ssl").unwrap(), PoolScheme::StratumV1SSL);
    assert_eq!(PoolScheme::from_str("stratum2+tcp").unwrap(), PoolScheme::StratumV2);
    assert_eq!(
        PoolScheme::from_str("stratum+tls").unwrap_err(),
        "Unknown pool scheme: stratum+tls"
    );
    assert_eq!(PoolScheme::from("stratum+tls".to_string()), PoolScheme::StratumV1SSL);
    assert_eq!(PoolScheme::from("http".to_string()), PoolScheme::StratumV1);
}

#[test]
fn scheme_display_round_trip() {
    for p in [PoolScheme::StratumV1, PoolScheme::StratumV1SSL, PoolScheme::StratumV2] {
        assert_eq!(PoolScheme::from_str(&p.to_string()).unwrap(), p);
        assert_eq!(PoolScheme::from(p.to_string()), p);
    }
}

#[test]
fn pool_url_with_scheme() {
    let url = PoolURL::from("stratum+tcp://pool.example.com:3333".to_string());
    assert_eq!(url.scheme, PoolScheme::StratumV1);
    assert_eq!(url.host, "pool.example.com");
    assert_eq!(url.port, 3333);
    assert_eq!(url.pubkey, None);
    assert_eq!(url.to_string(), "stratum+tcp://pool.example.com:3333");
}

#[test]
fn pool_url_without_scheme() {
    let url = PoolURL::from("btc.pool.org:700".to_string());
    assert_eq!(url.scheme, PoolScheme::StratumV1);
    assert_eq!(url.host, "btc.pool.org");
    assert_eq!(url.port, 700);
}

#[test]
fn pool_url_v2_pubkey_and_default_port() {
    let url = PoolURL::from("stratum2+tcp://v2.pool.org/9awtMD5KQgvRUh2yFbjVeT7b6hjipWcAsQHd6wEhgtDT9soosna".to_string());
    assert_eq!(url.scheme, PoolScheme::StratumV2);
    assert_eq!(url.host, "v2.pool.org");
    assert_eq!(url.port, 80);
    assert_eq!(
        url.pubkey.as_deref(),
        Some("9awtMD5KQgvRUh2yFbjVeT7b6hjipWcAsQHd6wEhgtDT9soosna")
    );
    assert_eq!(
        url.to_string(),
        "stratum2+tcp://v2.pool.org:80/9awtMD5KQgvRUh2yFbjVeT7b6hjipWcAsQHd6wEhgtDT9soosna"
    );
}

#[test]
fn pool_url_that_does_not_parse_keeps_text() {
    let url = PoolURL::from("stratum+tcp://bad host:1".to_string());
    assert_eq!(url.scheme, PoolScheme::StratumV1);
    assert_eq!(url.host, "stratum+tcp://bad host:1");
    assert_eq!(url.port, 0);
    assert_eq!(url.pubkey, None);
}

#[test]
fn pool_url_from_parsed_parts() {
    let url = PoolURL::from_parsed(
        "x".to_string(),
        Some(("stratum+ssl".to_string(), None, Some(4444), "/".to_string())),
    );
    assert_eq!(url.scheme, PoolScheme::StratumV1SSL);
    assert_eq!(url.host, "");
    assert_eq!(url.port, 4444);
    assert_eq!(url.pubkey, None);
}

fn pool(position: u16, url: Option<&str>, user: Option<&str>) -> PoolData {
    PoolData {
        position: Some(position),
        url: url.map(|u| PoolURL::from(u.to_string())),
        accepted_shares: None,
        rejected_shares: None,
        active: None,
        alive: None,
        user: user.map(|u| u.to_string()),
    }
}

#[test]
fn group_config_keeps_pools_with_urls() {
    let data = PoolGroupData {
        name: "main".to_string(),
        quota: 3,
        pools: vec![
            pool(0, Some("a.org:1"), Some("worker.1")),
            pool(1, None, Some("ignored")),
            pool(2, Some("b.org:2"), None),
        ],
    };
    assert_eq!(data.len(), 3);
    assert!(!data.is_empty());
    let config = PoolGroupConfig::from(data);
    assert_eq!(config.name, "main");
    assert_eq!(config.quota, 3);
    assert_eq!(config.pools.len(), 2);
    assert_eq!(config.pools[0].url.host, "a.org");
    assert_eq!(config.pools[0].username, "worker.1");
    assert_eq!(config.pools[0].password, "x");
    assert_eq!(config.pools[1].url.port, 2);
    assert_eq!(config.pools[1].username, "");
}

#[test]
fn empty_group() {
    let data = PoolGroupData { name: String::new(), quota: 0, pools: vec![] };
    assert!(data.is_empty());
    assert_eq!(PoolGroupConfig::from(data).pools.len(), 0);
}
