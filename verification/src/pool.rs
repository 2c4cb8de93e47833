//! Mining pools: URL schemes, pool URLs and the pool data a miner reports.
use vstd::prelude::*;

use crate::text::{decimal, equals, has_prefix, push_decimal, starts_with};

verus! {

/// The protocol used to reach a pool.
#[derive(Debug, Clone, Copy, PartialEq, Eq, Structural)]
pub enum PoolScheme {
    StratumV1,
    StratumV1SSL,
    StratumV2,
}

impl PoolScheme {
    /// The scheme as it stands in a URL.
    pub open spec fn display_text(self) -> Seq<char> {
        match self {
            PoolScheme::StratumV1 => "stratum+tcp"@,
            PoolScheme::StratumV1SSL => "stratum+ssl"@,
            PoolScheme::StratumV2 => "stratum2+tcp"@,
        }
    }

    /// The scheme as it stands in a URL.
    pub fn to_string(&self) -> (r: String)
        ensures
            r@ == self.display_text(),
    {
        match self {
            PoolScheme::StratumV1 => String::from_str("stratum+tcp"),
            PoolScheme::StratumV1SSL => String::from_str("stratum+ssl"),
            PoolScheme::StratumV2 => String::from_str("stratum2+tcp"),
        }
    }

    /// The scheme a URL scheme names, if it is one of the three exact names.
    pub open spec fn exact_text(s: Seq<char>) -> Option<PoolScheme> {
        if s == "stratum+tcp"@ {
            Some(PoolScheme::StratumV1)
        } else if s == "stratum+ssl"@ {
            Some(PoolScheme::StratumV1SSL)
        } else if s == "stratum2+tcp"@ {
            Some(PoolScheme::StratumV2)
        } else {
            None
        }
    }

    /// The scheme any URL scheme is read as: `stratum+tls` is also read as
    /// the SSL scheme, and anything unknown as plain Stratum V1.
    pub open spec fn lenient_text(s: Seq<char>) -> PoolScheme {
        if s == "stratum+tcp"@ {
            PoolScheme::StratumV1
        } else if s == "stratum+ssl"@ || s == "stratum+tls"@ {
            PoolScheme::StratumV1SSL
        } else if s == "stratum2+tcp"@ {
            PoolScheme::StratumV2
        } else {
            PoolScheme::StratumV1
        }
    }

    /// Reads a URL scheme leniently.
    pub fn from_scheme(scheme: &str) -> (r: PoolScheme)
        ensures
            r == Self::lenient_text(scheme@),
    {
        if equals(scheme, "stratum+tcp") {
            PoolScheme::StratumV1
        } else if equals(scheme, "stratum+ssl") || equals(scheme, "stratum+tls") {
            PoolScheme::StratumV1SSL
        } else if equals(scheme, "stratum2+tcp") {
            PoolScheme::StratumV2
        } else {
            PoolScheme::StratumV1
        }
    }

    /// Parses one of the three exact scheme names.
    pub fn parse(scheme: &str) -> (r: Result<PoolScheme, String>)
        ensures
            match Self::exact_text(scheme@) {
                Some(p) => r == Ok::<PoolScheme, String>(p),
                None => r matches Err(e) && e@ == "Unknown pool scheme: "@ + scheme@,
            },
    {
        if equals(scheme, "stratum+tcp") {
            Ok(PoolScheme::StratumV1)
        } else if equals(scheme, "stratum+ssl") {
            Ok(PoolScheme::StratumV1SSL)
        } else if equals(scheme, "stratum2+tcp") {
            Ok(PoolScheme::StratumV2)
        } else {
            let mut e = String::from_str("Unknown pool scheme: ");
            e.append(scheme);
            Err(e)
        }
    }
}

impl From<String> for PoolScheme {
    fn from(scheme: String) -> (r: Self) {
        PoolScheme::from_scheme(scheme.as_str())
    }
}

impl vstd::std_specs::convert::FromSpecImpl<String> for PoolScheme {
    open spec fn obeys_from_spec() -> bool {
        true
    }

    open spec fn from_spec(v: String) -> Self {
        PoolScheme::lenient_text(v@)
    }
}

impl std::str::FromStr for PoolScheme {
    type Err = String;

    fn from_str(scheme: &str) -> (r: Result<Self, Self::Err>)
        ensures
            match Self::exact_text(scheme@) {
                Some(p) => r == Ok::<PoolScheme, String>(p),
                None => r matches Err(e) && e@ == "Unknown pool scheme: "@ + scheme@,
            },
    {
        PoolScheme::parse(scheme)
    }
}

/// Parsing the display name of a scheme, strictly or leniently, gives the
/// scheme back.
pub proof fn lemma_scheme_display_roundtrip(p: PoolScheme)
    ensures
        PoolScheme::exact_text(p.display_text()) == Some(p),
        PoolScheme::lenient_text(p.display_text()) == p,
{
    reveal_strlit("stratum+tcp");
    reveal_strlit("stratum+ssl");
    reveal_strlit("stratum+tls");
    reveal_strlit("stratum2+tcp");
    assert("stratum+ssl"@[8] != "stratum+tcp"@[8]);
    assert("stratum2+tcp"@.len() != "stratum+tcp"@.len());
    assert("stratum2+tcp"@.len() != "stratum+ssl"@.len());
    assert("stratum2+tcp"@.len() != "stratum+tls"@.len());
}

/// The scheme names a pool URL may carry: `stratum+tcp` is Stratum V1,
/// `stratum+ssl` (and, read leniently, `stratum+tls`) is Stratum V1 over
/// SSL, `stratum2+tcp` is Stratum V2; no other name is exact, and read
/// leniently any other name is Stratum V1.
pub proof fn lemma_scheme_names()
    ensures
        PoolScheme::exact_text("stratum+tcp"@) == Some(PoolScheme::StratumV1),
        PoolScheme::exact_text("stratum+ssl"@) == Some(PoolScheme::StratumV1SSL),
        PoolScheme::exact_text("stratum2+tcp"@) == Some(PoolScheme::StratumV2),
        PoolScheme::lenient_text("stratum+tcp"@) == PoolScheme::StratumV1,
        PoolScheme::lenient_text("stratum+ssl"@) == PoolScheme::StratumV1SSL,
        PoolScheme::lenient_text("stratum+tls"@) == PoolScheme::StratumV1SSL,
        PoolScheme::lenient_text("stratum2+tcp"@) == PoolScheme::StratumV2,
        forall|s: Seq<char>|
            s != "stratum+tcp"@ && s != "stratum+ssl"@ && s != "stratum2+tcp"@ ==> #[trigger] PoolScheme::exact_text(s) is None,
        forall|s: Seq<char>|
            s != "stratum+ssl"@ && s != "stratum+tls"@ && s != "stratum2+tcp"@ ==> #[trigger] PoolScheme::lenient_text(s) == PoolScheme::StratumV1,
{
    reveal_strlit("stratum+tcp");
    reveal_strlit("stratum+ssl");
    reveal_strlit("stratum+tls");
    reveal_strlit("stratum2+tcp");
    assert("stratum+ssl"@[8] != "stratum+tcp"@[8]);
    assert("stratum+tls"@[9] != "stratum+tcp"@[9]);
    assert("stratum2+tcp"@.len() != "stratum+tcp"@.len());
    assert("stratum2+tcp"@.len() != "stratum+ssl"@.len());
    assert("stratum2+tcp"@.len() != "stratum+tls"@.len());
}

/// The address of a pool.
#[derive(Debug, PartialEq, Eq)]
pub struct PoolURL {
    /// The scheme being used to connect to this pool
    pub scheme: PoolScheme,
    /// The public host of the pool
    pub host: String,
    /// The port being used to connect to the pool
    pub port: u16,
    /// The public key for this pool
    /// Only used for Stratum V2 pools
    pub pubkey: Option<String>,
}

impl Clone for PoolURL {
    fn clone(&self) -> (r: Self)
        ensures
            r == *self,
    {
        PoolURL {
            scheme: self.scheme,
            host: self.host.clone(),
            port: self.port,
            pubkey: match &self.pubkey {
                Some(k) => Some(k.clone()),
                None => None,
            },
        }
    }
}

/// What `url::Url::parse` gives for a text, read back as plain parts:
/// the scheme, the host, the explicit port and the path.
pub uninterp spec fn url_components(s: Seq<char>) -> Option<
    (Seq<char>, Option<Seq<char>>, Option<u16>, Seq<char>),
>;

/// Whether every character is ASCII.
pub open spec fn is_ascii_text(s: Seq<char>) -> bool {
    forall|i: int| 0 <= i < s.len() ==> (s[i] as u32) < 128
}

/// `url::Url::parse`, read back through `scheme`, `host_str`, `port` and
/// `path`. `None` when the text is not a URL. The parts are named, not
/// stated; the crate documents the scheme as lowercase ASCII and the path
/// as percent-encoded ASCII, and that much is stated.
#[verifier::external_body]
fn parse_url(s: &str) -> (r: Option<(String, Option<String>, Option<u16>, String)>)
    ensures
        r is Some <==> url_components(s@) is Some,
        r matches Some((scheme, host, port, path)) ==> {
            let c = url_components(s@)->0;
            &&& scheme@ == c.0
            &&& (match host {
                Some(h) => c.1 == Some(h@),
                None => c.1 is None,
            })
            &&& port == c.2
            &&& path@ == c.3
            &&& is_ascii_text(scheme@)
            &&& is_ascii_text(path@)
        },
{
    match url::Url::parse(s) {
        Ok(p) => Some(
            (p.scheme().to_string(), p.host_str().map(|h| h.to_string()), p.port(), p.path().to_string()),
        ),
        Err(_) => None,
    }
}

impl PoolURL {
    /// The text handed to the URL parser: the text itself when it already
    /// names a Stratum scheme, else the text behind `stratum+tcp://`.
    pub open spec fn stratum_text(url: Seq<char>) -> Seq<char> {
        if has_prefix(url, "stratum+"@) || has_prefix(url, "stratum2+"@) {
            url
        } else {
            "stratum+tcp://"@ + url
        }
    }

    /// The public key a URL path carries: none for an empty path or `/`,
    /// else the path without its first character.
    pub open spec fn pubkey_text(path: Seq<char>) -> Option<Seq<char>> {
        if path == Seq::<char>::empty() || path == "/"@ {
            None
        } else {
            Some(path.drop_first())
        }
    }

    /// Whether `p` is the pool URL built from `url` and what the URL parser
    /// made of it: its parts when it parsed (an absent host read as empty,
    /// an absent port as 80), else plain Stratum V1 to `url` itself on port 0.
    pub open spec fn built_from(
        p: PoolURL,
        url: Seq<char>,
        parsed: Option<(Seq<char>, Option<Seq<char>>, Option<u16>, Seq<char>)>,
    ) -> bool {
        match parsed {
            Some((scheme, host, port, path)) => {
                &&& p.scheme == PoolScheme::lenient_text(scheme)
                &&& p.host@ == (match host {
                    Some(h) => h,
                    None => Seq::<char>::empty(),
                })
                &&& p.port == (match port {
                    Some(n) => n,
                    None => 80u16,
                })
                &&& (match Self::pubkey_text(path) {
                    Some(k) => p.pubkey matches Some(pk) && pk@ == k,
                    None => p.pubkey is None,
                })
            },
            None => {
                &&& p.scheme == PoolScheme::StratumV1
                &&& p.host@ == url
                &&& p.port == 0
                &&& p.pubkey is None
            },
        }
    }

    /// Builds a pool URL from the original text and what the URL parser
    /// made of the text it was handed.
    pub fn from_parsed(
        url: String,
        parsed: Option<(String, Option<String>, Option<u16>, String)>,
    ) -> (r: PoolURL)
        ensures
            Self::built_from(
                r,
                url@,
                match parsed {
                    Some((s, h, p, path)) => Some(
                        (
                            s@,
                            match h {
                                Some(h) => Some(h@),
                                None => None,
                            },
                            p,
                            path@,
                        ),
                    ),
                    None => None,
                },
            ),
    {
        match parsed {
            Some((scheme, host, port, path)) => {
                let scheme = PoolScheme::from_scheme(scheme.as_str());
                let host = match host {
                    Some(h) => h,
                    None => String::new(),
                };
                let port = match port {
                    Some(n) => n,
                    None => 80u16,
                };
                let n = path.as_str().unicode_len();
                let pubkey = if n == 0 || equals(path.as_str(), "/") {
                    proof {
                        if n == 0 {
                            assert(path@ =~= Seq::<char>::empty());
                        }
                    }
                    None
                } else {
                    let key = path.as_str().substring_char(1, n);
                    assert(key@ =~= path@.drop_first());
                    Some(key.to_string())
                };
                PoolURL { scheme, host, port, pubkey }
            },
            None => PoolURL { scheme: PoolScheme::StratumV1, host: url, port: 0, pubkey: None },
        }
    }

    /// Builds a pool URL from free text such as `stratum+tcp://host:3333` or
    /// `host:3333`.
    pub fn parse(url: String) -> (r: PoolURL)
        ensures
            Self::built_from(r, url@, url_components(Self::stratum_text(url@))),
    {
        let stratum_url = if starts_with(url.as_str(), "stratum+") || starts_with(
            url.as_str(),
            "stratum2+",
        ) {
            url.clone()
        } else {
            let mut s = String::from_str("stratum+tcp://");
            s.append(url.as_str());
            s
        };
        let parsed = parse_url(stratum_url.as_str());
        Self::from_parsed(url, parsed)
    }

    /// The URL text of this pool.
    pub open spec fn display_text(&self) -> Seq<char> {
        let base = self.scheme.display_text() + "://"@ + self.host@ + ":"@ + decimal(
            self.port as nat,
        );
        match self.pubkey {
            Some(k) => base + "/"@ + k@,
            None => base,
        }
    }

    /// The URL text of this pool, `scheme://host:port` with `/pubkey` when
    /// there is a public key.
    pub fn to_string(&self) -> (r: String)
        ensures
            r@ == self.display_text(),
    {
        let mut s = self.scheme.to_string();
        s.append("://");
        s.append(self.host.as_str());
        s.append(":");
        push_decimal(&mut s, self.port as u64);
        match &self.pubkey {
            Some(k) => {
                s.append("/");
                s.append(k.as_str());
            },
            None => {},
        }
        s
    }
}

impl From<String> for PoolURL {
    fn from(url: String) -> (r: Self)
        ensures
            Self::built_from(r, url@, url_components(Self::stratum_text(url@))),
    {
        PoolURL::parse(url)
    }
}

/// A parsed URL is related to its text by `PoolURL::built_from`, over what
/// the URL parser makes of the text, which no spec function of the text's
/// characters states; the contract is the `ensures` of `from` above.
impl vstd::std_specs::convert::FromSpecImpl<String> for PoolURL {
    open spec fn obeys_from_spec() -> bool {
        false
    }

    open spec fn from_spec(v: String) -> Self {
        arbitrary()
    }
}

/// One pool as a miner reports it.
#[derive(Debug, PartialEq, Eq)]
pub struct PoolData {
    pub position: Option<u16>,
    pub url: Option<PoolURL>,
    pub accepted_shares: Option<u64>,
    pub rejected_shares: Option<u64>,
    pub active: Option<bool>,
    pub alive: Option<bool>,
    pub user: Option<String>,
}

/// A group of pools sharing a quota.
#[derive(Debug, PartialEq, Eq)]
pub struct PoolGroupData {
    pub name: String,
    pub quota: u32,
    pub pools: Vec<PoolData>,
}

impl PoolGroupData {
    /// The number of pools in the group.
    pub fn len(&self) -> (r: usize)
        ensures
            r == self.pools@.len(),
    {
        self.pools.len()
    }

    /// Whether the group holds no pool.
    pub fn is_empty(&self) -> (r: bool)
        ensures
            r == (self.pools@.len() == 0),
    {
        self.pools.len() == 0
    }
}

/// A pool to configure on a miner.
#[derive(Debug)]
pub struct PoolConfig {
    pub url: PoolURL,
    pub username: String,
    pub password: String,
}

/// A group of pools to configure on a miner.
#[derive(Debug)]
pub struct PoolGroupConfig {
    pub name: String,
    pub quota: u32,
    pub pools: Vec<PoolConfig>,
}

/// The pools of a group that have a URL, in order.
pub open spec fn pools_with_url(pools: Seq<PoolData>) -> Seq<PoolData>
    decreases pools.len(),
{
    if pools.len() == 0 {
        pools
    } else if pools.last().url is Some {
        pools_with_url(pools.drop_last()).push(pools.last())
    } else {
        pools_with_url(pools.drop_last())
    }
}

/// Whether `c` is the configuration of the reported pool `p`: its URL, its
/// user (empty when absent) and the password `x`.
pub open spec fn configures(c: PoolConfig, p: PoolData) -> bool {
    &&& p.url == Some(c.url)
    &&& c.username@ == (match p.user {
        Some(u) => u@,
        None => Seq::<char>::empty(),
    })
    &&& c.password@ == "x"@
}

proof fn lemma_pools_with_url_push(pools: Seq<PoolData>, p: PoolData)
    ensures
        pools_with_url(pools.push(p)) == if p.url is Some {
            pools_with_url(pools).push(p)
        } else {
            pools_with_url(pools)
        },
{
    assert(pools.push(p).drop_last() =~= pools);
}

impl PoolGroupConfig {
    /// The configuration that re-applies what a miner reports: every pool
    /// with a URL, in order, with the reported user and the password `x`.
    pub fn from_data(data: PoolGroupData) -> (r: PoolGroupConfig)
        ensures
            r.name == data.name,
            r.quota == data.quota,
            r.pools@.len() == pools_with_url(data.pools@).len(),
            forall|i: int|
                0 <= i < r.pools@.len() ==> configures(
                    #[trigger] r.pools@[i],
                    pools_with_url(data.pools@)[i],
                ),
    {
        let PoolGroupData { name, quota, pools } = data;
        let ghost all = pools@;
        let mut rest = pools;
        let mut out: Vec<PoolConfig> = Vec::new();
        let mut taken: usize = 0;
        let total = rest.len();
        while rest.len() > 0
            invariant
                total == all.len(),
                taken + rest@.len() == all.len(),
                rest@ == all.subrange(taken as int, all.len() as int),
                out@.len() == pools_with_url(all.subrange(0, taken as int)).len(),
                forall|i: int|
                    0 <= i < out@.len() ==> configures(
                        #[trigger] out@[i],
                        pools_with_url(all.subrange(0, taken as int))[i],
                    ),
            decreases rest@.len(),
        {
            let p = rest.remove(0);
            proof {
                assert(all.subrange(0, taken + 1) =~= all.subrange(0, taken as int).push(p));
                lemma_pools_with_url_push(all.subrange(0, taken as int), p);
            }
            let PoolData { url, user, .. } = p;
            match url {
                Some(u) => {
                    let username = match user {
                        Some(s) => s,
                        None => String::new(),
                    };
                    out.push(PoolConfig { url: u, username, password: String::from_str("x") });
                },
                None => {},
            }
            taken = taken + 1;
            assert(rest@ =~= all.subrange(taken as int, all.len() as int));
        }
        assert(all.subrange(0, taken as int) =~= all);
        PoolGroupConfig { name, quota, pools: out }
    }
}

impl From<PoolGroupData> for PoolGroupConfig {
    fn from(data: PoolGroupData) -> (r: Self)
        ensures
            r.name == data.name,
            r.quota == data.quota,
            r.pools@.len() == pools_with_url(data.pools@).len(),
            forall|i: int|
                0 <= i < r.pools@.len() ==> configures(
                    #[trigger] r.pools@[i],
                    pools_with_url(data.pools@)[i],
                ),
    {
        PoolGroupConfig::from_data(data)
    }
}

/// The configuration is related to the data by the `ensures` of `from`
/// above, the contract of `PoolGroupConfig::from_data`; no `from_spec` is
/// promised beside it.
impl vstd::std_specs::convert::FromSpecImpl<PoolGroupData> for PoolGroupConfig {
    open spec fn obeys_from_spec() -> bool {
        false
    }

    open spec fn from_spec(v: PoolGroupData) -> Self {
        arbitrary()
    }
}

/// A URL without a Stratum scheme is read as Stratum V1 over TCP: the
/// parser is handed `stratum+tcp://` and the text, while a text that names
/// `stratum+...` or `stratum2+...` is handed over as it is. A path `/k`
/// with a non-empty `k` carries the public key `k`; an empty path and `/`
/// carry none.
pub proof fn lemma_pool_url_parts(url: Seq<char>, key: Seq<char>)
    ensures
        !has_prefix(url, "stratum+"@) && !has_prefix(url, "stratum2+"@) ==> PoolURL::stratum_text(
            url,
        ) == "stratum+tcp://"@ + url,
        has_prefix(url, "stratum+"@) || has_prefix(url, "stratum2+"@) ==> PoolURL::stratum_text(url)
            == url,
        has_prefix(PoolURL::stratum_text(url), "stratum+"@) || has_prefix(
            PoolURL::stratum_text(url),
            "stratum2+"@,
        ),
        key.len() > 0 ==> PoolURL::pubkey_text("/"@ + key) == Some(key),
        PoolURL::pubkey_text(Seq::<char>::empty()) is None,
        PoolURL::pubkey_text("/"@) is None,
{
    reveal_strlit("stratum+");
    reveal_strlit("stratum2+");
    reveal_strlit("stratum+tcp://");
    reveal_strlit("/");
    let t = "stratum+tcp://"@ + url;
    assert(t.subrange(0, 8) =~= "stratum+"@);
    if key.len() > 0 {
        assert(("/"@ + key).len() != "/"@.len());
        assert(("/"@ + key).drop_first() =~= key);
    }
}

} // verus!
