//! Service configuration, built from optional settings with defaults.

use vstd::prelude::*;
use vstd::string::{StringExecFns, StringSliceAdditionalSpecFns};
use vstd::utf8::encode_utf8;
use crate::error::ArgusError;
use crate::utils::{lowercase_of, to_lowercase};

verus! {

#[derive(Clone, Debug, PartialEq, Eq)]
pub struct ServerConfig {
    pub host: String,
    pub port: u16,
    pub log_level: String,
}

/// One chain's node endpoint and identifier.
#[derive(Clone, Debug, PartialEq, Eq)]
pub struct ChainConfig {
    pub rpc_url: String,
    pub chain_id: u64,
}

#[derive(Clone, Copy, Debug, PartialEq, Eq, Structural)]
pub enum CexProvider {
    Coinbase,
    Kraken,
    Binance,
}

#[derive(Clone, Copy, Debug, PartialEq, Eq, Structural)]
pub struct CexConfig {
    pub provider: CexProvider,
}

#[derive(Clone, Debug, PartialEq, Eq)]
pub struct TradingConfig {
    pub default_trade_size_eth: String,
}

#[derive(Clone, Debug, PartialEq, Eq)]
pub struct Config {
    pub server: ServerConfig,
    pub ethereum: ChainConfig,
    pub base: ChainConfig,
    pub cex: CexConfig,
    pub trading: TradingConfig,
}

/// Value of a sequence of ASCII decimal digits.
pub open spec fn digits_value(b: Seq<u8>) -> nat
    decreases b.len(),
{
    if b.len() == 0 {
        0
    } else {
        digits_value(b.drop_last()) * 10 + (b.last() - 48) as nat
    }
}

pub open spec fn all_digits(b: Seq<u8>) -> bool {
    forall|i: int| 0 <= i < b.len() ==> 48 <= #[trigger] b[i] <= 57
}

/// Text of a 16-bit unsigned integer: an optional `+`, then one or more
/// decimal digits whose value is at most 65535.
pub open spec fn spec_parse_u16(b: Seq<u8>) -> Option<u16> {
    let d = if b.len() > 0 && b[0] == 43 { b.drop_first() } else { b };
    if d.len() > 0 && all_digits(d) && digits_value(d) <= 65535 {
        Some(digits_value(d) as u16)
    } else {
        None
    }
}

proof fn lemma_prefix_value_le(d: Seq<u8>, k: int)
    requires
        all_digits(d),
        0 <= k <= d.len(),
    ensures
        digits_value(d.subrange(0, k)) <= digits_value(d),
    decreases d.len() - k,
{
    if k < d.len() {
        let p = d.subrange(0, k + 1);
        assert(p.drop_last() =~= d.subrange(0, k));
        assert(all_digits(p));
        lemma_prefix_value_le(d, k + 1);
    } else {
        assert(d.subrange(0, k) =~= d);
    }
}

/// Parses decimal text of a 16-bit unsigned integer, as `str::parse::<u16>` does.
pub fn parse_u16(s: &str) -> (r: Option<u16>)
    ensures
        r == spec_parse_u16(s.spec_bytes()),
{
    let b = s.as_bytes();
    let n = b.len();
    let start: usize = if n > 0 && b[0] == 43 { 1 } else { 0 };
    let ghost d = if b@.len() > 0 && b@[0] == 43 { b@.drop_first() } else { b@ };
    assert(d =~= b@.subrange(start as int, n as int));
    assert(spec_parse_u16(b@) == (if d.len() > 0 && all_digits(d) && digits_value(d) <= 65535 {
        Some(digits_value(d) as u16)
    } else {
        None
    }));
    if start == n {
        return None;
    }
    let mut acc: u32 = 0;
    let mut i: usize = start;
    while i < n
        invariant
            n == b@.len(),
            start <= i <= n,
            d == b@.subrange(start as int, n as int),
            b@ == s.spec_bytes(),
            spec_parse_u16(b@) == (if d.len() > 0 && all_digits(d) && digits_value(d) <= 65535 {
                Some(digits_value(d) as u16)
            } else {
                None
            }),
            acc <= 65535,
            all_digits(d.subrange(0, i - start)),
            acc == digits_value(d.subrange(0, i - start)),
        decreases n - i,
    {
        let c = b[i];
        if c < 48 || c > 57 {
            proof {
                let j = (i - start) as int;
                assert(d[j] == c);
                assert(!all_digits(d));
                assert(spec_parse_u16(b@) is None);
            }
            return None;
        }
        let next = acc * 10 + (c - 48) as u32;
        proof {
            let p = d.subrange(0, i - start + 1);
            assert(p.drop_last() =~= d.subrange(0, i - start));
            assert(p.last() == c);
            assert(all_digits(p));
            assert(digits_value(p) == next);
        }
        if next > 65535 {
            proof {
                if all_digits(d) {
                    lemma_prefix_value_le(d, i - start + 1);
                    assert(digits_value(d) > 65535);
                }
                assert(spec_parse_u16(b@) is None);
            }
            return None;
        }
        acc = next;
        i = i + 1;
    }
    assert(d.subrange(0, n - start) =~= d);
    Some(acc as u16)
}

/// The provider named by `s`, whatever its letter case.
pub open spec fn spec_provider(s: Seq<char>) -> Option<CexProvider> {
    let l = lowercase_of(s);
    if l == "coinbase"@ {
        Some(CexProvider::Coinbase)
    } else if l == "kraken"@ {
        Some(CexProvider::Kraken)
    } else if l == "binance"@ {
        Some(CexProvider::Binance)
    } else {
        None
    }
}

impl CexProvider {
    /// Parses a provider name, ignoring letter case.
    pub fn parse(s: &str) -> (r: Result<CexProvider, ArgusError>)
        ensures
            spec_provider(s@) is Some ==> r == Ok::<CexProvider, ArgusError>(spec_provider(s@)->0),
            spec_provider(s@) is None ==> r is Err && r->Err_0 is ConfigError,
    {
        let l = to_lowercase(s);
        if l == String::from_str("coinbase") {
            Ok(CexProvider::Coinbase)
        } else if l == String::from_str("kraken") {
            Ok(CexProvider::Kraken)
        } else if l == String::from_str("binance") {
            Ok(CexProvider::Binance)
        } else {
            Err(ArgusError::ConfigError(String::from_str("Unknown CEX provider: ").concat(s)))
        }
    }
}

impl std::str::FromStr for CexProvider {
    type Err = ArgusError;

    fn from_str(s: &str) -> Result<CexProvider, ArgusError> {
        CexProvider::parse(s)
    }
}

pub const DEFAULT_HOST: &'static str = "0.0.0.0";

pub const DEFAULT_PORT: u16 = 8080;

pub const DEFAULT_LOG_LEVEL: &'static str = "info";

pub const DEFAULT_TRADE_SIZE_ETH: &'static str = "10";

impl Config {
    /// Builds the configuration from optional settings: host, port and log
    /// level have defaults, both node URLs are required, an unknown or absent
    /// provider falls back to Coinbase, and the chain identifiers are fixed.
    pub fn from_settings(
        host: Option<String>,
        port: Option<String>,
        log_level: Option<String>,
        ethereum_rpc_url: Option<String>,
        base_rpc_url: Option<String>,
        cex_provider: Option<String>,
    ) -> (r: Result<Config, ArgusError>)
        ensures
            port is Some && spec_parse_u16(encode_utf8(port->0@)) is None ==> r is Err && r->Err_0 is ConfigError,
            (port is None || spec_parse_u16(encode_utf8(port->0@)) is Some) && ethereum_rpc_url is None ==> r is Err && r->Err_0 is ConfigError,
            (port is None || spec_parse_u16(encode_utf8(port->0@)) is Some) && ethereum_rpc_url is Some && base_rpc_url is None
                ==> r is Err && r->Err_0 is ConfigError,
            r is Ok <==> ((port is None || spec_parse_u16(encode_utf8(port->0@)) is Some) && ethereum_rpc_url is Some && base_rpc_url is Some),
            r is Ok ==> {
                let c = r->Ok_0;
                &&& c.server.host@ == if host is Some { host->0@ } else { DEFAULT_HOST@ }
                &&& c.server.port == if port is Some { spec_parse_u16(encode_utf8(port->0@))->0 } else { DEFAULT_PORT }
                &&& c.server.log_level@ == if log_level is Some { log_level->0@ } else { DEFAULT_LOG_LEVEL@ }
                &&& c.ethereum.rpc_url@ == ethereum_rpc_url->0@
                &&& c.ethereum.chain_id == crate::gas::ETHEREUM_CHAIN_ID
                &&& c.base.rpc_url@ == base_rpc_url->0@
                &&& c.base.chain_id == crate::gas::BASE_CHAIN_ID
                &&& c.cex.provider == if cex_provider is Some && spec_provider(cex_provider->0@) is Some {
                    spec_provider(cex_provider->0@)->0
                } else {
                    CexProvider::Coinbase
                }
                &&& c.trading.default_trade_size_eth@ == DEFAULT_TRADE_SIZE_ETH@
            },
    {
        let host = match host {
            Some(h) => h,
            None => String::from_str(DEFAULT_HOST),
        };
        let port = match port {
            Some(p) => match parse_u16(p.as_str()) {
                Some(v) => v,
                None => return Err(ArgusError::ConfigError(String::from_str("Invalid port: ").concat(p.as_str()))),
            },
            None => DEFAULT_PORT,
        };
        let log_level = match log_level {
            Some(l) => l,
            None => String::from_str(DEFAULT_LOG_LEVEL),
        };
        let ethereum_rpc_url = match ethereum_rpc_url {
            Some(u) => u,
            None => return Err(ArgusError::ConfigError(String::from_str("ETHEREUM_RPC_URL not set"))),
        };
        let base_rpc_url = match base_rpc_url {
            Some(u) => u,
            None => return Err(ArgusError::ConfigError(String::from_str("BASE_RPC_URL not set"))),
        };
        let provider = match cex_provider {
            Some(p) => match CexProvider::parse(p.as_str()) {
                Ok(v) => v,
                Err(_) => CexProvider::Coinbase,
            },
            None => CexProvider::Coinbase,
        };
        Ok(
            Config {
                server: ServerConfig { host, port, log_level },
                ethereum: ChainConfig { rpc_url: ethereum_rpc_url, chain_id: crate::gas::ETHEREUM_CHAIN_ID },
                base: ChainConfig { rpc_url: base_rpc_url, chain_id: crate::gas::BASE_CHAIN_ID },
                cex: CexConfig { provider },
                trading: TradingConfig { default_trade_size_eth: String::from_str(DEFAULT_TRADE_SIZE_ETH) },
            },
        )
    }
}

} // verus!
