//! Configuration consumed by the adapter and its default values.

use vstd::prelude::*;
use crate::text::str_eq;

verus! {

#[derive(Debug, Clone)]
pub struct ServerConfig {
    pub host: String,
    pub port: u16,
    pub request_timeout: u64,
}

#[derive(Debug, Clone)]
pub struct UdsConfig {
    pub interface: String,
    pub default_address: u32,
    /// Per-request timeout in milliseconds.
    pub timeout: u32,
    pub max_retries: u32,
}

#[derive(Debug, Clone)]
pub struct DoipConfig {
    pub enabled: bool,
    pub target_address: String,
    pub port: u16,
    pub source_address: u32,
    pub target_logical_address: u32,
}

#[derive(Debug, Clone)]
pub struct LoggingConfig {
    pub level: String,
    pub format: String,
    pub log_file: String,
    pub log_requests: bool,
}

#[derive(Debug, Clone)]
pub struct SecurityConfig {
    pub require_security_access: bool,
    pub security_level: u8,
}

#[derive(Debug, Clone)]
pub struct PerformanceConfig {
    pub max_concurrent_requests: usize,
    pub connection_pool_size: usize,
}

/// Adapter configuration. `components` maps component ids to ECU
/// addresses; the first entry with a given id counts.
#[derive(Debug, Clone)]
pub struct Config {
    pub server: ServerConfig,
    pub uds: UdsConfig,
    pub doip: DoipConfig,
    pub logging: LoggingConfig,
    pub components: Vec<(String, u32)>,
    pub security: SecurityConfig,
    pub performance: PerformanceConfig,
}

/// Address of the first entry with id `id`, if any.
pub open spec fn component_entry(s: Seq<(String, u32)>, id: Seq<char>) -> Option<u32>
    decreases s.len(),
{
    if s.len() == 0 {
        None
    } else if s[0].0@ == id {
        Some(s[0].1)
    } else {
        component_entry(s.drop_first(), id)
    }
}

impl Config {
    /// The configured address of the component, or the default address
    /// when the component is not configured.
    pub open spec fn spec_component_address(&self, id: Seq<char>) -> u32 {
        match component_entry(self.components@, id) {
            Some(a) => a,
            None => self.uds.default_address,
        }
    }

    /// ECU address of a component; falls back to the default address, so
    /// the result is always present.
    pub fn get_component_address(&self, component_id: &str) -> (r: Option<u32>)
        ensures
            r == Some(self.spec_component_address(component_id@)),
    {
        let mut i: usize = 0;
        assert(self.components@.subrange(0, self.components@.len() as int) =~= self.components@);
        while i < self.components.len()
            invariant
                i <= self.components@.len(),
                component_entry(self.components@, component_id@)
                    == component_entry(self.components@.subrange(i as int, self.components@.len() as int), component_id@),
            decreases self.components@.len() - i,
        {
            let ghost rest = self.components@.subrange(i as int, self.components@.len() as int);
            assert(rest.drop_first() =~= self.components@.subrange(i + 1, self.components@.len() as int));
            if str_eq(self.components[i].0.as_str(), component_id) {
                return Some(self.components[i].1);
            }
            i = i + 1;
        }
        Some(self.uds.default_address)
    }
}

/// The component table of the default configuration.
pub open spec fn default_components() -> Seq<(Seq<char>, u32)> {
    seq![("engine"@, 0x7E0u32), ("transmission"@, 0x7E1u32), ("abs"@, 0x7E2u32), ("airbag"@, 0x7E3u32)]
}

impl Default for Config {
    fn default() -> (r: Config)
        ensures
            r.server.host@ == "127.0.0.1"@,
            r.server.port == 8081,
            r.server.request_timeout == 30,
            r.uds.interface@ == "can0"@,
            r.uds.default_address == 0x7E0,
            r.uds.timeout == 5000,
            r.uds.max_retries == 3,
            r.doip.enabled,
            r.doip.target_address@ == "192.168.1.100"@,
            r.doip.port == 13400,
            r.doip.source_address == 0x0E80,
            r.doip.target_logical_address == 0x1000,
            r.logging.level@ == "info"@,
            r.logging.format@ == "pretty"@,
            r.logging.log_file@ == "sovd2uds-adapter.log"@,
            r.logging.log_requests,
            r.components@.len() == 4,
            forall|i: int| 0 <= i < 4 ==> (#[trigger] r.components@[i]).0@ == default_components()[i].0
                && r.components@[i].1 == default_components()[i].1,
            !r.security.require_security_access,
            r.security.security_level == 0x01,
            r.performance.max_concurrent_requests == 10,
            r.performance.connection_pool_size == 5,
    {
        let mut components: Vec<(String, u32)> = Vec::new();
        components.push((String::from_str("engine"), 0x7E0));
        components.push((String::from_str("transmission"), 0x7E1));
        components.push((String::from_str("abs"), 0x7E2));
        components.push((String::from_str("airbag"), 0x7E3));
        Config {
            server: ServerConfig {
                host: String::from_str("127.0.0.1"),
                port: 8081,
                request_timeout: 30,
            },
            uds: UdsConfig {
                interface: String::from_str("can0"),
                default_address: 0x7E0,
                timeout: 5000,
                max_retries: 3,
            },
            doip: DoipConfig {
                enabled: true,
                target_address: String::from_str("192.168.1.100"),
                port: 13400,
                source_address: 0x0E80,
                target_logical_address: 0x1000,
            },
            logging: LoggingConfig {
                level: String::from_str("info"),
                format: String::from_str("pretty"),
                log_file: String::from_str("sovd2uds-adapter.log"),
                log_requests: true,
            },
            components,
            security: SecurityConfig { require_security_access: false, security_level: 0x01 },
            performance: PerformanceConfig { max_concurrent_requests: 10, connection_pool_size: 5 },
        }
    }
}

} // verus!
