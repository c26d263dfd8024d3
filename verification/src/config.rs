//! The configuration of a pass and the defaults of its optional keys.

use vstd::prelude::*;
use crate::address::Ipv4;
use crate::cloudflare::{
    DnsContent, DnsRecord, DnsRecordView, ListDnsRecords, ListDnsRecordsView, UpdateDnsRecord,
    UpdateDnsRecordView,
};

verus! {

/// Everything a pass is configured with.
pub struct Config {
    pub active: bool,
    pub ip_find: IpFindConfig,
    pub cloudflare: CloudflareConfig,
    pub cache: CacheConfig,
}

/// How the public address is looked up.
pub struct IpFindConfig {
    /// Lookup providers, in the order in which they are tried.
    pub finders: Vec<String>,
    /// Attempts granted to each provider beyond the first.
    pub retries: Option<u8>,
    /// Seconds allowed for each request.
    pub timeout: Option<u8>,
}

/// The DNS record to keep up to date, and the token that may change it.
pub struct CloudflareConfig {
    pub api_key: String,
    pub zone_id: String,
    pub record_name: String,
}

/// How the address sent last time is used.
pub struct CacheConfig {
    /// Report a looked-up address as new even when it equals the cached one.
    pub ignore: Option<bool>,
    /// Remember an address after it was written to the DNS record.
    pub persist: Option<bool>,
}

/// The token that authenticates requests to the DNS provider.
pub struct Credentials {
    pub token: String,
}

/// Credentials as the contracts speak of them.
pub struct CredentialsView {
    pub token: Seq<char>,
}

impl View for Credentials {
    type V = CredentialsView;

    open spec fn view(&self) -> CredentialsView {
        CredentialsView { token: self.token@ }
    }
}

impl Config {
    /// Whether the pass may do anything at all.
    pub fn is_active(&self) -> (active: bool)
        ensures
            active == self.active,
    {
        self.active
    }

    /// How the public address is looked up.
    pub fn get_ip_config(&self) -> (ip_find: &IpFindConfig)
        ensures
            *ip_find == self.ip_find,
    {
        &self.ip_find
    }

    /// Which DNS record is kept up to date, and with which token.
    pub fn get_cloudflare_config(&self) -> (cloudflare: &CloudflareConfig)
        ensures
            *cloudflare == self.cloudflare,
    {
        &self.cloudflare
    }

    /// How the address sent last time is used.
    pub fn get_cache_config(&self) -> (cache: &CacheConfig)
        ensures
            *cache == self.cache,
    {
        &self.cache
    }
}

impl Default for Config {
    /// An inactive configuration without providers, with empty DNS settings
    /// and every optional key unset.
    fn default() -> (config: Config)
        ensures
            !config.active,
            config.ip_find.finders@.len() == 0,
            config.ip_find.retries is None,
            config.ip_find.timeout is None,
            config.cloudflare.api_key@.len() == 0,
            config.cloudflare.zone_id@.len() == 0,
            config.cloudflare.record_name@.len() == 0,
            config.cache.ignore is None,
            config.cache.persist is None,
    {
        Config {
            active: false,
            ip_find: IpFindConfig { finders: Vec::new(), retries: None, timeout: None },
            cloudflare: CloudflareConfig {
                api_key: String::new(),
                zone_id: String::new(),
                record_name: String::new(),
            },
            cache: CacheConfig { ignore: None, persist: None },
        }
    }
}

impl IpFindConfig {
    /// The retry budget: 0 unless configured.
    pub open spec fn retries(&self) -> nat {
        match self.retries {
            Some(retries) => retries as nat,
            None => 0,
        }
    }

    /// The timeout in seconds: 1 unless configured.
    pub open spec fn timeout(&self) -> nat {
        match self.timeout {
            Some(timeout) => timeout as nat,
            None => 1,
        }
    }

    /// The providers, in the order in which they are tried.
    pub fn iter(&self) -> (iter: std::slice::Iter<'_, String>)
        ensures
            vstd::std_specs::slice::into_iter_elts(iter) == self.finders@,
    {
        let iter = self.finders.iter();
        iter
    }

    /// Attempts granted to each provider beyond the first: 0 unless
    /// configured.
    pub fn get_retries(&self) -> (retries: u8)
        ensures
            retries == self.retries(),
    {
        match self.retries {
            Some(retries) => retries,
            None => 0,
        }
    }

    /// Seconds allowed for each request: 1 unless configured.
    pub fn get_timeout(&self) -> (timeout: u8)
        ensures
            timeout == self.timeout(),
    {
        match self.timeout {
            Some(timeout) => timeout,
            None => 1,
        }
    }
}

impl CloudflareConfig {
    /// The credentials that the configured token makes.
    pub open spec fn credentials(&self) -> CredentialsView {
        CredentialsView { token: self.api_key@ }
    }

    /// The request that lists the records carrying the configured name.
    pub open spec fn list_request(&self) -> ListDnsRecordsView {
        ListDnsRecordsView { zone_identifier: self.zone_id@, name: self.record_name@ }
    }

    /// The request that points `record` at `ip`: addressed to the record by
    /// its identifier, it repeats the record's name, time to live and proxy
    /// flag and replaces the content alone.
    pub open spec fn update_request(&self, record: DnsRecordView, ip: Ipv4) -> UpdateDnsRecordView {
        UpdateDnsRecordView {
            zone_identifier: self.zone_id@,
            identifier: record.id,
            ttl: Some(record.ttl),
            proxied: Some(record.proxied),
            name: record.name,
            content: DnsContent::A { content: ip },
        }
    }

    /// The credentials for the DNS provider.
    pub fn get_creds(&self) -> (credentials: Credentials)
        ensures
            credentials@ == self.credentials(),
    {
        Credentials { token: self.api_key.clone() }
    }

    /// The request that lists the records carrying the configured name.
    pub fn get_list_request(&self) -> (request: ListDnsRecords)
        ensures
            request@ == self.list_request(),
    {
        ListDnsRecords {
            zone_identifier: self.zone_id.clone(),
            name: self.record_name.clone(),
        }
    }

    /// The request that points `record` at `ip` and changes nothing else.
    pub fn get_update_request(&self, record: &DnsRecord, ip: Ipv4) -> (request: UpdateDnsRecord)
        ensures
            request@ == self.update_request(record@, ip),
    {
        UpdateDnsRecord {
            zone_identifier: self.zone_id.clone(),
            identifier: record.id.clone(),
            ttl: Some(record.ttl),
            proxied: Some(record.proxied),
            name: record.name.clone(),
            content: DnsContent::A { content: ip },
        }
    }

    /// What may be shown of these settings: nothing, since they hold the
    /// token.
    pub fn redacted(&self) -> (text: &'static str)
        ensures
            text@ == "CloudflareConfig { REDACTED }"@,
    {
        "CloudflareConfig { REDACTED }"
    }

    /// The name of the DNS record.
    pub fn get_record_name(&self) -> (name: &str)
        ensures
            name@ == self.record_name@,
    {
        self.record_name.as_str()
    }
}

impl CacheConfig {
    /// Whether the cache is ignored: no unless configured.
    pub open spec fn ignores(&self) -> bool {
        self.ignore == Some(true)
    }

    /// Whether a written address is remembered: yes unless configured.
    pub open spec fn persists(&self) -> bool {
        self.persist != Some(false)
    }

    /// Whether the cache is ignored: no unless configured.
    pub fn get_ignore(&self) -> (ignore: bool)
        ensures
            ignore == self.ignores(),
    {
        match self.ignore {
            Some(ignore) => ignore,
            None => false,
        }
    }

    /// Whether a written address is remembered: yes unless configured.
    pub fn get_persist(&self) -> (persist: bool)
        ensures
            persist == self.persists(),
    {
        match self.persist {
            Some(persist) => persist,
            None => true,
        }
    }
}

} // verus!
