use cloudflare_ddns::address::Ipv4;
use cloudflare_ddns::cloudflare::{DnsContent, DnsRecord};
use cloudflare_ddns::config::{CacheConfig, CloudflareConfig, Config, IpFindConfig};

fn sample() -> Config {
    Config {
        active: true,
        ip_find: IpFindConfig {
            finders: vec!["https://a.example/ip".to_string(), "https://b.example/".to_string()],
            retries: Some(3),
            timeout: Some(10),
        },
        cloudflare: CloudflareConfig {
            api_key: "t0ken".to_string(),
            zone_id: "zone-1".to_string(),
            record_name: "home.example.org".to_string(),
        },
        cache: CacheConfig { ignore: Some(true), persist: Some(false) },
    }
}

#[test]
fn default_config_is_inactive_and_empty() {
    let config = Config::default();
    assert!(!config.is_active());
    assert_eq!(config.get_ip_config().iter().count(), 0);
    assert_eq!(config.ip_find.retries, None);
    assert_eq!(config.ip_find.timeout, None);
    assert_eq!(config.cloudflare.api_key, "");
    assert_eq!(config.cloudflare.zone_id, "");
    assert_eq!(config.get_cloudflare_config().get_record_name(), "");
    assert_eq!(config.cache.ignore, None);
    assert_eq!(config.cache.persist, None);
}

#[test]
fn unset_keys_take_their_defaults() {
    let config = Config::default();
    assert_eq!(config.get_ip_config().get_retries(), 0);
    assert_eq!(config.get_ip_config().get_timeout(), 1);
    assert!(!config.get_cache_config().get_ignore());
    assert!(config.get_cache_config().get_persist());
}

#[test]
fn set_keys_are_returned_as_they_are() {
    let config = sample();
    assert!(config.is_active());
    assert_eq!(config.get_ip_config().get_retries(), 3);
    assert_eq!(config.get_ip_config().get_timeout(), 10);
    assert!(config.get_cache_config().get_ignore());
    assert!(!config.get_cache_config().get_persist());
    assert_eq!(config.get_cloudflare_config().get_record_name(), "home.example.org");
}

#[test]
fn zero_and_false_are_values_not_defaults() {
    let ip_find = IpFindConfig { finders: Vec::new(), retries: Some(0), timeout: Some(0) };
    assert_eq!(ip_find.get_retries(), 0);
    assert_eq!(ip_find.get_timeout(), 0);
    let cache = CacheConfig { ignore: Some(false), persist: Some(true) };
    assert!(!cache.get_ignore());
    assert!(cache.get_persist());
}

#[test]
fn iter_walks_the_finders_in_order() {
    let config = sample();
    let finders: Vec<&String> = config.get_ip_config().iter().collect();
    assert_eq!(finders, vec!["https://a.example/ip", "https://b.example/"]);
}

#[test]
fn credentials_carry_the_api_key() {
    let config = sample();
    assert_eq!(config.get_cloudflare_config().get_creds().token, "t0ken");
}

#[test]
fn list_request_names_zone_and_record() {
    let request = sample().get_cloudflare_config().get_list_request();
    assert_eq!(request.zone_identifier, "zone-1");
    assert_eq!(request.name, "home.example.org");
}

#[test]
fn update_request_keeps_everything_but_the_content() {
    let record = DnsRecord {
        id: "rec-9".to_string(),
        name: "home.example.org".to_string(),
        ttl: 120,
        proxied: false,
        content: DnsContent::A { content: Ipv4::new(198, 51, 100, 1) },
    };
    let ip = Ipv4::new(203, 0, 113, 7);
    let request = sample().get_cloudflare_config().get_update_request(&record, ip);
    assert_eq!(request.zone_identifier, "zone-1");
    assert_eq!(request.identifier, "rec-9");
    assert_eq!(request.name, "home.example.org");
    assert_eq!(request.ttl, Some(120));
    assert_eq!(request.proxied, Some(false));
    assert_eq!(request.content, DnsContent::A { content: ip });
}

#[test]
fn cloudflare_settings_are_never_shown() {
    let text = sample().get_cloudflare_config().redacted();
    assert_eq!(text, "CloudflareConfig { REDACTED }");
    assert!(!text.contains("zone-1"));
}
