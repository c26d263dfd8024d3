use cloudflare_ddns::address::Ipv4;
use cloudflare_ddns::cloudflare::ReconcileError;
use cloudflare_ddns::config::Config;
use cloudflare_ddns::ip_find::IpResult;
use cloudflare_ddns::service::{after_search, after_store, after_update, start, Ending, Step};
use cloudflare_ddns::state::State;

fn config(active: bool, persist: Option<bool>) -> Config {
    let mut config = Config::default();
    config.active = active;
    config.cache.persist = persist;
    config
}

#[test]
fn inactive_config_ends_the_pass_at_once() {
    assert_eq!(start(&Config::default()), Step::Finish(Ending::Inactive));
    assert_eq!(start(&config(false, None)), Step::Finish(Ending::Inactive));
    assert_eq!(Ending::Inactive.exit_code(), 0);
}

#[test]
fn active_config_starts_with_the_search() {
    assert_eq!(start(&config(true, None)), Step::Search);
}

#[test]
fn found_address_is_written() {
    let ip = Ipv4::new(203, 0, 113, 7);
    assert_eq!(after_search(IpResult::Found(ip)), Step::Update(ip));
}

#[test]
fn cache_match_ends_the_pass_without_dns_call() {
    assert_eq!(after_search(IpResult::MatchesCache), Step::Finish(Ending::Unchanged));
    assert_eq!(Ending::Unchanged.exit_code(), 0);
}

#[test]
fn missing_address_fails_the_pass() {
    assert_eq!(after_search(IpResult::NotFound), Step::Finish(Ending::NoAddress));
    assert_ne!(Ending::NoAddress.exit_code(), 0);
}

#[test]
fn failed_update_fails_the_pass_and_stores_nothing() {
    let state = Some(State { last_sent_ip: Some(Ipv4::new(203, 0, 113, 7)) });
    for error in [
        ReconcileError::Connect,
        ReconcileError::List,
        ReconcileError::NotFound,
        ReconcileError::Ambiguous,
        ReconcileError::Update,
    ] {
        let step = after_update(&config(true, None), Err(error), state);
        assert_eq!(step, Step::Finish(Ending::NotUpdated(error)));
        assert_eq!(Ending::NotUpdated(error).exit_code(), 1);
    }
}

#[test]
fn new_cache_is_stored_after_the_update() {
    let cache = State { last_sent_ip: Some(Ipv4::new(203, 0, 113, 7)) };
    assert_eq!(after_update(&config(true, None), Ok(()), Some(cache)), Step::Store(cache));
    assert_eq!(after_update(&config(true, Some(true)), Ok(()), Some(cache)), Step::Store(cache));
}

#[test]
fn store_is_untouched_when_persisting_is_off() {
    let cache = State { last_sent_ip: Some(Ipv4::new(198, 51, 100, 1)) };
    let config = config(true, Some(false));
    assert_eq!(after_update(&config, Ok(()), Some(cache)), Step::Finish(Ending::Updated));
    assert_eq!(after_update(&config, Ok(()), None), Step::Finish(Ending::Updated));
}

#[test]
fn store_result_ends_the_pass() {
    assert_eq!(after_store(true), Step::Finish(Ending::Updated));
    assert_eq!(after_store(false), Step::Finish(Ending::NotStored));
    assert_eq!(Ending::Updated.exit_code(), 0);
    assert_eq!(Ending::NotStored.exit_code(), 1);
}
