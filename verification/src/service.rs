//! The order of a pass: search, update, store.
//!
//! A pass looks up the public address, writes it to the DNS record when it is
//! new, and stores it for the next pass. Each function here names what comes
//! next once a part of the pass has ended.

use vstd::prelude::*;
use crate::address::Ipv4;
use crate::cloudflare::ReconcileError;
use crate::config::Config;
use crate::ip_find::IpResult;
use crate::state::State;

verus! {

/// How a pass ended.
#[derive(Clone, Copy, Debug, PartialEq, Eq, Structural)]
pub enum Ending {
    /// The configuration is not active: nothing was done.
    Inactive,
    /// The public address is the one written last time: nothing was written.
    Unchanged,
    /// The DNS record holds the new address.
    Updated,
    /// No provider returned an address.
    NoAddress,
    /// The DNS record could not be changed.
    NotUpdated(ReconcileError),
    /// The DNS record holds the new address, but the cache could not be
    /// stored.
    NotStored,
}

/// What a pass does next.
#[derive(Clone, Copy, Debug, PartialEq, Eq, Structural)]
pub enum Step {
    /// Look up the public address.
    Search,
    /// Write this address to the DNS record.
    Update(Ipv4),
    /// Store this cache.
    Store(State),
    /// Stop.
    Finish(Ending),
}

impl Ending {
    /// Whether the pass did what it was asked to do. Having nothing to do is
    /// no failure.
    pub open spec fn is_success(self) -> bool {
        self == Ending::Inactive || self == Ending::Unchanged || self == Ending::Updated
    }

    /// The exit status of the process: 0 after a success, 1 after a failure.
    pub fn exit_code(&self) -> (code: u8)
        ensures
            code == if self.is_success() {
                0u8
            } else {
                1u8
            },
    {
        match self {
            Ending::Inactive | Ending::Unchanged | Ending::Updated => 0,
            _ => 1,
        }
    }
}

/// The first step: an inactive configuration ends the pass before any
/// request is made.
pub fn start(config: &Config) -> (step: Step)
    ensures
        step == if config.active {
            Step::Search
        } else {
            Step::Finish(Ending::Inactive)
        },
{
    if config.is_active() {
        Step::Search
    } else {
        Step::Finish(Ending::Inactive)
    }
}

/// The step after the search. Only a found address leads to an update.
pub fn after_search(result: IpResult) -> (step: Step)
    ensures
        step == match result {
            IpResult::Found(ip) => Step::Update(ip),
            IpResult::MatchesCache => Step::Finish(Ending::Unchanged),
            IpResult::NotFound => Step::Finish(Ending::NoAddress),
        },
{
    match result {
        IpResult::Found(ip) => Step::Update(ip),
        IpResult::MatchesCache => Step::Finish(Ending::Unchanged),
        IpResult::NotFound => Step::Finish(Ending::NoAddress),
    }
}

/// The step after the update, with the cache as the update left it. The
/// cache is stored only after a successful update, and only when the
/// configuration remembers addresses; otherwise the store is not touched.
pub fn after_update(
    config: &Config,
    result: Result<(), ReconcileError>,
    state: Option<State>,
) -> (step: Step)
    ensures
        step == match result {
            Err(error) => Step::Finish(Ending::NotUpdated(error)),
            Ok(_) => match state {
                Some(cache) if config.cache.persists() => Step::Store(cache),
                _ => Step::Finish(Ending::Updated),
            },
        },
{
    match result {
        Err(error) => Step::Finish(Ending::NotUpdated(error)),
        Ok(_) => match state {
            Some(cache) => {
                if config.get_cache_config().get_persist() {
                    Step::Store(cache)
                } else {
                    Step::Finish(Ending::Updated)
                }
            },
            None => Step::Finish(Ending::Updated),
        },
    }
}

/// The step after the attempt to store the cache.
pub fn after_store(stored: bool) -> (step: Step)
    ensures
        step == Step::Finish(
            if stored {
                Ending::Updated
            } else {
                Ending::NotStored
            },
        ),
{
    if stored {
        Step::Finish(Ending::Updated)
    } else {
        Step::Finish(Ending::NotStored)
    }
}

} // verus!
