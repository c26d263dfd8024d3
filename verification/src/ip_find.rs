//! Finding the public address.
//!
//! Lookup providers are asked one at a time, in the configured order. Each
//! gets a first attempt and as many further attempts as the retry budget
//! allows; the first address that any of them returns ends the search. This
//! module decides which request comes next and what a reply means; the caller
//! sends the requests.

use vstd::prelude::*;
use crate::address::{address_of, trimmed, Ipv4};
use crate::config::Config;
use crate::outside::{is_url, parse_url};
use crate::state::State;

verus! {

/// A lookup provider whose configured text is a URL.
pub struct Endpoint {
    /// The provider's position in the configured list.
    pub provider: usize,
    pub url: reqwest::Url,
}

/// The positions of the providers whose text is a URL, in ascending order.
pub open spec fn usable(finders: Seq<String>) -> Seq<int>
    decreases finders.len(),
{
    if finders.len() == 0 {
        Seq::empty()
    } else if is_url(finders.last()@) {
        usable(finders.drop_last()).push(finders.len() - 1)
    } else {
        usable(finders.drop_last())
    }
}

/// The positions that a list of endpoints came from.
pub open spec fn positions(endpoints: Seq<Endpoint>) -> Seq<int> {
    endpoints.map_values(|endpoint: Endpoint| endpoint.provider as int)
}

/// The providers that can be asked, in the configured order. A provider whose
/// text is not a URL is left out; it takes nothing from the others' budget.
pub fn endpoints(config: &Config) -> (list: Vec<Endpoint>)
    ensures
        positions(list@) == usable(config.ip_find.finders@),
{
    let finders = &config.get_ip_config().finders;
    let mut list: Vec<Endpoint> = Vec::new();
    let mut at: usize = 0;
    while at < finders.len()
        invariant
            at <= finders.len(),
            positions(list@) == usable(finders@.take(at as int)),
        decreases finders.len() - at,
    {
        assert(finders@.take(at + 1).drop_last() == finders@.take(at as int));
        match parse_url(finders[at].as_str()) {
            Some(url) => {
                list.push(Endpoint { provider: at, url });
            },
            None => {},
        }
        at = at + 1;
    }
    assert(finders@.take(at as int) == finders@);
    list
}

/// How a search ended.
#[derive(Clone, Copy, Debug, PartialEq, Eq, Structural)]
pub enum IpResult {
    /// A provider returned this address, and it is to be written.
    Found(Ipv4),
    /// A provider returned the address that was written last time.
    MatchesCache,
    /// No provider returned an address.
    NotFound,
}

/// One request to a lookup provider.
#[derive(Clone, Copy, Debug, PartialEq, Eq, Structural)]
pub struct Lookup {
    /// Which endpoint to ask: a position in the list of endpoints.
    pub endpoint: usize,
    /// How many attempts on this endpoint came before this one.
    pub attempt: u8,
    /// Whether the endpoint gets no further attempt after this one, so that
    /// a failure is to be logged as final.
    pub last_attempt: bool,
    /// Seconds after which the request is given up.
    pub timeout_secs: u64,
}

/// How a request to a lookup provider ended.
pub enum Reply {
    /// The provider answered with a success status and this body.
    Body(String),
    /// The request failed, timed out, was answered with another status, or
    /// its body could not be read.
    Failed,
}

/// What follows a reply: another request, or the end of the search.
#[derive(Clone, Copy, Debug, PartialEq, Eq, Structural)]
pub enum FindStep {
    Fetch(Lookup),
    Done(IpResult),
}

/// The request that is attempt number `attempt` on `endpoint`.
pub open spec fn lookup_at(config: Config, endpoint: int, attempt: int) -> Lookup {
    Lookup {
        endpoint: endpoint as usize,
        attempt: attempt as u8,
        last_attempt: attempt >= config.ip_find.retries(),
        timeout_secs: config.ip_find.timeout() as u64,
    }
}

/// The address that a reply holds: the one whose dotted-decimal text the
/// body is, white space around it aside.
pub open spec fn candidate(reply: Reply) -> Option<Ipv4> {
    match reply {
        Reply::Body(text) => address_of(trimmed(text@)),
        Reply::Failed => None,
    }
}

/// What an address that a provider returned means for the pass: it matches
/// the cache when the cache is consulted and holds this very address, and is
/// found otherwise.
pub open spec fn verdict(ignore_cache: bool, state: Option<State>, ip: Ipv4) -> IpResult {
    if !ignore_cache && state == Some(State { last_sent_ip: Some(ip) }) {
        IpResult::MatchesCache
    } else {
        IpResult::Found(ip)
    }
}

/// How a search among `endpoints` endpoints starts.
pub open spec fn first_step(config: Config, endpoints: usize) -> FindStep {
    if endpoints == 0 {
        FindStep::Done(IpResult::NotFound)
    } else {
        FindStep::Fetch(lookup_at(config, 0, 0))
    }
}

/// What follows when the reply to `lookup` held `found`.
///
/// An address ends the search. Without one, the same endpoint is asked again
/// while its budget lasts, then the next endpoint, and after the last
/// endpoint the search ends with `NotFound`.
pub open spec fn next_step(
    config: Config,
    state: Option<State>,
    endpoints: usize,
    lookup: Lookup,
    found: Option<Ipv4>,
) -> FindStep {
    match found {
        Some(ip) => FindStep::Done(verdict(config.cache.ignores(), state, ip)),
        None => {
            if lookup.attempt < config.ip_find.retries() {
                FindStep::Fetch(lookup_at(config, lookup.endpoint as int, lookup.attempt + 1))
            } else if lookup.endpoint + 1 < endpoints {
                FindStep::Fetch(lookup_at(config, lookup.endpoint + 1, 0))
            } else {
                FindStep::Done(IpResult::NotFound)
            }
        },
    }
}

/// Holds a returned address against the cache.
pub fn check_cache(ignore_cache: bool, state: &Option<State>, ip: Ipv4) -> (result: IpResult)
    ensures
        result == verdict(ignore_cache, *state, ip),
        ignore_cache ==> result == IpResult::Found(ip),
        !ignore_cache && *state == Some(State { last_sent_ip: Some(ip) }) ==> result
            == IpResult::MatchesCache,
        !ignore_cache && *state != Some(State { last_sent_ip: Some(ip) }) ==> result
            == IpResult::Found(ip),
{
    if ignore_cache {
        return IpResult::Found(ip);
    }
    match state {
        Some(State { last_sent_ip: Some(cached_ip) }) => {
            if *cached_ip == ip {
                IpResult::MatchesCache
            } else {
                IpResult::Found(ip)
            }
        },
        _ => IpResult::Found(ip),
    }
}

/// Reads the address out of a reply.
pub fn read_reply(reply: &Reply) -> (found: Option<Ipv4>)
    ensures
        found == candidate(*reply),
{
    match reply {
        Reply::Body(text) => Ipv4::parse_trimmed(text.as_str()),
        Reply::Failed => None,
    }
}

fn make_lookup(config: &Config, endpoint: usize, attempt: u8) -> (lookup: Lookup)
    ensures
        lookup == lookup_at(*config, endpoint as int, attempt as int),
{
    let ip_config = config.get_ip_config();
    Lookup {
        endpoint,
        attempt,
        last_attempt: attempt >= ip_config.get_retries(),
        timeout_secs: ip_config.get_timeout() as u64,
    }
}

/// Opens a search among `endpoints`.
pub fn start_search(config: &Config, endpoints: &Vec<Endpoint>) -> (step: FindStep)
    ensures
        step == first_step(*config, endpoints.len()),
{
    if endpoints.len() == 0 {
        FindStep::Done(IpResult::NotFound)
    } else {
        FindStep::Fetch(make_lookup(config, 0, 0))
    }
}

/// Continues a search among `endpoints`: `reply` is how `lookup`, the request
/// asked for last, ended. `state` is the cache.
pub fn find_public_ip(
    config: &Config,
    state: &Option<State>,
    endpoints: &Vec<Endpoint>,
    lookup: &Lookup,
    reply: &Reply,
) -> (step: FindStep)
    ensures
        step == next_step(*config, *state, endpoints.len(), *lookup, candidate(*reply)),
{
    match read_reply(reply) {
        Some(ip) => FindStep::Done(check_cache(config.get_cache_config().get_ignore(), state, ip)),
        None => {
            if lookup.attempt < config.get_ip_config().get_retries() {
                FindStep::Fetch(make_lookup(config, lookup.endpoint, lookup.attempt + 1))
            } else if lookup.endpoint < endpoints.len() && lookup.endpoint + 1 < endpoints.len() {
                FindStep::Fetch(make_lookup(config, lookup.endpoint + 1, 0))
            } else {
                FindStep::Done(IpResult::NotFound)
            }
        },
    }
}

/// A whole search: the requests made, in order, and how the search ended.
pub struct Search {
    pub contacts: Seq<Lookup>,
    pub result: IpResult,
}

/// How many endpoints can still be asked when `step` is due, the one that
/// `step` asks included.
pub open spec fn endpoints_left(endpoints: usize, step: FindStep) -> nat {
    match step {
        FindStep::Fetch(lookup) => if lookup.endpoint < endpoints {
            (endpoints - lookup.endpoint) as nat
        } else {
            1
        },
        FindStep::Done(_) => 0,
    }
}

/// How many further attempts the endpoint of `step` has after `step`.
pub open spec fn attempts_left(config: Config, step: FindStep) -> nat {
    match step {
        FindStep::Fetch(lookup) => if lookup.attempt < config.ip_find.retries() {
            (config.ip_find.retries() - lookup.attempt) as nat
        } else {
            0
        },
        FindStep::Done(_) => 0,
    }
}

/// The search from `step` on, when each request `l` is answered by
/// `replies(l)`. A search makes no request twice, so nothing is lost by
/// having equal requests answered alike.
pub open spec fn search_from(
    config: Config,
    state: Option<State>,
    endpoints: usize,
    replies: spec_fn(Lookup) -> Reply,
    step: FindStep,
) -> Search
    decreases endpoints_left(endpoints, step), attempts_left(config, step),
{
    match step {
        FindStep::Done(result) => Search { contacts: Seq::empty(), result },
        FindStep::Fetch(lookup) => {
            let next = next_step(config, state, endpoints, lookup, candidate(replies(lookup)));
            let rest = search_from(config, state, endpoints, replies, next);
            Search { contacts: seq![lookup] + rest.contacts, result: rest.result }
        },
    }
}

/// The search among `endpoints` endpoints, from its first request on.
pub open spec fn search(
    config: Config,
    state: Option<State>,
    endpoints: usize,
    replies: spec_fn(Lookup) -> Reply,
) -> Search {
    search_from(config, state, endpoints, replies, first_step(config, endpoints))
}

/// The attempts `from` to `to`, both included, on one endpoint.
pub open spec fn attempts(config: Config, endpoint: int, from: int, to: int) -> Seq<Lookup> {
    Seq::new((to - from + 1) as nat, |i: int| lookup_at(config, endpoint, from + i))
}

/// Every attempt that the budget allows, on each of the endpoints `from` to
/// `to - 1`, endpoint by endpoint.
pub open spec fn rounds(config: Config, from: int, to: int) -> Seq<Lookup>
    decreases to - from,
{
    if from >= to {
        Seq::empty()
    } else {
        rounds(config, from, to - 1) + attempts(
            config,
            to - 1,
            0,
            config.ip_find.retries() as int,
        )
    }
}

/// Whether `endpoint` returns no address on any attempt from `from` on.
pub open spec fn fails_from(
    config: Config,
    replies: spec_fn(Lookup) -> Reply,
    endpoint: int,
    from: int,
) -> bool {
    forall|attempt: int|
        from <= attempt <= config.ip_find.retries() ==> candidate(
            replies(#[trigger] lookup_at(config, endpoint, attempt)),
        ) is None
}

/// The step that opens the round of `endpoint`, or ends the search when
/// there is no such endpoint.
pub open spec fn round_of(config: Config, endpoints: usize, endpoint: int) -> FindStep {
    if endpoint < endpoints {
        FindStep::Fetch(lookup_at(config, endpoint, 0))
    } else {
        FindStep::Done(IpResult::NotFound)
    }
}

proof fn failing_attempts(
    config: Config,
    state: Option<State>,
    endpoints: usize,
    replies: spec_fn(Lookup) -> Reply,
    endpoint: int,
    from: int,
)
    requires
        0 <= endpoint < endpoints,
        0 <= from <= config.ip_find.retries(),
        fails_from(config, replies, endpoint, from),
    ensures
        ({
            let here = search_from(
                config,
                state,
                endpoints,
                replies,
                FindStep::Fetch(lookup_at(config, endpoint, from)),
            );
            let after = search_from(
                config,
                state,
                endpoints,
                replies,
                round_of(config, endpoints, endpoint + 1),
            );
            &&& here.contacts == attempts(
                config,
                endpoint,
                from,
                config.ip_find.retries() as int,
            ) + after.contacts
            &&& here.result == after.result
        }),
    decreases config.ip_find.retries() - from,
{
    if from < config.ip_find.retries() {
        failing_attempts(config, state, endpoints, replies, endpoint, from + 1);
    }
}

proof fn answering_attempts(
    config: Config,
    state: Option<State>,
    endpoints: usize,
    replies: spec_fn(Lookup) -> Reply,
    endpoint: int,
    from: int,
    answer: int,
    ip: Ipv4,
)
    requires
        0 <= endpoint < endpoints,
        0 <= from <= answer <= config.ip_find.retries(),
        forall|attempt: int|
            from <= attempt < answer ==> candidate(
                replies(#[trigger] lookup_at(config, endpoint, attempt)),
            ) is None,
        candidate(replies(lookup_at(config, endpoint, answer))) == Some(ip),
    ensures
        search_from(
            config,
            state,
            endpoints,
            replies,
            FindStep::Fetch(lookup_at(config, endpoint, from)),
        ) == (Search {
            contacts: attempts(config, endpoint, from, answer),
            result: verdict(config.cache.ignores(), state, ip),
        }),
    decreases answer - from,
{
    reveal_with_fuel(search_from, 2);
    let lookup = lookup_at(config, endpoint, from);
    if from < answer {
        answering_attempts(config, state, endpoints, replies, endpoint, from + 1, answer, ip);
        assert(seq![lookup] + attempts(config, endpoint, from + 1, answer) == attempts(
            config,
            endpoint,
            from,
            answer,
        ));
    } else {
        assert(seq![lookup] + Seq::<Lookup>::empty() == attempts(config, endpoint, from, answer));
    }
}

proof fn failing_rounds(
    config: Config,
    state: Option<State>,
    endpoints: usize,
    replies: spec_fn(Lookup) -> Reply,
    to: int,
)
    requires
        0 <= to <= endpoints,
        forall|endpoint: int| 0 <= endpoint < to ==> fails_from(config, replies, endpoint, 0),
    ensures
        ({
            let whole = search(config, state, endpoints, replies);
            let after = search_from(config, state, endpoints, replies, round_of(config, endpoints, to));
            &&& whole.contacts == rounds(config, 0, to) + after.contacts
            &&& whole.result == after.result
        }),
    decreases to,
{
    if to > 0 {
        failing_rounds(config, state, endpoints, replies, to - 1);
        failing_attempts(config, state, endpoints, replies, to - 1, 0);
    }
}

/// Every request of `rounds(config, from, to)` goes to one of the endpoints
/// `from` to `to - 1`.
pub proof fn rounds_stay_in_range(config: Config, from: int, to: int)
    requires
        0 <= from,
        to <= usize::MAX,
    ensures
        forall|i: int|
            0 <= i < rounds(config, from, to).len() ==> from <= (#[trigger] rounds(
                config,
                from,
                to,
            )[i]).endpoint < to,
    decreases to - from,
{
    if from < to {
        rounds_stay_in_range(config, from, to - 1);
        let before = rounds(config, from, to - 1);
        assert forall|i: int| 0 <= i < rounds(config, from, to).len() implies from <= (
        #[trigger] rounds(config, from, to)[i]).endpoint < to by {
            if i < before.len() {
                assert(rounds(config, from, to)[i] == before[i]);
            }
        }
    }
}

/// The first endpoint that returns an address decides the search. When
/// every endpoint before `endpoint` fails on all its attempts and `endpoint`
/// returns `ip` on attempt `attempt` after failing on the earlier ones, the
/// search ends with the verdict on `ip`. It has then made every attempt of
/// the budget on each earlier endpoint and the attempts up to `attempt` on
/// `endpoint`, in this order, and no request to any later endpoint.
pub proof fn first_answer_wins(
    config: Config,
    state: Option<State>,
    endpoints: usize,
    replies: spec_fn(Lookup) -> Reply,
    endpoint: int,
    attempt: int,
    ip: Ipv4,
)
    requires
        0 <= endpoint < endpoints,
        0 <= attempt <= config.ip_find.retries(),
        forall|earlier: int|
            0 <= earlier < endpoint ==> #[trigger] fails_from(config, replies, earlier, 0),
        forall|before: int|
            0 <= before < attempt ==> candidate(
                replies(#[trigger] lookup_at(config, endpoint, before)),
            ) is None,
        candidate(replies(lookup_at(config, endpoint, attempt))) == Some(ip),
    ensures
        search(config, state, endpoints, replies) == (Search {
            contacts: rounds(config, 0, endpoint) + attempts(config, endpoint, 0, attempt),
            result: verdict(config.cache.ignores(), state, ip),
        }),
        search(config, state, endpoints, replies).contacts.last() == lookup_at(
            config,
            endpoint,
            attempt,
        ),
        forall|i: int|
            0 <= i < search(config, state, endpoints, replies).contacts.len() ==> (
            #[trigger] search(config, state, endpoints, replies).contacts[i]).endpoint
                <= endpoint,
{
    failing_rounds(config, state, endpoints, replies, endpoint);
    answering_attempts(config, state, endpoints, replies, endpoint, 0, attempt, ip);
    rounds_stay_in_range(config, 0, endpoint);
    let before = rounds(config, 0, endpoint);
    let contacts = search(config, state, endpoints, replies).contacts;
    assert forall|i: int| 0 <= i < contacts.len() implies (#[trigger] contacts[i]).endpoint
        <= endpoint by {
        if i < before.len() {
            assert(contacts[i] == before[i]);
        }
    }
}

/// A retry budget of `r` allows `r + 1` attempts. An endpoint that fails `r`
/// times and returns `ip` on the attempt after that ends the search with the
/// verdict on `ip`, after exactly these `r + 1` requests.
pub proof fn last_attempt_still_counts(
    config: Config,
    state: Option<State>,
    endpoints: usize,
    replies: spec_fn(Lookup) -> Reply,
    endpoint: int,
    ip: Ipv4,
)
    requires
        0 <= endpoint < endpoints,
        forall|before: int|
            0 <= before < config.ip_find.retries() ==> candidate(
                replies(#[trigger] lookup_at(config, endpoint, before)),
            ) is None,
        candidate(replies(lookup_at(config, endpoint, config.ip_find.retries() as int))) == Some(
            ip,
        ),
    ensures
        search_from(config, state, endpoints, replies, round_of(config, endpoints, endpoint)) == (
        Search {
            contacts: attempts(config, endpoint, 0, config.ip_find.retries() as int),
            result: verdict(config.cache.ignores(), state, ip),
        }),
        attempts(config, endpoint, 0, config.ip_find.retries() as int).len()
            == config.ip_find.retries() + 1,
{
    answering_attempts(
        config,
        state,
        endpoints,
        replies,
        endpoint,
        0,
        config.ip_find.retries() as int,
        ip,
    );
}

/// An endpoint that fails on all `r + 1` attempts of a retry budget of `r`
/// is given up after exactly these requests, and the search goes on with the
/// next endpoint, or ends with `NotFound` when there is none.
pub proof fn exhausted_budget_falls_back(
    config: Config,
    state: Option<State>,
    endpoints: usize,
    replies: spec_fn(Lookup) -> Reply,
    endpoint: int,
)
    requires
        0 <= endpoint < endpoints,
        fails_from(config, replies, endpoint, 0),
    ensures
        ({
            let here = search_from(
                config,
                state,
                endpoints,
                replies,
                round_of(config, endpoints, endpoint),
            );
            let after = search_from(
                config,
                state,
                endpoints,
                replies,
                round_of(config, endpoints, endpoint + 1),
            );
            &&& here.contacts == attempts(config, endpoint, 0, config.ip_find.retries() as int)
                + after.contacts
            &&& here.result == after.result
            &&& endpoint + 1 == endpoints ==> here.result == IpResult::NotFound
        }),
        attempts(config, endpoint, 0, config.ip_find.retries() as int).len()
            == config.ip_find.retries() + 1,
{
    failing_attempts(config, state, endpoints, replies, endpoint, 0);
}

/// When no endpoint returns an address on any attempt, the search ends with
/// `NotFound` after every attempt of the budget on every endpoint.
pub proof fn no_answer_is_not_found(
    config: Config,
    state: Option<State>,
    endpoints: usize,
    replies: spec_fn(Lookup) -> Reply,
)
    requires
        forall|endpoint: int|
            0 <= endpoint < endpoints ==> #[trigger] fails_from(config, replies, endpoint, 0),
    ensures
        search(config, state, endpoints, replies) == (Search {
            contacts: rounds(config, 0, endpoints as int),
            result: IpResult::NotFound,
        }),
{
    failing_rounds(config, state, endpoints, replies, endpoints as int);
}

/// With the cache consulted, an address equal to the cached one gives
/// `MatchesCache`, and any other address, or any address when nothing is
/// cached, gives `Found`.
pub proof fn cache_decides_the_result(
    config: Config,
    state: Option<State>,
    endpoints: usize,
    replies: spec_fn(Lookup) -> Reply,
    endpoint: int,
    attempt: int,
    ip: Ipv4,
)
    requires
        !config.cache.ignores(),
        0 <= endpoint < endpoints,
        0 <= attempt <= config.ip_find.retries(),
        forall|earlier: int|
            0 <= earlier < endpoint ==> #[trigger] fails_from(config, replies, earlier, 0),
        forall|before: int|
            0 <= before < attempt ==> candidate(
                replies(#[trigger] lookup_at(config, endpoint, before)),
            ) is None,
        candidate(replies(lookup_at(config, endpoint, attempt))) == Some(ip),
    ensures
        state == Some(State { last_sent_ip: Some(ip) }) ==> search(
            config,
            state,
            endpoints,
            replies,
        ).result == IpResult::MatchesCache,
        state != Some(State { last_sent_ip: Some(ip) }) ==> search(
            config,
            state,
            endpoints,
            replies,
        ).result == IpResult::Found(ip),
{
    first_answer_wins(config, state, endpoints, replies, endpoint, attempt, ip);
}

/// With the cache ignored, an address that a provider returns is `Found`,
/// whatever the cache holds.
pub proof fn ignored_cache_always_finds(
    config: Config,
    state: Option<State>,
    endpoints: usize,
    replies: spec_fn(Lookup) -> Reply,
    endpoint: int,
    attempt: int,
    ip: Ipv4,
)
    requires
        config.cache.ignores(),
        0 <= endpoint < endpoints,
        0 <= attempt <= config.ip_find.retries(),
        forall|earlier: int|
            0 <= earlier < endpoint ==> #[trigger] fails_from(config, replies, earlier, 0),
        forall|before: int|
            0 <= before < attempt ==> candidate(
                replies(#[trigger] lookup_at(config, endpoint, before)),
            ) is None,
        candidate(replies(lookup_at(config, endpoint, attempt))) == Some(ip),
    ensures
        search(config, state, endpoints, replies).result == IpResult::Found(ip),
{
    first_answer_wins(config, state, endpoints, replies, endpoint, attempt, ip);
}

/// Whatever the providers reply: a search from a request on makes at least
/// that request, every request but the last came back without an address,
/// and the reply to the last one decides the result. So a search never asks
/// again once it has an address, and with the cache ignored no search ends
/// in `MatchesCache`.
pub proof fn search_ends_on_first_answer(
    config: Config,
    state: Option<State>,
    endpoints: usize,
    replies: spec_fn(Lookup) -> Reply,
    lookup: Lookup,
)
    ensures
        ({
            let run = search_from(config, state, endpoints, replies, FindStep::Fetch(lookup));
            &&& run.contacts.len() > 0
            &&& run.contacts[0] == lookup
            &&& forall|i: int|
                0 <= i < run.contacts.len() - 1 ==> candidate(replies(#[trigger] run.contacts[i]))
                    is None
            &&& match candidate(replies(run.contacts.last())) {
                Some(ip) => run.result == verdict(config.cache.ignores(), state, ip),
                None => run.result == IpResult::NotFound,
            }
            &&& config.cache.ignores() ==> !(run.result is MatchesCache)
        }),
    decreases
            endpoints_left(endpoints, FindStep::Fetch(lookup)),
            attempts_left(config, FindStep::Fetch(lookup)),
{
    reveal_with_fuel(search_from, 2);
    let run = search_from(config, state, endpoints, replies, FindStep::Fetch(lookup));
    let next = next_step(config, state, endpoints, lookup, candidate(replies(lookup)));
    if let FindStep::Fetch(following) = next {
        search_ends_on_first_answer(config, state, endpoints, replies, following);
        let rest = search_from(config, state, endpoints, replies, next);
        assert forall|i: int| 0 < i < run.contacts.len() - 1 implies candidate(
            replies(#[trigger] run.contacts[i]),
        ) is None by {
            assert(run.contacts[i] == rest.contacts[i - 1]);
        }
    }
}

/// Whether request `earlier` comes before request `later` in the order of a
/// search: on an earlier endpoint, or on the same endpoint in an earlier
/// attempt.
pub open spec fn comes_before(earlier: Lookup, later: Lookup) -> bool {
    earlier.endpoint < later.endpoint || (earlier.endpoint == later.endpoint && earlier.attempt
        < later.attempt)
}

/// Whether a request asks one of `endpoints` endpoints and lies within the
/// budget.
pub open spec fn in_range(config: Config, endpoints: usize, lookup: Lookup) -> bool {
    lookup.endpoint < endpoints && lookup.attempt <= config.ip_find.retries()
}

/// Whatever the providers reply: a search that is at a request within range
/// stays within range, and each of its requests comes before the next, so
/// that no request is made twice and no endpoint is returned to.
pub proof fn search_is_orderly(
    config: Config,
    state: Option<State>,
    endpoints: usize,
    replies: spec_fn(Lookup) -> Reply,
    lookup: Lookup,
)
    requires
        in_range(config, endpoints, lookup),
    ensures
        ({
            let run = search_from(config, state, endpoints, replies, FindStep::Fetch(lookup));
            &&& forall|i: int|
                0 <= i < run.contacts.len() ==> in_range(
                    config,
                    endpoints,
                    #[trigger] run.contacts[i],
                )
            &&& forall|i: int|
                0 < i < run.contacts.len() ==> comes_before(lookup, #[trigger] run.contacts[i])
            &&& forall|i: int, j: int|
                0 <= i < j < run.contacts.len() ==> comes_before(
                    #[trigger] run.contacts[i],
                    #[trigger] run.contacts[j],
                )
        }),
    decreases
            endpoints_left(endpoints, FindStep::Fetch(lookup)),
            attempts_left(config, FindStep::Fetch(lookup)),
{
    reveal_with_fuel(search_from, 2);
    let run = search_from(config, state, endpoints, replies, FindStep::Fetch(lookup));
    let next = next_step(config, state, endpoints, lookup, candidate(replies(lookup)));
    if let FindStep::Fetch(following) = next {
        search_is_orderly(config, state, endpoints, replies, following);
        let rest = search_from(config, state, endpoints, replies, next);
        assert forall|i: int| 0 < i < run.contacts.len() implies comes_before(
            lookup,
            #[trigger] run.contacts[i],
        ) by {
            if i > 1 {
                assert(comes_before(following, rest.contacts[i - 1]));
            }
        }
    }
}

/// The endpoints are the providers whose text is a URL, each once, in the
/// configured order: `usable` ascends, and a position is in it exactly when
/// it is a position of the list and the text there is a URL.
pub proof fn usable_lists_the_urls(finders: Seq<String>)
    ensures
        forall|i: int, j: int|
            0 <= i < j < usable(finders).len() ==> usable(finders)[i] < usable(finders)[j],
        forall|at: int|
            usable(finders).contains(at) <==> 0 <= at < finders.len() && is_url(finders[at]@),
    decreases finders.len(),
{
    if finders.len() > 0 {
        let before = finders.drop_last();
        let last = finders.len() - 1;
        usable_lists_the_urls(before);
        assert forall|at: int| usable(finders).contains(at) <==> 0 <= at < finders.len() && is_url(
            finders[at]@,
        ) by {
            if 0 <= at < last {
                assert(before[at] == finders[at]);
            }
            if is_url(finders.last()@) {
                let list = usable(before).push(last);
                assert(list[list.len() - 1] == last);
                if usable(before).contains(at) {
                    let k = choose|k: int| 0 <= k < usable(before).len() && usable(before)[k] == at;
                    assert(list[k] == at);
                }
            }
        }
        assert forall|i: int, j: int| 0 <= i < j < usable(finders).len() implies usable(
            finders,
        )[i] < usable(finders)[j] by {
            if is_url(finders.last()@) && j == usable(before).len() {
                assert(usable(before).contains(usable(before)[i]));
            }
        }
    }
}

} // verus!
