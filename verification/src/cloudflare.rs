//! Bringing the DNS record in line with a newly found address.
//!
//! The record lives at a remote DNS provider. This module decides which calls
//! are made to it and what their replies mean; the caller makes the calls. A
//! pass asks for a client, lists the records that carry the configured name,
//! and, when exactly one of them is an `A` record, sends one update for it.

use vstd::prelude::*;
use vstd::string::StringExecFns;
use crate::address::Ipv4;
use crate::config::{Config, Credentials, CredentialsView};
use crate::state::State;

verus! {

/// The type of a DNS record together with its value, as far as a pass looks
/// at it: an `A` record holds an IPv4 address, every other type is `Other`.
#[derive(Clone, Copy, Debug, PartialEq, Eq, Structural)]
pub enum DnsContent {
    A { content: Ipv4 },
    Other,
}

/// A DNS record as the provider lists it.
pub struct DnsRecord {
    /// The provider's identifier of the record.
    pub id: String,
    pub name: String,
    /// Time to live, in seconds.
    pub ttl: u32,
    /// Whether the provider proxies traffic for the record.
    pub proxied: bool,
    pub content: DnsContent,
}

/// A record as the contracts speak of it: its texts as sequences of
/// characters.
pub struct DnsRecordView {
    pub id: Seq<char>,
    pub name: Seq<char>,
    pub ttl: u32,
    pub proxied: bool,
    pub content: DnsContent,
}

impl View for DnsRecord {
    type V = DnsRecordView;

    open spec fn view(&self) -> DnsRecordView {
        DnsRecordView {
            id: self.id@,
            name: self.name@,
            ttl: self.ttl,
            proxied: self.proxied,
            content: self.content,
        }
    }
}

/// The views of the records of a listing, in the listing's order.
pub open spec fn record_views(records: Seq<DnsRecord>) -> Seq<DnsRecordView> {
    records.map_values(|record: DnsRecord| record@)
}

/// A request for every record of a zone that carries a name, of whatever type.
pub struct ListDnsRecords {
    pub zone_identifier: String,
    pub name: String,
}

/// A listing request as the contracts speak of it.
pub struct ListDnsRecordsView {
    pub zone_identifier: Seq<char>,
    pub name: Seq<char>,
}

impl View for ListDnsRecords {
    type V = ListDnsRecordsView;

    open spec fn view(&self) -> ListDnsRecordsView {
        ListDnsRecordsView { zone_identifier: self.zone_identifier@, name: self.name@ }
    }
}

/// A request to overwrite the record `identifier` of a zone.
pub struct UpdateDnsRecord {
    pub zone_identifier: String,
    pub identifier: String,
    pub ttl: Option<u32>,
    pub proxied: Option<bool>,
    pub name: String,
    pub content: DnsContent,
}

/// An update request as the contracts speak of it.
pub struct UpdateDnsRecordView {
    pub zone_identifier: Seq<char>,
    pub identifier: Seq<char>,
    pub ttl: Option<u32>,
    pub proxied: Option<bool>,
    pub name: Seq<char>,
    pub content: DnsContent,
}

impl View for UpdateDnsRecord {
    type V = UpdateDnsRecordView;

    open spec fn view(&self) -> UpdateDnsRecordView {
        UpdateDnsRecordView {
            zone_identifier: self.zone_identifier@,
            identifier: self.identifier@,
            ttl: self.ttl,
            proxied: self.proxied,
            name: self.name@,
            content: self.content,
        }
    }
}

/// Why a pass did not change the DNS record.
#[derive(Clone, Copy, Debug, PartialEq, Eq, Structural)]
pub enum ReconcileError {
    /// No client could be made for the provider.
    Connect,
    /// The provider did not list the records.
    List,
    /// No `A` record carries the configured name.
    NotFound,
    /// Several `A` records carry the configured name.
    Ambiguous,
    /// The provider did not accept the update.
    Update,
}

impl ReconcileError {
    /// What the error says about the record named `record_name`.
    pub open spec fn text(self, record_name: Seq<char>) -> Seq<char> {
        match self {
            ReconcileError::Connect => "failed to create new `cloudflare` client"@,
            ReconcileError::List => "failed to request DNS record list from Cloudflare"@,
            ReconcileError::NotFound => "failed to find any A records for "@ + record_name,
            ReconcileError::Ambiguous => "multiple A records retrieved for "@ + record_name
                + ", case is ambiguous"@,
            ReconcileError::Update => "failed to update DNS record on Cloudflare"@,
        }
    }

    /// The error in words, for the record named `record_name`.
    pub fn message(&self, record_name: &str) -> (message: String)
        ensures
            message@ == self.text(record_name@),
    {
        match self {
            ReconcileError::Connect => String::from_str("failed to create new `cloudflare` client"),
            ReconcileError::List => String::from_str(
                "failed to request DNS record list from Cloudflare",
            ),
            ReconcileError::NotFound => String::from_str(
                "failed to find any A records for ",
            ).concat(record_name),
            ReconcileError::Ambiguous => String::from_str(
                "multiple A records retrieved for ",
            ).concat(record_name).concat(", case is ambiguous"),
            ReconcileError::Update => String::from_str("failed to update DNS record on Cloudflare"),
        }
    }
}

/// The predicate that picks the `A` records out of a listing.
pub open spec fn holds_address() -> spec_fn(DnsRecordView) -> bool {
    |record: DnsRecordView| record.content is A
}

/// The `A` records of a listing, in the listing's order.
pub open spec fn a_records(records: Seq<DnsRecordView>) -> Seq<DnsRecordView> {
    records.filter(holds_address())
}

/// The record that may be updated: the only `A` record of the listing. A
/// listing with none, or with more than one, names no record.
pub open spec fn target_record(records: Seq<DnsRecordView>) -> Result<DnsRecordView, ReconcileError> {
    let found = a_records(records);
    if found.len() == 0 {
        Err(ReconcileError::NotFound)
    } else if found.len() == 1 {
        Ok(found[0])
    } else {
        Err(ReconcileError::Ambiguous)
    }
}

/// Finds the position of the only `A` record of a listing.
pub fn unique_a_record(records: &Vec<DnsRecord>) -> (found: Result<usize, ReconcileError>)
    ensures
        match found {
            Ok(at) => at < records.len() && target_record(record_views(records@)) == Ok::<
                DnsRecordView,
                ReconcileError,
            >(records[at as int]@),
            Err(error) => target_record(record_views(records@)) == Err::<
                DnsRecordView,
                ReconcileError,
            >(error),
        },
{
    let ghost views = record_views(records@);
    let mut first: usize = 0;
    let mut count: usize = 0;
    let mut at: usize = 0;
    while at < records.len()
        invariant
            at <= records.len(),
            views == record_views(records@),
            count == a_records(views.take(at as int)).len(),
            count <= at,
            count > 0 ==> first < at && a_records(views.take(at as int))[0] == views[first as int],
        decreases records.len() - at,
    {
        proof {
            assert(views.take(at + 1) == views.take(at as int).push(views[at as int]));
            views.take(at as int).lemma_filter_push(views[at as int], holds_address());
        }
        match records[at].content {
            DnsContent::A { .. } => {
                if count == 0 {
                    first = at;
                }
                count = count + 1;
            },
            DnsContent::Other => {},
        }
        at = at + 1;
    }
    assert(views.take(at as int) == views);
    if count == 0 {
        Err(ReconcileError::NotFound)
    } else if count == 1 {
        Ok(first)
    } else {
        Err(ReconcileError::Ambiguous)
    }
}

/// A call that the caller makes to the DNS provider on behalf of the pass.
pub enum DnsCall {
    /// Make a client that authenticates with these credentials.
    Connect(Credentials),
    /// List the records of a name.
    List(ListDnsRecords),
    /// Overwrite one record.
    Update(UpdateDnsRecord),
}

/// A call as the contracts speak of it.
pub enum DnsCallView {
    Connect(CredentialsView),
    List(ListDnsRecordsView),
    Update(UpdateDnsRecordView),
}

impl View for DnsCall {
    type V = DnsCallView;

    open spec fn view(&self) -> DnsCallView {
        match self {
            DnsCall::Connect(credentials) => DnsCallView::Connect(credentials@),
            DnsCall::List(request) => DnsCallView::List(request@),
            DnsCall::Update(request) => DnsCallView::Update(request@),
        }
    }
}

/// How a call to the DNS provider ended.
pub enum DnsReply {
    /// A client was made.
    Connected,
    /// The provider listed these records.
    Records(Vec<DnsRecord>),
    /// The provider accepted the update.
    Updated,
    /// The call failed, for whatever reason.
    Failed,
}

/// A reply as the contracts speak of it.
pub enum DnsReplyView {
    Connected,
    Records(Seq<DnsRecordView>),
    Updated,
    Failed,
}

impl View for DnsReply {
    type V = DnsReplyView;

    open spec fn view(&self) -> DnsReplyView {
        match self {
            DnsReply::Connected => DnsReplyView::Connected,
            DnsReply::Records(records) => DnsReplyView::Records(record_views(records@)),
            DnsReply::Updated => DnsReplyView::Updated,
            DnsReply::Failed => DnsReplyView::Failed,
        }
    }
}

/// What follows a reply: another call, or the end of the pass.
pub enum UpdateStep {
    Call(DnsCall),
    Done(Result<(), ReconcileError>),
}

/// A step as the contracts speak of it.
pub enum UpdateStepView {
    Call(DnsCallView),
    Done(Result<(), ReconcileError>),
}

impl View for UpdateStep {
    type V = UpdateStepView;

    open spec fn view(&self) -> UpdateStepView {
        match self {
            UpdateStep::Call(call) => UpdateStepView::Call(call@),
            UpdateStep::Done(result) => UpdateStepView::Done(*result),
        }
    }
}

/// The call that opens a pass: a client for the configured token.
pub open spec fn first_call(config: Config) -> DnsCallView {
    DnsCallView::Connect(config.cloudflare.credentials())
}

/// The call that lists the records of the configured name.
pub open spec fn list_call(config: Config) -> DnsCallView {
    DnsCallView::List(config.cloudflare.list_request())
}

/// The call that points `record` at `ip`.
pub open spec fn update_call(config: Config, record: DnsRecordView, ip: Ipv4) -> DnsCallView {
    DnsCallView::Update(config.cloudflare.update_request(record, ip))
}

/// What follows when `reply` answers `call`, in a pass that is to write `ip`.
///
/// A reply that does not belong to the call counts as the call's failure, and
/// a failed call ends the pass: nothing is tried a second time.
pub open spec fn next_step(config: Config, ip: Ipv4, call: DnsCallView, reply: DnsReplyView) -> UpdateStepView {
    match call {
        DnsCallView::Connect(_) => match reply {
            DnsReplyView::Connected => UpdateStepView::Call(list_call(config)),
            _ => UpdateStepView::Done(Err(ReconcileError::Connect)),
        },
        DnsCallView::List(_) => match reply {
            DnsReplyView::Records(records) => match target_record(records) {
                Ok(record) => UpdateStepView::Call(update_call(config, record, ip)),
                Err(error) => UpdateStepView::Done(Err(error)),
            },
            _ => UpdateStepView::Done(Err(ReconcileError::List)),
        },
        DnsCallView::Update(_) => match reply {
            DnsReplyView::Updated => UpdateStepView::Done(Ok(())),
            _ => UpdateStepView::Done(Err(ReconcileError::Update)),
        },
    }
}

/// The cache after `reply` answered `call`: `ip` once the provider accepted
/// the update and the configuration remembers addresses, else what it was.
pub open spec fn cache_after(
    config: Config,
    cache: Option<State>,
    ip: Ipv4,
    call: DnsCallView,
    reply: DnsReplyView,
) -> Option<State> {
    if call is Update && reply is Updated && config.cache.persists() {
        Some(State { last_sent_ip: Some(ip) })
    } else {
        cache
    }
}

/// Opens a pass.
pub fn start_update(config: &Config) -> (call: DnsCall)
    ensures
        call@ == first_call(*config),
{
    DnsCall::Connect(config.get_cloudflare_config().get_creds())
}

/// Continues a pass that is to write `ip`: `reply` is how `call`, the call
/// asked for last, ended. `state` is the cache, which changes only when the
/// provider has accepted the update.
pub fn update_cloudflare(
    config: &Config,
    state: &mut Option<State>,
    ip: Ipv4,
    call: &DnsCall,
    reply: &DnsReply,
) -> (step: UpdateStep)
    ensures
        step@ == next_step(*config, ip, call@, reply@),
        *final(state) == cache_after(*config, *old(state), ip, call@, reply@),
{
    let cf_config = config.get_cloudflare_config();
    match call {
        DnsCall::Connect(_) => match reply {
            DnsReply::Connected => UpdateStep::Call(DnsCall::List(cf_config.get_list_request())),
            _ => UpdateStep::Done(Err(ReconcileError::Connect)),
        },
        DnsCall::List(_) => match reply {
            DnsReply::Records(records) => match unique_a_record(records) {
                Ok(at) => UpdateStep::Call(
                    DnsCall::Update(cf_config.get_update_request(&records[at], ip)),
                ),
                Err(error) => UpdateStep::Done(Err(error)),
            },
            _ => UpdateStep::Done(Err(ReconcileError::List)),
        },
        DnsCall::Update(_) => match reply {
            DnsReply::Updated => {
                if config.get_cache_config().get_persist() {
                    *state = Some(State { last_sent_ip: Some(ip) });
                }
                UpdateStep::Done(Ok(()))
            },
            _ => UpdateStep::Done(Err(ReconcileError::Update)),
        },
    }
}

/// A whole pass: the calls made, in order, how the pass ended, and the cache
/// it leaves behind.
pub struct Reconciliation {
    pub calls: Seq<DnsCallView>,
    pub result: Result<(), ReconcileError>,
    pub cache: Option<State>,
}

/// How many calls can still follow `call`, itself included.
pub open spec fn calls_left(call: DnsCallView) -> nat {
    match call {
        DnsCallView::Connect(_) => 3,
        DnsCallView::List(_) => 2,
        DnsCallView::Update(_) => 1,
    }
}

/// The pass from `call` on, against a provider that answers each call `c`
/// with `provider(c)`. A pass makes no call twice, so nothing is lost by
/// having equal calls answered alike.
pub open spec fn reconcile_from(
    config: Config,
    cache: Option<State>,
    ip: Ipv4,
    provider: spec_fn(DnsCallView) -> DnsReplyView,
    call: DnsCallView,
) -> Reconciliation
    decreases calls_left(call),
{
    let reply = provider(call);
    let cache = cache_after(config, cache, ip, call, reply);
    match next_step(config, ip, call, reply) {
        UpdateStepView::Done(result) => Reconciliation { calls: seq![call], result, cache },
        UpdateStepView::Call(next) => {
            let rest = reconcile_from(config, cache, ip, provider, next);
            Reconciliation { calls: seq![call] + rest.calls, result: rest.result, cache: rest.cache }
        },
    }
}

/// The pass that is to write `ip`, from its first call on.
pub open spec fn reconcile(
    config: Config,
    cache: Option<State>,
    ip: Ipv4,
    provider: spec_fn(DnsCallView) -> DnsReplyView,
) -> Reconciliation {
    reconcile_from(config, cache, ip, provider, first_call(config))
}

/// When the provider lists no `A` record for the name, the pass ends with
/// `NotFound`, sends no update and leaves the cache as it was.
pub proof fn missing_record_is_not_updated(
    config: Config,
    cache: Option<State>,
    ip: Ipv4,
    provider: spec_fn(DnsCallView) -> DnsReplyView,
    records: Seq<DnsRecordView>,
)
    requires
        provider(first_call(config)) is Connected,
        provider(list_call(config)) == DnsReplyView::Records(records),
        a_records(records).len() == 0,
    ensures
        reconcile(config, cache, ip, provider).result == Err::<(), ReconcileError>(
            ReconcileError::NotFound,
        ),
        reconcile(config, cache, ip, provider).calls == seq![first_call(config), list_call(config)],
        forall|i: int|
            0 <= i < reconcile(config, cache, ip, provider).calls.len() ==> !(reconcile(
                config,
                cache,
                ip,
                provider,
            ).calls[i] is Update),
        reconcile(config, cache, ip, provider).cache == cache,
{
    reveal_with_fuel(reconcile_from, 3);
}

/// When the provider lists two or more `A` records for the name, the pass
/// ends with `Ambiguous`, sends no update and leaves the cache as it was.
pub proof fn ambiguous_records_are_not_updated(
    config: Config,
    cache: Option<State>,
    ip: Ipv4,
    provider: spec_fn(DnsCallView) -> DnsReplyView,
    records: Seq<DnsRecordView>,
)
    requires
        provider(first_call(config)) is Connected,
        provider(list_call(config)) == DnsReplyView::Records(records),
        a_records(records).len() >= 2,
    ensures
        reconcile(config, cache, ip, provider).result == Err::<(), ReconcileError>(
            ReconcileError::Ambiguous,
        ),
        reconcile(config, cache, ip, provider).calls == seq![first_call(config), list_call(config)],
        forall|i: int|
            0 <= i < reconcile(config, cache, ip, provider).calls.len() ==> !(reconcile(
                config,
                cache,
                ip,
                provider,
            ).calls[i] is Update),
        reconcile(config, cache, ip, provider).cache == cache,
{
    reveal_with_fuel(reconcile_from, 3);
}

/// When the provider lists exactly one `A` record for the name, the pass
/// sends exactly one update, as its last call. The update is addressed to
/// that record by its identifier, repeats its name, time to live and proxy
/// flag, and sets the content to `ip`. The pass succeeds exactly when the
/// provider accepts the update, and only then, and only if the configuration
/// remembers addresses, the cache becomes `ip`.
pub proof fn single_record_is_updated_once(
    config: Config,
    cache: Option<State>,
    ip: Ipv4,
    provider: spec_fn(DnsCallView) -> DnsReplyView,
    records: Seq<DnsRecordView>,
)
    requires
        provider(first_call(config)) is Connected,
        provider(list_call(config)) == DnsReplyView::Records(records),
        a_records(records).len() == 1,
    ensures
        ({
            let record = a_records(records)[0];
            let pass = reconcile(config, cache, ip, provider);
            let accepted = provider(update_call(config, record, ip)) is Updated;
            &&& pass.calls == seq![
                first_call(config),
                list_call(config),
                update_call(config, record, ip),
            ]
            &&& pass.calls[2] matches DnsCallView::Update(request)
            &&& request.identifier == record.id
            &&& request.name == record.name
            &&& request.ttl == Some(record.ttl)
            &&& request.proxied == Some(record.proxied)
            &&& request.content == (DnsContent::A { content: ip })
            &&& request.zone_identifier == config.cloudflare.zone_id@
            &&& pass.result is Ok <==> accepted
            &&& !accepted ==> pass.result == Err::<(), ReconcileError>(ReconcileError::Update)
            &&& pass.cache == if accepted && config.cache.persists() {
                Some(State { last_sent_ip: Some(ip) })
            } else {
                cache
            }
        }),
{
    reveal_with_fuel(reconcile_from, 3);
}

/// Whatever the provider answers: a pass asks for a client, then lists, then
/// updates, each at most once and in this order, and stops at the first call
/// that fails. A pass that fails leaves the cache as it was, and one that
/// succeeds has sent an update for `ip`.
pub proof fn pass_is_bounded_and_fails_closed(
    config: Config,
    cache: Option<State>,
    ip: Ipv4,
    provider: spec_fn(DnsCallView) -> DnsReplyView,
)
    ensures
        ({
            let pass = reconcile(config, cache, ip, provider);
            &&& 1 <= pass.calls.len() <= 3
            &&& pass.calls[0] == first_call(config)
            &&& pass.calls.len() >= 2 ==> pass.calls[1] == list_call(config)
            &&& pass.calls.len() == 3 ==> pass.calls[2] is Update
            &&& pass.result is Err ==> pass.cache == cache
            &&& pass.result is Ok ==> {
                &&& pass.calls.len() == 3
                &&& pass.calls[2] matches DnsCallView::Update(request)
                &&& request.content == (DnsContent::A { content: ip })
                &&& provider(pass.calls[2]) is Updated
                &&& pass.cache == if config.cache.persists() {
                    Some(State { last_sent_ip: Some(ip) })
                } else {
                    cache
                }
            }
        }),
{
    reveal_with_fuel(reconcile_from, 3);
}

} // verus!
