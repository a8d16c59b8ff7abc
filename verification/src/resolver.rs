//! The resolution pipeline: what happens to one query, from its arrival to
//! its outcome.
//!
//! The pipeline owns the response cache and the blocklist. It works on the
//! name asked for without the root dot, and takes a name for listed if the
//! blocklist holds it in that form or with the dot. It never touches the
//! network: where a query needs the upstream resolver or the DNSSEC gate,
//! a step returns the [`Action`] to perform, and the caller reports the result
//! to the next step.

use crate::blocklist::{action_after, blocked_after, Blocklist, RefreshAction, RefreshEvent};
use crate::cache::{fresh_answer, after_lookup, EntryView, ResponseCache};
use crate::clock::{expiry_of, TTL_MILLIS};
use crate::wire::{decoded_packet, optional_bytes, read_packet, Packet, PacketView};
use vstd::prelude::*;
use vstd::string::StrSliceExecFns;

verus! {

/// One client-submitted lookup: the fields of the inbound message that the
/// pipeline reads.
pub struct Query {
    /// The transaction id of the inbound message.
    pub id: u16,
    /// The numeric operation code of the inbound message.
    pub op_code: u8,
    /// The name of the first question, without the root dot that ends its
    /// presentation form. The root itself is `.`.
    pub name: String,
    /// The record type of the first question.
    pub query_type: u16,
}

/// A [`Query`] as contracts see it.
pub struct QueryView {
    pub id: u16,
    pub op_code: u8,
    pub name: Seq<char>,
    pub query_type: u16,
}

impl View for Query {
    type V = QueryView;

    open spec fn view(&self) -> QueryView {
        QueryView { id: self.id, op_code: self.op_code, name: self.name@, query_type: self.query_type }
    }
}

/// Whether `name` is the name of the root: the one dot.
pub open spec fn is_root(name: Seq<char>) -> bool {
    name.len() == 1 && name[0] == '.'
}

/// `name` without the dot that ends a fully qualified name. The root, whose
/// whole name is that dot, keeps it.
pub open spec fn without_root_dot(name: Seq<char>) -> Seq<char> {
    if name.len() > 1 && name.last() == '.' {
        name.drop_last()
    } else {
        name
    }
}

/// `name` with the dot that ends a fully qualified name. The root has it
/// already.
pub open spec fn with_root_dot(name: Seq<char>) -> Seq<char> {
    if is_root(name) {
        name
    } else {
        name.push('.')
    }
}

/// The query that a decoded packet stands for: its header fields, and the
/// name and type of its first question. A packet without a question stands
/// for none.
pub open spec fn query_of(packet: PacketView) -> Option<QueryView> {
    if packet.questions.len() > 0 {
        Some(
            QueryView {
                id: packet.id,
                op_code: packet.op_code,
                name: without_root_dot(packet.questions[0].name),
                query_type: packet.questions[0].query_type,
            },
        )
    } else {
        None
    }
}

/// The query that inbound bytes stand for: the one of the packet that they
/// decode to. Bytes that do not decode, and a packet without a question,
/// stand for none.
pub open spec fn parsed_query(decoded: Option<PacketView>) -> Option<QueryView> {
    match decoded {
        Some(packet) => query_of(packet),
        None => None,
    }
}

/// Stripping the root dot undoes adding it.
pub proof fn lemma_root_dot_round_trip(name: Seq<char>)
    requires
        name.len() > 0,
    ensures
        without_root_dot(with_root_dot(name)) == name,
{
    if !is_root(name) {
        assert(name.push('.').drop_last() == name);
    }
}

/// Stripping maps no two fully qualified names to one: names that end with
/// the root dot and are stripped to the same name are the same name. (Two
/// dots on their own are no name: a label between them would be empty.)
pub proof fn lemma_stripping_keeps_qualified_names_apart(first: Seq<char>, second: Seq<char>)
    requires
        first.len() > 0 && first.last() == '.',
        second.len() > 0 && second.last() == '.',
        !(first.len() == 2 && first[0] == '.'),
        !(second.len() == 2 && second[0] == '.'),
        without_root_dot(first) == without_root_dot(second),
    ensures
        first == second,
{
    if first.len() > 1 && second.len() > 1 {
        assert(first == first.drop_last().push('.'));
        assert(second == second.drop_last().push('.'));
    } else if first.len() == 1 && second.len() == 1 {
        assert(first =~= second);
    } else if first.len() == 1 {
        assert(second.drop_last() == first);
        assert(second.drop_last()[0] == second[0]);
    } else {
        assert(first.drop_last() == second);
        assert(first.drop_last()[0] == first[0]);
    }
}

/// Drops the root dot from the end of `name`, unless it is all of the name.
pub fn strip_root_dot(name: &str) -> (stripped: String)
    ensures
        stripped@ == without_root_dot(name@),
{
    let len = name.unicode_len();
    if len > 1 && name.get_char(len - 1) == '.' {
        name.substring_char(0, len - 1).to_owned()
    } else {
        name.to_owned()
    }
}

impl Query {
    /// The name asked for in its fully qualified form, as a lookup of the
    /// same question takes it.
    pub fn qualified_name(&self) -> (name: String)
        ensures
            name@ == with_root_dot(self@.name),
    {
        let mut name = self.name.clone();
        let len = self.name.as_str().unicode_len();
        if !(len == 1 && self.name.as_str().get_char(0) == '.') {
            name.push('.');
        }
        name
    }

    /// The query that `packet` stands for, if it carries a question.
    pub fn from_packet(packet: &Packet) -> (query: Option<Query>)
        ensures
            query is Some <==> query_of(packet@) is Some,
            query matches Some(q) ==> query_of(packet@) == Some(q@),
    {
        if packet.questions.len() > 0 {
            let first = &packet.questions[0];
            Some(
                Query {
                    id: packet.id,
                    op_code: packet.op_code,
                    name: strip_root_dot(first.name.as_str()),
                    query_type: first.query_type,
                },
            )
        } else {
            None
        }
    }

    /// Decodes an inbound message. Malformed bytes give `None`, and so does
    /// a message without a question: the caller drops them and goes on
    /// listening.
    pub fn parse(bytes: &[u8]) -> (query: Option<Query>)
        ensures
            query is Some <==> parsed_query(decoded_packet(bytes@)) is Some,
            query matches Some(q) ==> parsed_query(decoded_packet(bytes@)) == Some(q@),
    {
        match read_packet(bytes) {
            Some(packet) => Query::from_packet(&packet),
            None => None,
        }
    }
}

/// How a query ends.
pub enum Outcome {
    /// An unexpired answer was found in the cache.
    CachedAnswer(Vec<u8>),
    /// The name is on the blocklist.
    Blocked,
    /// Upstream answered, and the answer passed validation.
    UpstreamAnswer(Vec<u8>),
    /// Upstream answered, and validation rejected the answer.
    ValidationFailed,
    /// Upstream did not answer.
    NoAnswer,
}

/// An [`Outcome`] as contracts see it.
pub enum OutcomeView {
    CachedAnswer(Seq<u8>),
    Blocked,
    UpstreamAnswer(Seq<u8>),
    ValidationFailed,
    NoAnswer,
}

impl View for Outcome {
    type V = OutcomeView;

    open spec fn view(&self) -> OutcomeView {
        match self {
            Outcome::CachedAnswer(bytes) => OutcomeView::CachedAnswer(bytes@),
            Outcome::Blocked => OutcomeView::Blocked,
            Outcome::UpstreamAnswer(bytes) => OutcomeView::UpstreamAnswer(bytes@),
            Outcome::ValidationFailed => OutcomeView::ValidationFailed,
            Outcome::NoAnswer => OutcomeView::NoAnswer,
        }
    }
}

/// What the caller does next for a query.
pub enum Action {
    /// The query is over: deliver the outcome.
    Finish(Outcome),
    /// Send the raw query to the upstream resolver, once, and report the
    /// reply to [`Resolver::on_reply`].
    Forward,
    /// Ask the DNSSEC gate about `answer` for the query's name and
    /// `query_type`, and report its verdict to [`Resolver::on_verdict`].
    /// Nothing of the answer is delivered or cached before that.
    Validate { answer: Vec<u8>, query_type: u16 },
}

/// An [`Action`] as contracts see it.
pub enum ActionView {
    Finish(OutcomeView),
    Forward,
    Validate { answer: Seq<u8>, query_type: u16 },
}

impl View for Action {
    type V = ActionView;

    open spec fn view(&self) -> ActionView {
        match self {
            Action::Finish(outcome) => ActionView::Finish(outcome@),
            Action::Forward => ActionView::Forward,
            Action::Validate { answer, query_type } => ActionView::Validate { answer: answer@, query_type: *query_type },
        }
    }
}

/// The two stores as contracts see them.
pub struct Stores {
    /// The response cache: answer and expiry by question name.
    pub cache: Map<Seq<char>, EntryView>,
    /// The active blocklist.
    pub blocked: Set<Seq<char>>,
}

/// Whether the blocklist `blocked` lists the name that a query asks for. A
/// list may write a name with the root dot or without it: the name is listed
/// if the list holds it as the query has it, or in its fully qualified form.
pub open spec fn is_listed(blocked: Set<Seq<char>>, name: Seq<char>) -> bool {
    blocked.contains(name) || blocked.contains(with_root_dot(name))
}

/// What a query for `name` that arrives at `now` leads to: a cached answer
/// that has not expired; else a refusal, if the name is listed; else one
/// exchange with upstream.
pub open spec fn action_on_query(stores: Stores, name: Seq<char>, now: u64) -> ActionView {
    match fresh_answer(stores.cache, name, now) {
        Some(answer) => ActionView::Finish(OutcomeView::CachedAnswer(answer)),
        None => if is_listed(stores.blocked, name) {
            ActionView::Finish(OutcomeView::Blocked)
        } else {
            ActionView::Forward
        },
    }
}

/// The stores after a query for `name` arrived at `now`: an expired entry
/// under the name is evicted.
pub open spec fn stores_after_query(stores: Stores, name: Seq<char>, now: u64) -> Stores {
    Stores { cache: after_lookup(stores.cache, name, now), blocked: stores.blocked }
}

/// The stores after `answer` was accepted for `name` at `now`: the answer
/// is cached under the name for the fixed time to live.
pub open spec fn stores_after_accept(stores: Stores, name: Seq<char>, answer: Seq<u8>, now: u64) -> Stores {
    Stores { cache: stores.cache.insert(name, (answer, expiry_of(now) as u64)), blocked: stores.blocked }
}

/// What upstream's reply to `query` leads to: nothing, where there was no
/// reply; else validation of the answer. No reply is delivered or cached at
/// this step.
pub open spec fn action_on_reply(query: QueryView, reply: Option<Seq<u8>>) -> ActionView {
    match reply {
        None => ActionView::Finish(OutcomeView::NoAnswer),
        Some(answer) => ActionView::Validate { answer, query_type: query.query_type },
    }
}

/// How a query ends once the validator has spoken.
pub open spec fn outcome_of_verdict(answer: Seq<u8>, accepted: bool) -> OutcomeView {
    if accepted {
        OutcomeView::UpstreamAnswer(answer)
    } else {
        OutcomeView::ValidationFailed
    }
}

/// The stores after the validator's verdict on `answer` was reported at `now`:
/// an accepted answer is cached, a rejected one leaves no trace.
pub open spec fn stores_after_verdict(stores: Stores, name: Seq<char>, answer: Seq<u8>, accepted: bool, now: u64) -> Stores {
    if accepted {
        stores_after_accept(stores, name, answer, now)
    } else {
        stores
    }
}

/// The pipeline's state: the response cache and the active blocklist.
pub struct Resolver {
    cache: ResponseCache,
    blocklist: Blocklist,
}

impl View for Resolver {
    type V = Stores;

    closed spec fn view(&self) -> Stores {
        Stores { cache: self.cache@, blocked: self.blocklist@ }
    }
}

impl Resolver {
    /// A pipeline with an empty cache and the given blocklist.
    pub fn new(blocklist: Blocklist) -> (resolver: Self)
        ensures
            resolver@ == (Stores { cache: Map::empty(), blocked: blocklist@ }),
    {
        Resolver { cache: ResponseCache::new(), blocklist }
    }

    /// Whether `domain` is on the active blocklist, as it is written here.
    pub fn is_blocked(&self, domain: &str) -> (blocked: bool)
        ensures
            blocked == self@.blocked.contains(domain@),
    {
        self.blocklist.is_blocked(domain)
    }

    /// Whether the active blocklist lists the name that `query` asks for,
    /// with the root dot or without it.
    pub fn lists(&self, query: &Query) -> (listed: bool)
        ensures
            listed == is_listed(self@.blocked, query@.name),
    {
        self.blocklist.is_blocked(query.name.as_str()) || self.blocklist.is_blocked(
            query.qualified_name().as_str(),
        )
    }

    /// Takes one step of the blocklist refresh loop. A finished fetch
    /// replaces the active blocklist as a whole; the cache is not touched.
    pub fn refresh(&mut self, event: RefreshEvent) -> (action: RefreshAction)
        ensures
            final(self)@ == (Stores { cache: old(self)@.cache, blocked: blocked_after(old(self)@.blocked, event) }),
            action == action_after(event),
    {
        self.blocklist.periodic_update(event)
    }

    /// Takes up a query that arrived at `now`: serves it from the cache,
    /// refuses it, or asks for it to be forwarded.
    pub fn on_query(&mut self, query: &Query, now: u64) -> (action: Action)
        ensures
            action@ == action_on_query(old(self)@, query@.name, now),
            final(self)@ == stores_after_query(old(self)@, query@.name, now),
    {
        match self.cache.lookup(query.name.as_str(), now) {
            Some(answer) => Action::Finish(Outcome::CachedAnswer(answer)),
            None => {
                if self.lists(query) {
                    Action::Finish(Outcome::Blocked)
                } else {
                    Action::Forward
                }
            },
        }
    }

    /// Takes up upstream's reply to a forwarded query. An answer goes to
    /// validation; the stores are not touched.
    pub fn on_reply(&self, query: &Query, reply: Option<Vec<u8>>) -> (action: Action)
        ensures
            action@ == action_on_reply(query@, optional_bytes(reply)),
    {
        match reply {
            None => Action::Finish(Outcome::NoAnswer),
            Some(answer) => Action::Validate { answer, query_type: query.query_type },
        }
    }

    /// Takes up the validator's verdict on `answer`, reported at `now`.
    /// Where the answer is cached, its expiry must fit the clock.
    pub fn on_verdict(&mut self, query: &Query, answer: Vec<u8>, accepted: bool, now: u64) -> (outcome: Outcome)
        requires
            accepted ==> now + TTL_MILLIS <= u64::MAX,
        ensures
            outcome@ == outcome_of_verdict(answer@, accepted),
            final(self)@ == stores_after_verdict(old(self)@, query@.name, answer@, accepted, now),
    {
        if accepted {
            self.accept(query, answer, now)
        } else {
            Outcome::ValidationFailed
        }
    }

    /// Caches `answer` under the query's name and hands it out.
    fn accept(&mut self, query: &Query, answer: Vec<u8>, now: u64) -> (outcome: Outcome)
        requires
            now + TTL_MILLIS <= u64::MAX,
        ensures
            outcome@ == OutcomeView::UpstreamAnswer(answer@),
            final(self)@ == stores_after_accept(old(self)@, query@.name, answer@, now),
    {
        let stored = answer.clone();
        self.cache.insert(query.name.clone(), (stored, now + TTL_MILLIS));
        Outcome::UpstreamAnswer(answer)
    }
}

/// A query for a listed name never reaches upstream: it is refused, or
/// served from the cache. It makes no difference whether the list writes the
/// name with the root dot or without it.
pub proof fn lemma_blocked_name_is_never_forwarded(stores: Stores, name: Seq<char>, now: u64)
    requires
        stores.blocked.contains(name) || stores.blocked.contains(with_root_dot(name)),
    ensures
        action_on_query(stores, name, now) != ActionView::Forward,
        action_on_query(stores, name, now) is Finish,
        fresh_answer(stores.cache, name, now) is None ==> action_on_query(stores, name, now) == ActionView::Finish(
            OutcomeView::Blocked,
        ),
{
}

/// Every domain on the blocklist is refused when it is asked for. A query
/// presents its name fully qualified, `presented`; the pipeline works on that
/// name without its root dot. Whether the list holds the domain as it is
/// presented or without the dot, the query for it never reaches upstream.
/// (Two dots on their own are no name.)
pub proof fn lemma_listed_domain_is_refused_in_either_form(
    stores: Stores,
    domain: Seq<char>,
    presented: Seq<char>,
    now: u64,
)
    requires
        stores.blocked.contains(domain),
        presented.len() > 0 && presented.last() == '.',
        !(presented.len() == 2 && presented[0] == '.'),
        domain == presented || domain == without_root_dot(presented),
    ensures
        is_listed(stores.blocked, without_root_dot(presented)),
        action_on_query(stores, without_root_dot(presented), now) != ActionView::Forward,
        fresh_answer(stores.cache, without_root_dot(presented), now) is None ==> action_on_query(
            stores,
            without_root_dot(presented),
            now,
        ) == ActionView::Finish(OutcomeView::Blocked),
{
    let name = without_root_dot(presented);
    if presented.len() > 1 {
        assert(presented == presented.drop_last().push('.'));
        assert(name.len() == 1 ==> name[0] == presented[0]);
        assert(!is_root(name));
        assert(with_root_dot(name) == presented);
    } else {
        assert(is_root(name));
    }
}

/// A query for a name that is neither cached nor listed is forwarded, and
/// only such a query is.
pub proof fn lemma_forwarded_iff_unknown_and_allowed(stores: Stores, name: Seq<char>, now: u64)
    ensures
        action_on_query(stores, name, now) == ActionView::Forward <==> fresh_answer(stores.cache, name, now) is None
            && !is_listed(stores.blocked, name),
{
}

/// Once an answer was accepted for a name, a query for that name that
/// arrives before the time to live has run out gets the same bytes from the
/// cache, without an exchange with upstream, and leaves the stores as they
/// are. From the expiry on, the entry is evicted and the query is decided
/// afresh.
pub proof fn lemma_repeated_query_is_served_from_cache(stores: Stores, name: Seq<char>, answer: Seq<u8>, accepted_at: u64, now: u64)
    requires
        accepted_at + TTL_MILLIS <= u64::MAX,
    ensures
        ({
            let after = stores_after_accept(stores, name, answer, accepted_at);
            &&& now < accepted_at + TTL_MILLIS ==> action_on_query(after, name, now) == ActionView::Finish(
                OutcomeView::CachedAnswer(answer),
            )
            &&& now < accepted_at + TTL_MILLIS ==> stores_after_query(after, name, now) == after
            &&& now >= accepted_at + TTL_MILLIS ==> action_on_query(after, name, now) == (if is_listed(
                stores.blocked,
                name,
            ) {
                ActionView::Finish(OutcomeView::Blocked)
            } else {
                ActionView::Forward
            })
            &&& now >= accepted_at + TTL_MILLIS ==> !stores_after_query(after, name, now).cache.contains_key(name)
        }),
{
}

/// An answer that validation rejected is not in the cache afterwards: the
/// query was forwarded, so its name had no entry left, and the rejection
/// stores nothing.
pub proof fn lemma_rejected_answer_is_not_cached(
    stores: Stores,
    query: QueryView,
    arrived_at: u64,
    answer: Seq<u8>,
    judged_at: u64,
)
    requires
        action_on_query(stores, query.name, arrived_at) == ActionView::Forward,
    ensures
        ({
            let asked = stores_after_query(stores, query.name, arrived_at);
            let judged = stores_after_verdict(asked, query.name, answer, false, judged_at);
            &&& action_on_reply(query, Some(answer)) is Validate
            &&& outcome_of_verdict(answer, false) == OutcomeView::ValidationFailed
            &&& judged == asked
            &&& !judged.cache.contains_key(query.name)
            &&& forall|name: Seq<char>| #[trigger]
                judged.cache.contains_key(name) ==> stores.cache.contains_key(name) && judged.cache[name]
                    == stores.cache[name]
        }),
{
}

/// How a query ends, given what upstream replies and what the validator
/// says where they are asked.
pub open spec fn outcome_of(stores: Stores, query: QueryView, now: u64, reply: Option<Seq<u8>>, accepted: bool) -> OutcomeView {
    match action_on_query(stores, query.name, now) {
        ActionView::Finish(outcome) => outcome,
        _ => match action_on_reply(query, reply) {
            ActionView::Finish(outcome) => outcome,
            _ => outcome_of_verdict(reply.unwrap(), accepted),
        },
    }
}

/// The steps of the pipeline short-circuit in their order: the cache comes
/// before the blocklist, the blocklist before upstream, upstream before
/// validation.
pub proof fn lemma_steps_short_circuit(stores: Stores, query: QueryView, now: u64, reply: Option<Seq<u8>>, accepted: bool)
    ensures
        ({
            let cached = fresh_answer(stores.cache, query.name, now);
            let blocked = is_listed(stores.blocked, query.name);
            outcome_of(stores, query, now, reply, accepted) == (if cached is Some {
                OutcomeView::CachedAnswer(cached.unwrap())
            } else if blocked {
                OutcomeView::Blocked
            } else if reply is None {
                OutcomeView::NoAnswer
            } else if !accepted {
                OutcomeView::ValidationFailed
            } else {
                OutcomeView::UpstreamAnswer(reply.unwrap())
            })
        }),
{
}

/// An answer from upstream is delivered and cached only where validation
/// accepted it: the reply alone leads to no outcome that carries it, and the
/// verdict leads to one, and to a cache entry, exactly where it accepts.
pub proof fn lemma_only_accepted_answers_are_kept(
    stores: Stores,
    query: QueryView,
    answer: Seq<u8>,
    accepted: bool,
    now: u64,
)
    ensures
        action_on_reply(query, Some(answer)) == (ActionView::Validate { answer, query_type: query.query_type }),
        outcome_of_verdict(answer, accepted) is UpstreamAnswer <==> accepted,
        !accepted ==> stores_after_verdict(stores, query.name, answer, accepted, now) == stores,
        accepted ==> stores_after_verdict(stores, query.name, answer, accepted, now).cache[query.name].0 == answer,
{
}

/// Whatever upstream replies and whatever the validator says, a query ends
/// with an answer from upstream only where there was a reply and the
/// validator accepted it, and then with that reply.
pub proof fn lemma_upstream_answer_needs_an_accepted_verdict(
    stores: Stores,
    query: QueryView,
    now: u64,
    reply: Option<Seq<u8>>,
    accepted: bool,
)
    ensures
        outcome_of(stores, query, now, reply, accepted) is UpstreamAnswer ==> accepted && reply == Some(
            outcome_of(stores, query, now, reply, accepted)->UpstreamAnswer_0,
        ),
{
}

/// A refresh of the blocklist decides, from then on, by the new list alone,
/// and leaves the cache as it is.
pub proof fn lemma_refreshed_blocklist_decides(stores: Stores, event: RefreshEvent, name: Seq<char>, now: u64)
    requires
        fresh_answer(stores.cache, name, now) is None,
    ensures
        ({
            let after = Stores { cache: stores.cache, blocked: blocked_after(stores.blocked, event) };
            action_on_query(after, name, now) == (if is_listed(blocked_after(stores.blocked, event), name) {
                ActionView::Finish(OutcomeView::Blocked)
            } else {
                ActionView::Forward
            })
        }),
{
}

} // verus!
