//! What each transport writes back for an outcome.
//!
//! The three listeners run the same pipeline and carry the same DNS messages.
//! An answer is written back as it is, and a blocked query is refused with a
//! DNS message, on every transport. The transports differ only in how a
//! query that ends without an answer is met: with silence, or, where an
//! exchange has to be completed, with a body.

use crate::cache::fresh_answer;
use crate::clock::TTL_MILLIS;
use crate::resolver::{
    action_on_query, action_on_reply, is_listed, outcome_of_verdict, stores_after_query, stores_after_verdict,
    with_root_dot, ActionView, Outcome, OutcomeView, Query, QueryView, Stores,
};
use crate::wire::{encoded_error_reply, is_headed_as_reply_to, optional_bytes, write_error_reply};
use vstd::prelude::*;
use vstd::string::{StrSliceExecFns, StringSliceAdditionalSpecFns};
use vstd::utf8::encode_utf8;

verus! {

/// The wire transports that the proxy listens on.
#[derive(Clone, Copy, PartialEq, Eq, Debug)]
pub enum Transport {
    /// Plain datagrams.
    Udp,
    /// DNS over TLS.
    Dot,
    /// DNS over HTTP(S).
    Doh,
}

/// The response code of a refusal.
pub const REFUSED: u16 = 5;

/// The largest query, in bytes, that the datagram and the TLS listener read
/// from a client.
pub const MAX_MESSAGE_BYTES: usize = 512;

/// The largest reply, in bytes, that upstream can send in one datagram. A
/// listener reads the reply into a buffer of this size, so that it passes it
/// on as it came.
pub const MAX_UPSTREAM_REPLY_BYTES: usize = 65_535;

/// The bytes that carry an encoded message: its encoding, or nothing where
/// the message could not be encoded.
pub open spec fn datagram_of(encoded: Option<Seq<u8>>) -> Seq<u8> {
    match encoded {
        Some(bytes) => bytes,
        None => Seq::empty(),
    }
}

/// The refusal that is written back for a blocked query, on every transport,
/// `raw` being the bytes of the inbound message: the encoding of a DNS
/// response that keeps the query's id, operation code and question section
/// and carries the response code [`REFUSED`]; no bytes where that message
/// cannot be encoded.
pub open spec fn refusal_of(query: QueryView, raw: Seq<u8>) -> Seq<u8> {
    datagram_of(encoded_error_reply(raw, query.id, query.op_code, REFUSED))
}

/// What `transport` writes back for `outcome`, or `None` where it writes
/// nothing and leaves the client to time out.
pub open spec fn reply_of(transport: Transport, outcome: OutcomeView, query: QueryView, raw: Seq<u8>) -> Option<Seq<u8>> {
    match outcome {
        OutcomeView::CachedAnswer(answer) => Some(answer),
        OutcomeView::UpstreamAnswer(answer) => Some(answer),
        OutcomeView::Blocked => Some(refusal_of(query, raw)),
        OutcomeView::ValidationFailed => match transport {
            Transport::Doh => Some(encode_utf8("DNSSEC validation failed"@)),
            _ => None,
        },
        OutcomeView::NoAnswer => reply_without_answer(transport),
    }
}

/// What `transport` writes back where it has no answer to give, be it that
/// upstream stayed silent or that the inbound bytes were no query: an HTTP
/// exchange is always completed, with an empty body; the others write
/// nothing.
pub open spec fn reply_without_answer(transport: Transport) -> Option<Seq<u8>> {
    match transport {
        Transport::Doh => Some(Seq::empty()),
        _ => None,
    }
}

/// Builds the bytes that carry an encoded message.
pub fn datagram(encoded: Option<Vec<u8>>) -> (bytes: Vec<u8>)
    ensures
        bytes@ == datagram_of(optional_bytes(encoded)),
{
    match encoded {
        Some(bytes) => bytes,
        None => Vec::new(),
    }
}

/// Builds the refusal for a blocked query. Unless it is empty, it starts
/// with a response header that keeps the query's id and operation code,
/// carries the response code [`REFUSED`], and counts as many questions as
/// the inbound message has and no record.
pub fn refusal(query: &Query, raw: &[u8]) -> (bytes: Vec<u8>)
    ensures
        bytes@ == refusal_of(query@, raw@),
        bytes@.len() > 0 ==> is_headed_as_reply_to(bytes@, raw@, query.id, query.op_code, REFUSED),
{
    datagram(write_error_reply(raw, query.id, query.op_code, REFUSED))
}

/// Builds what `transport` writes back for `outcome`.
pub fn reply_for(transport: Transport, outcome: Outcome, query: &Query, raw: &[u8]) -> (reply: Option<Vec<u8>>)
    ensures
        reply is Some <==> reply_of(transport, outcome@, query@, raw@) is Some,
        reply matches Some(bytes) ==> reply_of(transport, outcome@, query@, raw@) == Some(bytes@),
        reply matches Some(bytes) ==> (outcome is Blocked && bytes@.len() > 0 ==> is_headed_as_reply_to(
            bytes@,
            raw@,
            query.id,
            query.op_code,
            REFUSED,
        )),
{
    match outcome {
        Outcome::CachedAnswer(answer) => Some(answer),
        Outcome::UpstreamAnswer(answer) => Some(answer),
        Outcome::Blocked => Some(refusal(query, raw)),
        Outcome::ValidationFailed => match transport {
            Transport::Doh => Some("DNSSEC validation failed".as_bytes_vec()),
            _ => None,
        },
        Outcome::NoAnswer => silent_reply(transport),
    }
}

/// Builds what `transport` writes back where it has no answer to give.
pub fn silent_reply(transport: Transport) -> (reply: Option<Vec<u8>>)
    ensures
        reply is Some <==> reply_without_answer(transport) is Some,
        reply matches Some(bytes) ==> reply_without_answer(transport) == Some(bytes@),
{
    match transport {
        Transport::Doh => Some(Vec::new()),
        _ => None,
    }
}

/// An HTTP exchange is always completed: whatever the outcome, there is a
/// body to write back.
pub proof fn lemma_http_always_replies(outcome: OutcomeView, query: QueryView, raw: Seq<u8>)
    ensures
        reply_of(Transport::Doh, outcome, query, raw) is Some,
{
}

/// An answer, cached or fresh, is written back as it is, on every transport.
pub proof fn lemma_answers_pass_verbatim(transport: Transport, answer: Seq<u8>, query: QueryView, raw: Seq<u8>)
    ensures
        reply_of(transport, OutcomeView::CachedAnswer(answer), query, raw) == Some(answer),
        reply_of(transport, OutcomeView::UpstreamAnswer(answer), query, raw) == Some(answer),
{
}

/// A blocked query is refused in the same way on every transport.
pub proof fn lemma_refusal_is_the_same_on_every_transport(
    first: Transport,
    second: Transport,
    query: QueryView,
    raw: Seq<u8>,
)
    ensures
        reply_of(first, OutcomeView::Blocked, query, raw) == reply_of(second, OutcomeView::Blocked, query, raw),
        reply_of(first, OutcomeView::Blocked, query, raw) == Some(refusal_of(query, raw)),
{
}

/// The datagram and the TLS listener write nothing exactly where the query
/// ended without an answer: upstream was silent, or validation failed.
pub proof fn lemma_silence_means_no_answer(transport: Transport, outcome: OutcomeView, query: QueryView, raw: Seq<u8>)
    requires
        transport != Transport::Doh,
    ensures
        reply_of(transport, outcome, query, raw) is None <==> outcome is NoAnswer || outcome is ValidationFailed,
{
}

/// A query for a listed name that the cache does not answer is refused on
/// every transport, without an exchange with upstream, and stores nothing,
/// whether the list writes the name with the root dot or without it:
/// the cache holds afterwards what it held, less an expired entry under the
/// name.
pub proof fn lemma_blocked_query_is_refused(
    transport: Transport,
    stores: Stores,
    query: QueryView,
    raw: Seq<u8>,
    now: u64,
)
    requires
        stores.blocked.contains(query.name) || stores.blocked.contains(with_root_dot(query.name)),
        fresh_answer(stores.cache, query.name, now) is None,
    ensures
        action_on_query(stores, query.name, now) == ActionView::Finish(OutcomeView::Blocked),
        reply_of(transport, OutcomeView::Blocked, query, raw) == Some(refusal_of(query, raw)),
        stores_after_query(stores, query.name, now).blocked == stores.blocked,
        stores_after_query(stores, query.name, now).cache == stores.cache.remove(query.name),
{
    assert(stores_after_query(stores, query.name, now).cache =~= stores.cache.remove(query.name));
}

/// A query for a name that is neither cached nor listed goes upstream
/// once. The answer that validation accepts is written back as it came, on
/// every transport, and cached under the name for the time to live, every
/// other entry staying as it was. Until that time has run out a query for
/// the name gets the same bytes from the cache, without an exchange with
/// upstream; from then on it goes upstream once more.
pub proof fn lemma_answer_is_fetched_once_per_time_to_live(
    transport: Transport,
    stores: Stores,
    query: QueryView,
    raw: Seq<u8>,
    arrived_at: u64,
    answer: Seq<u8>,
    accepted_at: u64,
    again_at: u64,
)
    requires
        fresh_answer(stores.cache, query.name, arrived_at) is None,
        !is_listed(stores.blocked, query.name),
        accepted_at + TTL_MILLIS <= u64::MAX,
    ensures
        ({
            let asked = stores_after_query(stores, query.name, arrived_at);
            let kept = stores_after_verdict(asked, query.name, answer, true, accepted_at);
            let expiry = (accepted_at + TTL_MILLIS) as u64;
            &&& action_on_query(stores, query.name, arrived_at) == ActionView::Forward
            &&& action_on_reply(query, Some(answer)) == (ActionView::Validate { answer, query_type: query.query_type })
            &&& reply_of(transport, outcome_of_verdict(answer, true), query, raw) == Some(answer)
            &&& kept.cache == stores.cache.insert(query.name, (answer, expiry))
            &&& kept.blocked == stores.blocked
            &&& again_at < expiry ==> action_on_query(kept, query.name, again_at) == ActionView::Finish(
                OutcomeView::CachedAnswer(answer),
            )
            &&& again_at < expiry ==> reply_of(transport, OutcomeView::CachedAnswer(answer), query, raw) == Some(
                answer,
            )
            &&& again_at < expiry ==> stores_after_query(kept, query.name, again_at) == kept
            &&& again_at >= expiry ==> action_on_query(kept, query.name, again_at) == ActionView::Forward
        }),
{
    let asked = stores_after_query(stores, query.name, arrived_at);
    let kept = stores_after_verdict(asked, query.name, answer, true, accepted_at);
    let expiry = (accepted_at + TTL_MILLIS) as u64;
    assert(kept.cache =~= stores.cache.insert(query.name, (answer, expiry)));
}

} // verus!
