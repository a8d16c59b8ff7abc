//! The blocklist store: the set of domains whose resolution is refused.
//!
//! The store does not fetch. For every refresh the caller reads the list of
//! sources again, fetches every source on it, remote or local, and hands
//! over what it got: the text of each source, or `None` for a source that
//! could not be had. A refresh builds a new set from
//! those documents and puts it in the place of the old one in one step.

use crate::clock::REFRESH_INTERVAL_SECS;
use crate::text::{entries, insert_all, parse_entries, starts_with, views};
use vstd::hash_set::StringHashSet;
use vstd::prelude::*;

verus! {

/// The set of blocked domains, each as its line wrote it, with the root dot
/// or without. It is only ever replaced as a whole, and
/// through an exclusive reference: a reader sees the set of before a refresh
/// or the set of after it, never a part of either.
pub struct Blocklist {
    domains: StringHashSet,
}

impl View for Blocklist {
    type V = Set<Seq<char>>;

    closed spec fn view(&self) -> Set<Seq<char>> {
        self.domains@
    }
}

/// Where a blocklist source is fetched from.
#[derive(Clone, Copy, PartialEq, Eq, Debug)]
pub enum SourceKind {
    /// A document behind an `http://` or `https://` address.
    Remote,
    /// A file on the local disk.
    Local,
}

/// Whether `source` names a remote document.
pub open spec fn is_remote(source: Seq<char>) -> bool {
    "http://"@.is_prefix_of(source) || "https://"@.is_prefix_of(source)
}

/// The text of each document of `documents`.
pub open spec fn texts(documents: Seq<Option<String>>) -> Seq<Option<Seq<char>>> {
    documents.map_values(
        |document: Option<String>|
            match document {
                Some(text) => Some(text@),
                None => None,
            },
    )
}

/// The domains that a set of fetched documents blocks: every entry of every
/// document that could be had. A document that could not be had contributes
/// nothing.
pub open spec fn domains_of(documents: Seq<Option<Seq<char>>>) -> Set<Seq<char>> {
    Set::new(
        |domain: Seq<char>|
            exists|i: int|
                0 <= i < documents.len() && (#[trigger] documents[i]) is Some && entries(
                    documents[i].unwrap(),
                ).contains(domain),
    )
}

/// What drives the refresh loop.
pub enum RefreshEvent {
    /// The loop starts.
    Started,
    /// The sources were fetched; the documents are in the order of the
    /// sources.
    Fetched(Vec<Option<String>>),
    /// The refresh interval has run out.
    IntervalElapsed,
    /// A reload was requested from outside.
    ReloadRequested,
}

/// What the refresh loop does next.
#[derive(Clone, Copy, PartialEq, Eq, Debug)]
pub enum RefreshAction {
    /// Read the list of sources again, fetch every source on it, and
    /// report the documents.
    Fetch,
    /// Wait until the interval of `seconds` has run out or a reload is
    /// requested, whichever comes first, and report which.
    Wait { seconds: u64 },
}

/// The set that `event` leaves in place of `blocked`: a finished fetch
/// installs the domains of its documents, and nothing else changes the set.
pub open spec fn blocked_after(blocked: Set<Seq<char>>, event: RefreshEvent) -> Set<Seq<char>> {
    match event {
        RefreshEvent::Fetched(documents) => domains_of(texts(documents@)),
        _ => blocked,
    }
}

/// What the refresh loop does after `event`: it waits after a fetch, and
/// fetches at its start and after every wait, however the wait ended.
pub open spec fn action_after(event: RefreshEvent) -> RefreshAction {
    match event {
        RefreshEvent::Fetched(_) => RefreshAction::Wait { seconds: REFRESH_INTERVAL_SECS },
        _ => RefreshAction::Fetch,
    }
}

/// Tells where `source` is fetched from.
pub fn source_kind(source: &str) -> (kind: SourceKind)
    ensures
        kind is Remote <==> is_remote(source@),
{
    if starts_with(source, "http://") || starts_with(source, "https://") {
        SourceKind::Remote
    } else {
        SourceKind::Local
    }
}

/// The documents up to and including the `i`-th block what the documents
/// before it block, and the entries of the `i`-th where it could be had.
proof fn lemma_domains_of_next(documents: Seq<Option<Seq<char>>>, i: int)
    requires
        0 <= i < documents.len(),
    ensures
        domains_of(documents.take(i + 1)) == (match documents[i] {
            Some(text) => domains_of(documents.take(i)).union(entries(text).to_set()),
            None => domains_of(documents.take(i)),
        }),
{
    let done = documents.take(i);
    let next = documents.take(i + 1);
    let added = match documents[i] {
        Some(text) => entries(text).to_set(),
        None => Set::empty(),
    };
    assert(next[i] == documents[i]);
    assert forall|d: Seq<char>| domains_of(next).contains(d) <==> domains_of(done).union(added).contains(d) by {
        if domains_of(next).contains(d) {
            let k = choose|k: int|
                0 <= k < next.len() && (#[trigger] next[k]) is Some && entries(next[k].unwrap()).contains(d);
            if k < i {
                assert(done[k] == next[k]);
            }
        }
        if domains_of(done).contains(d) {
            let k = choose|k: int|
                0 <= k < done.len() && (#[trigger] done[k]) is Some && entries(done[k].unwrap()).contains(d);
            assert(next[k] == done[k]);
        }
    }
    assert(domains_of(next) =~= domains_of(done).union(added));
    assert(domains_of(done).union(Set::empty()) =~= domains_of(done));
}

impl Blocklist {
    /// A blocklist that blocks nothing.
    pub fn new() -> (list: Self)
        ensures
            list@ == Set::<Seq<char>>::empty(),
    {
        Blocklist { domains: StringHashSet::new() }
    }

    /// The blocklist that blocks exactly the domains in `names`.
    pub fn from_domains(names: &Vec<String>) -> (list: Self)
        ensures
            list@ == views(names@).to_set(),
    {
        let mut domains = StringHashSet::new();
        insert_all(&mut domains, names);
        assert(Set::<Seq<char>>::empty().union(views(names@).to_set()) =~= views(names@).to_set());
        Blocklist { domains }
    }

    /// Builds the blocklist of a set of fetched documents.
    pub fn load(documents: &Vec<Option<String>>) -> (list: Self)
        ensures
            list@ == domains_of(texts(documents@)),
    {
        let mut domains = StringHashSet::new();
        let mut i: usize = 0;
        assert(domains_of(texts(documents@).take(0)) =~= Set::<Seq<char>>::empty());
        while i < documents.len()
            invariant
                i <= documents.len(),
                domains@ == domains_of(texts(documents@).take(i as int)),
            decreases documents.len() - i,
        {
            proof {
                lemma_domains_of_next(texts(documents@), i as int);
            }
            match &documents[i] {
                Some(text) => {
                    let found = parse_entries(text.as_str());
                    insert_all(&mut domains, &found);
                },
                None => {},
            }
            i += 1;
        }
        assert(texts(documents@).take(i as int) == texts(documents@));
        Blocklist { domains }
    }

    /// Puts the blocklist of a set of fetched documents in the place of this
    /// one. Nothing of the old set stays.
    pub fn reload(&mut self, documents: &Vec<Option<String>>)
        ensures
            final(self)@ == domains_of(texts(documents@)),
    {
        *self = Blocklist::load(documents);
    }

    /// Takes one step of the refresh loop: applies `event` to the set, and
    /// tells what the loop does next.
    pub fn periodic_update(&mut self, event: RefreshEvent) -> (action: RefreshAction)
        ensures
            final(self)@ == blocked_after(old(self)@, event),
            action == action_after(event),
    {
        match event {
            RefreshEvent::Fetched(documents) => {
                self.reload(&documents);
                RefreshAction::Wait { seconds: REFRESH_INTERVAL_SECS }
            },
            _ => RefreshAction::Fetch,
        }
    }

    /// Whether `domain` is blocked.
    pub fn is_blocked(&self, domain: &str) -> (blocked: bool)
        ensures
            blocked == self@.contains(domain@),
    {
        self.domains.contains(domain)
    }
}

/// A domain that a fetched document lists is blocked.
pub proof fn lemma_listed_domain_is_blocked(documents: Seq<Option<Seq<char>>>, i: int, domain: Seq<char>)
    requires
        0 <= i < documents.len(),
        documents[i] is Some,
        entries(documents[i].unwrap()).contains(domain),
    ensures
        domains_of(documents).contains(domain),
{
}

/// A source that could not be had blocks nothing: the set is the one that
/// the other documents give.
pub proof fn lemma_missing_document_blocks_nothing(documents: Seq<Option<Seq<char>>>, i: int)
    requires
        0 <= i < documents.len(),
        documents[i] is None,
    ensures
        domains_of(documents) == domains_of(documents.remove(i)),
{
    let others = documents.remove(i);
    assert forall|d: Seq<char>| domains_of(documents).contains(d) <==> domains_of(others).contains(d) by {
        if domains_of(documents).contains(d) {
            let k = choose|k: int|
                0 <= k < documents.len() && (#[trigger] documents[k]) is Some && entries(
                    documents[k].unwrap(),
                ).contains(d);
            if k < i {
                assert(others[k] == documents[k]);
            } else {
                assert(others[k - 1] == documents[k]);
            }
        }
        if domains_of(others).contains(d) {
            let k = choose|k: int|
                0 <= k < others.len() && (#[trigger] others[k]) is Some && entries(others[k].unwrap()).contains(d);
            if k < i {
                assert(documents[k] == others[k]);
            } else {
                assert(documents[k + 1] == others[k]);
            }
        }
    }
    assert(domains_of(documents) =~= domains_of(others));
}

/// A refresh installs a set that owes nothing to the set before it: a domain
/// is blocked afterwards if and only if a document of this fetch lists it.
pub proof fn lemma_refresh_replaces_the_whole_set(
    before: Set<Seq<char>>,
    documents: Vec<Option<String>>,
    domain: Seq<char>,
)
    ensures
        blocked_after(before, RefreshEvent::Fetched(documents)).contains(domain) <==> exists|i: int|
            0 <= i < documents@.len() && (#[trigger] documents@[i]) is Some && entries(
                documents@[i].unwrap()@,
            ).contains(domain),
{
    let fetched = texts(documents@);
    if domains_of(fetched).contains(domain) {
        let k = choose|k: int|
            0 <= k < fetched.len() && (#[trigger] fetched[k]) is Some && entries(fetched[k].unwrap()).contains(domain);
        assert(documents@[k] is Some);
        assert(fetched[k].unwrap() == documents@[k].unwrap()@);
    }
    if exists|i: int|
        0 <= i < documents@.len() && (#[trigger] documents@[i]) is Some && entries(documents@[i].unwrap()@).contains(
            domain,
        ) {
        let k = choose|k: int|
            0 <= k < documents@.len() && (#[trigger] documents@[k]) is Some && entries(
                documents@[k].unwrap()@,
            ).contains(domain);
        assert(fetched[k] == Some(documents@[k].unwrap()@));
    }
}

/// After any step of the refresh loop the set is a whole generation: the
/// one before the step, or the one that the step's fetch gives. No step
/// leaves a mixture of the two.
pub proof fn lemma_refresh_leaves_a_whole_generation(before: Set<Seq<char>>, event: RefreshEvent)
    ensures
        blocked_after(before, event) == before || (event matches RefreshEvent::Fetched(documents)
            && blocked_after(before, event) == domains_of(texts(documents@))),
{
}

/// Only a finished fetch changes the set: the start of the loop, the end of
/// an interval and a reload request leave it as it is.
pub proof fn lemma_only_a_fetch_changes_the_set(before: Set<Seq<char>>, event: RefreshEvent)
    requires
        !(event is Fetched),
    ensures
        blocked_after(before, event) == before,
        action_after(event) == RefreshAction::Fetch,
{
}

} // verus!
