//! The DNSSEC validator: the trust material read at startup, and the local
//! inspection of a candidate answer.
//!
//! The verdict that the pipeline acts on is the one that its caller reports.
//! The listeners get it by delegated verification: they ask a validating
//! resolver for the same question, and the answer passes if and only if that
//! lookup succeeds. What stands here is the inspection of the answer itself,
//! for a caller without such a resolver: an answer passes if its answer
//! section holds at least one signature record and at least one key record,
//! and every other is rejected, undecodable bytes included. Neither way ever
//! repairs an answer.

use crate::text::{entries, insert_all, parse_entries};
use crate::wire::{decoded_packet, read_packet, AnswerRecord, PacketView, RecordData};
use vstd::hash_set::StringHashSet;
use vstd::prelude::*;

verus! {

/// The record type of a zone key (DNSKEY).
pub const DNSKEY: u16 = 48;

/// Whether `answers` holds a record whose data is a signature.
pub open spec fn has_signature(answers: Seq<AnswerRecord>) -> bool {
    exists|i: int| 0 <= i < answers.len() && (#[trigger] answers[i]).data == RecordData::Signature
}

/// Whether `answers` holds a record of the key type.
pub open spec fn has_key(answers: Seq<AnswerRecord>) -> bool {
    exists|i: int| 0 <= i < answers.len() && (#[trigger] answers[i]).record_type == DNSKEY
}

/// Whether an answer section passes: it holds a signature and a key.
pub open spec fn accepts(answers: Seq<AnswerRecord>) -> bool {
    has_signature(answers) && has_key(answers)
}

/// Whether a candidate answer passes, given what the codec decoded from it:
/// bytes that do not decode never pass.
pub open spec fn validates(decoded: Option<PacketView>) -> bool {
    match decoded {
        Some(packet) => accepts(packet.answers),
        None => false,
    }
}

/// The trust anchors that a root key file holds: its entries, or none where
/// the file could not be read.
pub open spec fn anchors_of(root_keys: Option<&str>) -> Set<Seq<char>> {
    match root_keys {
        Some(text) => entries(text@).to_set(),
        None => Set::empty(),
    }
}

/// Decides whether an answer section passes.
pub fn accepts_answers(answers: &Vec<AnswerRecord>) -> (accepted: bool)
    ensures
        accepted == accepts(answers@),
{
    let mut signature = false;
    let mut key = false;
    let mut i: usize = 0;
    while i < answers.len()
        invariant
            i <= answers.len(),
            signature == has_signature(answers@.take(i as int)),
            key == has_key(answers@.take(i as int)),
        decreases answers.len() - i,
    {
        let ghost before = answers@.take(i as int);
        let ghost after = answers@.take(i + 1);
        let record = &answers[i];
        let signs = match record.data {
            RecordData::Signature => true,
            _ => false,
        };
        let keys = record.record_type == DNSKEY;
        proof {
            assert(after[i as int] == answers@[i as int]);
            if has_signature(before) {
                let at = choose|at: int| 0 <= at < before.len() && (#[trigger] before[at]).data == RecordData::Signature;
                assert(after[at] == before[at]);
            }
            if has_signature(after) && !signs {
                let at = choose|at: int| 0 <= at < after.len() && (#[trigger] after[at]).data == RecordData::Signature;
                assert(before[at] == after[at]);
            }
            if has_key(before) {
                let at = choose|at: int| 0 <= at < before.len() && (#[trigger] before[at]).record_type == DNSKEY;
                assert(after[at] == before[at]);
            }
            if has_key(after) && !keys {
                let at = choose|at: int| 0 <= at < after.len() && (#[trigger] after[at]).record_type == DNSKEY;
                assert(before[at] == after[at]);
            }
        }
        signature = signature || signs;
        key = key || keys;
        i += 1;
    }
    assert(answers@.take(i as int) == answers@);
    signature && key
}

/// The validator: the trust material read at startup, and the decision
/// procedure.
pub struct DnssecValidator {
    trust_anchors: StringHashSet,
    root_hints_path: String,
}

impl DnssecValidator {
    /// The trust anchors held.
    pub closed spec fn anchors(&self) -> Set<Seq<char>> {
        self.trust_anchors@
    }

    /// Where the root hints document is kept.
    pub closed spec fn hints_path(&self) -> Seq<char> {
        self.root_hints_path@
    }

    /// Builds the validator from the text of the root key file, `None` where
    /// the file could not be read, and the path under which the root hints
    /// are kept.
    pub fn new(root_keys: Option<&str>, root_hints_path: String) -> (validator: Self)
        ensures
            validator.anchors() == anchors_of(root_keys),
            validator.hints_path() == root_hints_path@,
    {
        let mut trust_anchors = StringHashSet::new();
        match root_keys {
            Some(text) => {
                let found = parse_entries(text);
                insert_all(&mut trust_anchors, &found);
                assert(Set::<Seq<char>>::empty().union(entries(text@).to_set()) =~= entries(text@).to_set());
            },
            None => {},
        }
        DnssecValidator { trust_anchors, root_hints_path }
    }

    /// Whether `anchor` is one of the trust anchors held.
    pub fn is_trust_anchor(&self, anchor: &str) -> (held: bool)
        ensures
            held == self.anchors().contains(anchor@),
    {
        self.trust_anchors.contains(anchor)
    }

    /// The path under which the root hints are kept.
    pub fn root_hints_path(&self) -> (path: &str)
        ensures
            path@ == self.hints_path(),
    {
        self.root_hints_path.as_str()
    }

    /// Decides whether the candidate answer `response` passes.
    pub fn validate(&self, response: &[u8]) -> (accepted: bool)
        ensures
            accepted == validates(decoded_packet(response@)),
    {
        match read_packet(response) {
            Some(packet) => accepts_answers(&packet.answers),
            None => false,
        }
    }
}

} // verus!
