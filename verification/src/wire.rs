//! DNS wire messages, as far as the proxy reads and writes them.
//!
//! Decoding and encoding belong to `trust-dns-proto`. This module carries the
//! fields that the proxy's rules read across as plain values, and gives the
//! codec's results names that the contracts of the other modules speak of.

use trust_dns_proto::op::{Message, OpCode};
use trust_dns_proto::rr::dnssec::rdata::DNSSECRData;
use trust_dns_proto::rr::RData;
use vstd::prelude::*;

verus! {

/// One entry of a message's question section.
pub struct Question {
    /// The name asked for, in its ASCII presentation form.
    pub name: String,
    /// The numeric record type asked for.
    pub query_type: u16,
}

/// A [`Question`] as contracts see it.
pub struct QuestionView {
    pub name: Seq<char>,
    pub query_type: u16,
}

impl View for Question {
    type V = QuestionView;

    open spec fn view(&self) -> QuestionView {
        QuestionView { name: self.name@, query_type: self.query_type }
    }
}

/// What the record data of an answer is, as far as the DNSSEC gate tells it
/// apart.
#[derive(Clone, Copy, PartialEq, Eq, Debug)]
pub enum RecordData {
    /// The record carries no data.
    Absent,
    /// The data is a signature over a record set (RRSIG).
    Signature,
    /// The data is anything else.
    Other,
}

/// One record of a message's answer section.
#[derive(Clone, Copy, PartialEq, Eq, Debug)]
pub struct AnswerRecord {
    /// The numeric record type in the record's header.
    pub record_type: u16,
    /// The kind of data that the record carries.
    pub data: RecordData,
}

/// What the proxy reads of a message: its header fields, its question
/// section and its answer section.
pub struct Packet {
    /// The transaction id.
    pub id: u16,
    /// The numeric operation code.
    pub op_code: u8,
    /// The question section, in wire order.
    pub questions: Vec<Question>,
    /// The answer section, in wire order.
    pub answers: Vec<AnswerRecord>,
}

/// A [`Packet`] as contracts see it.
pub struct PacketView {
    pub id: u16,
    pub op_code: u8,
    pub questions: Seq<QuestionView>,
    pub answers: Seq<AnswerRecord>,
}

impl View for Packet {
    type V = PacketView;

    open spec fn view(&self) -> PacketView {
        PacketView {
            id: self.id,
            op_code: self.op_code,
            questions: self.questions@.map_values(|q: Question| q@),
            answers: self.answers@,
        }
    }
}

/// The bytes of an optional message.
pub open spec fn optional_bytes(message: Option<Vec<u8>>) -> Option<Seq<u8>> {
    match message {
        Some(bytes) => Some(bytes@),
        None => None,
    }
}

/// The packet that the codec decodes from `bytes`, or `None` where it
/// rejects them.
pub uninterp spec fn decoded_packet(bytes: Seq<u8>) -> Option<PacketView>;

/// The bytes of the error reply that the codec encodes for the message in
/// `request`, with the given header fields, or `None` where it cannot.
pub uninterp spec fn encoded_error_reply(request: Seq<u8>, id: u16, op_code: u8, response_code: u16) -> Option<Seq<u8>>;

/// `Message::from_vec`, with what it decoded moved into a [`Packet`]: the
/// id, the operation code by its number, each question with its name by
/// `Name::to_ascii` and its type by its number, and each answer record with
/// its type by its number and the kind of its data. The result is the one
/// that [`decoded_packet`] names.
#[verifier::external_body]
pub(crate) fn read_packet(bytes: &[u8]) -> (packet: Option<Packet>)
    ensures
        packet is Some <==> decoded_packet(bytes@) is Some,
        packet matches Some(p) ==> decoded_packet(bytes@) == Some(p@),
{
    let message = Message::from_vec(bytes).ok()?;
    let questions = message.queries().iter().map(|q| Question {
        name: q.name().to_ascii(),
        query_type: u16::from(q.query_type()),
    });
    let answers = message.answers().iter().map(|record| AnswerRecord {
        record_type: u16::from(record.record_type()),
        data: match record.data() {
            Some(RData::DNSSEC(DNSSECRData::RRSIG(_))) => RecordData::Signature,
            Some(_) => RecordData::Other,
            None => RecordData::Absent,
        },
    });
    let (id, op_code) = (message.id(), u8::from(message.op_code()));
    Some(Packet { id, op_code, questions: questions.collect(), answers: answers.collect() })
}

/// Whether `bytes` start with the header of a response that carries the
/// given id, operation code and response code: the id in the first two
/// octets, the response bit and the operation code in the third, the low four
/// bits of the response code in the fourth.
pub open spec fn has_response_header(bytes: Seq<u8>, id: u16, op_code: u8, response_code: u16) -> bool {
    &&& bytes.len() >= 12
    &&& bytes[0] as int * 256 + bytes[1] as int == id
    &&& bytes[2] as int / 128 == 1
    &&& (bytes[2] as int / 8) % 16 == op_code
    &&& bytes[3] as int % 16 == response_code as int % 16
}

/// Whether the header that `bytes` start with counts `questions` entries in
/// the question section and no record in any other section: the question
/// count stands in the fifth and sixth octet, the three record counts in the
/// six octets after them.
pub open spec fn has_section_counts(bytes: Seq<u8>, questions: nat) -> bool {
    &&& bytes.len() >= 12
    &&& bytes[4] as int * 256 + bytes[5] as int == questions
    &&& forall|i: int| 6 <= i < 12 ==> bytes[i] == 0
}

/// Whether `bytes` are headed as the error reply to the message in
/// `request` is: with the given id, operation code and response code, with
/// as many questions as the codec decodes from `request`, and without
/// records.
pub open spec fn is_headed_as_reply_to(bytes: Seq<u8>, request: Seq<u8>, id: u16, op_code: u8, response_code: u16) -> bool {
    &&& has_response_header(bytes, id, op_code, response_code)
    &&& decoded_packet(request) matches Some(asked) && has_section_counts(bytes, asked.questions.len())
}

/// `Message::to_vec` of the error reply to the message in `request`: the
/// message that `Message::error_msg` builds from the given id, operation
/// code and response code, with the question section that `Message::from_vec`
/// reads from `request` added to it by `Message::add_queries`. The result is
/// the one that [`encoded_error_reply`] names. There is a reply only where
/// `request` decodes. It starts with the message header as `Header::emit`
/// lays it out, twelve octets long, with the counts that
/// `emit_message_parts` puts in: every added question was written, or the
/// encoding failed, and the reply holds no record.
#[verifier::external_body]
pub(crate) fn write_error_reply(request: &[u8], id: u16, op_code: u8, response_code: u16) -> (reply: Option<Vec<u8>>)
    ensures
        optional_bytes(reply) == encoded_error_reply(request@, id, op_code, response_code),
        reply matches Some(b) ==> is_headed_as_reply_to(b@, request@, id, op_code, response_code),
{
    let asked = Message::from_vec(request).ok()?;
    let mut reply = Message::error_msg(id, OpCode::from_u8(op_code).ok()?, response_code.into());
    reply.add_queries(asked.queries().to_vec());
    reply.to_vec().ok()
}

} // verus!
