use trust_dns_proto::op::{Message, MessageType};
use trust_dns_proto::rr::dnssec::rdata::{DNSSECRData, DNSKEY, RRSIG, SIG};
use trust_dns_proto::rr::dnssec::Algorithm;
use trust_dns_proto::rr::rdata::A;
use trust_dns_proto::rr::{Name, RData, Record, RecordType};
use zendns::dnssec::{accepts_answers, DnssecValidator, DNSKEY as DNSKEY_TYPE};
use zendns::wire::{AnswerRecord, RecordData};

fn name() -> Name {
    Name::from_ascii("example.com.").unwrap()
}

fn address() -> Record {
    Record::from_rdata(name(), 300, RData::A(A::new(192, 0, 2, 1)))
}

fn key() -> Record {
    let key = DNSKEY::new(true, false, false, Algorithm::ED25519, vec![7; 32]);
    Record::from_rdata(name(), 300, RData::DNSSEC(DNSSECRData::DNSKEY(key)))
}

fn signature() -> Record {
    let sig = RRSIG::new(RecordType::A, Algorithm::ED25519, 2, 300, 2_000_000_000, 1_000_000_000, 42, name(), vec![1; 64]);
    Record::from_rdata(name(), 300, RData::DNSSEC(DNSSECRData::RRSIG(sig)))
}

fn old_style_signature() -> Record {
    let sig = SIG::new(RecordType::A, Algorithm::ED25519, 2, 300, 2_000_000_000, 1_000_000_000, 42, name(), vec![1; 64]);
    Record::from_rdata(name(), 300, RData::DNSSEC(DNSSECRData::SIG(sig)))
}

fn response(answers: Vec<Record>) -> Vec<u8> {
    let mut message = Message::new();
    message.set_id(1);
    message.set_message_type(MessageType::Response);
    for answer in answers {
        message.add_answer(answer);
    }
    message.to_vec().unwrap()
}

fn validator() -> DnssecValidator {
    DnssecValidator::new(None, "/var/lib/zendns/root.hints".to_string())
}

fn record(record_type: u16, data: RecordData) -> AnswerRecord {
    AnswerRecord { record_type, data }
}

#[test]
fn answer_with_signature_and_key_passes() {
    assert!(validator().validate(&response(vec![address(), signature(), key()])));
    assert!(validator().validate(&response(vec![key(), signature()])));
}

#[test]
fn answer_without_signature_is_rejected() {
    assert!(!validator().validate(&response(vec![address(), key()])));
    assert!(!validator().validate(&response(vec![key(), old_style_signature()])));
}

#[test]
fn answer_without_key_is_rejected() {
    assert!(!validator().validate(&response(vec![address(), signature()])));
}

#[test]
fn plain_answer_and_empty_answer_are_rejected() {
    assert!(!validator().validate(&response(vec![address()])));
    assert!(!validator().validate(&response(Vec::new())));
}

#[test]
fn records_outside_the_answer_section_do_not_count() {
    let mut message = Message::new();
    message.set_message_type(MessageType::Response);
    message.add_answer(address());
    message.add_name_server(signature());
    message.add_additional(key());
    assert!(!validator().validate(&message.to_vec().unwrap()));
}

#[test]
fn undecodable_bytes_are_rejected() {
    assert!(!validator().validate(b""));
    assert!(!validator().validate(b"not a dns message"));
    assert!(!validator().validate(&[0xff; 5]));
}

#[test]
fn truncated_answer_is_rejected() {
    let bytes = response(vec![signature(), key()]);
    assert!(validator().validate(&bytes));
    assert!(!validator().validate(&bytes[..bytes.len() - 1]));
}

#[test]
fn accepts_answers_wants_a_signature_and_a_key() {
    assert_eq!(DNSKEY_TYPE, 48);
    assert!(accepts_answers(&vec![record(46, RecordData::Signature), record(48, RecordData::Other)]));
    assert!(accepts_answers(&vec![record(48, RecordData::Other), record(1, RecordData::Other), record(46, RecordData::Signature)]));
    assert!(accepts_answers(&vec![record(48, RecordData::Signature)]));
    assert!(accepts_answers(&vec![record(48, RecordData::Absent), record(1, RecordData::Signature)]));
    assert!(!accepts_answers(&Vec::new()));
    assert!(!accepts_answers(&vec![record(46, RecordData::Signature)]));
    assert!(!accepts_answers(&vec![record(48, RecordData::Other)]));
    assert!(!accepts_answers(&vec![record(46, RecordData::Other), record(48, RecordData::Other)]));
    assert!(!accepts_answers(&vec![record(46, RecordData::Absent), record(47, RecordData::Signature)]));
    assert!(!accepts_answers(&vec![record(1, RecordData::Other), record(28, RecordData::Other)]));
}

#[test]
fn trust_anchors_are_the_entries_of_the_root_key_file() {
    let text = "# root anchors\n. IN DS 20326 8 2 E06D44B8\n\n  . IN DS 38696 8 2 683D2D0A  \n";
    let validator = DnssecValidator::new(Some(text), "hints".to_string());
    assert!(validator.is_trust_anchor(". IN DS 20326 8 2 E06D44B8"));
    assert!(validator.is_trust_anchor(". IN DS 38696 8 2 683D2D0A"));
    assert!(!validator.is_trust_anchor("# root anchors"));
    assert!(!validator.is_trust_anchor(""));
    assert!(!validator.is_trust_anchor(". IN DS 1 8 2 00"));
}

#[test]
fn unreadable_root_key_file_leaves_no_anchor() {
    let validator = DnssecValidator::new(None, "/home/dns/.config/zendns/root.hints".to_string());
    assert!(!validator.is_trust_anchor(". IN DS 20326 8 2 E06D44B8"));
    assert_eq!(validator.root_hints_path(), "/home/dns/.config/zendns/root.hints");
}
