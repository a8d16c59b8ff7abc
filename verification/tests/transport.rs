use zendns::resolver::{Outcome, Query};
use zendns::transport::{
    datagram, refusal, reply_for, silent_reply, Transport, MAX_MESSAGE_BYTES, MAX_UPSTREAM_REPLY_BYTES, REFUSED,
};

fn query() -> Query {
    Query { id: 1, op_code: 0, name: "example.com".to_string(), query_type: 1 }
}

#[test]
fn answers_are_passed_through_verbatim() {
    for transport in [Transport::Udp, Transport::Dot, Transport::Doh] {
        assert_eq!(reply_for(transport, Outcome::CachedAnswer(vec![1, 2, 3]), &query(), b"raw"), Some(vec![1, 2, 3]));
        assert_eq!(reply_for(transport, Outcome::UpstreamAnswer(vec![4, 5]), &query(), b"raw"), Some(vec![4, 5]));
        assert_eq!(reply_for(transport, Outcome::UpstreamAnswer(Vec::new()), &query(), b"raw"), Some(Vec::new()));
    }
}

#[test]
fn only_http_answers_where_there_is_nothing_to_say() {
    assert_eq!(silent_reply(Transport::Udp), None);
    assert_eq!(silent_reply(Transport::Dot), None);
    assert_eq!(silent_reply(Transport::Doh), Some(Vec::new()));
    assert_eq!(reply_for(Transport::Udp, Outcome::NoAnswer, &query(), b"raw"), None);
    assert_eq!(reply_for(Transport::Dot, Outcome::NoAnswer, &query(), b"raw"), None);
    assert_eq!(reply_for(Transport::Doh, Outcome::NoAnswer, &query(), b"raw"), Some(Vec::new()));
}

#[test]
fn failed_validation_is_reported_over_http_only() {
    assert_eq!(reply_for(Transport::Udp, Outcome::ValidationFailed, &query(), b"raw"), None);
    assert_eq!(reply_for(Transport::Dot, Outcome::ValidationFailed, &query(), b"raw"), None);
    assert_eq!(
        reply_for(Transport::Doh, Outcome::ValidationFailed, &query(), b"raw"),
        Some(b"DNSSEC validation failed".to_vec())
    );
}

fn header(id: u16, op_code: u8) -> [u8; 12] {
    [(id >> 8) as u8, (id & 0xff) as u8, op_code << 3, 0, 0, 0, 0, 0, 0, 0, 0, 0]
}

fn bare(id: u16, op_code: u8) -> Query {
    Query { id, op_code, name: ".".to_string(), query_type: 1 }
}

#[test]
fn every_transport_refuses_with_the_same_dns_message() {
    let raw = header(0xabcd, 0);
    let bytes = refusal(&bare(0xabcd, 0), &raw);
    assert_eq!(bytes.len(), 12);
    for transport in [Transport::Udp, Transport::Dot, Transport::Doh] {
        assert_eq!(reply_for(transport, Outcome::Blocked, &bare(0xabcd, 0), &raw), Some(bytes.clone()));
    }
}

#[test]
fn refusal_of_undecodable_bytes_is_empty() {
    assert_eq!(refusal(&query(), b"raw"), Vec::<u8>::new());
    for transport in [Transport::Udp, Transport::Dot, Transport::Doh] {
        assert_eq!(reply_for(transport, Outcome::Blocked, &query(), b""), Some(Vec::new()));
    }
}

#[test]
fn refusal_with_an_unknown_operation_code_is_empty() {
    assert_eq!(refusal(&bare(1, 15), &header(1, 0)), Vec::<u8>::new());
    assert_eq!(refusal(&bare(1, 0), &header(1, 0)).len(), 12);
}

#[test]
fn refusal_carries_the_refused_code_in_its_header() {
    let bytes = refusal(&bare(0xabcd, 0), &header(0xabcd, 0));
    assert_eq!(REFUSED, 5);
    assert_eq!(bytes.len(), 12);
    assert_eq!(&bytes[0..2], &[0xab, 0xcd]);
    assert_eq!(bytes[2] & 0x80, 0x80);
    assert_eq!(bytes[3] & 0x0f, 5);
    assert_eq!(&bytes[4..12], &[0, 0, 0, 0, 0, 0, 0, 0]);
}

#[test]
fn refusal_header_keeps_id_and_operation_code() {
    for (id, op_code) in [(0u16, 0u8), (0xffff, 2), (0x0100, 4), (0x00ff, 5)] {
        let bytes = refusal(&bare(id, op_code), &header(id, op_code));
        assert!(bytes.len() >= 12);
        assert_eq!(bytes[0] as u16 * 256 + bytes[1] as u16, id);
        assert_eq!(bytes[2] / 128, 1);
        assert_eq!((bytes[2] / 8) % 16, op_code);
        assert_eq!(bytes[3] % 16, 5);
    }
}

#[test]
fn listeners_read_at_most_512_bytes_from_a_client_and_a_whole_datagram_from_upstream() {
    assert_eq!(MAX_MESSAGE_BYTES, 512);
    assert_eq!(MAX_UPSTREAM_REPLY_BYTES, 65_535);
}

#[test]
fn datagram_of_a_message_that_could_not_be_encoded_is_empty() {
    assert_eq!(datagram(Some(vec![1, 2, 3])), vec![1, 2, 3]);
    assert_eq!(datagram(Some(Vec::new())), Vec::<u8>::new());
    assert_eq!(datagram(None), Vec::<u8>::new());
}
