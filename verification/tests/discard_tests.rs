use rtt_bench::discard::consume_body;
use rtt_bench::discard::error_reply_body;
use rtt_bench::discard::json_reply_body;
use rtt_bench::discard::reply_status;
use rtt_bench::discard::xml_reply_body;
use rtt_bench::discard::BodyChunk;
use rtt_bench::discard::DiscardReply;

#[test]
fn draining_counts_every_chunk_byte() {
    let chunks = vec![
        BodyChunk::Data { len: 4096 },
        BodyChunk::Data { len: 4096 },
        BodyChunk::Data { len: 100 },
    ];
    let reply = consume_body(&chunks);
    match reply {
        DiscardReply::Accepted { received_bytes } => assert_eq!(received_bytes, 8292),
        DiscardReply::Rejected { .. } => panic!("a clean drain must be accepted"),
    }
}

#[test]
fn payload_within_cap_is_acknowledged_with_success_status() {
    let chunks = vec![BodyChunk::Data { len: 15 * 1024 * 1024 }];
    let reply = consume_body(&chunks);
    assert!(matches!(reply, DiscardReply::Accepted { received_bytes: 15728640 }));
    assert_eq!(reply_status(&reply), 200);
}

#[test]
fn empty_body_is_accepted_with_zero_bytes() {
    let reply = consume_body(&Vec::new());
    assert!(matches!(reply, DiscardReply::Accepted { received_bytes: 0 }));
}

#[test]
fn first_read_failure_rejects_the_request() {
    let chunks = vec![
        BodyChunk::Data { len: 10 },
        BodyChunk::ReadFailure { detail: String::from("connection reset") },
        BodyChunk::ReadFailure { detail: String::from("late failure") },
        BodyChunk::Data { len: 10 },
    ];
    let reply = consume_body(&chunks);
    match &reply {
        DiscardReply::Rejected { detail } => assert_eq!(detail, "connection reset"),
        DiscardReply::Accepted { .. } => panic!("a failed drain must be rejected"),
    }
    assert_eq!(reply_status(&reply), 400);
    match reply {
        DiscardReply::Rejected { detail } => {
            assert_eq!(error_reply_body(&detail), "read error: connection reset");
        },
        DiscardReply::Accepted { .. } => unreachable!(),
    }
}

#[test]
fn json_acknowledgement_names_message_and_byte_count() {
    assert_eq!(
        json_reply_body(10),
        "{\"message\":\"JSON erfolgreich empfangen\",\"receivedBytes\":10}"
    );
    assert_eq!(
        json_reply_body(0),
        "{\"message\":\"JSON erfolgreich empfangen\",\"receivedBytes\":0}"
    );
}

#[test]
fn xml_acknowledgement_names_message_and_byte_count() {
    assert_eq!(
        xml_reply_body(7),
        "<response><message>XML erfolgreich empfangen</message><receivedBytes>7</receivedBytes></response>"
    );
}
