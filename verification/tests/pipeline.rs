//! Extraction tests: filtering by package prefix, ordering across
//! transactions, tagging with digest and timestamp, and the faults that
//! abandon a checkpoint.

use suins_indexer::checkpoint::{Checkpoint, ProcessError, RawEvent, Transaction};
use suins_indexer::events::OfferEvent;
use suins_indexer::handlers::offer_handler::OfferHandlerPipeline;
use suins_indexer::handlers::offer_handler::OfferEvent as Record;
use suins_indexer::handlers::offers_handler::OffersHandlerPipeline;

const PKG: &str = "0xabc123::offer_module";

fn placed_payload(domain: &[u8], addr_fill: u8, value: u64) -> Vec<u8> {
    bcs::to_bytes(&(domain.to_vec(), [addr_fill; 32], value)).unwrap()
}

fn two_addr_payload(domain: &[u8], owner_fill: u8, buyer_fill: u8, value: u64) -> Vec<u8> {
    bcs::to_bytes(&(domain.to_vec(), [owner_fill; 32], [buyer_fill; 32], value)).unwrap()
}

fn raw(tag: &str, contents: Vec<u8>) -> RawEvent {
    RawEvent { type_tag: tag.to_string(), contents }
}

fn checkpoint(seq: u64, ts: u64, transactions: Vec<Transaction>) -> Checkpoint {
    Checkpoint { sequence_number: seq, timestamp_ms: ts, transactions }
}

#[test]
fn process_keeps_transaction_and_event_order() {
    let pipeline = OffersHandlerPipeline::new(PKG.to_string());
    let tx1 = Transaction {
        digest: "digest-1".to_string(),
        events: vec![
            raw(&format!("{PKG}::OfferPlacedEvent"), placed_payload(b"a.sui", 1, 10)),
            raw(&format!("{PKG}::OfferCancelledEvent"), placed_payload(b"a.sui", 1, 10)),
        ],
    };
    let tx2 = Transaction {
        digest: "digest-2".to_string(),
        events: vec![raw(&format!("{PKG}::OfferPlacedEvent"), placed_payload(b"b.sui", 2, 20))],
    };
    let values = pipeline.process(&checkpoint(7, 1_700_000_000_000, vec![tx1, tx2])).unwrap();
    assert_eq!(values.len(), 3);
    assert!(matches!(values[0].event, OfferEvent::Placed(_)));
    assert!(matches!(values[1].event, OfferEvent::Cancelled(_)));
    assert!(matches!(values[2].event, OfferEvent::Placed(_)));
    assert_eq!(values[0].tx_digest, "digest-1");
    assert_eq!(values[1].tx_digest, "digest-1");
    assert_eq!(values[2].tx_digest, "digest-2");
    assert!(values.iter().all(|v| v.created_at == 1_700_000_000_000));
}

#[test]
fn process_skips_events_of_other_packages() {
    let pipeline = OffersHandlerPipeline::new(PKG.to_string());
    let tx = Transaction {
        digest: "d".to_string(),
        events: vec![
            raw("0xother::module::OfferPlacedEvent", placed_payload(b"a.sui", 1, 10)),
            raw(&format!("{PKG}::OfferPlacedEvent"), placed_payload(b"b.sui", 2, 20)),
        ],
    };
    let values = pipeline.process(&checkpoint(1, 1000, vec![tx])).unwrap();
    assert_eq!(values.len(), 1);
    match &values[0].event {
        OfferEvent::Placed(e) => assert_eq!(e.domain_name, b"b.sui".to_vec()),
        _ => panic!("wrong variant"),
    }
}

#[test]
fn process_rejects_unrecognized_suffix_of_own_package() {
    let pipeline = OffersHandlerPipeline::new(PKG.to_string());
    let tx = Transaction {
        digest: "d".to_string(),
        events: vec![raw(&format!("{PKG}::AuctionStartedEvent"), vec![1, 2, 3])],
    };
    let r = pipeline.process(&checkpoint(1, 1000, vec![tx]));
    assert_eq!(r.unwrap_err(), ProcessError::UnrecognizedEventType);
}

#[test]
fn process_rejects_malformed_payload() {
    let pipeline = OffersHandlerPipeline::new(PKG.to_string());
    let mut bad = placed_payload(b"a.sui", 1, 10);
    bad.pop();
    let tx = Transaction {
        digest: "d".to_string(),
        events: vec![raw(&format!("{PKG}::OfferPlacedEvent"), bad)],
    };
    let r = pipeline.process(&checkpoint(1, 1000, vec![tx]));
    assert_eq!(r.unwrap_err(), ProcessError::MalformedPayload);
}

#[test]
fn process_rejects_oversized_timestamp() {
    let pipeline = OffersHandlerPipeline::new(PKG.to_string());
    let r = pipeline.process(&checkpoint(1, u64::MAX, Vec::new()));
    assert_eq!(r.unwrap_err(), ProcessError::TimestampOutOfRange);
}

#[test]
fn process_handles_empty_checkpoint() {
    let pipeline = OffersHandlerPipeline::new(PKG.to_string());
    let values = pipeline.process(&checkpoint(1, 1000, Vec::new())).unwrap();
    assert!(values.is_empty());
}

#[test]
fn capture_pipeline_sorts_events_into_kinds() {
    let pipeline = OfferHandlerPipeline::new(PKG.to_string());
    let tx = Transaction {
        digest: "tx-digest".to_string(),
        events: vec![
            raw(&format!("{PKG}::OfferPlacedEvent"), placed_payload(b"a.sui", 1, 100)),
            raw(&format!("{PKG}::MakeCounterOfferEvent"), two_addr_payload(b"a.sui", 9, 1, 150)),
            raw(&format!("{PKG}::OfferAcceptedEvent"), two_addr_payload(b"b.sui", 9, 2, 70)),
            raw(&format!("{PKG}::OfferDeclinedEvent"), two_addr_payload(b"c.sui", 9, 3, 80)),
            raw(&format!("{PKG}::OfferCancelledEvent"), placed_payload(b"d.sui", 4, 90)),
            raw(&format!("{PKG}::AcceptCounterOfferEvent"), placed_payload(b"a.sui", 1, 150)),
        ],
    };
    let value = pipeline.process(&checkpoint(42, 5000, vec![tx])).unwrap();
    assert_eq!(value.checkpoint, 42);
    assert_eq!(value.placed.len(), 1);
    assert_eq!(value.cancelled.len(), 1);
    assert_eq!(value.accepted.len(), 1);
    assert_eq!(value.declined.len(), 1);
    assert_eq!(value.make_counter_offer.len(), 1);
    assert_eq!(value.accept_counter_offer.len(), 1);
    assert_eq!(value.placed[0].domain_name, "a.sui");
    assert_eq!(value.placed[0].value, "100");
    assert_eq!(value.placed[0].tx_digest, "tx-digest");
    assert_eq!(value.placed[0].created_at, 5000);
    let owner_hex = format!("0x{}", "09".repeat(32));
    assert_eq!(value.make_counter_offer[0].owner, owner_hex);
    assert_eq!(value.make_counter_offer[0].address, format!("0x{}", "01".repeat(32)));
    assert_eq!(value.make_counter_offer[0].value, "150");
    assert_eq!(value.accepted[0].domain_name, "b.sui");
    assert_eq!(value.accepted[0].value, "70");
}

#[test]
fn capture_pipeline_propagates_faults() {
    let pipeline = OfferHandlerPipeline::new(PKG.to_string());
    let tx = Transaction {
        digest: "d".to_string(),
        events: vec![raw(&format!("{PKG}::OfferPlacedEvent"), vec![0xff])],
    };
    let r = pipeline.process(&checkpoint(1, 1000, vec![tx]));
    assert_eq!(r.unwrap_err(), ProcessError::MalformedPayload);
}

#[test]
fn capture_process_event_builds_record() {
    let pipeline = OfferHandlerPipeline::new(PKG.to_string());
    let ev = raw(&format!("{PKG}::OfferPlacedEvent"), placed_payload(b"a.sui", 1, 100));
    let rec = pipeline.process_event(&ev, "digest-x", 777).unwrap().unwrap();
    match rec {
        Record::Placed(r) => {
            assert_eq!(r.domain_name, "a.sui");
            assert_eq!(r.address, format!("0x{}", "01".repeat(32)));
            assert_eq!(r.value, "100");
            assert_eq!(r.created_at, 777);
            assert_eq!(r.tx_digest, "digest-x");
        }
        _ => panic!("wrong record kind"),
    }
    let foreign = raw("0xelse::m::OfferPlacedEvent", placed_payload(b"a.sui", 1, 100));
    assert!(pipeline.process_event(&foreign, "d", 0).unwrap().is_none());
}

#[test]
fn capture_convert_domain_name_matches_free_function() {
    let bytes = [0x73, 0x75, 0x69, 0xff];
    assert_eq!(
        OfferHandlerPipeline::convert_domain_name(&bytes),
        suins_indexer::events::convert_domain_name(&bytes),
    );
    assert_eq!(OfferHandlerPipeline::convert_domain_name(b"sui"), "sui");
}

#[test]
fn process_event_classifies_each_suffix() {
    let pipeline = OffersHandlerPipeline::new(PKG.to_string());
    let cases = [
        (format!("{PKG}::OfferPlacedEvent"), true),
        (format!("{PKG}::OfferCancelledEvent"), true),
        (format!("{PKG}::AcceptCounterOfferEvent"), true),
    ];
    for (tag, _one_addr) in cases {
        let ev = raw(&tag, placed_payload(b"x.sui", 5, 3));
        assert!(pipeline.process_event(&ev).unwrap().is_some(), "tag {tag}");
    }
    let cases2 = [
        format!("{PKG}::OfferAcceptedEvent"),
        format!("{PKG}::OfferDeclinedEvent"),
        format!("{PKG}::MakeCounterOfferEvent"),
    ];
    for tag in cases2 {
        let ev = raw(&tag, two_addr_payload(b"x.sui", 5, 6, 3));
        assert!(pipeline.process_event(&ev).unwrap().is_some(), "tag {tag}");
    }
    let other = raw("0xelse::m::OfferPlacedEvent", placed_payload(b"x.sui", 5, 3));
    assert!(pipeline.process_event(&other).unwrap().is_none());
}
