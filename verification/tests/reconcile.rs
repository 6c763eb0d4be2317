//! Reconciliation tests: the status machine over the offer table, the
//! most-recent-row lookup, idempotent replay, batch atomicity, and the
//! independence of negotiations.

use suins_indexer::address::Address;
use suins_indexer::checkpoint::{Checkpoint, ProcessError, RawEvent, Transaction};
use suins_indexer::events::{AcceptCounterOfferEvent, MakeCounterOfferEvent, OfferAcceptedEvent,
    OfferCancelledEvent, OfferDeclinedEvent, OfferEvent, OfferPlacedEvent};
use suins_indexer::handlers::offers_handler::{apply_offer_event, ApplyOutcome, OfferValue,
    OffersHandlerPipeline};
use suins_indexer::models::OfferStatus;
use suins_indexer::store::OfferStore;

const PKG: &str = "0xabc123::offer_module";

fn addr(fill: u8) -> Address {
    Address::from_bytes(vec![fill; 32]).unwrap()
}

fn hex(fill: u8) -> String {
    format!("0x{}", format!("{fill:02x}").repeat(32))
}

fn placed(domain: &[u8], buyer: u8, value: u64, at: i64, digest: &str) -> OfferValue {
    OfferValue {
        event: OfferEvent::Placed(OfferPlacedEvent {
            domain_name: domain.to_vec(),
            address: addr(buyer),
            value,
        }),
        created_at: at,
        tx_digest: digest.to_string(),
    }
}

fn cancelled(domain: &[u8], buyer: u8, value: u64, at: i64, digest: &str) -> OfferValue {
    OfferValue {
        event: OfferEvent::Cancelled(OfferCancelledEvent {
            domain_name: domain.to_vec(),
            address: addr(buyer),
            value,
        }),
        created_at: at,
        tx_digest: digest.to_string(),
    }
}

fn accepted(domain: &[u8], owner: u8, buyer: u8, value: u64, at: i64, digest: &str) -> OfferValue {
    OfferValue {
        event: OfferEvent::Accepted(OfferAcceptedEvent {
            domain_name: domain.to_vec(),
            owner: addr(owner),
            buyer: addr(buyer),
            value,
        }),
        created_at: at,
        tx_digest: digest.to_string(),
    }
}

fn declined(domain: &[u8], owner: u8, buyer: u8, value: u64, at: i64, digest: &str) -> OfferValue {
    OfferValue {
        event: OfferEvent::Declined(OfferDeclinedEvent {
            domain_name: domain.to_vec(),
            owner: addr(owner),
            buyer: addr(buyer),
            value,
        }),
        created_at: at,
        tx_digest: digest.to_string(),
    }
}

fn counter(domain: &[u8], owner: u8, buyer: u8, value: u64, at: i64, digest: &str) -> OfferValue {
    OfferValue {
        event: OfferEvent::MakeCounterOffer(MakeCounterOfferEvent {
            domain_name: domain.to_vec(),
            owner: addr(owner),
            buyer: addr(buyer),
            value,
        }),
        created_at: at,
        tx_digest: digest.to_string(),
    }
}

fn accept_counter(domain: &[u8], buyer: u8, value: u64, at: i64, digest: &str) -> OfferValue {
    OfferValue {
        event: OfferEvent::AcceptCounterOffer(AcceptCounterOfferEvent {
            domain_name: domain.to_vec(),
            buyer: addr(buyer),
            value,
        }),
        created_at: at,
        tx_digest: digest.to_string(),
    }
}

fn snapshot(store: &OfferStore) -> Vec<(Option<i32>, String, String, String, String, Option<String>, OfferStatus, i64, i64, String)> {
    let mut rows = Vec::new();
    for i in 0..store.len() {
        let r = store.get(i);
        rows.push((
            r.id,
            r.domain_name.clone(),
            r.buyer.clone(),
            r.initial_value.clone(),
            r.value.clone(),
            r.owner.clone(),
            r.status,
            r.updated_at,
            r.created_at,
            r.last_tx_digest.clone(),
        ));
    }
    rows
}

#[test]
fn placed_creates_one_row() {
    let mut store = OfferStore::new();
    let outcome = apply_offer_event(&mut store, &placed(b"a.sui", 1, 100, 1000, "tx1"));
    assert_eq!(outcome, ApplyOutcome::Inserted);
    assert_eq!(store.len(), 1);
    let row = store.get(0);
    assert_eq!(row.id, Some(1));
    assert_eq!(row.domain_name, "a.sui");
    assert_eq!(row.buyer, hex(1));
    assert_eq!(row.initial_value, "100");
    assert_eq!(row.value, "100");
    assert_eq!(row.owner, None);
    assert_eq!(row.status, OfferStatus::Placed);
    assert_eq!(row.updated_at, 1000);
    assert_eq!(row.created_at, 1000);
    assert_eq!(row.last_tx_digest, "tx1");
}

#[test]
fn negotiation_reaches_accepted_counter() {
    let mut store = OfferStore::new();
    apply_offer_event(&mut store, &placed(b"a.sui", 1, 100, 1000, "tx1"));
    let o2 = apply_offer_event(&mut store, &counter(b"a.sui", 9, 1, 150, 2000, "tx2"));
    assert_eq!(o2, ApplyOutcome::Updated);
    assert_eq!(store.get(0).status, OfferStatus::Countered);
    assert_eq!(store.get(0).owner, Some(hex(9)));
    let o3 = apply_offer_event(&mut store, &accept_counter(b"a.sui", 1, 150, 3000, "tx3"));
    assert_eq!(o3, ApplyOutcome::Updated);
    assert_eq!(store.len(), 1);
    let row = store.get(0);
    assert_eq!(row.status, OfferStatus::AcceptedCountered);
    assert_eq!(row.value, "150");
    assert_eq!(row.initial_value, "100");
    // Accepting the counter does not change the owner the counter revealed.
    assert_eq!(row.owner, Some(hex(9)));
    assert_eq!(row.updated_at, 3000);
    assert_eq!(row.last_tx_digest, "tx3");
}

#[test]
fn accepted_sets_owner_and_value() {
    let mut store = OfferStore::new();
    apply_offer_event(&mut store, &placed(b"a.sui", 1, 100, 1000, "tx1"));
    let o = apply_offer_event(&mut store, &accepted(b"a.sui", 7, 1, 100, 2000, "tx2"));
    assert_eq!(o, ApplyOutcome::Updated);
    let row = store.get(0);
    assert_eq!(row.status, OfferStatus::Accepted);
    assert_eq!(row.owner, Some(hex(7)));
    assert_eq!(row.value, "100");
}

#[test]
fn declined_is_terminal() {
    let mut store = OfferStore::new();
    apply_offer_event(&mut store, &placed(b"a.sui", 1, 100, 1000, "tx1"));
    apply_offer_event(&mut store, &declined(b"a.sui", 7, 1, 100, 2000, "tx2"));
    assert_eq!(store.get(0).status, OfferStatus::Declined);
    // A later event on the declined row is a no-op.
    let o = apply_offer_event(&mut store, &counter(b"a.sui", 7, 1, 120, 3000, "tx3"));
    assert_eq!(o, ApplyOutcome::AlreadyTerminal);
    assert_eq!(store.get(0).status, OfferStatus::Declined);
    assert_eq!(store.get(0).value, "100");
    assert_eq!(store.get(0).updated_at, 2000);
}

#[test]
fn cancelled_without_placed_is_warning_only() {
    let mut store = OfferStore::new();
    let outcome = apply_offer_event(&mut store, &cancelled(b"ghost.sui", 1, 50, 1000, "tx1"));
    assert_eq!(outcome, ApplyOutcome::NoMatchingOffer);
    assert_eq!(store.len(), 0);
}

#[test]
fn cancelled_reapplied_is_noop() {
    let mut store = OfferStore::new();
    apply_offer_event(&mut store, &placed(b"a.sui", 1, 100, 1000, "tx1"));
    let c = cancelled(b"a.sui", 1, 100, 2000, "tx2");
    let o1 = apply_offer_event(&mut store, &c);
    assert_eq!(o1, ApplyOutcome::Updated);
    let after_first = snapshot(&store);
    let o2 = apply_offer_event(&mut store, &c);
    assert_eq!(o2, ApplyOutcome::AlreadyTerminal);
    assert_eq!(snapshot(&store), after_first);
    assert_eq!(store.get(0).status, OfferStatus::Cancelled);
}

#[test]
fn same_batch_twice_on_cancelled_state_is_idempotent() {
    let mut store = OfferStore::new();
    apply_offer_event(&mut store, &placed(b"a.sui", 1, 100, 1000, "tx1"));
    let batch = [cancelled(b"a.sui", 1, 100, 2000, "tx2")];
    OffersHandlerPipeline::commit(&batch, &mut store);
    let once = snapshot(&store);
    OffersHandlerPipeline::commit(&batch, &mut store);
    assert_eq!(snapshot(&store), once);
}

#[test]
fn interleaved_buyers_do_not_interfere() {
    let mut store = OfferStore::new();
    // Two negotiations on the same domain by different buyers, interleaved.
    apply_offer_event(&mut store, &placed(b"a.sui", 1, 100, 1000, "tx1"));
    apply_offer_event(&mut store, &placed(b"a.sui", 2, 200, 1100, "tx2"));
    apply_offer_event(&mut store, &counter(b"a.sui", 9, 1, 150, 1200, "tx3"));
    apply_offer_event(&mut store, &cancelled(b"a.sui", 2, 200, 1300, "tx4"));
    apply_offer_event(&mut store, &accept_counter(b"a.sui", 1, 150, 1400, "tx5"));
    assert_eq!(store.len(), 2);
    let row1 = store.get(0);
    assert_eq!(row1.buyer, hex(1));
    assert_eq!(row1.status, OfferStatus::AcceptedCountered);
    assert_eq!(row1.value, "150");
    assert_eq!(row1.initial_value, "100");
    let row2 = store.get(1);
    assert_eq!(row2.buyer, hex(2));
    assert_eq!(row2.status, OfferStatus::Cancelled);
    assert_eq!(row2.value, "200");
}

#[test]
fn lookup_targets_most_recent_row() {
    let mut store = OfferStore::new();
    // A finished negotiation, then a fresh placement on the same key.
    apply_offer_event(&mut store, &placed(b"a.sui", 1, 100, 1000, "tx1"));
    apply_offer_event(&mut store, &cancelled(b"a.sui", 1, 100, 2000, "tx2"));
    apply_offer_event(&mut store, &placed(b"a.sui", 1, 300, 3000, "tx3"));
    assert_eq!(store.len(), 2);
    // A cancellation resolves against the newer row, not the old one.
    let o = apply_offer_event(&mut store, &cancelled(b"a.sui", 1, 300, 4000, "tx4"));
    assert_eq!(o, ApplyOutcome::Updated);
    assert_eq!(store.get(1).status, OfferStatus::Cancelled);
    assert_eq!(store.get(1).value, "300");
    assert_eq!(store.get(0).value, "100");
    assert_eq!(store.get(0).updated_at, 2000);
}

#[test]
fn batch_with_malformed_event_commits_nothing() {
    let pipeline = OffersHandlerPipeline::new(PKG.to_string());
    let mut store = OfferStore::new();
    let good = |d: &[u8], fill: u8, v: u64| RawEvent {
        type_tag: format!("{PKG}::OfferPlacedEvent"),
        contents: bcs::to_bytes(&(d.to_vec(), [fill; 32], v)).unwrap(),
    };
    let mut events: Vec<RawEvent> = (0..9u8).map(|i| good(b"a.sui", i, 100 + i as u64)).collect();
    let mut bad = good(b"bad.sui", 9, 1);
    bad.contents.pop();
    events.insert(4, bad);
    let tx = Transaction { digest: "tx".to_string(), events };
    let cp = Checkpoint { sequence_number: 1, timestamp_ms: 1000, transactions: vec![tx] };
    let r = pipeline.process_and_commit(&cp, &mut store);
    assert_eq!(r.unwrap_err(), ProcessError::MalformedPayload);
    assert_eq!(store.len(), 0);
}

#[test]
fn process_and_commit_applies_whole_checkpoint() {
    let pipeline = OffersHandlerPipeline::new(PKG.to_string());
    let mut store = OfferStore::new();
    let tx = Transaction {
        digest: "tx".to_string(),
        events: vec![
            RawEvent {
                type_tag: format!("{PKG}::OfferPlacedEvent"),
                contents: bcs::to_bytes(&(b"a.sui".to_vec(), [1u8; 32], 100u64)).unwrap(),
            },
            RawEvent {
                type_tag: format!("{PKG}::OfferCancelledEvent"),
                contents: bcs::to_bytes(&(b"a.sui".to_vec(), [1u8; 32], 100u64)).unwrap(),
            },
        ],
    };
    let cp = Checkpoint { sequence_number: 1, timestamp_ms: 1000, transactions: vec![tx] };
    let n = pipeline.process_and_commit(&cp, &mut store).unwrap();
    assert_eq!(n, 2);
    assert_eq!(store.len(), 1);
    assert_eq!(store.get(0).status, OfferStatus::Cancelled);
}

#[test]
fn get_latest_offer_id_finds_newest() {
    let mut store = OfferStore::new();
    apply_offer_event(&mut store, &placed(b"a.sui", 1, 100, 1000, "tx1"));
    apply_offer_event(&mut store, &cancelled(b"a.sui", 1, 100, 2000, "tx2"));
    apply_offer_event(&mut store, &placed(b"a.sui", 1, 300, 3000, "tx3"));
    let ev = OfferCancelledEvent { domain_name: b"a.sui".to_vec(), address: addr(1), value: 300 };
    let id = OffersHandlerPipeline::get_latest_offer_id(&store, &ev, &"a.sui".to_string());
    assert_eq!(id, Some(2));
    let ev2 = OfferCancelledEvent { domain_name: b"b.sui".to_vec(), address: addr(1), value: 1 };
    let id2 = OffersHandlerPipeline::get_latest_offer_id(&store, &ev2, &"b.sui".to_string());
    assert_eq!(id2, None);
}

#[test]
fn status_strings_roundtrip() {
    let all = [
        (OfferStatus::Placed, "placed"),
        (OfferStatus::Cancelled, "cancelled"),
        (OfferStatus::Accepted, "accepted"),
        (OfferStatus::Declined, "declined"),
        (OfferStatus::Countered, "countered"),
        (OfferStatus::AcceptedCountered, "accepted-countered"),
    ];
    for (status, text) in all {
        assert_eq!(status.as_str(), text);
        assert_eq!(OfferStatus::from_str(text), Some(status));
    }
    assert_eq!(OfferStatus::from_str("open"), None);
    assert_eq!(OfferStatus::from_str(""), None);
}

#[test]
fn large_value_keeps_precision() {
    let mut store = OfferStore::new();
    apply_offer_event(&mut store, &placed(b"a.sui", 1, u64::MAX, 1000, "tx1"));
    assert_eq!(store.get(0).value, "18446744073709551615");
    assert_eq!(store.get(0).initial_value, "18446744073709551615");
}
