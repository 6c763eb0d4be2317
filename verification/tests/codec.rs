//! Decoding tests: every event schema round-trips exactly, malformed
//! payloads are refused, and the encoding agrees with the canonical binary
//! serializer used by the chain.

use suins_indexer::address::Address;
use suins_indexer::events::{try_deserialize_event, EventKind, OfferEvent};
use suins_indexer::events::convert_domain_name;

fn addr_bytes(fill: u8) -> Vec<u8> {
    vec![fill; 32]
}

fn addr(fill: u8) -> Address {
    Address::from_bytes(addr_bytes(fill)).unwrap()
}

/// uleb(len) ++ domain ++ addr ++ u64-le payload, built by hand.
fn payload_one_addr(domain: &[u8], addr_fill: u8, value: u64) -> Vec<u8> {
    let mut out = Vec::new();
    assert!(domain.len() < 0x80);
    out.push(domain.len() as u8);
    out.extend_from_slice(domain);
    out.extend_from_slice(&addr_bytes(addr_fill));
    out.extend_from_slice(&value.to_le_bytes());
    out
}

fn payload_two_addr(domain: &[u8], owner_fill: u8, buyer_fill: u8, value: u64) -> Vec<u8> {
    let mut out = Vec::new();
    assert!(domain.len() < 0x80);
    out.push(domain.len() as u8);
    out.extend_from_slice(domain);
    out.extend_from_slice(&addr_bytes(owner_fill));
    out.extend_from_slice(&addr_bytes(buyer_fill));
    out.extend_from_slice(&value.to_le_bytes());
    out
}

#[test]
fn decode_placed_roundtrips_fields() {
    let payload = payload_one_addr(b"alice.sui", 0xab, 1_500_000_000);
    let event = try_deserialize_event(EventKind::Placed, &payload).unwrap();
    match event {
        OfferEvent::Placed(e) => {
            assert_eq!(e.domain_name, b"alice.sui".to_vec());
            assert_eq!(e.address.as_bytes(), &addr_bytes(0xab)[..]);
            assert_eq!(e.value, 1_500_000_000);
        }
        _ => panic!("wrong variant"),
    }
}

#[test]
fn decode_cancelled_roundtrips_fields() {
    let payload = payload_one_addr(b"bob.sui", 0x01, 42);
    let event = try_deserialize_event(EventKind::Cancelled, &payload).unwrap();
    match event {
        OfferEvent::Cancelled(e) => {
            assert_eq!(e.domain_name, b"bob.sui".to_vec());
            assert_eq!(e.address.as_bytes(), &addr_bytes(0x01)[..]);
            assert_eq!(e.value, 42);
        }
        _ => panic!("wrong variant"),
    }
}

#[test]
fn decode_accepted_roundtrips_fields() {
    let payload = payload_two_addr(b"carol.sui", 0x11, 0x22, u64::MAX);
    let event = try_deserialize_event(EventKind::Accepted, &payload).unwrap();
    match event {
        OfferEvent::Accepted(e) => {
            assert_eq!(e.domain_name, b"carol.sui".to_vec());
            assert_eq!(e.owner.as_bytes(), &addr_bytes(0x11)[..]);
            assert_eq!(e.buyer.as_bytes(), &addr_bytes(0x22)[..]);
            assert_eq!(e.value, u64::MAX);
        }
        _ => panic!("wrong variant"),
    }
}

#[test]
fn decode_declined_roundtrips_fields() {
    let payload = payload_two_addr(b"", 0x00, 0xff, 0);
    let event = try_deserialize_event(EventKind::Declined, &payload).unwrap();
    match event {
        OfferEvent::Declined(e) => {
            assert_eq!(e.domain_name, Vec::<u8>::new());
            assert_eq!(e.owner.as_bytes(), &addr_bytes(0x00)[..]);
            assert_eq!(e.buyer.as_bytes(), &addr_bytes(0xff)[..]);
            assert_eq!(e.value, 0);
        }
        _ => panic!("wrong variant"),
    }
}

#[test]
fn decode_make_counter_offer_roundtrips_fields() {
    let payload = payload_two_addr(b"dave.sui", 0x33, 0x44, 150);
    let event = try_deserialize_event(EventKind::MakeCounterOffer, &payload).unwrap();
    match event {
        OfferEvent::MakeCounterOffer(e) => {
            assert_eq!(e.domain_name, b"dave.sui".to_vec());
            assert_eq!(e.owner.as_bytes(), &addr_bytes(0x33)[..]);
            assert_eq!(e.buyer.as_bytes(), &addr_bytes(0x44)[..]);
            assert_eq!(e.value, 150);
        }
        _ => panic!("wrong variant"),
    }
}

#[test]
fn decode_accept_counter_offer_roundtrips_fields() {
    let payload = payload_one_addr(b"erin.sui", 0x55, 150);
    let event = try_deserialize_event(EventKind::AcceptCounterOffer, &payload).unwrap();
    match event {
        OfferEvent::AcceptCounterOffer(e) => {
            assert_eq!(e.domain_name, b"erin.sui".to_vec());
            assert_eq!(e.buyer.as_bytes(), &addr_bytes(0x55)[..]);
            assert_eq!(e.value, 150);
        }
        _ => panic!("wrong variant"),
    }
}

#[test]
fn decode_agrees_with_canonical_serializer_one_addr() {
    let domain: Vec<u8> = b"frank.sui".to_vec();
    let address: [u8; 32] = [0x77; 32];
    let value: u64 = 987_654_321;
    let payload = bcs::to_bytes(&(domain.clone(), address, value)).unwrap();
    assert_eq!(payload, payload_one_addr(b"frank.sui", 0x77, value));
    let event = try_deserialize_event(EventKind::Placed, &payload).unwrap();
    match event {
        OfferEvent::Placed(e) => {
            assert_eq!(e.domain_name, domain);
            assert_eq!(e.address.as_bytes(), &address[..]);
            assert_eq!(e.value, value);
        }
        _ => panic!("wrong variant"),
    }
}

#[test]
fn decode_agrees_with_canonical_serializer_two_addr() {
    let domain: Vec<u8> = vec![0x61; 200];
    let owner: [u8; 32] = [0x88; 32];
    let buyer: [u8; 32] = [0x99; 32];
    let value: u64 = 5;
    let payload = bcs::to_bytes(&(domain.clone(), owner, buyer, value)).unwrap();
    // 200 needs a two-byte ULEB128 length prefix.
    assert_eq!(payload[0], 0xc8);
    assert_eq!(payload[1], 0x01);
    let event = try_deserialize_event(EventKind::Accepted, &payload).unwrap();
    match event {
        OfferEvent::Accepted(e) => {
            assert_eq!(e.domain_name, domain);
            assert_eq!(e.owner.as_bytes(), &owner[..]);
            assert_eq!(e.buyer.as_bytes(), &buyer[..]);
            assert_eq!(e.value, value);
        }
        _ => panic!("wrong variant"),
    }
}

#[test]
fn decode_rejects_truncated_payload() {
    let mut payload = payload_one_addr(b"alice.sui", 0xab, 7);
    payload.pop();
    assert!(try_deserialize_event(EventKind::Placed, &payload).is_err());
}

#[test]
fn decode_rejects_trailing_bytes() {
    let mut payload = payload_one_addr(b"alice.sui", 0xab, 7);
    payload.push(0x00);
    assert!(try_deserialize_event(EventKind::Placed, &payload).is_err());
}

#[test]
fn decode_rejects_wrong_field_count() {
    // A two-address payload does not fit the one-address schema and the
    // other way round.
    let two = payload_two_addr(b"alice.sui", 0x11, 0x22, 7);
    assert!(try_deserialize_event(EventKind::Placed, &two).is_err());
    let one = payload_one_addr(b"alice.sui", 0x11, 7);
    assert!(try_deserialize_event(EventKind::Accepted, &one).is_err());
}

#[test]
fn decode_rejects_non_canonical_length() {
    // 0x80 0x00 encodes zero in two bytes; the canonical form is one byte.
    let mut payload = vec![0x80, 0x00];
    payload.extend_from_slice(&addr_bytes(0xab));
    payload.extend_from_slice(&7u64.to_le_bytes());
    assert!(try_deserialize_event(EventKind::Placed, &payload).is_err());
    // The canonical empty domain decodes fine.
    let good = payload_one_addr(b"", 0xab, 7);
    assert!(try_deserialize_event(EventKind::Placed, &good).is_ok());
}

#[test]
fn decode_rejects_oversized_length() {
    // A domain length far beyond the input.
    let mut payload = vec![0xff, 0xff, 0xff, 0xff, 0x07];
    payload.extend_from_slice(&addr_bytes(0xab));
    payload.extend_from_slice(&7u64.to_le_bytes());
    assert!(try_deserialize_event(EventKind::Placed, &payload).is_err());
}

#[test]
fn decode_rejects_empty_payload() {
    assert!(try_deserialize_event(EventKind::Placed, &[]).is_err());
}

#[test]
fn convert_domain_name_keeps_valid_utf8() {
    assert_eq!(convert_domain_name(b"alice.sui"), "alice.sui");
    assert_eq!(convert_domain_name("caf\u{e9}.sui".as_bytes()), "caf\u{e9}.sui");
}

#[test]
fn convert_domain_name_replaces_invalid_bytes() {
    let s = convert_domain_name(&[0x61, 0xff, 0x62]);
    assert_eq!(s, "a\u{fffd}b");
}

#[test]
fn address_displays_as_hex() {
    let mut bytes = vec![0u8; 32];
    bytes[0] = 0x01;
    bytes[31] = 0xef;
    let a = Address::from_bytes(bytes).unwrap();
    let s = a.to_hex_string();
    assert_eq!(s.len(), 66);
    assert!(s.starts_with("0x01"));
    assert!(s.ends_with("ef"));
    let zero = Address::from_bytes(vec![0u8; 32]).unwrap();
    assert_eq!(zero.to_hex_string(), format!("0x{}", "00".repeat(32)));
}

#[test]
fn address_refuses_wrong_length() {
    assert!(Address::from_bytes(vec![0u8; 31]).is_none());
    assert!(Address::from_bytes(vec![0u8; 33]).is_none());
    assert!(Address::from_bytes(Vec::new()).is_none());
}
