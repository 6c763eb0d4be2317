//! The six typed contract events, their payload schemas, and verified
//! decoding from raw payload bytes.
//!
//! Two payload shapes cover the six events: a domain name, one address and a
//! value; or a domain name, two addresses (owner then buyer) and a value.

use vstd::prelude::*;
use crate::address::{Address, ADDRESS_LENGTH};
use crate::text;
use crate::wire;
use crate::wire::DecodeError;

verus! {

/// A buyer placed an offer on a domain.
#[derive(Debug, Clone)]
pub struct OfferPlacedEvent {
    pub domain_name: Vec<u8>,
    pub address: Address,
    pub value: u64,
}

/// A buyer withdrew an offer.
#[derive(Debug, Clone)]
pub struct OfferCancelledEvent {
    pub domain_name: Vec<u8>,
    pub address: Address,
    pub value: u64,
}

/// The owner accepted a buyer's offer.
#[derive(Debug, Clone)]
pub struct OfferAcceptedEvent {
    pub domain_name: Vec<u8>,
    pub owner: Address,
    pub buyer: Address,
    pub value: u64,
}

/// The owner declined a buyer's offer.
#[derive(Debug, Clone)]
pub struct OfferDeclinedEvent {
    pub domain_name: Vec<u8>,
    pub owner: Address,
    pub buyer: Address,
    pub value: u64,
}

/// The owner answered an offer with a revised price.
#[derive(Debug, Clone)]
pub struct MakeCounterOfferEvent {
    pub domain_name: Vec<u8>,
    pub owner: Address,
    pub buyer: Address,
    pub value: u64,
}

/// The buyer accepted the owner's counter-offer.
#[derive(Debug, Clone)]
pub struct AcceptCounterOfferEvent {
    pub domain_name: Vec<u8>,
    pub buyer: Address,
    pub value: u64,
}

/// A decoded contract event, one variant per recognized event type.
#[derive(Debug, Clone)]
pub enum OfferEvent {
    Placed(OfferPlacedEvent),
    Cancelled(OfferCancelledEvent),
    Accepted(OfferAcceptedEvent),
    Declined(OfferDeclinedEvent),
    MakeCounterOffer(MakeCounterOfferEvent),
    AcceptCounterOffer(AcceptCounterOfferEvent),
}

/// Which of the six event types a type tag names.
#[derive(Debug, Clone, Copy, PartialEq, Eq, Structural)]
pub enum EventKind {
    Placed,
    Cancelled,
    Accepted,
    Declined,
    MakeCounterOffer,
    AcceptCounterOffer,
}

/// Mathematical form of an event with one address: the payload fields as
/// plain sequences.
pub struct AddrValueEventModel {
    pub domain_name: Seq<u8>,
    pub address: Seq<u8>,
    pub value: u64,
}

/// Mathematical form of an event with an owner and a buyer address.
pub struct TwoAddrValueEventModel {
    pub domain_name: Seq<u8>,
    pub owner: Seq<u8>,
    pub buyer: Seq<u8>,
    pub value: u64,
}

/// Mathematical form of a decoded event.
pub enum OfferEventModel {
    Placed(AddrValueEventModel),
    Cancelled(AddrValueEventModel),
    Accepted(TwoAddrValueEventModel),
    Declined(TwoAddrValueEventModel),
    MakeCounterOffer(TwoAddrValueEventModel),
    AcceptCounterOffer(AddrValueEventModel),
}

impl View for OfferPlacedEvent {
    type V = AddrValueEventModel;

    open spec fn view(&self) -> AddrValueEventModel {
        AddrValueEventModel {
            domain_name: self.domain_name@,
            address: self.address@,
            value: self.value,
        }
    }
}

impl View for OfferCancelledEvent {
    type V = AddrValueEventModel;

    open spec fn view(&self) -> AddrValueEventModel {
        AddrValueEventModel {
            domain_name: self.domain_name@,
            address: self.address@,
            value: self.value,
        }
    }
}

impl View for OfferAcceptedEvent {
    type V = TwoAddrValueEventModel;

    open spec fn view(&self) -> TwoAddrValueEventModel {
        TwoAddrValueEventModel {
            domain_name: self.domain_name@,
            owner: self.owner@,
            buyer: self.buyer@,
            value: self.value,
        }
    }
}

impl View for OfferDeclinedEvent {
    type V = TwoAddrValueEventModel;

    open spec fn view(&self) -> TwoAddrValueEventModel {
        TwoAddrValueEventModel {
            domain_name: self.domain_name@,
            owner: self.owner@,
            buyer: self.buyer@,
            value: self.value,
        }
    }
}

impl View for MakeCounterOfferEvent {
    type V = TwoAddrValueEventModel;

    open spec fn view(&self) -> TwoAddrValueEventModel {
        TwoAddrValueEventModel {
            domain_name: self.domain_name@,
            owner: self.owner@,
            buyer: self.buyer@,
            value: self.value,
        }
    }
}

impl View for AcceptCounterOfferEvent {
    type V = AddrValueEventModel;

    open spec fn view(&self) -> AddrValueEventModel {
        AddrValueEventModel {
            domain_name: self.domain_name@,
            address: self.buyer@,
            value: self.value,
        }
    }
}

impl View for OfferEvent {
    type V = OfferEventModel;

    open spec fn view(&self) -> OfferEventModel {
        match self {
            OfferEvent::Placed(e) => OfferEventModel::Placed(e@),
            OfferEvent::Cancelled(e) => OfferEventModel::Cancelled(e@),
            OfferEvent::Accepted(e) => OfferEventModel::Accepted(e@),
            OfferEvent::Declined(e) => OfferEventModel::Declined(e@),
            OfferEvent::MakeCounterOffer(e) => OfferEventModel::MakeCounterOffer(e@),
            OfferEvent::AcceptCounterOffer(e) => OfferEventModel::AcceptCounterOffer(e@),
        }
    }
}

/// Parses a payload of shape domain name, address, value: a length-prefixed
/// byte string, 32 address bytes, 8 value bytes, and nothing after them.
pub open spec fn parse_addr_value_payload(s: Seq<u8>) -> Option<AddrValueEventModel> {
    match wire::length_parse(s) {
        None => None,
        Some((n, k)) => if s.len() == k + n + 40 {
            Some(AddrValueEventModel {
                domain_name: s.subrange(k, k + n),
                address: s.subrange(k + n, k + n + 32),
                value: wire::u64_from_le(s.subrange(k + n + 32, k + n + 40)),
            })
        } else {
            None
        },
    }
}

/// Parses a payload of shape domain name, owner, buyer, value.
pub open spec fn parse_two_addr_value_payload(s: Seq<u8>) -> Option<TwoAddrValueEventModel> {
    match wire::length_parse(s) {
        None => None,
        Some((n, k)) => if s.len() == k + n + 72 {
            Some(TwoAddrValueEventModel {
                domain_name: s.subrange(k, k + n),
                owner: s.subrange(k + n, k + n + 32),
                buyer: s.subrange(k + n + 32, k + n + 64),
                value: wire::u64_from_le(s.subrange(k + n + 64, k + n + 72)),
            })
        } else {
            None
        },
    }
}

/// The payload encoding of a one-address event.
pub open spec fn encode_addr_value_payload(e: AddrValueEventModel) -> Seq<u8> {
    wire::uleb(e.domain_name.len()) + e.domain_name + e.address + wire::u64_le(e.value)
}

/// The payload encoding of a two-address event.
pub open spec fn encode_two_addr_value_payload(e: TwoAddrValueEventModel) -> Seq<u8> {
    wire::uleb(e.domain_name.len()) + e.domain_name + e.owner + e.buyer + wire::u64_le(e.value)
}

/// The result of decoding a payload as event type `kind`.
pub open spec fn decode_event_spec(kind: EventKind, s: Seq<u8>) -> Option<OfferEventModel> {
    match kind {
        EventKind::Placed => match parse_addr_value_payload(s) {
            Some(e) => Some(OfferEventModel::Placed(e)),
            None => None,
        },
        EventKind::Cancelled => match parse_addr_value_payload(s) {
            Some(e) => Some(OfferEventModel::Cancelled(e)),
            None => None,
        },
        EventKind::Accepted => match parse_two_addr_value_payload(s) {
            Some(e) => Some(OfferEventModel::Accepted(e)),
            None => None,
        },
        EventKind::Declined => match parse_two_addr_value_payload(s) {
            Some(e) => Some(OfferEventModel::Declined(e)),
            None => None,
        },
        EventKind::MakeCounterOffer => match parse_two_addr_value_payload(s) {
            Some(e) => Some(OfferEventModel::MakeCounterOffer(e)),
            None => None,
        },
        EventKind::AcceptCounterOffer => match parse_addr_value_payload(s) {
            Some(e) => Some(OfferEventModel::AcceptCounterOffer(e)),
            None => None,
        },
    }
}

/// The event type that a type tag's suffix names, if any.
pub open spec fn suffix_kind(tag: Seq<char>) -> Option<EventKind> {
    if text::has_suffix(tag, "::OfferPlacedEvent"@) {
        Some(EventKind::Placed)
    } else if text::has_suffix(tag, "::OfferCancelledEvent"@) {
        Some(EventKind::Cancelled)
    } else if text::has_suffix(tag, "::OfferAcceptedEvent"@) {
        Some(EventKind::Accepted)
    } else if text::has_suffix(tag, "::OfferDeclinedEvent"@) {
        Some(EventKind::Declined)
    } else if text::has_suffix(tag, "::MakeCounterOfferEvent"@) {
        Some(EventKind::MakeCounterOffer)
    } else if text::has_suffix(tag, "::AcceptCounterOfferEvent"@) {
        Some(EventKind::AcceptCounterOffer)
    } else {
        None
    }
}

/// Matches a type tag against the six recognized event suffixes.
pub fn match_event_kind(tag: &str) -> (r: Option<EventKind>)
    ensures
        r == suffix_kind(tag@),
{
    if text::str_ends_with(tag, "::OfferPlacedEvent") {
        Some(EventKind::Placed)
    } else if text::str_ends_with(tag, "::OfferCancelledEvent") {
        Some(EventKind::Cancelled)
    } else if text::str_ends_with(tag, "::OfferAcceptedEvent") {
        Some(EventKind::Accepted)
    } else if text::str_ends_with(tag, "::OfferDeclinedEvent") {
        Some(EventKind::Declined)
    } else if text::str_ends_with(tag, "::MakeCounterOfferEvent") {
        Some(EventKind::MakeCounterOffer)
    } else if text::str_ends_with(tag, "::AcceptCounterOfferEvent") {
        Some(EventKind::AcceptCounterOffer)
    } else {
        None
    }
}

/// Reads a payload of the one-address shape: the length-prefixed domain
/// name, one 32-byte address, the 8-byte value, and nothing left over.
fn decode_addr_value(contents: &[u8]) -> (r: Result<(Vec<u8>, Address, u64), DecodeError>)
    ensures
        match r {
            Ok((d, a, v)) => {
                &&& parse_addr_value_payload(contents@) matches Some(m)
                &&& m.domain_name == d@
                &&& m.address == a@
                &&& m.value == v
                &&& a.wf()
            },
            Err(_) => parse_addr_value_payload(contents@) is None,
        },
{
    let total = contents.len();
    let (len64, pos) = match wire::read_length(contents, 0) {
        Ok(x) => x,
        Err(e) => {
            proof {
                assert(contents@.skip(0) =~= contents@);
            }
            return Err(e);
        },
    };
    proof {
        assert(contents@.skip(0) =~= contents@);
    }
    if len64 > (total - pos) as u64 {
        return Err(DecodeError::Malformed);
    }
    let n = len64 as usize;
    if total - pos - n != 40 {
        return Err(DecodeError::Malformed);
    }
    let domain = wire::read_bytes(contents, pos, n);
    let addr_bytes = wire::read_bytes(contents, pos + n, 32);
    let address = match Address::from_bytes(addr_bytes) {
        Some(a) => a,
        None => {
            // 32 bytes were read, so this arm is never reached.
            return Err(DecodeError::Malformed);
        },
    };
    let (value, _end) = match wire::read_u64_le(contents, pos + n + 32) {
        Ok(x) => x,
        Err(e) => return Err(e),
    };
    Ok((domain, address, value))
}

/// Reads the fields of the two-address payload shape.
fn decode_two_addr_value(contents: &[u8]) -> (r: Result<(Vec<u8>, Address, Address, u64), DecodeError>)
    ensures
        match r {
            Ok((d, o, b, v)) => {
                &&& parse_two_addr_value_payload(contents@) matches Some(m)
                &&& m.domain_name == d@
                &&& m.owner == o@
                &&& m.buyer == b@
                &&& m.value == v
                &&& o.wf()
                &&& b.wf()
            },
            Err(_) => parse_two_addr_value_payload(contents@) is None,
        },
{
    let total = contents.len();
    let (len64, pos) = match wire::read_length(contents, 0) {
        Ok(x) => x,
        Err(e) => {
            proof {
                assert(contents@.skip(0) =~= contents@);
            }
            return Err(e);
        },
    };
    proof {
        assert(contents@.skip(0) =~= contents@);
    }
    if len64 > (total - pos) as u64 {
        return Err(DecodeError::Malformed);
    }
    let n = len64 as usize;
    if total - pos - n != 72 {
        return Err(DecodeError::Malformed);
    }
    let domain = wire::read_bytes(contents, pos, n);
    let owner_bytes = wire::read_bytes(contents, pos + n, 32);
    let owner = match Address::from_bytes(owner_bytes) {
        Some(a) => a,
        None => {
            return Err(DecodeError::Malformed);
        },
    };
    let buyer_bytes = wire::read_bytes(contents, pos + n + 32, 32);
    let buyer = match Address::from_bytes(buyer_bytes) {
        Some(a) => a,
        None => {
            return Err(DecodeError::Malformed);
        },
    };
    let (value, _end) = match wire::read_u64_le(contents, pos + n + 64) {
        Ok(x) => x,
        Err(e) => return Err(e),
    };
    Ok((domain, owner, buyer, value))
}

/// Decodes a payload against the schema of the event type `kind`.
///
/// Succeeds exactly when the payload follows that schema, and then returns
/// exactly the encoded fields.
pub fn try_deserialize_event(kind: EventKind, contents: &[u8]) -> (r: Result<OfferEvent, DecodeError>)
    ensures
        match r {
            Ok(e) => decode_event_spec(kind, contents@) == Some(e@),
            Err(_) => decode_event_spec(kind, contents@) is None,
        },
{
    match kind {
        EventKind::Placed => {
            let (domain_name, address, value) = decode_addr_value(contents)?;
            Ok(OfferEvent::Placed(OfferPlacedEvent { domain_name, address, value }))
        },
        EventKind::Cancelled => {
            let (domain_name, address, value) = decode_addr_value(contents)?;
            Ok(OfferEvent::Cancelled(OfferCancelledEvent { domain_name, address, value }))
        },
        EventKind::Accepted => {
            let (domain_name, owner, buyer, value) = decode_two_addr_value(contents)?;
            Ok(OfferEvent::Accepted(OfferAcceptedEvent { domain_name, owner, buyer, value }))
        },
        EventKind::Declined => {
            let (domain_name, owner, buyer, value) = decode_two_addr_value(contents)?;
            Ok(OfferEvent::Declined(OfferDeclinedEvent { domain_name, owner, buyer, value }))
        },
        EventKind::MakeCounterOffer => {
            let (domain_name, owner, buyer, value) = decode_two_addr_value(contents)?;
            Ok(OfferEvent::MakeCounterOffer(MakeCounterOfferEvent { domain_name, owner, buyer, value }))
        },
        EventKind::AcceptCounterOffer => {
            let (domain_name, buyer, value) = decode_addr_value(contents)?;
            Ok(OfferEvent::AcceptCounterOffer(AcceptCounterOfferEvent { domain_name, buyer, value }))
        },
    }
}

/// What the domain-name bytes of every well-formed payload and the address
/// bytes of every event satisfy; encodings of such events decode back to
/// them.
pub open spec fn addr_value_model_wf(e: AddrValueEventModel) -> bool {
    e.domain_name.len() <= wire::MAX_SEQUENCE_LENGTH && e.address.len() == ADDRESS_LENGTH
}

/// Well-formedness of a two-address event model.
pub open spec fn two_addr_value_model_wf(e: TwoAddrValueEventModel) -> bool {
    e.domain_name.len() <= wire::MAX_SEQUENCE_LENGTH && e.owner.len() == ADDRESS_LENGTH
        && e.buyer.len() == ADDRESS_LENGTH
}

/// Encoding a one-address event and parsing the result gives back exactly
/// the original fields.
pub proof fn lemma_addr_value_roundtrip(e: AddrValueEventModel)
    requires
        addr_value_model_wf(e),
    ensures
        parse_addr_value_payload(encode_addr_value_payload(e)) == Some(e),
{
    let tail = e.domain_name + e.address + wire::u64_le(e.value);
    let s = encode_addr_value_payload(e);
    assert(s =~= wire::uleb(e.domain_name.len()) + tail);
    wire::lemma_uleb_roundtrip(e.domain_name.len(), tail);
    let k = wire::uleb(e.domain_name.len()).len() as int;
    let n = e.domain_name.len() as int;
    assert(s.subrange(k, k + n) =~= e.domain_name);
    assert(s.subrange(k + n, k + n + 32) =~= e.address);
    assert(s.subrange(k + n + 32, k + n + 40) =~= wire::u64_le(e.value));
    wire::lemma_u64_le_roundtrip(e.value);
}

/// Encoding a two-address event and parsing the result gives back exactly
/// the original fields.
pub proof fn lemma_two_addr_value_roundtrip(e: TwoAddrValueEventModel)
    requires
        two_addr_value_model_wf(e),
    ensures
        parse_two_addr_value_payload(encode_two_addr_value_payload(e)) == Some(e),
{
    let tail = e.domain_name + e.owner + e.buyer + wire::u64_le(e.value);
    let s = encode_two_addr_value_payload(e);
    assert(s =~= wire::uleb(e.domain_name.len()) + tail);
    wire::lemma_uleb_roundtrip(e.domain_name.len(), tail);
    let k = wire::uleb(e.domain_name.len()).len() as int;
    let n = e.domain_name.len() as int;
    assert(s.subrange(k, k + n) =~= e.domain_name);
    assert(s.subrange(k + n, k + n + 32) =~= e.owner);
    assert(s.subrange(k + n + 32, k + n + 64) =~= e.buyer);
    assert(s.subrange(k + n + 64, k + n + 72) =~= wire::u64_le(e.value));
    wire::lemma_u64_le_roundtrip(e.value);
}

/// The event type of a decoded event.
pub open spec fn event_kind_of(e: OfferEventModel) -> EventKind {
    match e {
        OfferEventModel::Placed(_) => EventKind::Placed,
        OfferEventModel::Cancelled(_) => EventKind::Cancelled,
        OfferEventModel::Accepted(_) => EventKind::Accepted,
        OfferEventModel::Declined(_) => EventKind::Declined,
        OfferEventModel::MakeCounterOffer(_) => EventKind::MakeCounterOffer,
        OfferEventModel::AcceptCounterOffer(_) => EventKind::AcceptCounterOffer,
    }
}

/// The payload encoding of a decoded event, under its own schema.
pub open spec fn encode_event(e: OfferEventModel) -> Seq<u8> {
    match e {
        OfferEventModel::Placed(t) => encode_addr_value_payload(t),
        OfferEventModel::Cancelled(t) => encode_addr_value_payload(t),
        OfferEventModel::Accepted(t) => encode_two_addr_value_payload(t),
        OfferEventModel::Declined(t) => encode_two_addr_value_payload(t),
        OfferEventModel::MakeCounterOffer(t) => encode_two_addr_value_payload(t),
        OfferEventModel::AcceptCounterOffer(t) => encode_addr_value_payload(t),
    }
}

/// What every event that can appear on the wire satisfies: addresses of 32
/// bytes and a domain name within the length cap.
pub open spec fn event_model_wf(e: OfferEventModel) -> bool {
    match e {
        OfferEventModel::Placed(t) => addr_value_model_wf(t),
        OfferEventModel::Cancelled(t) => addr_value_model_wf(t),
        OfferEventModel::Accepted(t) => two_addr_value_model_wf(t),
        OfferEventModel::Declined(t) => two_addr_value_model_wf(t),
        OfferEventModel::MakeCounterOffer(t) => two_addr_value_model_wf(t),
        OfferEventModel::AcceptCounterOffer(t) => addr_value_model_wf(t),
    }
}

/// Decoding a correctly encoded payload of any of the six event types
/// yields exactly the encoded field values.
pub proof fn lemma_event_roundtrip(e: OfferEventModel)
    requires
        event_model_wf(e),
    ensures
        decode_event_spec(event_kind_of(e), encode_event(e)) == Some(e),
{
    match e {
        OfferEventModel::Placed(t) => lemma_addr_value_roundtrip(t),
        OfferEventModel::Cancelled(t) => lemma_addr_value_roundtrip(t),
        OfferEventModel::Accepted(t) => lemma_two_addr_value_roundtrip(t),
        OfferEventModel::Declined(t) => lemma_two_addr_value_roundtrip(t),
        OfferEventModel::MakeCounterOffer(t) => lemma_two_addr_value_roundtrip(t),
        OfferEventModel::AcceptCounterOffer(t) => lemma_addr_value_roundtrip(t),
    }
}

/// Converts domain-name bytes to their display string.
///
/// Relies on std's `String::from_utf8_lossy`: the result is a function of
/// the bytes alone, with invalid sequences replaced, never an error.
#[verifier::external_body]
pub fn convert_domain_name(domain_name: &[u8]) -> (r: String)
    ensures
        r@ == utf8_lossy_of(domain_name@),
{
    String::from_utf8_lossy(domain_name).to_string()
}

/// The characters that lossy UTF-8 conversion yields for a byte string.
pub uninterp spec fn utf8_lossy_of(bytes: Seq<u8>) -> Seq<char>;

} // verus!
