//! The append-only capture pipeline: every decoded contract event becomes
//! one record in the table of its kind, keyed by checkpoint and transaction.
//! No reconciliation happens here; the records are for replay and audit.

use vstd::prelude::*;
use crate::address::address_display;
use crate::checkpoint::{Checkpoint, ProcessError, RawEvent};
use crate::events::{event_kind_of, match_event_kind, try_deserialize_event, utf8_lossy_of,
    EventKind, OfferEventModel};
use crate::handlers::offers_handler::{event_buyer_addr, event_domain, event_value,
    extract_offer_values, process_event_spec, process_checkpoint_spec, OfferValue,
    OfferValueModel};
use crate::models::{AcceptCounterOffer, AddrRecordModel, MakeCounterOffer, OfferAccepted,
    OfferCancelled, OfferDeclined, OfferPlaced, OwnerRecordModel};
use crate::text;
pub use crate::events::{AcceptCounterOfferEvent, MakeCounterOfferEvent, OfferAcceptedEvent,
    OfferCancelledEvent, OfferDeclinedEvent, OfferPlacedEvent};

verus! {

/// A decoded event already shaped as the record its table stores.
#[derive(Debug, Clone)]
pub enum OfferEvent {
    Placed(OfferPlaced),
    Cancelled(OfferCancelled),
    Accepted(OfferAccepted),
    Declined(OfferDeclined),
    MakeCounterOffer(MakeCounterOffer),
    AcceptCounterOffer(AcceptCounterOffer),
}

/// Mathematical form of a captured record.
pub enum OfferRecordModel {
    Placed(AddrRecordModel),
    Cancelled(AddrRecordModel),
    Accepted(OwnerRecordModel),
    Declined(OwnerRecordModel),
    MakeCounterOffer(OwnerRecordModel),
    AcceptCounterOffer(AddrRecordModel),
}

impl View for OfferEvent {
    type V = OfferRecordModel;

    open spec fn view(&self) -> OfferRecordModel {
        match self {
            OfferEvent::Placed(r) => OfferRecordModel::Placed(r@),
            OfferEvent::Cancelled(r) => OfferRecordModel::Cancelled(r@),
            OfferEvent::Accepted(r) => OfferRecordModel::Accepted(r@),
            OfferEvent::Declined(r) => OfferRecordModel::Declined(r@),
            OfferEvent::MakeCounterOffer(r) => OfferRecordModel::MakeCounterOffer(r@),
            OfferEvent::AcceptCounterOffer(r) => OfferRecordModel::AcceptCounterOffer(r@),
        }
    }
}

/// The owner address bytes of an event that names one.
pub open spec fn event_owner_addr(e: OfferEventModel) -> Seq<u8> {
    match e {
        OfferEventModel::Accepted(t) => t.owner,
        OfferEventModel::Declined(t) => t.owner,
        OfferEventModel::MakeCounterOffer(t) => t.owner,
        _ => Seq::empty(),
    }
}

/// The record captured for an event without an owner field.
pub open spec fn addr_record_of(v: OfferValueModel) -> AddrRecordModel {
    AddrRecordModel {
        domain_name: utf8_lossy_of(event_domain(v.event)),
        address: address_display(event_buyer_addr(v.event)),
        value: text::dec_of(event_value(v.event) as nat),
        created_at: v.created_at,
        tx_digest: v.tx_digest,
    }
}

/// The record captured for an event that names the owner.
pub open spec fn owner_record_of(v: OfferValueModel) -> OwnerRecordModel {
    OwnerRecordModel {
        domain_name: utf8_lossy_of(event_domain(v.event)),
        address: address_display(event_buyer_addr(v.event)),
        owner: address_display(event_owner_addr(v.event)),
        value: text::dec_of(event_value(v.event) as nat),
        created_at: v.created_at,
        tx_digest: v.tx_digest,
    }
}

/// The captured record of one extracted event.
pub open spec fn record_of(v: OfferValueModel) -> OfferRecordModel {
    match v.event {
        OfferEventModel::Placed(_) => OfferRecordModel::Placed(addr_record_of(v)),
        OfferEventModel::Cancelled(_) => OfferRecordModel::Cancelled(addr_record_of(v)),
        OfferEventModel::Accepted(_) => OfferRecordModel::Accepted(owner_record_of(v)),
        OfferEventModel::Declined(_) => OfferRecordModel::Declined(owner_record_of(v)),
        OfferEventModel::MakeCounterOffer(_) => OfferRecordModel::MakeCounterOffer(owner_record_of(v)),
        OfferEventModel::AcceptCounterOffer(_) => OfferRecordModel::AcceptCounterOffer(addr_record_of(v)),
    }
}

/// The single-address records of kind `kind` among a sequence of extracted
/// events, in order.
pub open spec fn addr_records(vs: Seq<OfferValueModel>, kind: EventKind) -> Seq<AddrRecordModel>
    decreases vs.len(),
{
    if vs.len() == 0 {
        Seq::empty()
    } else {
        let pre = addr_records(vs.drop_last(), kind);
        if event_kind_of(vs.last().event) == kind {
            pre.push(addr_record_of(vs.last()))
        } else {
            pre
        }
    }
}

/// The owner-bearing records of kind `kind` among a sequence of extracted
/// events, in order.
pub open spec fn owner_records(vs: Seq<OfferValueModel>, kind: EventKind) -> Seq<OwnerRecordModel>
    decreases vs.len(),
{
    if vs.len() == 0 {
        Seq::empty()
    } else {
        let pre = owner_records(vs.drop_last(), kind);
        if event_kind_of(vs.last().event) == kind {
            pre.push(owner_record_of(vs.last()))
        } else {
            pre
        }
    }
}

/// Everything one checkpoint contributes to the capture tables: the decoded
/// events of each kind, in arrival order, and the checkpoint number.
#[derive(Debug)]
pub struct OfferHandlerValue {
    pub placed: Vec<OfferPlaced>,
    pub cancelled: Vec<OfferCancelled>,
    pub accepted: Vec<OfferAccepted>,
    pub declined: Vec<OfferDeclined>,
    pub make_counter_offer: Vec<MakeCounterOffer>,
    pub accept_counter_offer: Vec<AcceptCounterOffer>,
    pub checkpoint: u64,
}

/// The capture pipeline, filtering events by the configured contract
/// package. Checkpoints are independent here, so callers may run it on
/// checkpoints in any order.
pub struct OfferHandlerPipeline {
    contract_package_id: String,
}

impl OfferHandlerPipeline {
    /// The configured contract package identifier, used as a prefix filter.
    pub closed spec fn package_id(&self) -> Seq<char> {
        self.contract_package_id@
    }

    /// Builds the pipeline for one contract package.
    pub fn new(contract_package_id: String) -> (r: OfferHandlerPipeline)
        ensures
            r.package_id() == contract_package_id@,
    {
        OfferHandlerPipeline { contract_package_id }
    }

    /// Classifies and decodes one raw event into the record its table
    /// stores, tagged with the transaction digest and timestamp.
    pub fn process_event(&self, event: &RawEvent, tx_digest: &str, created_at: i64) -> (r: Result<
        Option<OfferEvent>,
        ProcessError,
    >)
        ensures
            match r {
                Ok(None) => process_event_spec(event@, self.package_id())
                    == Ok::<Option<OfferEventModel>, ProcessError>(None),
                Ok(Some(rec)) => {
                    &&& process_event_spec(event@, self.package_id()) matches Ok(Some(e))
                    &&& rec@ == record_of(OfferValueModel {
                        event: e,
                        created_at,
                        tx_digest: tx_digest@,
                    })
                },
                Err(pe) => process_event_spec(event@, self.package_id())
                    == Err::<Option<OfferEventModel>, ProcessError>(pe),
            },
    {
        if !text::str_starts_with(event.type_tag.as_str(), self.contract_package_id.as_str()) {
            return Ok(None);
        }
        match match_event_kind(event.type_tag.as_str()) {
            None => Err(ProcessError::UnrecognizedEventType),
            Some(kind) => match self.try_deserialize_offer_event(kind, event.contents.as_slice()) {
                Err(_) => Err(ProcessError::MalformedPayload),
                Ok(ev) => {
                    let value = OfferValue {
                        event: ev,
                        created_at,
                        tx_digest: tx_digest.to_owned(),
                    };
                    Ok(Some(make_record(&value)))
                },
            },
        }
    }

    /// Walks a checkpoint and collects the decoded events of each kind, in
    /// arrival order. Any fault abandons the whole checkpoint.
    pub fn process(&self, checkpoint: &Checkpoint) -> (r: Result<OfferHandlerValue, ProcessError>)
        ensures
            match r {
                Ok(value) => {
                    &&& process_checkpoint_spec(checkpoint@, self.package_id()) matches Ok(vs)
                    &&& value.placed.deep_view() == addr_records(vs, EventKind::Placed)
                    &&& value.cancelled.deep_view() == addr_records(vs, EventKind::Cancelled)
                    &&& value.accepted.deep_view() == owner_records(vs, EventKind::Accepted)
                    &&& value.declined.deep_view() == owner_records(vs, EventKind::Declined)
                    &&& value.make_counter_offer.deep_view() == owner_records(vs,
                        EventKind::MakeCounterOffer)
                    &&& value.accept_counter_offer.deep_view() == addr_records(vs,
                        EventKind::AcceptCounterOffer)
                    &&& value.checkpoint == checkpoint@.sequence_number
                },
                Err(pe) => process_checkpoint_spec(checkpoint@, self.package_id())
                    == Err::<Seq<OfferValueModel>, ProcessError>(pe),
            },
    {
        let values = match extract_offer_values(self.contract_package_id.as_str(), checkpoint) {
            Ok(vs) => vs,
            Err(pe) => {
                return Err(pe);
            },
        };
        let ghost vs = values.deep_view();
        let mut placed: Vec<OfferPlaced> = Vec::new();
        let mut cancelled: Vec<OfferCancelled> = Vec::new();
        let mut accepted: Vec<OfferAccepted> = Vec::new();
        let mut declined: Vec<OfferDeclined> = Vec::new();
        let mut make_counter_offer: Vec<MakeCounterOffer> = Vec::new();
        let mut accept_counter_offer: Vec<AcceptCounterOffer> = Vec::new();
        proof {
            assert(vs.take(0) =~= Seq::<OfferValueModel>::empty());
            assert(placed.deep_view() =~= Seq::<AddrRecordModel>::empty());
            assert(cancelled.deep_view() =~= Seq::<AddrRecordModel>::empty());
            assert(accepted.deep_view() =~= Seq::<OwnerRecordModel>::empty());
            assert(declined.deep_view() =~= Seq::<OwnerRecordModel>::empty());
            assert(make_counter_offer.deep_view() =~= Seq::<OwnerRecordModel>::empty());
            assert(accept_counter_offer.deep_view() =~= Seq::<AddrRecordModel>::empty());
        }
        let n = values.len();
        let mut i: usize = 0;
        while i < n
            invariant
                0 <= i <= n,
                n == vs.len(),
                vs == values.deep_view(),
                placed.deep_view() == addr_records(vs.take(i as int), EventKind::Placed),
                cancelled.deep_view() == addr_records(vs.take(i as int), EventKind::Cancelled),
                accepted.deep_view() == owner_records(vs.take(i as int), EventKind::Accepted),
                declined.deep_view() == owner_records(vs.take(i as int), EventKind::Declined),
                make_counter_offer.deep_view() == owner_records(vs.take(i as int),
                    EventKind::MakeCounterOffer),
                accept_counter_offer.deep_view() == addr_records(vs.take(i as int),
                    EventKind::AcceptCounterOffer),
            decreases n - i,
        {
            let value = &values[i];
            proof {
                assert(vs.take(i + 1).drop_last() =~= vs.take(i as int));
                assert(vs.take(i + 1).last() == vs[i as int]);
                assert(value.deep_view() == vs[i as int]);
            }
            match make_record(value) {
                OfferEvent::Placed(r) => {
                    let ghost pre = placed.deep_view();
                    placed.push(r);
                    proof {
                        assert(placed.deep_view() =~= pre.push(addr_record_of(vs[i as int])));
                    }
                },
                OfferEvent::Cancelled(r) => {
                    let ghost pre = cancelled.deep_view();
                    cancelled.push(r);
                    proof {
                        assert(cancelled.deep_view() =~= pre.push(addr_record_of(vs[i as int])));
                    }
                },
                OfferEvent::Accepted(r) => {
                    let ghost pre = accepted.deep_view();
                    accepted.push(r);
                    proof {
                        assert(accepted.deep_view() =~= pre.push(owner_record_of(vs[i as int])));
                    }
                },
                OfferEvent::Declined(r) => {
                    let ghost pre = declined.deep_view();
                    declined.push(r);
                    proof {
                        assert(declined.deep_view() =~= pre.push(owner_record_of(vs[i as int])));
                    }
                },
                OfferEvent::MakeCounterOffer(r) => {
                    let ghost pre = make_counter_offer.deep_view();
                    make_counter_offer.push(r);
                    proof {
                        assert(make_counter_offer.deep_view() =~= pre.push(owner_record_of(
                            vs[i as int])));
                    }
                },
                OfferEvent::AcceptCounterOffer(r) => {
                    let ghost pre = accept_counter_offer.deep_view();
                    accept_counter_offer.push(r);
                    proof {
                        assert(accept_counter_offer.deep_view() =~= pre.push(addr_record_of(
                            vs[i as int])));
                    }
                },
            }
            i = i + 1;
        }
        proof {
            assert(vs.take(n as int) =~= vs);
        }
        Ok(OfferHandlerValue {
            placed,
            cancelled,
            accepted,
            declined,
            make_counter_offer,
            accept_counter_offer,
            checkpoint: checkpoint.sequence_number,
        })
    }

    /// Decodes a payload against the schema of the event type `kind`.
    fn try_deserialize_offer_event(&self, kind: EventKind, contents: &[u8]) -> (r: Result<
        crate::events::OfferEvent,
        crate::wire::DecodeError,
    >)
        ensures
            match r {
                Ok(e) => crate::events::decode_event_spec(kind, contents@) == Some(e@),
                Err(_) => crate::events::decode_event_spec(kind, contents@) is None,
            },
    {
        try_deserialize_event(kind, contents)
    }

    /// Converts domain-name bytes to their display string.
    pub fn convert_domain_name(domain_name: &[u8]) -> (r: String)
        ensures
            r@ == utf8_lossy_of(domain_name@),
    {
        crate::events::convert_domain_name(domain_name)
    }
}

/// Shapes one extracted event as the record its table stores.
fn make_record(value: &OfferValue) -> (r: OfferEvent)
    ensures
        r@ == record_of(value@),
{
    let domain_name = crate::events::convert_domain_name(event_domain_exec(&value.event));
    let value_str = text::u64_to_decimal(event_value_of(&value.event));
    match &value.event {
        crate::events::OfferEvent::Placed(e) => OfferEvent::Placed(OfferPlaced {
            domain_name,
            address: e.address.to_hex_string(),
            value: value_str,
            created_at: value.created_at,
            tx_digest: value.tx_digest.clone(),
        }),
        crate::events::OfferEvent::Cancelled(e) => OfferEvent::Cancelled(OfferCancelled {
            domain_name,
            address: e.address.to_hex_string(),
            value: value_str,
            created_at: value.created_at,
            tx_digest: value.tx_digest.clone(),
        }),
        crate::events::OfferEvent::Accepted(e) => OfferEvent::Accepted(OfferAccepted {
            domain_name,
            address: e.buyer.to_hex_string(),
            owner: e.owner.to_hex_string(),
            value: value_str,
            created_at: value.created_at,
            tx_digest: value.tx_digest.clone(),
        }),
        crate::events::OfferEvent::Declined(e) => OfferEvent::Declined(OfferDeclined {
            domain_name,
            address: e.buyer.to_hex_string(),
            owner: e.owner.to_hex_string(),
            value: value_str,
            created_at: value.created_at,
            tx_digest: value.tx_digest.clone(),
        }),
        crate::events::OfferEvent::MakeCounterOffer(e) => OfferEvent::MakeCounterOffer(
            MakeCounterOffer {
                domain_name,
                address: e.buyer.to_hex_string(),
                owner: e.owner.to_hex_string(),
                value: value_str,
                created_at: value.created_at,
                tx_digest: value.tx_digest.clone(),
            },
        ),
        crate::events::OfferEvent::AcceptCounterOffer(e) => OfferEvent::AcceptCounterOffer(
            AcceptCounterOffer {
                domain_name,
                address: e.buyer.to_hex_string(),
                value: value_str,
                created_at: value.created_at,
                tx_digest: value.tx_digest.clone(),
            },
        ),
    }
}

/// The domain-name bytes carried by an event.
fn event_domain_exec(e: &crate::events::OfferEvent) -> (r: &[u8])
    ensures
        r@ == event_domain(e@),
{
    match e {
        crate::events::OfferEvent::Placed(t) => t.domain_name.as_slice(),
        crate::events::OfferEvent::Cancelled(t) => t.domain_name.as_slice(),
        crate::events::OfferEvent::Accepted(t) => t.domain_name.as_slice(),
        crate::events::OfferEvent::Declined(t) => t.domain_name.as_slice(),
        crate::events::OfferEvent::MakeCounterOffer(t) => t.domain_name.as_slice(),
        crate::events::OfferEvent::AcceptCounterOffer(t) => t.domain_name.as_slice(),
    }
}

/// The monetary value carried by an event.
fn event_value_of(e: &crate::events::OfferEvent) -> (r: u64)
    ensures
        r == event_value(e@),
{
    match e {
        crate::events::OfferEvent::Placed(t) => t.value,
        crate::events::OfferEvent::Cancelled(t) => t.value,
        crate::events::OfferEvent::Accepted(t) => t.value,
        crate::events::OfferEvent::Declined(t) => t.value,
        crate::events::OfferEvent::MakeCounterOffer(t) => t.value,
        crate::events::OfferEvent::AcceptCounterOffer(t) => t.value,
    }
}

} // verus!
