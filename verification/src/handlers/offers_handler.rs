//! The sequential reconciler: extracts typed events from checkpoints in
//! arrival order and applies them, one at a time, to the offer store.
//!
//! Application follows the status machine: a placed event inserts a fresh
//! row; every other event resolves the most recent row of its domain and
//! buyer and, unless that row is already terminal or missing, rewrites its
//! status, value and bookkeeping fields.

use vstd::prelude::*;
use crate::address::address_display;
use crate::checkpoint::{Checkpoint, CheckpointModel, ProcessError, RawEvent, RawEventModel,
    TransactionModel};
use crate::events::{decode_event_spec, suffix_kind, match_event_kind, try_deserialize_event,
    utf8_lossy_of, OfferCancelledEvent, OfferEventModel};
use crate::events::convert_domain_name;
pub use crate::events::OfferEvent;
use crate::models::{is_terminal_status, Offer, OfferModel, OfferStatus, UpdateOffer,
    UpdateOfferModel, updated_offer};
use crate::store::{best_match, OfferStore};
use crate::text;
use crate::text::dec_of;

verus! {

/// A typed event tagged with its originating transaction and the timestamp
/// of its checkpoint: the unit the reconciler consumes.
#[derive(Debug, Clone)]
pub struct OfferValue {
    pub event: OfferEvent,
    pub created_at: i64,
    pub tx_digest: String,
}

/// Mathematical form of a reconciler input.
pub struct OfferValueModel {
    pub event: OfferEventModel,
    pub created_at: i64,
    pub tx_digest: Seq<char>,
}

impl View for OfferValue {
    type V = OfferValueModel;

    open spec fn view(&self) -> OfferValueModel {
        OfferValueModel {
            event: self.event@,
            created_at: self.created_at,
            tx_digest: self.tx_digest@,
        }
    }
}

impl DeepView for OfferValue {
    type V = OfferValueModel;

    open spec fn deep_view(&self) -> OfferValueModel {
        self.view()
    }
}

/// What applying one event did to the store.
#[derive(Debug, Clone, Copy, PartialEq, Eq, Structural)]
pub enum ApplyOutcome {
    /// A placed event inserted a fresh row.
    Inserted,
    /// A status event rewrote the most recent matching row.
    Updated,
    /// No row matches the event's domain and buyer; nothing was changed.
    NoMatchingOffer,
    /// The most recent matching row is already terminal; nothing was
    /// changed.
    AlreadyTerminal,
}

/// The domain-name bytes an event speaks about.
pub open spec fn event_domain(e: OfferEventModel) -> Seq<u8> {
    match e {
        OfferEventModel::Placed(t) => t.domain_name,
        OfferEventModel::Cancelled(t) => t.domain_name,
        OfferEventModel::Accepted(t) => t.domain_name,
        OfferEventModel::Declined(t) => t.domain_name,
        OfferEventModel::MakeCounterOffer(t) => t.domain_name,
        OfferEventModel::AcceptCounterOffer(t) => t.domain_name,
    }
}

/// The buyer address bytes an event speaks about.
pub open spec fn event_buyer_addr(e: OfferEventModel) -> Seq<u8> {
    match e {
        OfferEventModel::Placed(t) => t.address,
        OfferEventModel::Cancelled(t) => t.address,
        OfferEventModel::Accepted(t) => t.buyer,
        OfferEventModel::Declined(t) => t.buyer,
        OfferEventModel::MakeCounterOffer(t) => t.buyer,
        OfferEventModel::AcceptCounterOffer(t) => t.address,
    }
}

/// The monetary value an event carries.
pub open spec fn event_value(e: OfferEventModel) -> u64 {
    match e {
        OfferEventModel::Placed(t) => t.value,
        OfferEventModel::Cancelled(t) => t.value,
        OfferEventModel::Accepted(t) => t.value,
        OfferEventModel::Declined(t) => t.value,
        OfferEventModel::MakeCounterOffer(t) => t.value,
        OfferEventModel::AcceptCounterOffer(t) => t.value,
    }
}

/// The status a status-changing event drives its row to.
pub open spec fn event_status(e: OfferEventModel) -> OfferStatus {
    match e {
        OfferEventModel::Placed(_) => OfferStatus::Placed,
        OfferEventModel::Cancelled(_) => OfferStatus::Cancelled,
        OfferEventModel::Accepted(_) => OfferStatus::Accepted,
        OfferEventModel::Declined(_) => OfferStatus::Declined,
        OfferEventModel::MakeCounterOffer(_) => OfferStatus::Countered,
        OfferEventModel::AcceptCounterOffer(_) => OfferStatus::AcceptedCountered,
    }
}

/// The update a status-changing event writes: the new status and value,
/// the owner where the event reveals one, and the event's bookkeeping.
pub open spec fn event_update(e: OfferEventModel, created_at: i64, tx_digest: Seq<char>) -> UpdateOfferModel {
    UpdateOfferModel {
        value: dec_of(event_value(e) as nat),
        owner: match e {
            OfferEventModel::Accepted(t) => Some(Some(address_display(t.owner))),
            OfferEventModel::Declined(t) => Some(Some(address_display(t.owner))),
            OfferEventModel::MakeCounterOffer(t) => Some(Some(address_display(t.owner))),
            _ => None,
        },
        status: event_status(e),
        updated_at: created_at,
        last_tx_digest: tx_digest,
    }
}

/// The row a placed event inserts, with the next surrogate id.
pub open spec fn placed_row(rows: Seq<OfferModel>, e: OfferEventModel, created_at: i64, tx_digest: Seq<char>) -> OfferModel {
    OfferModel {
        id: Some((rows.len() + 1) as i32),
        domain_name: utf8_lossy_of(event_domain(e)),
        buyer: address_display(event_buyer_addr(e)),
        initial_value: dec_of(event_value(e) as nat),
        value: dec_of(event_value(e) as nat),
        owner: None,
        status: OfferStatus::Placed,
        updated_at: created_at,
        created_at,
        last_tx_digest: tx_digest,
    }
}

/// The offer table after one event: a placed event appends its row; any
/// other event rewrites the most recent row of its domain and buyer, or
/// leaves the table alone when no such row exists or it is already
/// terminal.
pub open spec fn apply_event_spec(rows: Seq<OfferModel>, v: OfferValueModel) -> Seq<OfferModel> {
    match v.event {
        OfferEventModel::Placed(_) => rows.push(placed_row(rows, v.event, v.created_at, v.tx_digest)),
        _ => {
            let d = utf8_lossy_of(event_domain(v.event));
            let b = address_display(event_buyer_addr(v.event));
            match best_match(rows, d, b) {
                None => rows,
                Some(i) => if is_terminal_status(rows[i].status) {
                    rows
                } else {
                    rows.update(i, updated_offer(rows[i], event_update(v.event, v.created_at, v.tx_digest)))
                },
            }
        },
    }
}

/// What applying one event reports.
pub open spec fn apply_event_outcome(rows: Seq<OfferModel>, v: OfferValueModel) -> ApplyOutcome {
    match v.event {
        OfferEventModel::Placed(_) => ApplyOutcome::Inserted,
        _ => {
            let d = utf8_lossy_of(event_domain(v.event));
            let b = address_display(event_buyer_addr(v.event));
            match best_match(rows, d, b) {
                None => ApplyOutcome::NoMatchingOffer,
                Some(i) => if is_terminal_status(rows[i].status) {
                    ApplyOutcome::AlreadyTerminal
                } else {
                    ApplyOutcome::Updated
                },
            }
        },
    }
}

/// The offer table after a whole batch, applied in order.
pub open spec fn apply_batch_spec(rows: Seq<OfferModel>, vs: Seq<OfferValueModel>) -> Seq<OfferModel>
    decreases vs.len(),
{
    if vs.len() == 0 {
        rows
    } else {
        apply_event_spec(apply_batch_spec(rows, vs.drop_last()), vs.last())
    }
}

/// Applies one typed event to the offer store.
pub fn apply_offer_event(store: &mut OfferStore, value: &OfferValue) -> (o: ApplyOutcome)
    requires
        old(store).wf(),
        old(store)@.len() < i32::MAX,
    ensures
        final(store).wf(),
        final(store)@ == apply_event_spec(old(store)@, value@),
        o == apply_event_outcome(old(store)@, value@),
        final(store)@.len() <= old(store)@.len() + 1,
{
    match &value.event {
        OfferEvent::Placed(e) => {
            let domain_name = convert_domain_name(e.domain_name.as_slice());
            let buyer = e.address.to_hex_string();
            let dec = crate::text::u64_to_decimal(e.value);
            let row = Offer {
                id: None,
                domain_name,
                buyer,
                initial_value: dec.clone(),
                value: dec,
                owner: None,
                status: OfferStatus::Placed,
                updated_at: value.created_at,
                created_at: value.created_at,
                last_tx_digest: value.tx_digest.clone(),
            };
            store.insert(row);
            proof {
                assert(store@ =~= apply_event_spec(old(store)@, value@));
            }
            ApplyOutcome::Inserted
        },
        OfferEvent::Cancelled(e) => {
            let domain_name = convert_domain_name(e.domain_name.as_slice());
            let buyer = e.address.to_hex_string();
            apply_status_event(store, value, domain_name, buyer, None, OfferStatus::Cancelled)
        },
        OfferEvent::Accepted(e) => {
            let domain_name = convert_domain_name(e.domain_name.as_slice());
            let buyer = e.buyer.to_hex_string();
            let owner = e.owner.to_hex_string();
            apply_status_event(store, value, domain_name, buyer, Some(Some(owner)), OfferStatus::Accepted)
        },
        OfferEvent::Declined(e) => {
            let domain_name = convert_domain_name(e.domain_name.as_slice());
            let buyer = e.buyer.to_hex_string();
            let owner = e.owner.to_hex_string();
            apply_status_event(store, value, domain_name, buyer, Some(Some(owner)), OfferStatus::Declined)
        },
        OfferEvent::MakeCounterOffer(e) => {
            let domain_name = convert_domain_name(e.domain_name.as_slice());
            let buyer = e.buyer.to_hex_string();
            let owner = e.owner.to_hex_string();
            apply_status_event(store, value, domain_name, buyer, Some(Some(owner)), OfferStatus::Countered)
        },
        OfferEvent::AcceptCounterOffer(e) => {
            let domain_name = convert_domain_name(e.domain_name.as_slice());
            let buyer = e.buyer.to_hex_string();
            apply_status_event(store, value, domain_name, buyer, None, OfferStatus::AcceptedCountered)
        },
    }
}

/// Resolves the most recent row for the event's domain and buyer and
/// rewrites it, unless it is missing or already terminal.
fn apply_status_event(
    store: &mut OfferStore,
    value: &OfferValue,
    domain_name: String,
    buyer: String,
    owner: Option<Option<String>>,
    status: OfferStatus,
) -> (o: ApplyOutcome)
    requires
        old(store).wf(),
        !(value.event@ is Placed),
        domain_name@ == utf8_lossy_of(event_domain(value.event@)),
        buyer@ == address_display(event_buyer_addr(value.event@)),
        (match owner {
            Some(Some(s)) => event_update(value.event@, value@.created_at, value@.tx_digest).owner
                == Some(Some(s@)),
            Some(None) => event_update(value.event@, value@.created_at, value@.tx_digest).owner
                == Some(None::<Seq<char>>),
            None => event_update(value.event@, value@.created_at, value@.tx_digest).owner
                is None,
        }),
        status == event_status(value.event@),
    ensures
        final(store).wf(),
        final(store)@ == apply_event_spec(old(store)@, value@),
        o == apply_event_outcome(old(store)@, value@),
        final(store)@.len() == old(store)@.len(),
{
    match store.latest_offer_index(domain_name.as_str(), buyer.as_str()) {
        None => ApplyOutcome::NoMatchingOffer,
        Some(i) => {
            if store.get(i).status.is_terminal() {
                ApplyOutcome::AlreadyTerminal
            } else {
                let update = UpdateOffer {
                    value: crate::text::u64_to_decimal(event_value_exec(&value.event)),
                    owner,
                    status,
                    updated_at: value.created_at,
                    last_tx_digest: value.tx_digest.clone(),
                };
                proof {
                    assert(update@ == event_update(value.event@, value@.created_at, value@.tx_digest));
                }
                store.update_at(i, update);
                ApplyOutcome::Updated
            }
        },
    }
}

/// Classification of one raw event against the configured package: not
/// ours, one of the six typed events, or a fault that abandons the
/// checkpoint.
pub open spec fn process_event_spec(ev: RawEventModel, pkg: Seq<char>) -> Result<Option<OfferEventModel>, ProcessError> {
    if !text::has_prefix(ev.type_tag, pkg) {
        Ok(None)
    } else {
        match suffix_kind(ev.type_tag) {
            None => Err(ProcessError::UnrecognizedEventType),
            Some(k) => match decode_event_spec(k, ev.contents) {
                Some(e) => Ok(Some(e)),
                None => Err(ProcessError::MalformedPayload),
            },
        }
    }
}

/// The reconciler inputs extracted from the events of one transaction, in
/// emission order, or the first fault among them.
pub open spec fn extract_event_seq(
    events: Seq<RawEventModel>,
    pkg: Seq<char>,
    digest: Seq<char>,
    created_at: i64,
) -> Result<Seq<OfferValueModel>, ProcessError>
    decreases events.len(),
{
    if events.len() == 0 {
        Ok(Seq::empty())
    } else {
        match extract_event_seq(events.drop_last(), pkg, digest, created_at) {
            Err(e) => Err(e),
            Ok(s) => match process_event_spec(events.last(), pkg) {
                Err(e) => Err(e),
                Ok(None) => Ok(s),
                Ok(Some(ev)) => Ok(s.push(OfferValueModel { event: ev, created_at, tx_digest: digest })),
            },
        }
    }
}

/// The reconciler inputs extracted from a checkpoint's transactions, in
/// transaction order, or the first fault among them.
pub open spec fn extract_checkpoint_txs(
    txs: Seq<TransactionModel>,
    pkg: Seq<char>,
    created_at: i64,
) -> Result<Seq<OfferValueModel>, ProcessError>
    decreases txs.len(),
{
    if txs.len() == 0 {
        Ok(Seq::empty())
    } else {
        match extract_checkpoint_txs(txs.drop_last(), pkg, created_at) {
            Err(e) => Err(e),
            Ok(s) => match extract_event_seq(txs.last().events, pkg, txs.last().digest, created_at) {
                Err(e) => Err(e),
                Ok(s2) => Ok(s + s2),
            },
        }
    }
}

/// A fault among a transaction's first events stands whatever follows them.
proof fn lemma_extract_event_seq_err(
    events: Seq<RawEventModel>,
    tail: Seq<RawEventModel>,
    pkg: Seq<char>,
    digest: Seq<char>,
    created_at: i64,
)
    requires
        extract_event_seq(events, pkg, digest, created_at) is Err,
    ensures
        extract_event_seq(events + tail, pkg, digest, created_at)
            == extract_event_seq(events, pkg, digest, created_at),
    decreases tail.len(),
{
    if tail.len() == 0 {
        assert(events + tail =~= events);
    } else {
        lemma_extract_event_seq_err(events, tail.drop_last(), pkg, digest, created_at);
        assert((events + tail).drop_last() =~= events + tail.drop_last());
    }
}

/// A fault in a checkpoint's first transactions stands whatever follows
/// them.
proof fn lemma_extract_checkpoint_txs_err(
    txs: Seq<TransactionModel>,
    tail: Seq<TransactionModel>,
    pkg: Seq<char>,
    created_at: i64,
)
    requires
        extract_checkpoint_txs(txs, pkg, created_at) is Err,
    ensures
        extract_checkpoint_txs(txs + tail, pkg, created_at)
            == extract_checkpoint_txs(txs, pkg, created_at),
    decreases tail.len(),
{
    if tail.len() == 0 {
        assert(txs + tail =~= txs);
    } else {
        lemma_extract_checkpoint_txs_err(txs, tail.drop_last(), pkg, created_at);
        assert((txs + tail).drop_last() =~= txs + tail.drop_last());
    }
}

/// Everything a checkpoint contributes to the reconciler, or the fault that
/// abandons it. A timestamp beyond a signed 64-bit millisecond count is
/// fatal for the whole checkpoint.
pub open spec fn process_checkpoint_spec(cp: CheckpointModel, pkg: Seq<char>) -> Result<Seq<OfferValueModel>, ProcessError> {
    if cp.timestamp_ms > i64::MAX {
        Err(ProcessError::TimestampOutOfRange)
    } else {
        extract_checkpoint_txs(cp.transactions, pkg, cp.timestamp_ms as i64)
    }
}

/// The sequential pipeline that keeps the offer table current: it filters
/// events by the configured contract package and must be driven by a single
/// writer, in checkpoint order.
pub struct OffersHandlerPipeline {
    contract_package_id: String,
}

impl OffersHandlerPipeline {
    /// The configured contract package identifier, used as a prefix filter.
    pub closed spec fn package_id(&self) -> Seq<char> {
        self.contract_package_id@
    }

    /// Builds the pipeline for one contract package.
    pub fn new(contract_package_id: String) -> (r: OffersHandlerPipeline)
        ensures
            r.package_id() == contract_package_id@,
    {
        OffersHandlerPipeline { contract_package_id }
    }

    /// Classifies and decodes one raw event.
    ///
    /// An event whose type tag does not start with the configured package is
    /// not ours. One that does but carries an unrecognized suffix, or whose
    /// payload fails its schema, is a fault.
    pub fn process_event(&self, event: &RawEvent) -> (r: Result<Option<OfferEvent>, ProcessError>)
        ensures
            match r {
                Ok(None) => process_event_spec(event@, self.package_id())
                    == Ok::<Option<OfferEventModel>, ProcessError>(None),
                Ok(Some(e)) => process_event_spec(event@, self.package_id())
                    == Ok::<Option<OfferEventModel>, ProcessError>(Some(e@)),
                Err(pe) => process_event_spec(event@, self.package_id())
                    == Err::<Option<OfferEventModel>, ProcessError>(pe),
            },
    {
        process_raw_event(self.contract_package_id.as_str(), event)
    }

    /// Walks a checkpoint's transactions in order and extracts every typed
    /// event, tagged with its transaction digest and the checkpoint's
    /// timestamp. Any fault abandons the whole checkpoint.
    pub fn process(&self, checkpoint: &Checkpoint) -> (r: Result<Vec<OfferValue>, ProcessError>)
        ensures
            match r {
                Ok(vs) => process_checkpoint_spec(checkpoint@, self.package_id())
                    == Ok::<Seq<OfferValueModel>, ProcessError>(vs.deep_view()),
                Err(pe) => process_checkpoint_spec(checkpoint@, self.package_id())
                    == Err::<Seq<OfferValueModel>, ProcessError>(pe),
            },
    {
        extract_offer_values(self.contract_package_id.as_str(), checkpoint)
    }
}

/// The number of raw events in a sequence of transactions.
pub open spec fn checkpoint_event_count(txs: Seq<TransactionModel>) -> nat
    decreases txs.len(),
{
    if txs.len() == 0 {
        0
    } else {
        checkpoint_event_count(txs.drop_last()) + txs.last().events.len()
    }
}

/// A transaction yields at most one reconciler input per raw event.
proof fn lemma_extract_event_seq_len(
    events: Seq<RawEventModel>,
    pkg: Seq<char>,
    digest: Seq<char>,
    created_at: i64,
)
    ensures
        extract_event_seq(events, pkg, digest, created_at) matches Ok(s) ==> s.len()
            <= events.len(),
    decreases events.len(),
{
    if events.len() > 0 {
        lemma_extract_event_seq_len(events.drop_last(), pkg, digest, created_at);
    }
}

/// A checkpoint yields at most one reconciler input per raw event.
proof fn lemma_extract_checkpoint_len(txs: Seq<TransactionModel>, pkg: Seq<char>, created_at: i64)
    ensures
        extract_checkpoint_txs(txs, pkg, created_at) matches Ok(s) ==> s.len()
            <= checkpoint_event_count(txs),
    decreases txs.len(),
{
    if txs.len() > 0 {
        lemma_extract_checkpoint_len(txs.drop_last(), pkg, created_at);
        lemma_extract_event_seq_len(txs.last().events, pkg, txs.last().digest, created_at);
    }
}

/// Classifies and decodes one raw event against a contract package prefix.
pub fn process_raw_event(package_id: &str, event: &RawEvent) -> (r: Result<Option<OfferEvent>, ProcessError>)
    ensures
        match r {
            Ok(None) => process_event_spec(event@, package_id@)
                == Ok::<Option<OfferEventModel>, ProcessError>(None),
            Ok(Some(e)) => process_event_spec(event@, package_id@)
                == Ok::<Option<OfferEventModel>, ProcessError>(Some(e@)),
            Err(pe) => process_event_spec(event@, package_id@)
                == Err::<Option<OfferEventModel>, ProcessError>(pe),
        },
{
    if !text::str_starts_with(event.type_tag.as_str(), package_id) {
        return Ok(None);
    }
    match match_event_kind(event.type_tag.as_str()) {
        None => Err(ProcessError::UnrecognizedEventType),
        Some(kind) => match try_deserialize_event(kind, event.contents.as_slice()) {
            Ok(e) => Ok(Some(e)),
            Err(_) => Err(ProcessError::MalformedPayload),
        },
    }
}

/// Walks a checkpoint's transactions in order and extracts every typed
/// event, tagged with its transaction digest and the checkpoint's
/// timestamp. Any fault abandons the whole checkpoint.
pub fn extract_offer_values(package_id: &str, checkpoint: &Checkpoint) -> (r: Result<Vec<OfferValue>, ProcessError>)
    ensures
        match r {
            Ok(vs) => process_checkpoint_spec(checkpoint@, package_id@)
                == Ok::<Seq<OfferValueModel>, ProcessError>(vs.deep_view()),
            Err(pe) => process_checkpoint_spec(checkpoint@, package_id@)
                == Err::<Seq<OfferValueModel>, ProcessError>(pe),
        },
{
        if checkpoint.timestamp_ms > i64::MAX as u64 {
            return Err(ProcessError::TimestampOutOfRange);
        }
        let created_at = checkpoint.timestamp_ms as i64;
        let ghost pkg = package_id@;
        let ghost txs = checkpoint@.transactions;
        let mut values: Vec<OfferValue> = Vec::new();
        proof {
            assert(txs.take(0) =~= Seq::<TransactionModel>::empty());
            assert(values.deep_view() =~= Seq::<OfferValueModel>::empty());
        }
        let n_txs = checkpoint.transactions.len();
        let mut t: usize = 0;
        while t < n_txs
            invariant
                0 <= t <= n_txs,
                n_txs == txs.len(),
                txs == checkpoint@.transactions,
                pkg == package_id@,
                checkpoint@.timestamp_ms <= i64::MAX,
                created_at == checkpoint@.timestamp_ms as i64,
                extract_checkpoint_txs(txs.take(t as int), pkg, created_at)
                    == Ok::<Seq<OfferValueModel>, ProcessError>(values.deep_view()),
            decreases n_txs - t,
        {
            let tx = &checkpoint.transactions[t];
            let ghost txm = txs[t as int];
            let ghost values_before = values.deep_view();
            proof {
                assert(txm.events.take(0) =~= Seq::<RawEventModel>::empty());
                assert(values.deep_view() =~= values_before + Seq::<OfferValueModel>::empty());
            }
            let n_evs = tx.events.len();
            let mut j: usize = 0;
            while j < n_evs
                invariant
                    0 <= j <= n_evs,
                    n_evs == txm.events.len(),
                    txm == txs[t as int],
                    0 <= t < txs.len(),
                    tx@ == txm,
                    pkg == package_id@,
                    txs == checkpoint@.transactions,
                    checkpoint@.timestamp_ms <= i64::MAX,
                    created_at == checkpoint@.timestamp_ms as i64,
                    extract_checkpoint_txs(txs.take(t as int), pkg, created_at)
                        == Ok::<Seq<OfferValueModel>, ProcessError>(values_before),
                    extract_event_seq(txm.events.take(j as int), pkg, txm.digest, created_at)
                        matches Ok(s) && values.deep_view() =~= values_before + s,
                decreases n_evs - j,
            {
                let event = &tx.events[j];
                proof {
                    assert(txm.events.take(j + 1).drop_last() =~= txm.events.take(j as int));
                    assert(txm.events.take(j + 1).last() == txm.events[j as int]);
                    assert(event@ == txm.events[j as int]);
                }
                match process_raw_event(package_id, event) {
                    Ok(Some(offer_event)) => {
                        let ghost evm = offer_event@;
                        let value = OfferValue {
                            event: offer_event,
                            created_at,
                            tx_digest: tx.digest.clone(),
                        };
                        let ghost pre_push = values.deep_view();
                        let ghost s = (match extract_event_seq(txm.events.take(j as int), pkg,
                            txm.digest, created_at) {
                            Ok(s) => s,
                            Err(_) => Seq::empty(),
                        });
                        proof {
                            assert(value@ == OfferValueModel {
                                event: evm,
                                created_at,
                                tx_digest: txm.digest,
                            });
                        }
                        values.push(value);
                        proof {
                            assert(values.deep_view() =~= pre_push.push(value@));
                            assert(extract_event_seq(txm.events.take(j + 1), pkg, txm.digest,
                                created_at) == Ok::<Seq<OfferValueModel>, ProcessError>(
                                s.push(value@)));
                            assert(values.deep_view() =~= values_before + s.push(value@));
                        }
                    },
                    Ok(None) => {},
                    Err(e) => {
                        proof {
                            assert(extract_event_seq(txm.events.take(j + 1), pkg, txm.digest,
                                created_at) == Err::<Seq<OfferValueModel>, ProcessError>(e));
                            assert(txm.events.take(j + 1) + txm.events.skip(j + 1) =~= txm.events);
                            lemma_extract_event_seq_err(txm.events.take(j + 1),
                                txm.events.skip(j + 1), pkg, txm.digest, created_at);
                            assert(extract_event_seq(txm.events, pkg, txm.digest, created_at)
                                == Err::<Seq<OfferValueModel>, ProcessError>(e));
                            assert(txs.take(t + 1).drop_last() =~= txs.take(t as int));
                            assert(txs.take(t + 1).last() == txm);
                            assert(extract_checkpoint_txs(txs.take(t + 1), pkg, created_at)
                                == Err::<Seq<OfferValueModel>, ProcessError>(e));
                            assert(txs.take(t + 1) + txs.skip(t + 1) =~= txs);
                            lemma_extract_checkpoint_txs_err(txs.take(t + 1), txs.skip(t + 1),
                                pkg, created_at);
                        }
                        return Err(e);
                    },
                }
                j = j + 1;
            }
            proof {
                assert(txm.events.take(n_evs as int) =~= txm.events);
                assert(txs.take(t + 1).drop_last() =~= txs.take(t as int));
                assert(txs.take(t + 1).last() == txm);
            }
            t = t + 1;
        }
        proof {
            assert(txs.take(n_txs as int) =~= txs);
        }
        Ok(values)
    }

impl OffersHandlerPipeline {
    /// Applies a batch of extracted events to the offer store, in order, and
    /// reports how many events were consumed.
    ///
    /// The batch is the unit of atomicity: callers hand the whole store to
    /// one `commit` at a time and persist it only when `commit` returns.
    pub fn commit(values: &[OfferValue], store: &mut OfferStore) -> (r: usize)
        requires
            old(store).wf(),
            old(store)@.len() + values@.len() <= i32::MAX,
        ensures
            final(store).wf(),
            final(store)@ == apply_batch_spec(old(store)@, values.deep_view()),
            r == values@.len(),
    {
        let n = values.len();
        let mut k: usize = 0;
        while k < n
            invariant
                0 <= k <= n,
                n == values@.len(),
                store.wf(),
                store@.len() <= old(store)@.len() + k,
                old(store)@.len() + n <= i32::MAX,
                store@ == apply_batch_spec(old(store)@, values.deep_view().take(k as int)),
            decreases n - k,
        {
            proof {
                assert(values.deep_view().take(k + 1).drop_last() =~= values.deep_view().take(k as int));
                assert(values.deep_view().take(k + 1).last() == values.deep_view()[k as int]);
                assert(values[k as int].deep_view() == values.deep_view()[k as int]);
            }
            apply_offer_event(store, &values[k]);
            k = k + 1;
        }
        proof {
            assert(values.deep_view().take(n as int) =~= values.deep_view());
        }
        n
    }

    /// Extracts a checkpoint's events and applies them to the store as one
    /// batch.
    ///
    /// All or nothing: any fault in the checkpoint, a malformed payload
    /// among them, leaves the store exactly as it was.
    pub fn process_and_commit(&self, checkpoint: &Checkpoint, store: &mut OfferStore) -> (r:
        Result<usize, ProcessError>)
        requires
            old(store).wf(),
            old(store)@.len() + checkpoint_event_count(checkpoint@.transactions) <= i32::MAX,
        ensures
            final(store).wf(),
            match r {
                Ok(n) => {
                    &&& process_checkpoint_spec(checkpoint@, self.package_id()) matches Ok(vs)
                    &&& final(store)@ == apply_batch_spec(old(store)@, vs)
                    &&& n == vs.len()
                },
                Err(pe) => {
                    &&& process_checkpoint_spec(checkpoint@, self.package_id())
                        == Err::<Seq<OfferValueModel>, ProcessError>(pe)
                    &&& final(store)@ == old(store)@
                },
            },
    {
        let values = match self.process(checkpoint) {
            Ok(v) => v,
            Err(pe) => {
                return Err(pe);
            },
        };
        let value_slice = values.as_slice();
        proof {
            lemma_extract_checkpoint_len(checkpoint@.transactions, self.package_id(),
                checkpoint@.timestamp_ms as i64);
            assert(value_slice.deep_view() =~= values.deep_view());
        }
        Ok(Self::commit(value_slice, store))
    }

    /// The id of the most recent offer row for the cancelled event's domain
    /// and buyer, if any.
    pub fn get_latest_offer_id(store: &OfferStore, offer_cancelled: &OfferCancelledEvent, domain_name: &String) -> (r: Option<i32>)
        requires
            store.wf(),
        ensures
            match r {
                Some(id) => {
                    &&& best_match(store@, domain_name@, address_display(offer_cancelled.address@))
                        matches Some(i)
                    &&& store@[i].id == Some(id)
                },
                None => best_match(store@, domain_name@, address_display(offer_cancelled.address@)) is None,
            },
    {
        let buyer = offer_cancelled.address.to_hex_string();
        match store.latest_offer_index(domain_name.as_str(), buyer.as_str()) {
            None => None,
            Some(i) => store.get(i).id,
        }
    }
}

/// The monetary value carried by an event.
fn event_value_exec(e: &OfferEvent) -> (r: u64)
    ensures
        r == event_value(e@),
{
    match e {
        OfferEvent::Placed(t) => t.value,
        OfferEvent::Cancelled(t) => t.value,
        OfferEvent::Accepted(t) => t.value,
        OfferEvent::Declined(t) => t.value,
        OfferEvent::MakeCounterOffer(t) => t.value,
        OfferEvent::AcceptCounterOffer(t) => t.value,
    }
}

} // verus!
