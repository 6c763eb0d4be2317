//! Laws of the reconciler, stated and proved over the mathematical model:
//! what a placed event creates, how a full negotiation ends, that orphan and
//! repeated cancellations are harmless, and that negotiations of different
//! keys never interfere.

use vstd::prelude::*;
use crate::address::address_display;
use crate::events::{utf8_lossy_of, OfferEventModel};
use crate::handlers::offers_handler::{apply_batch_spec, apply_event_outcome, apply_event_spec,
    event_buyer_addr, event_domain, event_update, event_value, placed_row, ApplyOutcome,
    OfferValueModel};
use crate::models::{is_terminal_status, OfferModel, OfferStatus, updated_offer};
use crate::store::{best_match, distinct_ids, id_num, newer_row, offer_matches};
use crate::text::dec_of;

verus! {

/// The domain-name string under which an event's row is keyed.
pub open spec fn event_key_domain(v: OfferValueModel) -> Seq<char> {
    utf8_lossy_of(event_domain(v.event))
}

/// The buyer string under which an event's row is keyed.
pub open spec fn event_key_buyer(v: OfferValueModel) -> Seq<char> {
    address_display(event_buyer_addr(v.event))
}

/// When no row matches, the lookup finds nothing.
pub proof fn lemma_best_match_none(rows: Seq<OfferModel>, d: Seq<char>, b: Seq<char>)
    requires
        forall|j: int| 0 <= j < rows.len() ==> !offer_matches(#[trigger] rows[j], d, b),
    ensures
        best_match(rows, d, b) is None,
    decreases rows.len(),
{
    if rows.len() > 0 {
        let pre = rows.drop_last();
        assert(forall|j: int| 0 <= j < pre.len() ==> pre[j] == rows[j]);
        lemma_best_match_none(pre, d, b);
    }
}

/// When exactly one row matches, the lookup finds exactly that row.
pub proof fn lemma_best_match_unique(rows: Seq<OfferModel>, d: Seq<char>, b: Seq<char>, i: int)
    requires
        0 <= i < rows.len(),
        offer_matches(rows[i], d, b),
        forall|j: int| 0 <= j < rows.len() && j != i ==> !offer_matches(#[trigger] rows[j], d, b),
    ensures
        best_match(rows, d, b) == Some(i),
    decreases rows.len(),
{
    let pre = rows.drop_last();
    assert(forall|j: int| 0 <= j < pre.len() ==> pre[j] == rows[j]);
    if i == rows.len() - 1 {
        lemma_best_match_none(pre, d, b);
    } else {
        lemma_best_match_unique(pre, d, b, i);
    }
}

/// A found row lies in the table and matches; nothing is found only when
/// nothing matches.
pub proof fn lemma_best_match_some_matches(rows: Seq<OfferModel>, d: Seq<char>, b: Seq<char>)
    ensures
        match best_match(rows, d, b) {
            Some(i) => 0 <= i < rows.len() && offer_matches(rows[i], d, b),
            None => forall|j: int| 0 <= j < rows.len() ==> !offer_matches(#[trigger] rows[j], d, b),
        },
    decreases rows.len(),
{
    if rows.len() > 0 {
        let pre = rows.drop_last();
        assert(forall|j: int| 0 <= j < pre.len() ==> pre[j] == rows[j]);
        lemma_best_match_some_matches(pre, d, b);
    }
}

/// A placed event always appends exactly one fresh row, in the `Placed`
/// status, with the initial and current value both set to the event's
/// value and no owner yet.
pub proof fn lemma_placed_creates_row(rows: Seq<OfferModel>, v: OfferValueModel)
    requires
        v.event is Placed,
    ensures
        apply_event_spec(rows, v) == rows.push(placed_row(rows, v.event, v.created_at, v.tx_digest)),
        apply_event_spec(rows, v).len() == rows.len() + 1,
        apply_event_spec(rows, v).last().status == OfferStatus::Placed,
        apply_event_spec(rows, v).last().initial_value == dec_of(event_value(v.event) as nat),
        apply_event_spec(rows, v).last().value == dec_of(event_value(v.event) as nat),
        apply_event_spec(rows, v).last().owner is None,
        apply_event_spec(rows, v).last().domain_name == event_key_domain(v),
        apply_event_spec(rows, v).last().buyer == event_key_buyer(v),
        apply_event_outcome(rows, v) == ApplyOutcome::Inserted,
{
}

/// A cancellation whose domain and buyer have no row at all changes nothing
/// and only reports the missing row.
pub proof fn lemma_cancelled_without_offer_is_noop(rows: Seq<OfferModel>, v: OfferValueModel)
    requires
        v.event is Cancelled,
        forall|j: int|
            0 <= j < rows.len() ==> !offer_matches(#[trigger] rows[j], event_key_domain(v),
                event_key_buyer(v)),
    ensures
        apply_event_spec(rows, v) == rows,
        apply_event_outcome(rows, v) == ApplyOutcome::NoMatchingOffer,
{
    lemma_best_match_none(rows, event_key_domain(v), event_key_buyer(v));
}

/// A full negotiation on a fresh key: placing an offer, countering it and
/// accepting the counter leaves exactly one new row, in the
/// `AcceptedCountered` status, whose initial value is the placed value,
/// whose current value is the accepted value, and whose owner is the one
/// the counter-offer revealed.
pub proof fn lemma_negotiation_reaches_accepted_counter(
    rows: Seq<OfferModel>,
    placed: OfferValueModel,
    counter: OfferValueModel,
    accept: OfferValueModel,
)
    requires
        placed.event is Placed,
        counter.event is MakeCounterOffer,
        accept.event is AcceptCounterOffer,
        event_key_domain(counter) == event_key_domain(placed),
        event_key_buyer(counter) == event_key_buyer(placed),
        event_key_domain(accept) == event_key_domain(placed),
        event_key_buyer(accept) == event_key_buyer(placed),
        forall|j: int|
            0 <= j < rows.len() ==> !offer_matches(#[trigger] rows[j], event_key_domain(placed),
                event_key_buyer(placed)),
    ensures
        apply_event_spec(apply_event_spec(apply_event_spec(rows, placed), counter), accept)
            == rows.push((OfferModel {
            id: Some((rows.len() + 1) as i32),
            domain_name: event_key_domain(placed),
            buyer: event_key_buyer(placed),
            initial_value: dec_of(event_value(placed.event) as nat),
            value: dec_of(event_value(accept.event) as nat),
            owner: Some(address_display(counter.event->MakeCounterOffer_0.owner)),
            status: OfferStatus::AcceptedCountered,
            updated_at: accept.created_at,
            created_at: placed.created_at,
            last_tx_digest: accept.tx_digest,
        })),
{
    let d = event_key_domain(placed);
    let b = event_key_buyer(placed);
    let n = rows.len() as int;
    let r0 = placed_row(rows, placed.event, placed.created_at, placed.tx_digest);
    let rows1 = apply_event_spec(rows, placed);
    assert(rows1 == rows.push(r0));
    assert(offer_matches(rows1[n], d, b));
    assert(forall|j: int| 0 <= j < n ==> rows1[j] == rows[j]);
    lemma_best_match_unique(rows1, d, b, n);
    let r1 = updated_offer(r0, event_update(counter.event, counter.created_at, counter.tx_digest));
    let rows2 = apply_event_spec(rows1, counter);
    assert(rows2 == rows1.update(n, r1));
    assert(rows2 =~= rows.push(r1));
    assert(offer_matches(rows2[n], d, b));
    assert(forall|j: int| 0 <= j < n ==> rows2[j] == rows[j]);
    lemma_best_match_unique(rows2, d, b, n);
    let r2 = updated_offer(r1, event_update(accept.event, accept.created_at, accept.tx_digest));
    let rows3 = apply_event_spec(rows2, accept);
    assert(rows3 == rows2.update(n, r2));
    assert(rows3 =~= rows.push(r2));
}

/// Re-applying a cancellation that was already applied is harmless: the
/// second application changes nothing and reports the row as settled.
///
/// The hypothesis on `updated_at` reflects the ordered event stream: a
/// cancellation arrives no earlier than the last update of any row of its
/// key.
pub proof fn lemma_cancelled_reapply_noop(rows: Seq<OfferModel>, v: OfferValueModel)
    requires
        v.event is Cancelled,
        distinct_ids(rows),
        forall|j: int|
            0 <= j < rows.len() && offer_matches(#[trigger] rows[j], event_key_domain(v),
                event_key_buyer(v)) ==> rows[j].updated_at <= v.created_at,
    ensures
        apply_event_spec(apply_event_spec(rows, v), v) == apply_event_spec(rows, v),
        apply_event_outcome(apply_event_spec(rows, v), v) == ApplyOutcome::AlreadyTerminal
            || apply_event_outcome(apply_event_spec(rows, v), v) == ApplyOutcome::NoMatchingOffer,
{
    let d = event_key_domain(v);
    let b = event_key_buyer(v);
    crate::store::lemma_best_match_characterization(rows, d, b);
    match best_match(rows, d, b) {
        None => {},
        Some(i) => {
            if is_terminal_status(rows[i].status) {
                assert(apply_event_spec(rows, v) == rows);
            } else {
                let r1 = updated_offer(rows[i], event_update(v.event, v.created_at, v.tx_digest));
                let rows1 = apply_event_spec(rows, v);
                assert(rows1 == rows.update(i, r1));
                assert(forall|j: int| 0 <= j < rows.len() && j != i ==> rows1[j] == rows[j]);
                assert(distinct_ids(rows1)) by {
                    assert(forall|j: int| 0 <= j < rows1.len() ==> id_num(#[trigger] rows1[j])
                        == id_num(rows[j]));
                }
                crate::store::lemma_best_match_characterization(rows1, d, b);
                match best_match(rows1, d, b) {
                    None => {
                        assert(offer_matches(rows1[i], d, b));
                        assert(false);
                    },
                    Some(k) => {
                        if k != i {
                            assert(newer_row(rows1[k], rows1[i]));
                            assert(offer_matches(rows[k], d, b));
                            assert(newer_row(rows[i], rows[k]));
                            assert(rows[k].updated_at <= v.created_at);
                            assert(false);
                        }
                        assert(is_terminal_status(rows1[k].status));
                    },
                }
            }
        },
    }
}

/// The rows of one negotiation, in table order.
pub open spec fn key_rows(rows: Seq<OfferModel>, d: Seq<char>, b: Seq<char>) -> Seq<OfferModel>
    decreases rows.len(),
{
    if rows.len() == 0 {
        Seq::empty()
    } else {
        let pre = key_rows(rows.drop_last(), d, b);
        if offer_matches(rows.last(), d, b) {
            pre.push(rows.last())
        } else {
            pre
        }
    }
}

/// Replacing a row of some other key by a row of some other key leaves a
/// negotiation's rows untouched.
proof fn lemma_key_rows_update_nonmatch(
    rows: Seq<OfferModel>,
    i: int,
    r2: OfferModel,
    d: Seq<char>,
    b: Seq<char>,
)
    requires
        0 <= i < rows.len(),
        !offer_matches(rows[i], d, b),
        !offer_matches(r2, d, b),
    ensures
        key_rows(rows.update(i, r2), d, b) == key_rows(rows, d, b),
    decreases rows.len(),
{
    let u = rows.update(i, r2);
    let l = rows.len() - 1;
    if i == l {
        assert(u.drop_last() =~= rows.drop_last());
        assert(u.last() == r2);
    } else {
        assert(u.drop_last() =~= rows.drop_last().update(i, r2));
        assert(u.last() == rows.last());
        lemma_key_rows_update_nonmatch(rows.drop_last(), i, r2, d, b);
    }
}

/// An event keyed to some other domain or buyer leaves a negotiation's rows
/// exactly as they were.
pub proof fn lemma_apply_event_other_key(
    rows: Seq<OfferModel>,
    v: OfferValueModel,
    d: Seq<char>,
    b: Seq<char>,
)
    requires
        !(event_key_domain(v) == d && event_key_buyer(v) == b),
    ensures
        key_rows(apply_event_spec(rows, v), d, b) == key_rows(rows, d, b),
{
    let kd = event_key_domain(v);
    let kb = event_key_buyer(v);
    match v.event {
        OfferEventModel::Placed(_) => {
            let r0 = placed_row(rows, v.event, v.created_at, v.tx_digest);
            let rows1 = rows.push(r0);
            assert(rows1.drop_last() =~= rows);
            assert(rows1.last() == r0);
            assert(!offer_matches(r0, d, b));
        },
        _ => {
            lemma_best_match_some_matches(rows, kd, kb);
            match best_match(rows, kd, kb) {
                None => {},
                Some(i) => {
                    if !is_terminal_status(rows[i].status) {
                        let r1 = updated_offer(rows[i], event_update(v.event, v.created_at,
                            v.tx_digest));
                        assert(!offer_matches(rows[i], d, b));
                        assert(!offer_matches(r1, d, b));
                        lemma_key_rows_update_nonmatch(rows, i, r1, d, b);
                    }
                },
            }
        },
    }
}

/// The lookup sees only the rows of its own key: it picks the same row in
/// the full table and in the table filtered to that key.
proof fn lemma_best_match_filtered(rows: Seq<OfferModel>, d: Seq<char>, b: Seq<char>)
    ensures
        match best_match(rows, d, b) {
            None => best_match(key_rows(rows, d, b), d, b) is None,
            Some(i) => {
                &&& 0 <= i < rows.len()
                &&& key_rows(rows.take(i), d, b).len() < key_rows(rows, d, b).len()
                &&& best_match(key_rows(rows, d, b), d, b) == Some(
                    key_rows(rows.take(i), d, b).len() as int)
                &&& key_rows(rows, d, b)[key_rows(rows.take(i), d, b).len() as int] == rows[i]
            },
        },
    decreases rows.len(),
{
    if rows.len() > 0 {
        let pre = rows.drop_last();
        let last = rows.last();
        let kr = key_rows(rows, d, b);
        let krp = key_rows(pre, d, b);
        lemma_best_match_filtered(pre, d, b);
        assert(forall|j: int| 0 <= j < pre.len() ==> pre[j] == rows[j]);
        assert(forall|j: int| 0 <= j <= pre.len() ==> rows.take(j) =~= pre.take(j));
        assert(pre.take(pre.len() as int) =~= pre);
        if offer_matches(last, d, b) {
            assert(kr == krp.push(last));
            assert(kr.drop_last() =~= krp);
            assert(kr.last() == last);
            match best_match(pre, d, b) {
                None => {
                    assert(best_match(rows, d, b) == Some(rows.len() - 1));
                },
                Some(j) => {
                    let fj = key_rows(pre.take(j), d, b).len() as int;
                    assert(kr[fj] == krp[fj]);
                    if newer_row(last, rows[j]) {
                        assert(best_match(rows, d, b) == Some(rows.len() - 1));
                        assert(best_match(kr, d, b) == Some(krp.len() as int));
                    } else {
                        assert(best_match(rows, d, b) == Some(j));
                        assert(best_match(kr, d, b) == Some(fj));
                    }
                },
            }
        } else {
            assert(kr == krp);
            assert(best_match(rows, d, b) == best_match(pre, d, b));
        }
    }
}

/// Replacing a row of a key by a row of the same key replaces exactly its
/// entry in that key's rows.
proof fn lemma_key_rows_update_match(
    rows: Seq<OfferModel>,
    i: int,
    r2: OfferModel,
    d: Seq<char>,
    b: Seq<char>,
)
    requires
        0 <= i < rows.len(),
        offer_matches(rows[i], d, b),
        offer_matches(r2, d, b),
    ensures
        key_rows(rows.take(i), d, b).len() < key_rows(rows, d, b).len(),
        key_rows(rows.update(i, r2), d, b) == key_rows(rows, d, b).update(
            key_rows(rows.take(i), d, b).len() as int, r2),
    decreases rows.len(),
{
    let u = rows.update(i, r2);
    let pre = rows.drop_last();
    let l = rows.len() - 1;
    let kr = key_rows(rows, d, b);
    let krp = key_rows(pre, d, b);
    if i == l {
        assert(rows.take(i) =~= pre);
        assert(u.drop_last() =~= pre);
        assert(u.last() == r2);
        assert(key_rows(u, d, b) == krp.push(r2));
        assert(kr == krp.push(rows[l]));
        assert(krp.push(rows[l]).update(krp.len() as int, r2) =~= krp.push(r2));
    } else {
        assert(forall|j: int| 0 <= j < pre.len() ==> pre[j] == rows[j]);
        assert(rows.take(i) =~= pre.take(i));
        lemma_key_rows_update_match(pre, i, r2, d, b);
        let fi = key_rows(pre.take(i), d, b).len() as int;
        assert(u.drop_last() =~= pre.update(i, r2));
        assert(u.last() == rows.last());
        if offer_matches(rows.last(), d, b) {
            assert(key_rows(u, d, b) == krp.update(fi, r2).push(rows.last()));
            assert(kr == krp.push(rows.last()));
            assert(krp.update(fi, r2).push(rows.last()) =~= krp.push(rows.last()).update(fi, r2));
        } else {
            assert(key_rows(u, d, b) == krp.update(fi, r2));
            assert(kr == krp);
        }
    }
}

/// How one event moves the rows of its own key: a placed event appends a
/// fresh row under the id it is given; any other event rewrites the most
/// recent of these rows unless it is missing or terminal.
pub open spec fn apply_key_event(
    state: Seq<OfferModel>,
    v: OfferValueModel,
    new_id: i32,
) -> Seq<OfferModel> {
    match v.event {
        OfferEventModel::Placed(_) => state.push(OfferModel {
            id: Some(new_id),
            domain_name: event_key_domain(v),
            buyer: event_key_buyer(v),
            initial_value: dec_of(event_value(v.event) as nat),
            value: dec_of(event_value(v.event) as nat),
            owner: None,
            status: OfferStatus::Placed,
            updated_at: v.created_at,
            created_at: v.created_at,
            last_tx_digest: v.tx_digest,
        }),
        _ => {
            match best_match(state, event_key_domain(v), event_key_buyer(v)) {
                None => state,
                Some(i) => if is_terminal_status(state[i].status) {
                    state
                } else {
                    state.update(i, updated_offer(state[i], event_update(v.event, v.created_at,
                        v.tx_digest)))
                },
            }
        },
    }
}

/// An event moves the rows of its own key by `apply_key_event`, reading
/// nothing from the rest of the table but the id handed to a new row.
pub proof fn lemma_apply_event_own_key(rows: Seq<OfferModel>, v: OfferValueModel)
    ensures
        key_rows(apply_event_spec(rows, v), event_key_domain(v), event_key_buyer(v))
            == apply_key_event(key_rows(rows, event_key_domain(v), event_key_buyer(v)), v,
            (rows.len() + 1) as i32),
{
    let d = event_key_domain(v);
    let b = event_key_buyer(v);
    let kr = key_rows(rows, d, b);
    match v.event {
        OfferEventModel::Placed(_) => {
            let r0 = placed_row(rows, v.event, v.created_at, v.tx_digest);
            let rows1 = rows.push(r0);
            assert(rows1.drop_last() =~= rows);
            assert(rows1.last() == r0);
            assert(offer_matches(r0, d, b));
            assert(key_rows(rows1, d, b) == kr.push(r0));
        },
        _ => {
            lemma_best_match_filtered(rows, d, b);
            lemma_best_match_some_matches(rows, d, b);
            match best_match(rows, d, b) {
                None => {},
                Some(i) => {
                    let fi = key_rows(rows.take(i), d, b).len() as int;
                    assert(kr[fi] == rows[i]);
                    if !is_terminal_status(rows[i].status) {
                        let r1 = updated_offer(rows[i], event_update(v.event, v.created_at,
                            v.tx_digest));
                        assert(offer_matches(r1, d, b));
                        lemma_key_rows_update_match(rows, i, r1, d, b);
                    }
                },
            }
        },
    }
}

/// The number of placed events in a batch: each one grows the table by a
/// row, so the ids handed out later in the batch depend on it.
pub open spec fn placed_count(vs: Seq<OfferValueModel>) -> nat
    decreases vs.len(),
{
    if vs.len() == 0 {
        0
    } else {
        placed_count(vs.drop_last()) + (if vs.last().event is Placed { 1nat } else { 0 })
    }
}

/// One event grows the table exactly when it is a placed event.
pub proof fn lemma_apply_event_len(rows: Seq<OfferModel>, v: OfferValueModel)
    ensures
        apply_event_spec(rows, v).len() == rows.len() + (if v.event is Placed { 1int } else { 0 }),
{
    match v.event {
        OfferEventModel::Placed(_) => {},
        _ => {
            let d = event_key_domain(v);
            let b = event_key_buyer(v);
            lemma_best_match_some_matches(rows, d, b);
            match best_match(rows, d, b) {
                None => {},
                Some(i) => {
                    assert(rows.update(i, updated_offer(rows[i], event_update(v.event,
                        v.created_at, v.tx_digest))).len() == rows.len());
                },
            }
        },
    }
}

/// A batch grows the table by one row per placed event.
pub proof fn lemma_apply_batch_len(rows: Seq<OfferModel>, vs: Seq<OfferValueModel>)
    ensures
        apply_batch_spec(rows, vs).len() == rows.len() + placed_count(vs),
    decreases vs.len(),
{
    if vs.len() > 0 {
        lemma_apply_batch_len(rows, vs.drop_last());
        lemma_apply_event_len(apply_batch_spec(rows, vs.drop_last()), vs.last());
    }
}

/// How a whole batch moves the rows of one key, reading nothing from the
/// rest of the table: events of other keys leave them alone, and events of
/// this key act on these rows only, with ids fixed by the count of placed
/// events before them.
pub open spec fn apply_key_batch(
    state: Seq<OfferModel>,
    vs: Seq<OfferValueModel>,
    d: Seq<char>,
    b: Seq<char>,
    base_len: int,
) -> Seq<OfferModel>
    decreases vs.len(),
{
    if vs.len() == 0 {
        state
    } else {
        let pre = apply_key_batch(state, vs.drop_last(), d, b, base_len);
        let v = vs.last();
        if event_key_domain(v) == d && event_key_buyer(v) == b {
            apply_key_event(pre, v, (base_len + placed_count(vs.drop_last()) + 1) as i32)
        } else {
            pre
        }
    }
}

/// Each negotiation's state machine evolves independently: after any batch,
/// the rows of a key are a function of that key's prior rows and the batch
/// alone — its own events drive them, events of other keys never touch
/// them, and the rest of the table enters only through the number of rows
/// it adds.
pub proof fn lemma_apply_batch_by_key(
    rows: Seq<OfferModel>,
    vs: Seq<OfferValueModel>,
    d: Seq<char>,
    b: Seq<char>,
)
    ensures
        key_rows(apply_batch_spec(rows, vs), d, b) == apply_key_batch(key_rows(rows, d, b), vs, d,
            b, rows.len() as int),
    decreases vs.len(),
{
    if vs.len() > 0 {
        let pre_rows = apply_batch_spec(rows, vs.drop_last());
        let v = vs.last();
        lemma_apply_batch_by_key(rows, vs.drop_last(), d, b);
        lemma_apply_batch_len(rows, vs.drop_last());
        if event_key_domain(v) == d && event_key_buyer(v) == b {
            lemma_apply_event_own_key(pre_rows, v);
        } else {
            lemma_apply_event_other_key(pre_rows, v, d, b);
        }
    }
}

/// Negotiations never interfere: a whole batch of events, none of them
/// keyed to a given domain and buyer, leaves that negotiation's rows
/// exactly as they were, whatever it does to the rest of the table.
pub proof fn lemma_apply_batch_other_keys(
    rows: Seq<OfferModel>,
    vs: Seq<OfferValueModel>,
    d: Seq<char>,
    b: Seq<char>,
)
    requires
        forall|k: int|
            0 <= k < vs.len() ==> !(event_key_domain(#[trigger] vs[k]) == d
                && event_key_buyer(vs[k]) == b),
    ensures
        key_rows(apply_batch_spec(rows, vs), d, b) == key_rows(rows, d, b),
    decreases vs.len(),
{
    if vs.len() > 0 {
        let pre = vs.drop_last();
        assert(forall|k: int| 0 <= k < pre.len() ==> pre[k] == vs[k]);
        lemma_apply_batch_other_keys(rows, pre, d, b);
        lemma_apply_event_other_key(apply_batch_spec(rows, pre), vs.last(), d, b);
    }
}

} // verus!
