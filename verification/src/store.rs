//! The offer store: the table of materialized offer rows, owned exclusively
//! by the reconciler, with the "most recent matching row" lookup.
//!
//! Rows are never deleted. Each row gets a surrogate id equal to its
//! position plus one, so ids are unique and increase in insertion order;
//! the lookup breaks timestamp ties by the larger id.

use vstd::prelude::*;
use crate::models::{Offer, OfferModel, UpdateOffer, updated_offer};
use crate::text;

verus! {

/// A row's surrogate id as a number; rows of a well-formed store always
/// carry one.
pub open spec fn id_num(row: OfferModel) -> int {
    match row.id {
        Some(i) => i as int,
        None => 0,
    }
}

/// Whether a row belongs to the negotiation keyed by `domain` and `buyer`.
pub open spec fn offer_matches(row: OfferModel, domain: Seq<char>, buyer: Seq<char>) -> bool {
    row.domain_name == domain && row.buyer == buyer
}

/// Recency order on rows: later update time wins, and on equal times the
/// larger id.
pub open spec fn newer_row(a: OfferModel, b: OfferModel) -> bool {
    a.updated_at > b.updated_at || (a.updated_at == b.updated_at && id_num(a) > id_num(b))
}

/// No two rows share an id.
pub open spec fn distinct_ids(rows: Seq<OfferModel>) -> bool {
    forall|i: int, j: int| 0 <= i < j < rows.len() ==> id_num(rows[i]) != id_num(rows[j])
}

/// The index of the most recent row matching `domain` and `buyer`: the
/// matching row that is `newer_row` than every other matching row.
pub open spec fn best_match(rows: Seq<OfferModel>, domain: Seq<char>, buyer: Seq<char>) -> Option<int>
    decreases rows.len(),
{
    if rows.len() == 0 {
        None
    } else {
        let i = rows.len() - 1;
        let prev = best_match(rows.drop_last(), domain, buyer);
        if offer_matches(rows[i], domain, buyer) {
            match prev {
                None => Some(i),
                Some(j) => if newer_row(rows[i], rows[j]) { Some(i) } else { Some(j) },
            }
        } else {
            prev
        }
    }
}

/// What the lookup returns: the unique most recent matching row, or nothing
/// exactly when no row matches.
pub proof fn lemma_best_match_characterization(rows: Seq<OfferModel>, domain: Seq<char>, buyer: Seq<char>)
    requires
        distinct_ids(rows),
    ensures
        match best_match(rows, domain, buyer) {
            Some(i) => {
                &&& 0 <= i < rows.len()
                &&& offer_matches(rows[i], domain, buyer)
                &&& forall|j: int|
                    0 <= j < rows.len() && j != i && offer_matches(#[trigger] rows[j], domain, buyer)
                        ==> newer_row(rows[i], rows[j])
            },
            None => forall|j: int|
                0 <= j < rows.len() ==> !offer_matches(#[trigger] rows[j], domain, buyer),
        },
    decreases rows.len(),
{
    if rows.len() > 0 {
        let pre = rows.drop_last();
        assert(distinct_ids(pre)) by {
            assert(forall|i: int| 0 <= i < pre.len() ==> pre[i] == rows[i]);
        }
        lemma_best_match_characterization(pre, domain, buyer);
        assert(forall|i: int| 0 <= i < pre.len() ==> pre[i] == rows[i]);
        let i = rows.len() - 1;
        if offer_matches(rows[i], domain, buyer) {
            match best_match(pre, domain, buyer) {
                None => {},
                Some(j) => {
                    assert(id_num(rows[i]) != id_num(rows[j]));
                },
            }
        }
    }
}

/// The persisted table of offer rows.
#[derive(Debug, Clone)]
pub struct OfferStore {
    rows: Vec<Offer>,
}

impl View for OfferStore {
    type V = Seq<OfferModel>;

    closed spec fn view(&self) -> Seq<OfferModel> {
        self.rows.deep_view()
    }
}

impl OfferStore {
    /// Every row carries the id of its position, so ids are unique and grow
    /// with insertion order.
    pub open spec fn wf(&self) -> bool {
        &&& self@.len() <= i32::MAX
        &&& forall|i: int| 0 <= i < self@.len() ==> (#[trigger] self@[i].id) == Some((i + 1) as i32)
    }

    /// A well-formed store has pairwise distinct row ids.
    pub proof fn lemma_wf_distinct_ids(&self)
        requires
            self.wf(),
        ensures
            distinct_ids(self@),
    {
    }

    /// An empty store.
    pub fn new() -> (r: OfferStore)
        ensures
            r@ =~= Seq::<OfferModel>::empty(),
            r.wf(),
    {
        OfferStore { rows: Vec::new() }
    }

    /// Number of rows.
    pub fn len(&self) -> (r: usize)
        ensures
            r == self@.len(),
    {
        self.rows.len()
    }

    /// The row at position `i`.
    pub fn get(&self, i: usize) -> (r: &Offer)
        requires
            i < self@.len(),
        ensures
            r@ == self@[i as int],
    {
        &self.rows[i]
    }

    /// Appends a new row, assigning it the next id; the id on the given row
    /// is ignored.
    pub fn insert(&mut self, row: Offer)
        requires
            old(self).wf(),
            old(self)@.len() < i32::MAX,
        ensures
            final(self).wf(),
            final(self)@ =~= old(self)@.push(OfferModel {
                id: Some((old(self)@.len() + 1) as i32),
                ..row@
            }),
    {
        let mut row = row;
        let next_id = self.rows.len() as i32 + 1;
        row.id = Some(next_id);
        self.rows.push(row);
        proof {
            assert(self.rows.deep_view() =~= old(self).rows.deep_view().push(row@));
        }
    }

    /// Overwrites the updatable fields of the row at position `i`.
    pub fn update_at(&mut self, i: usize, update: UpdateOffer)
        requires
            old(self).wf(),
            i < old(self)@.len(),
        ensures
            final(self).wf(),
            final(self)@ =~= old(self)@.update(i as int, updated_offer(old(self)@[i as int], update@)),
    {
        let row = &self.rows[i];
        let new_row = Offer {
            id: row.id,
            domain_name: row.domain_name.clone(),
            buyer: row.buyer.clone(),
            initial_value: row.initial_value.clone(),
            value: update.value,
            owner: match update.owner {
                Some(o) => o,
                None => row.owner.clone(),
            },
            status: update.status,
            updated_at: update.updated_at,
            created_at: row.created_at,
            last_tx_digest: update.last_tx_digest,
        };
        self.rows.set(i, new_row);
        proof {
            assert(self.rows.deep_view() =~= old(self).rows.deep_view().update(
                i as int,
                updated_offer(old(self)@[i as int], update@),
            ));
        }
    }

    /// Finds the position of the most recent row for `domain_name` and
    /// `buyer`: latest `updated_at`, ties broken by the larger id.
    pub fn latest_offer_index(&self, domain_name: &str, buyer: &str) -> (r: Option<usize>)
        requires
            self.wf(),
        ensures
            match r {
                Some(i) => best_match(self@, domain_name@, buyer@) == Some(i as int)
                    && i < self@.len(),
                None => best_match(self@, domain_name@, buyer@) is None,
            },
    {
        let n = self.rows.len();
        let mut best: Option<usize> = None;
        let mut k: usize = 0;
        while k < n
            invariant
                0 <= k <= n,
                n == self@.len(),
                self.wf(),
                match best {
                    Some(i) => best_match(self@.take(k as int), domain_name@, buyer@) == Some(i as int) && i < k,
                    None => best_match(self@.take(k as int), domain_name@, buyer@) is None,
                },
            decreases n - k,
        {
            proof {
                assert(self@.take(k + 1).drop_last() =~= self@.take(k as int));
                assert(self@.take(k + 1).last() == self@[k as int]);
            }
            let row = &self.rows[k];
            let matches = text::str_eq(row.domain_name.as_str(), domain_name)
                && text::str_eq(row.buyer.as_str(), buyer);
            if matches {
                best = match best {
                    None => Some(k),
                    Some(i) => {
                        let prev = &self.rows[i];
                        if row.updated_at > prev.updated_at
                            || (row.updated_at == prev.updated_at && k > i) {
                            proof {
                                assert(newer_row(self@[k as int], self@[i as int]));
                            }
                            Some(k)
                        } else {
                            proof {
                                assert(!newer_row(self@[k as int], self@[i as int]));
                            }
                            Some(i)
                        }
                    },
                };
            }
            k = k + 1;
        }
        proof {
            assert(self@.take(n as int) =~= self@);
        }
        best
    }
}

} // verus!
