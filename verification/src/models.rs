//! Persisted records: one row type per captured event stream, and the
//! materialized `Offer` row with its status machine.
//!
//! Monetary values are stored as decimal strings, addresses as `0x`-prefixed
//! hexadecimal strings, and timestamps as milliseconds since the epoch.

use vstd::prelude::*;
use crate::text;

verus! {

/// A captured offer-placed record.
#[derive(Debug, Clone)]
pub struct OfferPlaced {
    pub domain_name: String,
    pub address: String,
    pub value: String,
    pub created_at: i64,
    pub tx_digest: String,
}

/// A captured offer-cancelled record.
#[derive(Debug, Clone)]
pub struct OfferCancelled {
    pub domain_name: String,
    pub address: String,
    pub value: String,
    pub created_at: i64,
    pub tx_digest: String,
}

/// A captured offer-accepted record.
#[derive(Debug, Clone)]
pub struct OfferAccepted {
    pub domain_name: String,
    pub address: String,
    pub owner: String,
    pub value: String,
    pub created_at: i64,
    pub tx_digest: String,
}

/// A captured offer-declined record.
#[derive(Debug, Clone)]
pub struct OfferDeclined {
    pub domain_name: String,
    pub address: String,
    pub owner: String,
    pub value: String,
    pub created_at: i64,
    pub tx_digest: String,
}

/// A captured counter-offer record.
#[derive(Debug, Clone)]
pub struct MakeCounterOffer {
    pub domain_name: String,
    pub address: String,
    pub owner: String,
    pub value: String,
    pub created_at: i64,
    pub tx_digest: String,
}

/// A captured counter-offer-accepted record.
#[derive(Debug, Clone)]
pub struct AcceptCounterOffer {
    pub domain_name: String,
    pub address: String,
    pub value: String,
    pub created_at: i64,
    pub tx_digest: String,
}

/// Mathematical form of a captured record with one address.
pub struct AddrRecordModel {
    pub domain_name: Seq<char>,
    pub address: Seq<char>,
    pub value: Seq<char>,
    pub created_at: i64,
    pub tx_digest: Seq<char>,
}

/// Mathematical form of a captured record that also names the owner.
pub struct OwnerRecordModel {
    pub domain_name: Seq<char>,
    pub address: Seq<char>,
    pub owner: Seq<char>,
    pub value: Seq<char>,
    pub created_at: i64,
    pub tx_digest: Seq<char>,
}

impl View for OfferPlaced {
    type V = AddrRecordModel;

    open spec fn view(&self) -> AddrRecordModel {
        AddrRecordModel {
            domain_name: self.domain_name@,
            address: self.address@,
            value: self.value@,
            created_at: self.created_at,
            tx_digest: self.tx_digest@,
        }
    }
}

impl DeepView for OfferPlaced {
    type V = AddrRecordModel;

    open spec fn deep_view(&self) -> AddrRecordModel {
        self.view()
    }
}

impl View for OfferCancelled {
    type V = AddrRecordModel;

    open spec fn view(&self) -> AddrRecordModel {
        AddrRecordModel {
            domain_name: self.domain_name@,
            address: self.address@,
            value: self.value@,
            created_at: self.created_at,
            tx_digest: self.tx_digest@,
        }
    }
}

impl DeepView for OfferCancelled {
    type V = AddrRecordModel;

    open spec fn deep_view(&self) -> AddrRecordModel {
        self.view()
    }
}

impl View for OfferAccepted {
    type V = OwnerRecordModel;

    open spec fn view(&self) -> OwnerRecordModel {
        OwnerRecordModel {
            domain_name: self.domain_name@,
            address: self.address@,
            owner: self.owner@,
            value: self.value@,
            created_at: self.created_at,
            tx_digest: self.tx_digest@,
        }
    }
}

impl DeepView for OfferAccepted {
    type V = OwnerRecordModel;

    open spec fn deep_view(&self) -> OwnerRecordModel {
        self.view()
    }
}

impl View for OfferDeclined {
    type V = OwnerRecordModel;

    open spec fn view(&self) -> OwnerRecordModel {
        OwnerRecordModel {
            domain_name: self.domain_name@,
            address: self.address@,
            owner: self.owner@,
            value: self.value@,
            created_at: self.created_at,
            tx_digest: self.tx_digest@,
        }
    }
}

impl DeepView for OfferDeclined {
    type V = OwnerRecordModel;

    open spec fn deep_view(&self) -> OwnerRecordModel {
        self.view()
    }
}

impl View for MakeCounterOffer {
    type V = OwnerRecordModel;

    open spec fn view(&self) -> OwnerRecordModel {
        OwnerRecordModel {
            domain_name: self.domain_name@,
            address: self.address@,
            owner: self.owner@,
            value: self.value@,
            created_at: self.created_at,
            tx_digest: self.tx_digest@,
        }
    }
}

impl DeepView for MakeCounterOffer {
    type V = OwnerRecordModel;

    open spec fn deep_view(&self) -> OwnerRecordModel {
        self.view()
    }
}

impl View for AcceptCounterOffer {
    type V = AddrRecordModel;

    open spec fn view(&self) -> AddrRecordModel {
        AddrRecordModel {
            domain_name: self.domain_name@,
            address: self.address@,
            value: self.value@,
            created_at: self.created_at,
            tx_digest: self.tx_digest@,
        }
    }
}

impl DeepView for AcceptCounterOffer {
    type V = AddrRecordModel;

    open spec fn deep_view(&self) -> AddrRecordModel {
        self.view()
    }
}

/// The status of an offer row.
///
/// `Cancelled`, `Accepted`, `Declined` and `AcceptedCountered` are terminal:
/// no further event mutates a row that has reached one of them.
#[derive(Debug, Clone, Copy, PartialEq, Eq, Hash, Structural)]
pub enum OfferStatus {
    Placed,
    Cancelled,
    Accepted,
    Declined,
    Countered,
    AcceptedCountered,
}

/// Whether `s` is a terminal status.
pub open spec fn is_terminal_status(s: OfferStatus) -> bool {
    match s {
        OfferStatus::Placed => false,
        OfferStatus::Cancelled => true,
        OfferStatus::Accepted => true,
        OfferStatus::Declined => true,
        OfferStatus::Countered => false,
        OfferStatus::AcceptedCountered => true,
    }
}

/// The storage string of each status.
pub open spec fn status_str_spec(s: OfferStatus) -> Seq<char> {
    match s {
        OfferStatus::Placed => "placed"@,
        OfferStatus::Cancelled => "cancelled"@,
        OfferStatus::Accepted => "accepted"@,
        OfferStatus::Declined => "declined"@,
        OfferStatus::Countered => "countered"@,
        OfferStatus::AcceptedCountered => "accepted-countered"@,
    }
}

impl OfferStatus {
    /// Whether this status is terminal.
    pub fn is_terminal(&self) -> (r: bool)
        ensures
            r == is_terminal_status(*self),
    {
        match self {
            OfferStatus::Placed => false,
            OfferStatus::Cancelled => true,
            OfferStatus::Accepted => true,
            OfferStatus::Declined => true,
            OfferStatus::Countered => false,
            OfferStatus::AcceptedCountered => true,
        }
    }

    /// The string under which this status is stored.
    pub fn as_str(&self) -> (r: &'static str)
        ensures
            r@ == status_str_spec(*self),
    {
        match self {
            OfferStatus::Placed => "placed",
            OfferStatus::Cancelled => "cancelled",
            OfferStatus::Accepted => "accepted",
            OfferStatus::Declined => "declined",
            OfferStatus::Countered => "countered",
            OfferStatus::AcceptedCountered => "accepted-countered",
        }
    }

    /// Reads a status back from its storage string; `None` exactly when the
    /// string is none of the six.
    pub fn from_str(s: &str) -> (r: Option<OfferStatus>)
        ensures
            match r {
                Some(st) => s@ == status_str_spec(st),
                None => forall|st: OfferStatus| s@ != status_str_spec(st),
            },
    {
        if text::str_eq(s, "placed") {
            Some(OfferStatus::Placed)
        } else if text::str_eq(s, "cancelled") {
            Some(OfferStatus::Cancelled)
        } else if text::str_eq(s, "accepted") {
            Some(OfferStatus::Accepted)
        } else if text::str_eq(s, "declined") {
            Some(OfferStatus::Declined)
        } else if text::str_eq(s, "countered") {
            Some(OfferStatus::Countered)
        } else if text::str_eq(s, "accepted-countered") {
            Some(OfferStatus::AcceptedCountered)
        } else {
            proof {
                assert forall|st: OfferStatus| s@ != status_str_spec(st) by {
                    match st {
                        OfferStatus::Placed => assert(s@ != "placed"@),
                        OfferStatus::Cancelled => assert(s@ != "cancelled"@),
                        OfferStatus::Accepted => assert(s@ != "accepted"@),
                        OfferStatus::Declined => assert(s@ != "declined"@),
                        OfferStatus::Countered => assert(s@ != "countered"@),
                        OfferStatus::AcceptedCountered => assert(s@ != "accepted-countered"@),
                    }
                }
            }
            None
        }
    }
}

/// The materialized current state of one negotiation between a buyer and a
/// domain name.
#[derive(Debug, Clone)]
pub struct Offer {
    pub id: Option<i32>,
    pub domain_name: String,
    pub buyer: String,
    pub initial_value: String,
    pub value: String,
    pub owner: Option<String>,
    pub status: OfferStatus,
    pub updated_at: i64,
    pub created_at: i64,
    pub last_tx_digest: String,
}

/// Mathematical form of an offer row.
pub struct OfferModel {
    pub id: Option<i32>,
    pub domain_name: Seq<char>,
    pub buyer: Seq<char>,
    pub initial_value: Seq<char>,
    pub value: Seq<char>,
    pub owner: Option<Seq<char>>,
    pub status: OfferStatus,
    pub updated_at: i64,
    pub created_at: i64,
    pub last_tx_digest: Seq<char>,
}

impl View for Offer {
    type V = OfferModel;

    open spec fn view(&self) -> OfferModel {
        OfferModel {
            id: self.id,
            domain_name: self.domain_name@,
            buyer: self.buyer@,
            initial_value: self.initial_value@,
            value: self.value@,
            owner: match self.owner {
                Some(o) => Some(o@),
                None => None,
            },
            status: self.status,
            updated_at: self.updated_at,
            created_at: self.created_at,
            last_tx_digest: self.last_tx_digest@,
        }
    }
}

impl DeepView for Offer {
    type V = OfferModel;

    open spec fn deep_view(&self) -> OfferModel {
        self.view()
    }
}

/// The fields that a status-changing event writes to an existing offer row.
#[derive(Debug, Clone)]
pub struct UpdateOffer {
    pub value: String,
    pub owner: Option<Option<String>>,
    pub status: OfferStatus,
    pub updated_at: i64,
    pub last_tx_digest: String,
}

/// Mathematical form of an update: `owner` is written only when the outer
/// option is set.
pub struct UpdateOfferModel {
    pub value: Seq<char>,
    pub owner: Option<Option<Seq<char>>>,
    pub status: OfferStatus,
    pub updated_at: i64,
    pub last_tx_digest: Seq<char>,
}

impl View for UpdateOffer {
    type V = UpdateOfferModel;

    open spec fn view(&self) -> UpdateOfferModel {
        UpdateOfferModel {
            value: self.value@,
            owner: match self.owner {
                Some(Some(o)) => Some(Some(o@)),
                Some(None) => Some(None),
                None => None,
            },
            status: self.status,
            updated_at: self.updated_at,
            last_tx_digest: self.last_tx_digest@,
        }
    }
}

/// An offer row after an update has been applied to it.
pub open spec fn updated_offer(row: OfferModel, u: UpdateOfferModel) -> OfferModel {
    OfferModel {
        id: row.id,
        domain_name: row.domain_name,
        buyer: row.buyer,
        initial_value: row.initial_value,
        value: u.value,
        owner: match u.owner {
            Some(o) => o,
            None => row.owner,
        },
        status: u.status,
        updated_at: u.updated_at,
        created_at: row.created_at,
        last_tx_digest: u.last_tx_digest,
    }
}

} // verus!
