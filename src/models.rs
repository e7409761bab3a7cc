//! The numeric fields of a user recap: stored unsigned, exposed signed.
use vstd::prelude::*;

verus! {

/// The unsigned counters of a stored user recap row.
#[derive(Clone, Copy, Debug, PartialEq, Eq, Structural)]
pub struct RecapCounts {
    pub trx_count: u32,
    pub variant_count: Option<u32>,
    pub total_point: Option<u32>,
    pub total_point_possible_redeem: Option<u32>,
    pub delivery_count: Option<u32>,
    pub pickup_count: Option<u32>,
    pub top_ranking: Option<u32>,
}

/// The same counters as the response exposes them.
#[derive(Clone, Copy, Debug, PartialEq, Eq, Structural)]
pub struct ResponseCounts {
    pub trx_count: i64,
    pub variant_count: Option<i64>,
    pub total_point: Option<i64>,
    pub total_point_possible_redeem: Option<i64>,
    pub delivery_count: Option<i64>,
    pub pickup_count: Option<i64>,
    pub top_ranking: Option<i64>,
}

/// A stored counter as a signed response field: widened, so its value is kept.
pub open spec fn as_signed64(v: Option<u32>) -> Option<i64> {
    match v {
        Some(n) => Some(n as i64),
        None => None,
    }
}

fn signed64(v: Option<u32>) -> (r: Option<i64>)
    ensures
        r == as_signed64(v),
        v is Some ==> r is Some && r->0 == v->0 as int && r->0 >= 0,
{
    match v {
        Some(n) => Some(n as i64),
        None => None,
    }
}

impl RecapCounts {
    /// The response counters: every stored counter widens to 64 bits, keeping its value.
    pub fn to_response(&self) -> (r: ResponseCounts)
        ensures
            r.trx_count == self.trx_count as i64,
            r.variant_count == as_signed64(self.variant_count),
            r.total_point == as_signed64(self.total_point),
            r.total_point_possible_redeem == as_signed64(self.total_point_possible_redeem),
            r.delivery_count == as_signed64(self.delivery_count),
            r.pickup_count == as_signed64(self.pickup_count),
            r.top_ranking == as_signed64(self.top_ranking),
    {
        ResponseCounts {
            trx_count: self.trx_count as i64,
            variant_count: signed64(self.variant_count),
            total_point: signed64(self.total_point),
            total_point_possible_redeem: signed64(self.total_point_possible_redeem),
            delivery_count: signed64(self.delivery_count),
            pickup_count: signed64(self.pickup_count),
            top_ranking: signed64(self.top_ranking),
        }
    }
}

} // verus!
