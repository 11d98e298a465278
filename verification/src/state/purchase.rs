use crate::identity::Identity;
use vstd::prelude::*;

verus! {

/// The receipt of one sale.
#[derive(Clone, Copy, Debug, PartialEq, Eq)]
pub struct Purchase {
    /// Who bought.
    pub buyer: Identity,
    /// The listing that was bought.
    pub skill_listing: Identity,
    /// When it was bought.
    pub purchased_at: i64,
    /// What was paid.
    pub price_paid: u64,
}

} // verus!
