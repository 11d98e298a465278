use crate::identity::Identity;
use vstd::prelude::*;

verus! {

/// The global parameters, as every operation reads them.
#[derive(Clone, Copy, Debug, PartialEq, Eq)]
pub struct ReputationConfig {
    /// The one party that may resolve disputes.
    pub authority: Identity,
    /// Least stake that a vouch may lock.
    pub min_stake: u64,
    /// What a challenger puts up to open a dispute.
    pub dispute_bond: u64,
    /// Part of a stake, in hundredths, that a lost dispute slashes.
    pub slash_percentage: u8,
    /// Seconds that a revoked stake is meant to rest before it returns.
    pub cooldown_period: i64,
    /// Points per unit of stake received.
    pub stake_weight: u32,
    /// Points per vouch received.
    pub vouch_weight: u32,
    /// Points lost per dispute lost.
    pub dispute_penalty: u32,
    /// Points per day since registration.
    pub longevity_bonus: u32,
}

impl ReputationConfig {
    /// Largest slash percentage that makes sense.
    pub const MAX_SLASH_PERCENTAGE: u8 = 100;

    /// The slash percentage is a percentage.
    pub open spec fn well_formed(self) -> bool {
        self.slash_percentage <= 100
    }
}

} // verus!
