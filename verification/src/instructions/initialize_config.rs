use crate::identity::Identity;
use crate::state::config::ReputationConfig;
use vstd::prelude::*;

verus! {

/// Points per unit of stake that a new configuration starts with.
pub const DEFAULT_STAKE_WEIGHT: u32 = 1;

/// Points per vouch that a new configuration starts with.
pub const DEFAULT_VOUCH_WEIGHT: u32 = 100;

/// Points per dispute lost that a new configuration starts with.
pub const DEFAULT_DISPUTE_PENALTY: u32 = 500;

/// Points per day of age that a new configuration starts with.
pub const DEFAULT_LONGEVITY_BONUS: u32 = 10;

/// Why the configuration was not set.
#[derive(Clone, Copy, Debug, PartialEq, Eq, Structural)]
pub enum ErrorCode {
    /// The configuration was set before; it is set once.
    AlreadyInitialized,
    /// The slash percentage is over a hundred.
    SlashPercentageOutOfRange,
}

/// What setting the configuration reads and writes.
#[derive(Clone, Copy, Debug, PartialEq, Eq)]
pub struct InitializeConfig {
    /// Where the configuration goes.
    pub config: Option<ReputationConfig>,
    /// The caller, who becomes the authority.
    pub authority: Identity,
}

impl InitializeConfig {
    /// Why the configuration is refused, if it is.
    pub open spec fn refusal(self, slash_percentage: u8) -> Option<ErrorCode> {
        if self.config is Some {
            Some(ErrorCode::AlreadyInitialized)
        } else if slash_percentage > ReputationConfig::MAX_SLASH_PERCENTAGE {
            Some(ErrorCode::SlashPercentageOutOfRange)
        } else {
            None
        }
    }

    /// The configuration that the caller sets: the given parameters, the
    /// caller as authority, and the weights a configuration starts with.
    pub open spec fn configured(
        self,
        min_stake: u64,
        dispute_bond: u64,
        slash_percentage: u8,
        cooldown_period: i64,
    ) -> ReputationConfig {
        ReputationConfig {
            authority: self.authority,
            min_stake,
            dispute_bond,
            slash_percentage,
            cooldown_period,
            stake_weight: DEFAULT_STAKE_WEIGHT,
            vouch_weight: DEFAULT_VOUCH_WEIGHT,
            dispute_penalty: DEFAULT_DISPUTE_PENALTY,
            longevity_bonus: DEFAULT_LONGEVITY_BONUS,
        }
    }

    /// Everything as it stands once the configuration was set.
    pub open spec fn applied(
        self,
        min_stake: u64,
        dispute_bond: u64,
        slash_percentage: u8,
        cooldown_period: i64,
    ) -> InitializeConfig {
        InitializeConfig {
            config: Some(
                self.configured(min_stake, dispute_bond, slash_percentage, cooldown_period),
            ),
            authority: self.authority,
        }
    }
}

impl InitializeConfig {
    /// Decides whether the configuration is refused, and why.
    pub fn check(&self, slash_percentage: u8) -> (refusal: Option<ErrorCode>)
        ensures
            refusal == self.refusal(slash_percentage),
    {
        if self.config.is_some() {
            return Some(ErrorCode::AlreadyInitialized);
        }
        if slash_percentage > ReputationConfig::MAX_SLASH_PERCENTAGE {
            return Some(ErrorCode::SlashPercentageOutOfRange);
        }
        None
    }
}

/// Sets the configuration, once, or refuses and changes nothing.
pub fn handler(
    ctx: &mut InitializeConfig,
    min_stake: u64,
    dispute_bond: u64,
    slash_percentage: u8,
    cooldown_period: i64,
) -> (result: Result<(), ErrorCode>)
    ensures
        match old(ctx).refusal(slash_percentage) {
            Some(error) => result == Err::<(), ErrorCode>(error) && *final(ctx) == *old(ctx),
            None => result is Ok && *final(ctx) == old(ctx).applied(
                min_stake,
                dispute_bond,
                slash_percentage,
                cooldown_period,
            ),
        },
        result is Ok ==> final(ctx).config.unwrap().well_formed(),
{
    if let Some(error) = ctx.check(slash_percentage) {
        return Err(error);
    }
    ctx.config = Some(
        ReputationConfig {
            authority: ctx.authority,
            min_stake,
            dispute_bond,
            slash_percentage,
            cooldown_period,
            stake_weight: DEFAULT_STAKE_WEIGHT,
            vouch_weight: DEFAULT_VOUCH_WEIGHT,
            dispute_penalty: DEFAULT_DISPUTE_PENALTY,
            longevity_bonus: DEFAULT_LONGEVITY_BONUS,
        },
    );
    Ok(())
}

} // verus!
