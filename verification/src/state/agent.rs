use crate::arith::{saturate, saturating_product};
use crate::identity::Identity;
use crate::state::config::ReputationConfig;
use vstd::prelude::*;

verus! {

/// Seconds in a day, the unit in which an agent's age is counted.
pub const SECONDS_PER_DAY: i64 = 86400;

/// What the ledger keeps about one agent.
#[derive(Clone, Debug, PartialEq, Eq)]
pub struct AgentProfile {
    /// The agent's identity.
    pub authority: Identity,
    /// Where the agent's description is kept.
    pub metadata_uri: String,
    /// The score as last computed.
    pub reputation_score: u64,
    /// Vouches that currently name this agent as vouchee.
    pub total_vouches_received: u32,
    /// Vouches that this agent currently backs.
    pub total_vouches_given: u32,
    /// Stake that active vouches hold for this agent.
    pub total_staked_for: u64,
    /// Disputes that ended in this agent's favour.
    pub disputes_won: u32,
    /// Disputes that ended against this agent.
    pub disputes_lost: u32,
    /// When the agent registered.
    pub registered_at: i64,
}

/// Whole days from `registered_at` to `now`: none before registration, and the
/// span in seconds held to the range of an `i64`.
pub open spec fn age_in_days(registered_at: i64, now: i64) -> int {
    let elapsed = now - registered_at;
    if elapsed < 0 {
        0
    } else if elapsed > i64::MAX {
        i64::MAX / 86400
    } else {
        elapsed / 86400
    }
}

/// The score that the four components give: what was earned, held to the
/// range of a `u64`, less the penalty, and never below zero.
pub open spec fn score_of(stake: int, vouches: int, longevity: int, penalty: int) -> int {
    let earned = saturate(stake + vouches + longevity);
    if earned > penalty {
        earned - penalty
    } else {
        0
    }
}

impl AgentProfile {
    /// Longest metadata URI, in bytes.
    pub const MAX_URI_LENGTH: usize = 200;

    /// Points for the stake received.
    pub open spec fn stake_component(self, config: ReputationConfig) -> int {
        saturate(self.total_staked_for * config.stake_weight)
    }

    /// Points for the vouches received.
    pub open spec fn vouch_component(self, config: ReputationConfig) -> int {
        saturate(self.total_vouches_received * config.vouch_weight)
    }

    /// Points for the time since registration.
    pub open spec fn longevity_component(self, config: ReputationConfig, now: i64) -> int {
        saturate(age_in_days(self.registered_at, now) * config.longevity_bonus)
    }

    /// Points taken for disputes lost.
    pub open spec fn dispute_penalty(self, config: ReputationConfig) -> int {
        saturate(self.disputes_lost * config.dispute_penalty)
    }

    /// The reputation score of this record at time `now`.
    pub open spec fn reputation(self, config: ReputationConfig, now: i64) -> int {
        score_of(
            self.stake_component(config),
            self.vouch_component(config),
            self.longevity_component(config, now),
            self.dispute_penalty(config),
        )
    }

    /// This record with its cached score brought up to date.
    pub open spec fn rescored(self, config: ReputationConfig, now: i64) -> AgentProfile {
        AgentProfile { reputation_score: self.reputation(config, now) as u64, ..self }
    }

    /// This record once the agent backs one more vouch.
    pub open spec fn with_vouch_given(self) -> AgentProfile {
        AgentProfile { total_vouches_given: self.total_vouches_given.saturating_add(1), ..self }
    }

    /// This record once the agent backs one vouch fewer.
    pub open spec fn without_vouch_given(self) -> AgentProfile {
        AgentProfile { total_vouches_given: self.total_vouches_given.saturating_sub(1), ..self }
    }

    /// This record once a vouch of `stake_amount` names the agent, with the
    /// score brought up to date.
    pub open spec fn with_vouch_received(
        self,
        stake_amount: u64,
        config: ReputationConfig,
        now: i64,
    ) -> AgentProfile {
        AgentProfile {
            total_vouches_received: self.total_vouches_received.saturating_add(1),
            total_staked_for: self.total_staked_for.saturating_add(stake_amount),
            ..self
        }.rescored(config, now)
    }

    /// This record once a vouch of `stake_amount` no longer backs the agent,
    /// with the score brought up to date.
    pub open spec fn without_vouch_received(
        self,
        stake_amount: u64,
        config: ReputationConfig,
        now: i64,
    ) -> AgentProfile {
        AgentProfile {
            total_vouches_received: self.total_vouches_received.saturating_sub(1),
            total_staked_for: self.total_staked_for.saturating_sub(stake_amount),
            ..self
        }.rescored(config, now)
    }

    /// This record once a dispute went against one of the agent's vouches:
    /// one more dispute lost, one vouch fewer given, and the score brought up
    /// to date, since the disputes lost count against it.
    pub open spec fn with_dispute_lost(self, config: ReputationConfig, now: i64) -> AgentProfile {
        AgentProfile {
            disputes_lost: self.disputes_lost.saturating_add(1),
            total_vouches_given: self.total_vouches_given.saturating_sub(1),
            ..self
        }.rescored(config, now)
    }

    /// This record once a dispute ended in the agent's favour.
    pub open spec fn with_dispute_won(self) -> AgentProfile {
        AgentProfile { disputes_won: self.disputes_won.saturating_add(1), ..self }
    }

    /// Counts one more vouch given.
    pub fn record_vouch_given(&mut self)
        ensures
            *final(self) == old(self).with_vouch_given(),
    {
        self.total_vouches_given = self.total_vouches_given.saturating_add(1);
    }

    /// Counts one vouch fewer given.
    pub fn record_vouch_withdrawn(&mut self)
        ensures
            *final(self) == old(self).without_vouch_given(),
    {
        self.total_vouches_given = self.total_vouches_given.saturating_sub(1);
    }

    /// Counts a new vouch of `stake_amount` for this agent and rescores.
    pub fn record_vouch_received(&mut self, stake_amount: u64, config: &ReputationConfig, now: i64)
        ensures
            *final(self) == old(self).with_vouch_received(stake_amount, *config, now),
    {
        self.total_vouches_received = self.total_vouches_received.saturating_add(1);
        self.total_staked_for = self.total_staked_for.saturating_add(stake_amount);
        self.reputation_score = self.compute_reputation(config, now);
    }

    /// Takes a vouch of `stake_amount` off this agent's counts and rescores.
    pub fn record_vouch_removed(&mut self, stake_amount: u64, config: &ReputationConfig, now: i64)
        ensures
            *final(self) == old(self).without_vouch_received(stake_amount, *config, now),
    {
        self.total_vouches_received = self.total_vouches_received.saturating_sub(1);
        self.total_staked_for = self.total_staked_for.saturating_sub(stake_amount);
        self.reputation_score = self.compute_reputation(config, now);
    }

    /// Counts a dispute lost, and the slashed vouch as no longer given, and
    /// rescores.
    pub fn record_dispute_lost(&mut self, config: &ReputationConfig, now: i64)
        ensures
            *final(self) == old(self).with_dispute_lost(*config, now),
    {
        self.disputes_lost = self.disputes_lost.saturating_add(1);
        self.total_vouches_given = self.total_vouches_given.saturating_sub(1);
        self.reputation_score = self.compute_reputation(config, now);
    }

    /// Counts a dispute won.
    pub fn record_dispute_won(&mut self)
        ensures
            *final(self) == old(self).with_dispute_won(),
    {
        self.disputes_won = self.disputes_won.saturating_add(1);
    }

    /// Computes the reputation score from stake, vouches, disputes lost and age.
    pub fn compute_reputation(&self, config: &ReputationConfig, now: i64) -> (score: u64)
        ensures
            score == self.reputation(*config, now),
    {
        let stake_component = saturating_product(self.total_staked_for, config.stake_weight as u64);
        let vouch_component = saturating_product(
            self.total_vouches_received as u64,
            config.vouch_weight as u64,
        );
        let dispute_penalty = saturating_product(
            self.disputes_lost as u64,
            config.dispute_penalty as u64,
        );
        let age_days = whole_days_between(self.registered_at, now);
        let longevity_component = saturating_product(age_days, config.longevity_bonus as u64);
        stake_component.saturating_add(vouch_component).saturating_add(
            longevity_component,
        ).saturating_sub(dispute_penalty)
    }
}

/// Whole days from `registered_at` to `now`.
pub fn whole_days_between(registered_at: i64, now: i64) -> (days: u64)
    ensures
        days == age_in_days(registered_at, now),
{
    if now < registered_at {
        0
    } else {
        let elapsed: i64 = match now.checked_sub(registered_at) {
            Some(elapsed) => elapsed,
            None => i64::MAX,
        };
        (elapsed / SECONDS_PER_DAY) as u64
    }
}

/// The score is the same whenever it is computed from the same record, and
/// writing it back into the record does not change what is computed next.
pub proof fn lemma_rescoring_is_idempotent(profile: AgentProfile, config: ReputationConfig, now: i64)
    ensures
        profile.rescored(config, now).reputation(config, now) == profile.reputation(config, now),
        profile.rescored(config, now).rescored(config, now) == profile.rescored(config, now),
{
}

/// The score is never negative and fits the cached field; it is zero as soon
/// as the penalty reaches what was earned, however large the penalty grows.
pub proof fn lemma_score_floors_at_zero(profile: AgentProfile, config: ReputationConfig, now: i64)
    ensures
        0 <= profile.reputation(config, now) <= u64::MAX,
        profile.dispute_penalty(config) >= saturate(
            profile.stake_component(config) + profile.vouch_component(config)
                + profile.longevity_component(config, now),
        ) ==> profile.reputation(config, now) == 0,
{
}

} // verus!
