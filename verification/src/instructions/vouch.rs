use crate::funds::{can_move, move_value};
use crate::identity::Identity;
use crate::state::agent::AgentProfile;
use crate::state::config::ReputationConfig;
use crate::state::vouch::{backing_stake, lemma_backing_stake_push, Vouch, VouchStatus};
use vstd::prelude::*;

verus! {

/// Why a vouch was not created.
#[derive(Clone, Copy, Debug, PartialEq, Eq, Structural)]
pub enum ErrorCode {
    /// The stake is under the configured minimum.
    StakeBelowMinimum,
    /// Voucher and vouchee are the same agent.
    CannotVouchForSelf,
    /// The voucher already has an active vouch for this vouchee.
    DuplicateVouch,
    /// The voucher cannot cover the stake, or the vouch cannot hold it.
    InsufficientFunds,
}

/// What creating a vouch reads and writes.
#[derive(Clone, Debug, PartialEq, Eq)]
pub struct CreateVouch {
    /// What is kept for this pair of voucher and vouchee: nothing yet, or
    /// their earlier vouch.
    pub vouch: Option<Vouch>,
    /// What the vouch holds before the stake is locked in it.
    pub vouch_escrow: u64,
    /// The record of the agent who vouches.
    pub voucher_profile: AgentProfile,
    /// The record of the agent vouched for.
    pub vouchee_profile: AgentProfile,
    /// The global parameters.
    pub config: ReputationConfig,
    /// What the voucher can spend.
    pub voucher_balance: u64,
}

impl CreateVouch {
    /// Why a vouch of `stake_amount` is refused, if it is. An agent cannot
    /// vouch for itself, whatever the stake; the stake reaches the minimum;
    /// one active vouch per pair; and the voucher can pay the stake.
    pub open spec fn refusal(self, stake_amount: u64) -> Option<ErrorCode> {
        if self.voucher_profile.authority == self.vouchee_profile.authority {
            Some(ErrorCode::CannotVouchForSelf)
        } else if stake_amount < self.config.min_stake {
            Some(ErrorCode::StakeBelowMinimum)
        } else if self.vouch matches Some(earlier) && earlier.status == VouchStatus::Active {
            Some(ErrorCode::DuplicateVouch)
        } else if !can_move(self.voucher_balance, self.vouch_escrow, stake_amount) {
            Some(ErrorCode::InsufficientFunds)
        } else {
            None
        }
    }

    /// Everything as it stands once a vouch of `stake_amount` was created at
    /// time `now`: the stake locked in the new active vouch, both agents'
    /// counts raised, the vouchee rescored.
    pub open spec fn applied(self, stake_amount: u64, now: i64) -> CreateVouch {
        CreateVouch {
            vouch: Some(
                Vouch::fresh(
                    self.voucher_profile.authority,
                    self.vouchee_profile.authority,
                    stake_amount,
                    now,
                ),
            ),
            vouch_escrow: (self.vouch_escrow + stake_amount) as u64,
            voucher_profile: self.voucher_profile.with_vouch_given(),
            vouchee_profile: self.vouchee_profile.with_vouch_received(
                stake_amount,
                self.config,
                now,
            ),
            config: self.config,
            voucher_balance: (self.voucher_balance - stake_amount) as u64,
        }
    }
}

impl CreateVouch {
    /// Decides whether a vouch of `stake_amount` is refused, and why.
    pub fn check(&self, stake_amount: u64) -> (refusal: Option<ErrorCode>)
        ensures
            refusal == self.refusal(stake_amount),
    {
        if self.voucher_profile.authority == self.vouchee_profile.authority {
            return Some(ErrorCode::CannotVouchForSelf);
        }
        if stake_amount < self.config.min_stake {
            return Some(ErrorCode::StakeBelowMinimum);
        }
        if let Some(earlier) = self.vouch {
            if earlier.status == VouchStatus::Active {
                return Some(ErrorCode::DuplicateVouch);
            }
        }
        if move_value(self.voucher_balance, self.vouch_escrow, stake_amount).is_none() {
            return Some(ErrorCode::InsufficientFunds);
        }
        None
    }
}

/// Creates a vouch of `stake_amount` by the voucher for the vouchee, or
/// refuses and changes nothing.
pub fn handler(ctx: &mut CreateVouch, stake_amount: u64, now: i64) -> (result: Result<
    (),
    ErrorCode,
>)
    ensures
        match old(ctx).refusal(stake_amount) {
            Some(error) => result == Err::<(), ErrorCode>(error) && *final(ctx) == *old(ctx),
            None => result is Ok && *final(ctx) == old(ctx).applied(stake_amount, now),
        },
        old(ctx).voucher_profile.authority == old(ctx).vouchee_profile.authority ==> {
            &&& result == Err::<(), ErrorCode>(ErrorCode::CannotVouchForSelf)
            &&& *final(ctx) == *old(ctx)
        },
        old(ctx).voucher_profile.authority != old(ctx).vouchee_profile.authority && stake_amount
            < old(ctx).config.min_stake ==> {
            &&& result == Err::<(), ErrorCode>(ErrorCode::StakeBelowMinimum)
            &&& *final(ctx) == *old(ctx)
        },
        result is Ok ==> {
            &&& final(ctx).vouch.unwrap().well_formed()
            &&& final(ctx).vouch.unwrap().status == VouchStatus::Active
        },
{
    if let Some(error) = ctx.check(stake_amount) {
        return Err(error);
    }
    ctx.voucher_balance = ctx.voucher_balance - stake_amount;
    ctx.vouch_escrow = ctx.vouch_escrow + stake_amount;
    ctx.vouch = Some(
        Vouch {
            voucher: ctx.voucher_profile.authority,
            vouchee: ctx.vouchee_profile.authority,
            stake_amount,
            created_at: now,
            status: VouchStatus::Active,
            cumulative_revenue: 0,
            last_payout_at: now,
        },
    );
    ctx.voucher_profile.record_vouch_given();
    ctx.vouchee_profile.record_vouch_received(stake_amount, &ctx.config, now);
    Ok(())
}

/// A vouch is created exactly when voucher and vouchee are two agents, the
/// stake reaches the minimum, the pair has no active vouch, and the voucher
/// can pay the stake into the vouch.
pub proof fn lemma_vouch_is_created_exactly_when(ctx: CreateVouch, stake_amount: u64)
    ensures
        ctx.refusal(stake_amount) is None <==> {
            &&& ctx.voucher_profile.authority != ctx.vouchee_profile.authority
            &&& stake_amount >= ctx.config.min_stake
            &&& !(ctx.vouch matches Some(earlier) && earlier.status == VouchStatus::Active)
            &&& can_move(ctx.voucher_balance, ctx.vouch_escrow, stake_amount)
        },
{
}

/// A vouch that is created adds exactly its stake to the vouchee's recorded
/// stake and to the stake behind the vouchee, and to no other agent's. So
/// where the record was the sum over `vouches` before, it is the sum over
/// them and the new vouch after, as long as that sum fits the record.
pub proof fn lemma_created_vouch_adds_its_stake(
    ctx: CreateVouch,
    stake_amount: u64,
    now: i64,
    vouches: Seq<Vouch>,
    other: Identity,
)
    requires
        ctx.refusal(stake_amount) is None,
        ctx.vouchee_profile.total_staked_for == backing_stake(
            vouches,
            ctx.vouchee_profile.authority,
        ),
        backing_stake(vouches, ctx.vouchee_profile.authority) + stake_amount <= u64::MAX,
        other != ctx.vouchee_profile.authority,
    ensures
        ctx.applied(stake_amount, now).vouchee_profile.total_staked_for
            == ctx.vouchee_profile.total_staked_for + stake_amount,
        ctx.applied(stake_amount, now).vouchee_profile.total_staked_for == backing_stake(
            vouches.push(ctx.applied(stake_amount, now).vouch.unwrap()),
            ctx.vouchee_profile.authority,
        ),
        ctx.applied(stake_amount, now).voucher_profile.total_staked_for
            == ctx.voucher_profile.total_staked_for,
        backing_stake(vouches.push(ctx.applied(stake_amount, now).vouch.unwrap()), other)
            == backing_stake(vouches, other),
{
    let created = ctx.applied(stake_amount, now).vouch.unwrap();
    lemma_backing_stake_push(vouches, created, ctx.vouchee_profile.authority);
    lemma_backing_stake_push(vouches, created, other);
}

} // verus!
