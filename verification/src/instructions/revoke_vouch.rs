use crate::funds::{can_move, move_value};
use crate::identity::Identity;
use crate::state::agent::AgentProfile;
use crate::state::config::ReputationConfig;
use crate::state::vouch::{
    backing_stake, lemma_backing_stake_covers, lemma_backing_stake_update, Vouch, VouchStatus,
};
use vstd::prelude::*;

verus! {

/// Why a vouch was not revoked.
#[derive(Clone, Copy, Debug, PartialEq, Eq, Structural)]
pub enum ErrorCode {
    /// The caller is not the voucher of this vouch.
    UnauthorizedVouchRevocation,
    /// The vouch is not active.
    VouchNotActive,
    /// The vouch does not hold its stake, or the voucher cannot take it.
    InsufficientFunds,
}

/// What revoking a vouch reads and writes.
#[derive(Clone, Debug, PartialEq, Eq)]
pub struct RevokeVouch {
    /// The vouch to revoke.
    pub vouch: Vouch,
    /// The value that the vouch holds.
    pub vouch_escrow: u64,
    /// The record of the caller, who must be the voucher.
    pub voucher_profile: AgentProfile,
    /// The record of the agent vouched for.
    pub vouchee_profile: AgentProfile,
    /// The global parameters.
    pub config: ReputationConfig,
    /// What the caller can spend.
    pub voucher_balance: u64,
}

impl RevokeVouch {
    /// Why the revocation is refused, if it is: only the voucher may revoke,
    /// only an active vouch, and the stake must be there to return.
    pub open spec fn refusal(self) -> Option<ErrorCode> {
        if self.vouch.voucher != self.voucher_profile.authority {
            Some(ErrorCode::UnauthorizedVouchRevocation)
        } else if self.vouch.status != VouchStatus::Active {
            Some(ErrorCode::VouchNotActive)
        } else if !can_move(self.vouch_escrow, self.voucher_balance, self.vouch.stake_amount) {
            Some(ErrorCode::InsufficientFunds)
        } else {
            None
        }
    }

    /// Everything as it stands once the vouch was revoked at time `now`: the
    /// stake back with the voucher, both agents' counts lowered, the vouchee
    /// rescored.
    pub open spec fn applied(self, now: i64) -> RevokeVouch {
        RevokeVouch {
            vouch: self.vouch.with_status(VouchStatus::Revoked),
            vouch_escrow: (self.vouch_escrow - self.vouch.stake_amount) as u64,
            voucher_profile: self.voucher_profile.without_vouch_given(),
            vouchee_profile: self.vouchee_profile.without_vouch_received(
                self.vouch.stake_amount,
                self.config,
                now,
            ),
            config: self.config,
            voucher_balance: (self.voucher_balance + self.vouch.stake_amount) as u64,
        }
    }
}

impl RevokeVouch {
    /// Decides whether the revocation is refused, and why.
    pub fn check(&self) -> (refusal: Option<ErrorCode>)
        ensures
            refusal == self.refusal(),
    {
        if self.vouch.voucher != self.voucher_profile.authority {
            return Some(ErrorCode::UnauthorizedVouchRevocation);
        }
        if self.vouch.status != VouchStatus::Active {
            return Some(ErrorCode::VouchNotActive);
        }
        if move_value(self.vouch_escrow, self.voucher_balance, self.vouch.stake_amount).is_none() {
            return Some(ErrorCode::InsufficientFunds);
        }
        None
    }
}

/// Revokes the vouch and returns its stake to the voucher at once, or refuses
/// and changes nothing. The configured cooldown is not applied.
pub fn handler(ctx: &mut RevokeVouch, now: i64) -> (result: Result<(), ErrorCode>)
    ensures
        match old(ctx).refusal() {
            Some(error) => result == Err::<(), ErrorCode>(error) && *final(ctx) == *old(ctx),
            None => result is Ok && *final(ctx) == old(ctx).applied(now),
        },
        old(ctx).vouch.status != VouchStatus::Active ==> result is Err,
{
    if let Some(error) = ctx.check() {
        return Err(error);
    }
    let stake_amount = ctx.vouch.stake_amount;
    ctx.vouch.status = VouchStatus::Revoked;
    ctx.vouch_escrow = ctx.vouch_escrow - stake_amount;
    ctx.voucher_balance = ctx.voucher_balance + stake_amount;
    ctx.voucher_profile.record_vouch_withdrawn();
    ctx.vouchee_profile.record_vouch_removed(stake_amount, &ctx.config, now);
    Ok(())
}

/// A vouch is revoked exactly when the caller is its voucher, it is active,
/// and it holds its stake for the voucher to take.
pub proof fn lemma_vouch_is_revoked_exactly_when(ctx: RevokeVouch)
    ensures
        ctx.refusal() is None <==> {
            &&& ctx.vouch.voucher == ctx.voucher_profile.authority
            &&& ctx.vouch.status == VouchStatus::Active
            &&& can_move(ctx.vouch_escrow, ctx.voucher_balance, ctx.vouch.stake_amount)
        },
{
}

/// A vouch that is revoked takes exactly its stake off the vouchee's recorded
/// stake and off the stake behind the vouchee, and off no other agent's. So
/// where the record was the sum over `vouches` before, it is the sum over the
/// vouches still active after, and the subtraction never hits zero short.
pub proof fn lemma_revoked_vouch_takes_off_its_stake(
    ctx: RevokeVouch,
    now: i64,
    vouches: Seq<Vouch>,
    place: int,
    other: Identity,
)
    requires
        ctx.refusal() is None,
        0 <= place < vouches.len(),
        vouches[place] == ctx.vouch,
        ctx.vouch.vouchee == ctx.vouchee_profile.authority,
        ctx.vouchee_profile.total_staked_for == backing_stake(vouches, ctx.vouch.vouchee),
        other != ctx.vouch.vouchee,
    ensures
        ctx.applied(now).vouch.status == VouchStatus::Revoked,
        ctx.vouch.stake_amount <= ctx.vouchee_profile.total_staked_for,
        ctx.applied(now).vouchee_profile.total_staked_for == ctx.vouchee_profile.total_staked_for
            - ctx.vouch.stake_amount,
        ctx.applied(now).vouchee_profile.total_staked_for == backing_stake(
            vouches.update(place, ctx.applied(now).vouch),
            ctx.vouch.vouchee,
        ),
        backing_stake(vouches.update(place, ctx.applied(now).vouch), other) == backing_stake(
            vouches,
            other,
        ),
{
    lemma_backing_stake_covers(vouches, ctx.vouch.vouchee, place);
    lemma_backing_stake_update(vouches, place, ctx.applied(now).vouch, ctx.vouch.vouchee);
    lemma_backing_stake_update(vouches, place, ctx.applied(now).vouch, other);
}

} // verus!
