use crate::funds::{can_move, move_value};
use crate::identity::Identity;
use crate::state::agent::AgentProfile;
use crate::state::config::ReputationConfig;
use crate::state::dispute::{Dispute, DisputeRuling, DisputeStatus};
use crate::state::vouch::{Vouch, VouchStatus};
use vstd::prelude::*;

verus! {

/// Why a dispute was not resolved.
#[derive(Clone, Copy, Debug, PartialEq, Eq, Structural)]
pub enum ErrorCode {
    /// The dispute was already ruled on.
    DisputeNotOpen,
    /// The vouch is not under dispute.
    VouchNotDisputed,
    /// The caller is not the configured authority.
    UnauthorizedResolver,
    /// The dispute does not hold the bond, or the challenger cannot take it.
    InsufficientFunds,
}

/// What resolving a dispute reads and writes.
#[derive(Clone, Debug, PartialEq, Eq)]
pub struct ResolveDispute {
    /// The dispute to rule on.
    pub dispute: Dispute,
    /// The value that the dispute holds.
    pub dispute_escrow: u64,
    /// The vouch under dispute.
    pub vouch: Vouch,
    /// The record of the voucher.
    pub voucher_profile: AgentProfile,
    /// The record of the vouchee.
    pub vouchee_profile: AgentProfile,
    /// The global parameters.
    pub config: ReputationConfig,
    /// The caller.
    pub authority: Identity,
    /// What the challenger can spend.
    pub challenger_balance: u64,
}

impl ResolveDispute {
    /// Why the ruling is refused, if it is: the dispute is open, the vouch is
    /// disputed, the caller is the authority, and, where the voucher is
    /// slashed, the bond is there to return.
    pub open spec fn refusal(self, ruling: DisputeRuling) -> Option<ErrorCode> {
        if self.dispute.status != DisputeStatus::Open {
            Some(ErrorCode::DisputeNotOpen)
        } else if self.vouch.status != VouchStatus::Disputed {
            Some(ErrorCode::VouchNotDisputed)
        } else if self.config.authority != self.authority {
            Some(ErrorCode::UnauthorizedResolver)
        } else if ruling == DisputeRuling::SlashVoucher && !can_move(
            self.dispute_escrow,
            self.challenger_balance,
            self.config.dispute_bond,
        ) {
            Some(ErrorCode::InsufficientFunds)
        } else {
            None
        }
    }

    /// Everything as it stands once the voucher was slashed at time `now`:
    /// the vouch slashed with its whole stake still locked in it, a dispute
    /// lost and a vouch fewer for the voucher, the whole stake off the
    /// vouchee's count, both of them rescored, the bond back with the
    /// challenger.
    pub open spec fn slashed(self, now: i64) -> ResolveDispute {
        ResolveDispute {
            dispute: self.dispute.resolved(DisputeRuling::SlashVoucher, now),
            dispute_escrow: (self.dispute_escrow - self.config.dispute_bond) as u64,
            vouch: self.vouch.with_status(VouchStatus::Slashed),
            voucher_profile: self.voucher_profile.with_dispute_lost(self.config, now),
            vouchee_profile: self.vouchee_profile.without_vouch_received(
                self.vouch.stake_amount,
                self.config,
                now,
            ),
            config: self.config,
            authority: self.authority,
            challenger_balance: (self.challenger_balance + self.config.dispute_bond) as u64,
        }
    }

    /// Everything as it stands once the vouch was vindicated at time `now`:
    /// a dispute won for the voucher, the bond kept by the dispute, stake and
    /// vouchee untouched.
    pub open spec fn vindicated(self, now: i64) -> ResolveDispute {
        ResolveDispute {
            dispute: self.dispute.resolved(DisputeRuling::Vindicate, now),
            vouch: self.vouch.with_status(VouchStatus::Vindicated),
            voucher_profile: self.voucher_profile.with_dispute_won(),
            ..self
        }
    }

    /// Everything as it stands once `ruling` was given at time `now`.
    pub open spec fn applied(self, ruling: DisputeRuling, now: i64) -> ResolveDispute {
        match ruling {
            DisputeRuling::SlashVoucher => self.slashed(now),
            DisputeRuling::Vindicate => self.vindicated(now),
        }
    }
}

impl ResolveDispute {
    /// Decides whether the ruling is refused, and why.
    pub fn check(&self, ruling: DisputeRuling) -> (refusal: Option<ErrorCode>)
        ensures
            refusal == self.refusal(ruling),
    {
        if self.dispute.status != DisputeStatus::Open {
            return Some(ErrorCode::DisputeNotOpen);
        }
        if self.vouch.status != VouchStatus::Disputed {
            return Some(ErrorCode::VouchNotDisputed);
        }
        if self.config.authority != self.authority {
            return Some(ErrorCode::UnauthorizedResolver);
        }
        if ruling == DisputeRuling::SlashVoucher && move_value(
            self.dispute_escrow,
            self.challenger_balance,
            self.config.dispute_bond,
        ).is_none() {
            return Some(ErrorCode::InsufficientFunds);
        }
        None
    }
}

/// Rules on the dispute, once and for all, or refuses and changes nothing.
pub fn handler(ctx: &mut ResolveDispute, ruling: DisputeRuling, now: i64) -> (result: Result<
    (),
    ErrorCode,
>)
    ensures
        match old(ctx).refusal(ruling) {
            Some(error) => result == Err::<(), ErrorCode>(error) && *final(ctx) == *old(ctx),
            None => result is Ok && *final(ctx) == old(ctx).applied(ruling, now),
        },
        result is Ok ==> {
            &&& final(ctx).dispute.status == DisputeStatus::Resolved
            &&& final(ctx).dispute.ruling == Some(ruling)
            &&& final(ctx).dispute.well_formed()
            &&& final(ctx).vouch.status.is_terminal()
        },
{
    if let Some(error) = ctx.check(ruling) {
        return Err(error);
    }
    match ruling {
        DisputeRuling::SlashVoucher => {
            ctx.dispute_escrow = ctx.dispute_escrow - ctx.config.dispute_bond;
            ctx.challenger_balance = ctx.challenger_balance + ctx.config.dispute_bond;
            ctx.vouch.status = VouchStatus::Slashed;
            ctx.voucher_profile.record_dispute_lost(&ctx.config, now);
            ctx.vouchee_profile.record_vouch_removed(ctx.vouch.stake_amount, &ctx.config, now);
        },
        DisputeRuling::Vindicate => {
            ctx.vouch.status = VouchStatus::Vindicated;
            ctx.voucher_profile.record_dispute_won();
        },
    }
    ctx.dispute.status = DisputeStatus::Resolved;
    ctx.dispute.ruling = Some(ruling);
    ctx.dispute.resolved_at = Some(now);
    Ok(())
}

/// A ruling is given once. After a dispute was resolved, whichever way, any
/// further attempt to rule on it is refused because it is no longer open.
pub proof fn lemma_ruling_is_final(
    first: ResolveDispute,
    ruling: DisputeRuling,
    now: i64,
    second: ResolveDispute,
    second_ruling: DisputeRuling,
)
    requires
        first.refusal(ruling) is None,
        second.dispute == first.applied(ruling, now).dispute,
    ensures
        second.refusal(second_ruling) == Some(ErrorCode::DisputeNotOpen),
{
}

/// What slashing does to the books. The voucher has one more dispute lost;
/// the vouchee's stake goes down by the whole stake of the vouch, not by the
/// slashed part alone; the vouch keeps its stake; the whole bond moves from
/// the dispute to the challenger; and both the voucher and the vouchee carry
/// the score computed from their new records.
pub proof fn lemma_slash_accounting(ctx: ResolveDispute, now: i64)
    requires
        ctx.refusal(DisputeRuling::SlashVoucher) is None,
    ensures
        ctx.slashed(now).vouch.status == VouchStatus::Slashed,
        ctx.slashed(now).vouch.stake_amount == ctx.vouch.stake_amount,
        ctx.voucher_profile.disputes_lost < u32::MAX ==> ctx.slashed(now).voucher_profile.disputes_lost
            == ctx.voucher_profile.disputes_lost + 1,
        ctx.slashed(now).voucher_profile.disputes_won == ctx.voucher_profile.disputes_won,
        ctx.vouch.stake_amount <= ctx.vouchee_profile.total_staked_for ==> ctx.slashed(
            now,
        ).vouchee_profile.total_staked_for == ctx.vouchee_profile.total_staked_for
            - ctx.vouch.stake_amount,
        ctx.slashed(now).challenger_balance == ctx.challenger_balance + ctx.config.dispute_bond,
        ctx.slashed(now).dispute_escrow == ctx.dispute_escrow - ctx.config.dispute_bond,
        ctx.slashed(now).voucher_profile.reputation_score == ctx.slashed(
            now,
        ).voucher_profile.reputation(ctx.config, now),
        ctx.slashed(now).vouchee_profile.reputation_score == ctx.slashed(
            now,
        ).vouchee_profile.reputation(ctx.config, now),
{
}

/// What vindicating does to the books. The voucher has one more dispute won
/// and none more lost; the vouchee's record and the stake of the vouch stay
/// as they are; the bond stays with the dispute and the challenger gets
/// nothing back.
pub proof fn lemma_vindicate_accounting(ctx: ResolveDispute, now: i64)
    requires
        ctx.refusal(DisputeRuling::Vindicate) is None,
    ensures
        ctx.vindicated(now).vouch.status == VouchStatus::Vindicated,
        ctx.vindicated(now).vouch.stake_amount == ctx.vouch.stake_amount,
        ctx.voucher_profile.disputes_won < u32::MAX ==> ctx.vindicated(
            now,
        ).voucher_profile.disputes_won == ctx.voucher_profile.disputes_won + 1,
        ctx.vindicated(now).voucher_profile.disputes_lost == ctx.voucher_profile.disputes_lost,
        ctx.vindicated(now).vouchee_profile == ctx.vouchee_profile,
        ctx.vindicated(now).challenger_balance == ctx.challenger_balance,
        ctx.vindicated(now).dispute_escrow == ctx.dispute_escrow,
{
}

} // verus!
