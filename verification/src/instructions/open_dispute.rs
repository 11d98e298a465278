use crate::funds::{can_move, move_value, Wallet};
use crate::identity::Identity;
use crate::instructions::revoke_vouch::RevokeVouch;
use crate::state::config::ReputationConfig;
use crate::state::dispute::{Dispute, DisputeStatus};
use crate::state::vouch::{Vouch, VouchStatus};
use crate::text::{byte_len, within_limit};
use vstd::prelude::*;

verus! {

/// Why a dispute was not opened.
#[derive(Clone, Copy, Debug, PartialEq, Eq, Structural)]
pub enum ErrorCode {
    /// The vouch is not active.
    VouchNotActive,
    /// The evidence URI is longer than a dispute can keep.
    EvidenceUriTooLong,
    /// The challenger cannot cover the bond, or the dispute cannot hold it.
    InsufficientFunds,
}

/// What opening a dispute reads and writes.
#[derive(Clone, Debug, PartialEq, Eq)]
pub struct OpenDispute {
    /// Where the new dispute goes.
    pub dispute: Option<Dispute>,
    /// The value that the dispute holds.
    pub dispute_escrow: u64,
    /// The vouch under challenge.
    pub vouch: Vouch,
    /// The key under which the vouch is kept.
    pub vouch_key: Identity,
    /// The global parameters.
    pub config: ReputationConfig,
    /// The wallet of the challenger, which puts up the bond.
    pub challenger: Wallet,
}

impl OpenDispute {
    /// Why the dispute is refused, if it is: only an active vouch can be
    /// challenged, the evidence URI must fit, and the challenger must be able
    /// to put up the bond.
    pub open spec fn refusal(self, evidence_uri: Seq<char>) -> Option<ErrorCode> {
        if self.vouch.status != VouchStatus::Active {
            Some(ErrorCode::VouchNotActive)
        } else if byte_len(evidence_uri) > Dispute::MAX_EVIDENCE_URI_LENGTH {
            Some(ErrorCode::EvidenceUriTooLong)
        } else if !can_move(self.challenger.balance, self.dispute_escrow, self.config.dispute_bond) {
            Some(ErrorCode::InsufficientFunds)
        } else {
            None
        }
    }

    /// The dispute that the challenger opens at time `now`.
    pub open spec fn opened(self, evidence_uri: String, now: i64) -> Dispute {
        Dispute {
            vouch: self.vouch_key,
            challenger: self.challenger.owner,
            evidence_uri,
            status: DisputeStatus::Open,
            ruling: None,
            created_at: now,
            resolved_at: None,
        }
    }

    /// Everything as it stands once the dispute was opened at time `now`: the
    /// bond held by the new open dispute, the vouch disputed.
    pub open spec fn applied(self, evidence_uri: String, now: i64) -> OpenDispute {
        OpenDispute {
            dispute: Some(self.opened(evidence_uri, now)),
            dispute_escrow: (self.dispute_escrow + self.config.dispute_bond) as u64,
            vouch: self.vouch.with_status(VouchStatus::Disputed),
            vouch_key: self.vouch_key,
            config: self.config,
            challenger: Wallet {
                owner: self.challenger.owner,
                balance: (self.challenger.balance - self.config.dispute_bond) as u64,
            },
        }
    }
}

impl OpenDispute {
    /// Decides whether the dispute is refused, and why.
    pub fn check(&self, evidence_uri: &String) -> (refusal: Option<ErrorCode>)
        ensures
            refusal == self.refusal(evidence_uri@),
    {
        if self.vouch.status != VouchStatus::Active {
            return Some(ErrorCode::VouchNotActive);
        }
        if !within_limit(evidence_uri, Dispute::MAX_EVIDENCE_URI_LENGTH) {
            return Some(ErrorCode::EvidenceUriTooLong);
        }
        if move_value(self.challenger.balance, self.dispute_escrow, self.config.dispute_bond)
            .is_none() {
            return Some(ErrorCode::InsufficientFunds);
        }
        None
    }
}

/// Opens a dispute against the vouch: takes the bond from the challenger into
/// the new dispute and marks the vouch as disputed, or refuses and changes
/// nothing.
pub fn handler(ctx: &mut OpenDispute, evidence_uri: String, now: i64) -> (result: Result<
    (),
    ErrorCode,
>)
    ensures
        match old(ctx).refusal(evidence_uri@) {
            Some(error) => result == Err::<(), ErrorCode>(error) && *final(ctx) == *old(ctx),
            None => result is Ok && *final(ctx) == old(ctx).applied(evidence_uri, now),
        },
        result is Ok ==> {
            &&& final(ctx).vouch.status == VouchStatus::Disputed
            &&& final(ctx).dispute.unwrap().well_formed()
        },
{
    if let Some(error) = ctx.check(&evidence_uri) {
        return Err(error);
    }
    ctx.challenger.balance = ctx.challenger.balance - ctx.config.dispute_bond;
    ctx.dispute_escrow = ctx.dispute_escrow + ctx.config.dispute_bond;
    ctx.dispute = Some(
        Dispute {
            vouch: ctx.vouch_key,
            challenger: ctx.challenger.owner,
            evidence_uri,
            status: DisputeStatus::Open,
            ruling: None,
            created_at: now,
            resolved_at: None,
        },
    );
    ctx.vouch.status = VouchStatus::Disputed;
    Ok(())
}

/// While a dispute is open against a vouch nothing else can be done with it.
/// Once a dispute was opened, the vouch is disputed; any further attempt to
/// open a dispute against that vouch is refused because it is not active, and
/// so is any attempt to revoke it.
pub proof fn lemma_open_dispute_excludes(
    first: OpenDispute,
    evidence_uri: String,
    now: i64,
    second: OpenDispute,
    second_evidence_uri: String,
    revocation: RevokeVouch,
)
    requires
        first.refusal(evidence_uri@) is None,
        second.vouch == first.applied(evidence_uri, now).vouch,
        revocation.vouch == first.applied(evidence_uri, now).vouch,
    ensures
        first.applied(evidence_uri, now).vouch.status == VouchStatus::Disputed,
        first.applied(evidence_uri, now).dispute.unwrap().status == DisputeStatus::Open,
        second.refusal(second_evidence_uri@) == Some(ErrorCode::VouchNotActive),
        revocation.refusal() is Some,
        revocation.vouch.voucher == revocation.voucher_profile.authority ==> revocation.refusal()
            == Some(crate::instructions::revoke_vouch::ErrorCode::VouchNotActive),
{
}

} // verus!
