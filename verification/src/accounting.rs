use crate::instructions::open_dispute::OpenDispute;
use crate::instructions::purchase_skill::PurchaseSkill;
use crate::instructions::resolve_dispute::ResolveDispute;
use crate::instructions::revoke_vouch::RevokeVouch;
use crate::instructions::vouch::CreateVouch;
use crate::state::dispute::DisputeRuling;
use vstd::prelude::*;

verus! {

/// No operation makes or loses value: what it takes from one holder it gives
/// to the other, so the two together hold after it what they held before.
pub proof fn lemma_value_is_neither_made_nor_lost(
    creation: CreateVouch,
    stake_amount: u64,
    revocation: RevokeVouch,
    opening: OpenDispute,
    evidence_uri: String,
    resolution: ResolveDispute,
    ruling: DisputeRuling,
    sale: PurchaseSkill,
    now: i64,
)
    ensures
        creation.refusal(stake_amount) is None ==> creation.applied(
            stake_amount,
            now,
        ).voucher_balance + creation.applied(stake_amount, now).vouch_escrow
            == creation.voucher_balance + creation.vouch_escrow,
        revocation.refusal() is None ==> revocation.applied(now).voucher_balance
            + revocation.applied(now).vouch_escrow == revocation.voucher_balance
            + revocation.vouch_escrow,
        opening.refusal(evidence_uri@) is None ==> opening.applied(
            evidence_uri,
            now,
        ).challenger.balance + opening.applied(evidence_uri, now).dispute_escrow
            == opening.challenger.balance + opening.dispute_escrow,
        resolution.refusal(ruling) is None ==> resolution.applied(ruling, now).challenger_balance
            + resolution.applied(ruling, now).dispute_escrow == resolution.challenger_balance
            + resolution.dispute_escrow,
        sale.refusal() is None ==> sale.applied(now).buyer.balance + sale.applied(
            now,
        ).author.balance == sale.buyer.balance + sale.author.balance,
{
}

/// Whenever an operation changes what an agent's score is computed from, it
/// leaves the score that the record carries equal to the score computed from
/// the record: for the vouchee when a vouch is created, revoked or slashed,
/// and for the voucher when a dispute is lost.
pub proof fn lemma_score_is_current(
    creation: CreateVouch,
    stake_amount: u64,
    revocation: RevokeVouch,
    resolution: ResolveDispute,
    now: i64,
)
    ensures
        creation.applied(stake_amount, now).vouchee_profile.reputation_score == creation.applied(
            stake_amount,
            now,
        ).vouchee_profile.reputation(creation.config, now),
        revocation.applied(now).vouchee_profile.reputation_score == revocation.applied(
            now,
        ).vouchee_profile.reputation(revocation.config, now),
        resolution.slashed(now).vouchee_profile.reputation_score == resolution.slashed(
            now,
        ).vouchee_profile.reputation(resolution.config, now),
        resolution.slashed(now).voucher_profile.reputation_score == resolution.slashed(
            now,
        ).voucher_profile.reputation(resolution.config, now),
{
}

} // verus!
