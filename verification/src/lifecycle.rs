use crate::instructions::open_dispute::OpenDispute;
use crate::instructions::purchase_skill::distributed;
use crate::instructions::resolve_dispute::ResolveDispute;
use crate::instructions::revoke_vouch::RevokeVouch;
use crate::identity::Identity;
use crate::state::dispute::DisputeRuling;
use crate::state::vouch::Vouch;
use vstd::prelude::*;

verus! {

/// Every operation that changes the status of a vouch moves it one step
/// along its life: from active to revoked or disputed, from disputed to
/// slashed or vindicated.
pub proof fn lemma_status_moves_one_step(
    revocation: RevokeVouch,
    opening: OpenDispute,
    evidence_uri: String,
    resolution: ResolveDispute,
    ruling: DisputeRuling,
    now: i64,
)
    ensures
        revocation.refusal() is None ==> revocation.vouch.status.leads_to(
            revocation.applied(now).vouch.status,
        ),
        opening.refusal(evidence_uri@) is None ==> opening.vouch.status.leads_to(
            opening.applied(evidence_uri, now).vouch.status,
        ),
        resolution.refusal(ruling) is None ==> resolution.vouch.status.leads_to(
            resolution.applied(ruling, now).vouch.status,
        ),
{
}

/// A revoked, slashed or vindicated vouch stays as it is: it can be neither
/// revoked nor disputed nor ruled on, and it earns nothing from a sale.
pub proof fn lemma_terminal_vouch_is_final(
    vouch: Vouch,
    revocation: RevokeVouch,
    opening: OpenDispute,
    evidence_uri: String,
    resolution: ResolveDispute,
    ruling: DisputeRuling,
    vouches: Seq<Vouch>,
    place: int,
    author: Identity,
    pool: u64,
)
    requires
        vouch.status.is_terminal(),
        revocation.vouch == vouch,
        opening.vouch == vouch,
        resolution.vouch == vouch,
        0 <= place < vouches.len(),
        vouches[place] == vouch,
    ensures
        revocation.refusal() is Some,
        opening.refusal(evidence_uri@) is Some,
        resolution.refusal(ruling) is Some,
        distributed(vouches, author, pool)[place] == vouch,
{
}

/// While a vouch is disputed it earns nothing from a sale.
pub proof fn lemma_disputed_vouch_earns_nothing(
    vouches: Seq<Vouch>,
    place: int,
    author: Identity,
    pool: u64,
)
    requires
        0 <= place < vouches.len(),
        vouches[place].status == crate::state::vouch::VouchStatus::Disputed,
    ensures
        distributed(vouches, author, pool)[place] == vouches[place],
{
}

} // verus!
