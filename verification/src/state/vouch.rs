use crate::arith::{proportion, saturate, scaled};
use crate::identity::Identity;
use crate::state::config::ReputationConfig;
use vstd::prelude::*;

verus! {

/// Where a vouch stands in its life.
#[derive(Clone, Copy, Debug, PartialEq, Eq, Structural)]
pub enum VouchStatus {
    /// The stake is locked and backs the vouchee.
    Active,
    /// The voucher took the stake back.
    Revoked,
    /// A dispute is open against the vouch.
    Disputed,
    /// A dispute ended against the voucher.
    Slashed,
    /// A dispute ended in the voucher's favour.
    Vindicated,
}

/// A staked attestation by one agent on behalf of another.
#[derive(Clone, Copy, Debug, PartialEq, Eq)]
pub struct Vouch {
    /// Who vouches.
    pub voucher: Identity,
    /// Who is vouched for.
    pub vouchee: Identity,
    /// The value locked behind the vouch.
    pub stake_amount: u64,
    /// When the vouch was made.
    pub created_at: i64,
    /// Where the vouch stands.
    pub status: VouchStatus,
    /// Marketplace earnings accrued so far.
    pub cumulative_revenue: u64,
    /// When earnings were last paid out.
    pub last_payout_at: i64,
}

impl VouchStatus {
    /// No transition leaves a revoked, slashed or vindicated vouch.
    pub open spec fn is_terminal(self) -> bool {
        self == VouchStatus::Revoked || self == VouchStatus::Slashed || self
            == VouchStatus::Vindicated
    }

    /// Whether a vouch in this status can pass to `next` in one step: an
    /// active vouch is revoked or disputed, a disputed one is slashed or
    /// vindicated.
    pub open spec fn leads_to(self, next: VouchStatus) -> bool {
        match self {
            VouchStatus::Active => next == VouchStatus::Revoked || next == VouchStatus::Disputed,
            VouchStatus::Disputed => next == VouchStatus::Slashed || next
                == VouchStatus::Vindicated,
            _ => false,
        }
    }
}

impl Vouch {
    /// The vouch that `voucher` makes for `vouchee` at time `now`.
    pub open spec fn fresh(voucher: Identity, vouchee: Identity, stake_amount: u64, now: i64) -> Vouch {
        Vouch {
            voucher,
            vouchee,
            stake_amount,
            created_at: now,
            status: VouchStatus::Active,
            cumulative_revenue: 0,
            last_payout_at: now,
        }
    }

    /// Voucher and vouchee are two agents.
    pub open spec fn well_formed(self) -> bool {
        self.voucher != self.vouchee
    }

    /// This vouch in another status.
    pub open spec fn with_status(self, status: VouchStatus) -> Vouch {
        Vouch { status, ..self }
    }

    /// Whether this vouch backs `vouchee` right now: it names that agent and
    /// is active.
    pub open spec fn backs(self, vouchee: Identity) -> bool {
        self.vouchee == vouchee && self.status == VouchStatus::Active
    }

    /// This vouch with `share` more in earnings.
    pub open spec fn credited(self, share: int) -> Vouch {
        Vouch { cumulative_revenue: (self.cumulative_revenue + share) as u64, ..self }
    }

    /// What this vouch adds to the stake behind `vouchee`: its stake while it
    /// backs that agent, nothing otherwise.
    pub open spec fn stake_behind(self, vouchee: Identity) -> int {
        if self.backs(vouchee) {
            self.stake_amount as int
        } else {
            0
        }
    }

    /// The part of the stake that a lost dispute slashes, rounded down.
    pub open spec fn slashed_part(self, config: ReputationConfig) -> int {
        saturate(proportion(self.stake_amount as int, config.slash_percentage as int, 100))
    }

    /// Whether this vouch backs `vouchee` right now.
    pub fn is_backing(&self, vouchee: &Identity) -> (backing: bool)
        ensures
            backing == self.backs(*vouchee),
    {
        self.vouchee == *vouchee && self.status == VouchStatus::Active
    }

    /// The part of the stake that a lost dispute slashes:
    /// `stake_amount * slash_percentage / 100`, rounded down.
    pub fn slash_amount(&self, config: &ReputationConfig) -> (amount: u64)
        ensures
            amount == self.slashed_part(*config),
            config.well_formed() ==> amount == proportion(
                self.stake_amount as int,
                config.slash_percentage as int,
                100,
            ) && amount <= self.stake_amount,
    {
        proof {
            crate::arith::lemma_proportion_bounds(
                self.stake_amount as int,
                config.slash_percentage as int,
                100,
            );
        }
        scaled(self.stake_amount, config.slash_percentage as u64, 100)
    }
}

/// The stake that stands behind `vouchee`: the sum of the stakes of the
/// vouches that back that agent.
pub open spec fn backing_stake(vouches: Seq<Vouch>, vouchee: Identity) -> int
    decreases vouches.len(),
{
    if vouches.len() == 0 {
        0
    } else {
        backing_stake(vouches.drop_last(), vouchee) + vouches.last().stake_behind(vouchee)
    }
}

/// The backing stake is never negative, and at most `u64::MAX` per vouch.
pub proof fn lemma_backing_stake_bounds(vouches: Seq<Vouch>, vouchee: Identity)
    ensures
        0 <= backing_stake(vouches, vouchee) <= vouches.len() * u64::MAX,
    decreases vouches.len(),
{
    if vouches.len() > 0 {
        lemma_backing_stake_bounds(vouches.drop_last(), vouchee);
        assert(vouches.len() * u64::MAX == (vouches.len() - 1) * u64::MAX + u64::MAX)
            by (nonlinear_arith);
    }
}

/// Each vouch that backs `vouchee` is covered by the backing stake.
pub proof fn lemma_backing_stake_covers(vouches: Seq<Vouch>, vouchee: Identity, index: int)
    requires
        0 <= index < vouches.len(),
    ensures
        vouches[index].stake_behind(vouchee) <= backing_stake(vouches, vouchee),
    decreases vouches.len(),
{
    lemma_backing_stake_bounds(vouches.drop_last(), vouchee);
    if index < vouches.len() - 1 {
        lemma_backing_stake_covers(vouches.drop_last(), vouchee, index);
    }
}

/// Adding a vouch adds what it puts behind `vouchee`.
pub proof fn lemma_backing_stake_push(vouches: Seq<Vouch>, vouch: Vouch, vouchee: Identity)
    ensures
        backing_stake(vouches.push(vouch), vouchee) == backing_stake(vouches, vouchee)
            + vouch.stake_behind(vouchee),
{
    assert(vouches.push(vouch).drop_last() =~= vouches);
}

/// Replacing one vouch changes the backing stake by the difference between
/// what the new one and the old one put behind `vouchee`.
pub proof fn lemma_backing_stake_update(
    vouches: Seq<Vouch>,
    index: int,
    vouch: Vouch,
    vouchee: Identity,
)
    requires
        0 <= index < vouches.len(),
    ensures
        backing_stake(vouches.update(index, vouch), vouchee) == backing_stake(vouches, vouchee)
            - vouches[index].stake_behind(vouchee) + vouch.stake_behind(vouchee),
    decreases vouches.len(),
{
    let updated = vouches.update(index, vouch);
    if index == vouches.len() - 1 {
        assert(updated.drop_last() =~= vouches.drop_last());
    } else {
        lemma_backing_stake_update(vouches.drop_last(), index, vouch, vouchee);
        assert(updated.drop_last() =~= vouches.drop_last().update(index, vouch));
    }
}

/// Adds up the stakes of the vouches that back `vouchee`.
pub fn total_backing_stake(vouches: &Vec<Vouch>, vouchee: &Identity) -> (total: u128)
    ensures
        total == backing_stake(vouches@, *vouchee),
{
    let mut total: u128 = 0;
    let mut i: usize = 0;
    while i < vouches.len()
        invariant
            i <= vouches.len(),
            total == backing_stake(vouches@.take(i as int), *vouchee),
            total <= i * u64::MAX,
        decreases vouches.len() - i,
    {
        proof {
            assert(vouches@.take(i + 1).drop_last() =~= vouches@.take(i as int));
            assert(i * u64::MAX <= usize::MAX * u64::MAX) by (nonlinear_arith)
                requires
                    0 <= i <= usize::MAX,
            ;
        }
        if vouches[i].is_backing(vouchee) {
            total = total + vouches[i].stake_amount as u128;
        }
        i = i + 1;
    }
    proof {
        assert(vouches@.take(i as int) =~= vouches@);
    }
    total
}

} // verus!
