use crate::identity::Identity;
use crate::instructions::revoke_vouch::RevokeVouch;
use crate::instructions::vouch::CreateVouch;
use crate::state::agent::AgentProfile;
use crate::state::config::ReputationConfig;
use crate::state::vouch::{
    backing_stake, lemma_backing_stake_covers, lemma_backing_stake_push,
    lemma_backing_stake_update, Vouch, VouchStatus,
};
use vstd::prelude::*;

verus! {

/// The books as a whole: the record and the balance of every registered
/// agent, and every vouch ever made with the value it holds.
pub struct Ledger {
    /// The global parameters.
    pub config: ReputationConfig,
    /// The record of each registered agent, by identity.
    pub profiles: Map<Identity, AgentProfile>,
    /// What each registered agent can spend.
    pub balances: Map<Identity, u64>,
    /// Every vouch ever made, oldest first.
    pub vouches: Seq<Vouch>,
    /// What each vouch holds, in the same order.
    pub escrows: Seq<u64>,
}

/// A call that creates or revokes a vouch.
pub enum Call {
    /// `voucher` vouches for `vouchee` with `stake_amount`.
    Vouch { voucher: Identity, vouchee: Identity, stake_amount: u64, now: i64 },
    /// `caller` revokes the vouch at place `vouch` among all vouches.
    Revoke { caller: Identity, vouch: int, now: i64 },
}

/// The latest vouch of `voucher` for `vouchee`, if there is one.
pub open spec fn latest_between(vouches: Seq<Vouch>, voucher: Identity, vouchee: Identity)
    -> Option<Vouch>
    decreases vouches.len(),
{
    if vouches.len() == 0 {
        None
    } else if vouches.last().voucher == voucher && vouches.last().vouchee == vouchee {
        Some(vouches.last())
    } else {
        latest_between(vouches.drop_last(), voucher, vouchee)
    }
}

impl Ledger {
    /// Whether `agent` has a record.
    pub open spec fn is_registered(self, agent: Identity) -> bool {
        self.profiles.contains_key(agent)
    }

    /// Each record is kept under its agent's identity, each registered agent
    /// has a balance, each vouch has its escrow and two distinct parties.
    pub open spec fn well_formed(self) -> bool {
        &&& self.escrows.len() == self.vouches.len()
        &&& forall|agent: Identity| #[trigger]
            self.profiles.contains_key(agent) ==> self.profiles[agent].authority == agent
                && self.balances.contains_key(agent)
        &&& forall|i: int| 0 <= i < self.vouches.len() ==> (#[trigger] self.vouches[i]).well_formed()
    }

    /// Each agent's recorded stake is the sum of the stakes of the vouches
    /// that back the agent.
    pub open spec fn conserved(self) -> bool {
        forall|agent: Identity| #[trigger]
            self.profiles.contains_key(agent) ==> self.profiles[agent].total_staked_for
                == backing_stake(self.vouches, agent)
    }

    /// Whether the vouches at places `i` and `j` are of one voucher for one
    /// vouchee.
    pub open spec fn same_pair(self, i: int, j: int) -> bool {
        self.vouches[i].voucher == self.vouches[j].voucher && self.vouches[i].vouchee
            == self.vouches[j].vouchee
    }

    /// Among the vouches of one voucher for one vouchee only the latest can
    /// be active, so that no pair has two active vouches.
    pub open spec fn one_active_vouch_per_pair(self) -> bool {
        forall|i: int, j: int|
            0 <= i < j < self.vouches.len() && #[trigger] self.same_pair(i, j)
                ==> self.vouches[i].status != VouchStatus::Active
    }

    /// What creating a vouch of `voucher` for `vouchee` is handed: the two
    /// records, the pair's latest vouch, an empty escrow for the new one and
    /// the voucher's balance.
    pub open spec fn vouch_context(self, voucher: Identity, vouchee: Identity) -> CreateVouch {
        CreateVouch {
            vouch: latest_between(self.vouches, voucher, vouchee),
            vouch_escrow: 0,
            voucher_profile: self.profiles[voucher],
            vouchee_profile: self.profiles[vouchee],
            config: self.config,
            voucher_balance: self.balances[voucher],
        }
    }

    /// What revoking the vouch at place `vouch` by `caller` is handed.
    pub open spec fn revoke_context(self, caller: Identity, vouch: int) -> RevokeVouch {
        RevokeVouch {
            vouch: self.vouches[vouch],
            vouch_escrow: self.escrows[vouch],
            voucher_profile: self.profiles[caller],
            vouchee_profile: self.profiles[self.vouches[vouch].vouchee],
            config: self.config,
            voucher_balance: self.balances[caller],
        }
    }

    /// Whether `call` reaches its operation: the agents it names are
    /// registered and the vouch it names exists.
    pub open spec fn admits(self, call: Call) -> bool {
        match call {
            Call::Vouch { voucher, vouchee, .. } => self.is_registered(voucher)
                && self.is_registered(vouchee),
            Call::Revoke { caller, vouch, .. } => 0 <= vouch < self.vouches.len()
                && self.is_registered(caller) && self.is_registered(self.vouches[vouch].vouchee),
        }
    }

    /// The books after `call`. A call that is not admitted or that its
    /// operation refuses leaves them as they are; a vouch that is created
    /// joins the others as a new entry; a vouch that is revoked stays in its
    /// place.
    pub open spec fn after_call(self, call: Call) -> Ledger {
        if !self.admits(call) {
            self
        } else {
            match call {
                Call::Vouch { voucher, vouchee, stake_amount, now } => {
                    let ctx = self.vouch_context(voucher, vouchee);
                    if ctx.refusal(stake_amount) is Some {
                        self
                    } else {
                        let done = ctx.applied(stake_amount, now);
                        Ledger {
                            config: self.config,
                            profiles: self.profiles.insert(voucher, done.voucher_profile).insert(
                                vouchee,
                                done.vouchee_profile,
                            ),
                            balances: self.balances.insert(voucher, done.voucher_balance),
                            vouches: self.vouches.push(done.vouch.unwrap()),
                            escrows: self.escrows.push(done.vouch_escrow),
                        }
                    }
                },
                Call::Revoke { caller, vouch, now } => {
                    let ctx = self.revoke_context(caller, vouch);
                    if ctx.refusal() is Some {
                        self
                    } else {
                        let done = ctx.applied(now);
                        Ledger {
                            config: self.config,
                            profiles: self.profiles.insert(caller, done.voucher_profile).insert(
                                done.vouch.vouchee,
                                done.vouchee_profile,
                            ),
                            balances: self.balances.insert(caller, done.voucher_balance),
                            vouches: self.vouches.update(vouch, done.vouch),
                            escrows: self.escrows.update(vouch, done.vouch_escrow),
                        }
                    }
                },
            }
        }
    }

    /// The books after `calls`, made one after the other.
    pub open spec fn after_calls(self, calls: Seq<Call>) -> Ledger
        decreases calls.len(),
    {
        if calls.len() == 0 {
            self
        } else {
            self.after_calls(calls.drop_last()).after_call(calls.last())
        }
    }

    /// Whether the vouchee's recorded stake has room for what `call` adds to
    /// it. Only a vouch that is created adds anything.
    pub open spec fn has_room_for(self, call: Call) -> bool {
        match call {
            Call::Vouch { voucher, vouchee, stake_amount, .. } => self.admits(call)
                && self.vouch_context(voucher, vouchee).refusal(stake_amount) is None
                ==> backing_stake(self.vouches, vouchee) + stake_amount <= u64::MAX,
            Call::Revoke { .. } => true,
        }
    }

    /// Whether each of `calls` finds room when its turn comes.
    pub open spec fn has_room_for_all(self, calls: Seq<Call>) -> bool
        decreases calls.len(),
    {
        calls.len() == 0 || (self.has_room_for_all(calls.drop_last()) && self.after_calls(
            calls.drop_last(),
        ).has_room_for(calls.last()))
    }
}

/// Books without vouches, in which no agent has stake recorded, are conserved.
pub proof fn lemma_empty_ledger_is_conserved(ledger: Ledger)
    requires
        ledger.vouches.len() == 0,
        forall|agent: Identity| #[trigger]
            ledger.profiles.contains_key(agent) ==> ledger.profiles[agent].total_staked_for == 0,
    ensures
        ledger.conserved(),
{
}

/// One call keeps the books conserved: after a vouch is created or revoked,
/// or the call is refused, each agent's recorded stake is still the sum of
/// the stakes of the active vouches that name the agent.
pub proof fn lemma_call_conserves_stake(ledger: Ledger, call: Call)
    requires
        ledger.well_formed(),
        ledger.conserved(),
        ledger.has_room_for(call),
    ensures
        ledger.after_call(call).well_formed(),
        ledger.after_call(call).conserved(),
{
    if ledger.admits(call) {
        match call {
            Call::Vouch { voucher, vouchee, stake_amount, now } => {
                if ledger.vouch_context(voucher, vouchee).refusal(stake_amount) is None {
                    lemma_created_vouch_is_accounted_for(ledger, voucher, vouchee, stake_amount, now);
                }
            },
            Call::Revoke { caller, vouch, now } => {
                if ledger.revoke_context(caller, vouch).refusal() is None {
                    lemma_revoked_vouch_is_accounted_for(ledger, caller, vouch, now);
                }
            },
        }
    }
}

/// A vouch that is created adds its stake to the vouchee's record and to the
/// vouches that back the vouchee, and to nobody else's.
proof fn lemma_created_vouch_is_accounted_for(
    ledger: Ledger,
    voucher: Identity,
    vouchee: Identity,
    stake_amount: u64,
    now: i64,
)
    requires
        ledger.well_formed(),
        ledger.conserved(),
        ledger.admits(Call::Vouch { voucher, vouchee, stake_amount, now }),
        ledger.vouch_context(voucher, vouchee).refusal(stake_amount) is None,
        backing_stake(ledger.vouches, vouchee) + stake_amount <= u64::MAX,
    ensures
        ledger.after_call(Call::Vouch { voucher, vouchee, stake_amount, now }).well_formed(),
        ledger.after_call(Call::Vouch { voucher, vouchee, stake_amount, now }).conserved(),
{
    let after = ledger.after_call(Call::Vouch { voucher, vouchee, stake_amount, now });
    let created = ledger.vouch_context(voucher, vouchee).applied(stake_amount, now).vouch.unwrap();
    assert forall|agent: Identity| #[trigger] after.profiles.contains_key(agent) implies {
        &&& after.profiles[agent].authority == agent
        &&& after.balances.contains_key(agent)
        &&& after.profiles[agent].total_staked_for == backing_stake(after.vouches, agent)
    } by {
        lemma_backing_stake_push(ledger.vouches, created, agent);
    }
}

/// A vouch that is revoked takes its stake off the vouchee's record and off
/// the vouches that back the vouchee, and off nobody else's.
proof fn lemma_revoked_vouch_is_accounted_for(ledger: Ledger, caller: Identity, vouch: int, now: i64)
    requires
        ledger.well_formed(),
        ledger.conserved(),
        ledger.admits(Call::Revoke { caller, vouch, now }),
        ledger.revoke_context(caller, vouch).refusal() is None,
    ensures
        ledger.after_call(Call::Revoke { caller, vouch, now }).well_formed(),
        ledger.after_call(Call::Revoke { caller, vouch, now }).conserved(),
{
    let after = ledger.after_call(Call::Revoke { caller, vouch, now });
    let revoked = ledger.revoke_context(caller, vouch).applied(now).vouch;
    let vouchee = ledger.vouches[vouch].vouchee;
    lemma_backing_stake_covers(ledger.vouches, vouchee, vouch);
    assert forall|agent: Identity| #[trigger] after.profiles.contains_key(agent) implies {
        &&& after.profiles[agent].authority == agent
        &&& after.balances.contains_key(agent)
        &&& after.profiles[agent].total_staked_for == backing_stake(after.vouches, agent)
    } by {
        lemma_backing_stake_update(ledger.vouches, vouch, revoked, agent);
    }
}

/// The latest vouch of a pair comes after every other vouch of that pair:
/// where there is none, the pair has no vouch at all.
pub proof fn lemma_latest_between_is_latest(
    vouches: Seq<Vouch>,
    voucher: Identity,
    vouchee: Identity,
    place: int,
)
    requires
        0 <= place < vouches.len(),
        vouches[place].voucher == voucher,
        vouches[place].vouchee == vouchee,
    ensures
        latest_between(vouches, voucher, vouchee) is Some,
        latest_between(vouches, voucher, vouchee).unwrap() == vouches[place] || exists|later: int|
            place < later < vouches.len() && latest_between(vouches, voucher, vouchee).unwrap()
                == #[trigger] vouches[later] && vouches[later].voucher == voucher
                && vouches[later].vouchee == vouchee,
    decreases vouches.len(),
{
    let last = vouches.len() - 1;
    if vouches[last].voucher == voucher && vouches[last].vouchee == vouchee {
        if place < last {
            assert(latest_between(vouches, voucher, vouchee).unwrap() == vouches[last]);
        }
    } else {
        lemma_latest_between_is_latest(vouches.drop_last(), voucher, vouchee, place);
        let latest = latest_between(vouches.drop_last(), voucher, vouchee).unwrap();
        if latest != vouches[place] {
            let later = choose|later: int|
                place < later < vouches.drop_last().len() && latest
                    == #[trigger] vouches.drop_last()[later] && vouches.drop_last()[later].voucher
                    == voucher && vouches.drop_last()[later].vouchee == vouchee;
            assert(vouches[later] == latest);
        }
    }
}

/// One call keeps the books well formed.
pub proof fn lemma_call_keeps_well_formed(ledger: Ledger, call: Call)
    requires
        ledger.well_formed(),
    ensures
        ledger.after_call(call).well_formed(),
{
}

/// Any calls keep the books well formed.
pub proof fn lemma_calls_keep_well_formed(ledger: Ledger, calls: Seq<Call>)
    requires
        ledger.well_formed(),
    ensures
        ledger.after_calls(calls).well_formed(),
    decreases calls.len(),
{
    if calls.len() > 0 {
        lemma_calls_keep_well_formed(ledger, calls.drop_last());
        lemma_call_keeps_well_formed(ledger.after_calls(calls.drop_last()), calls.last());
    }
}

/// One call keeps the pairs apart: after a vouch is created or revoked, or
/// the call is refused, still no voucher has two active vouches for one
/// vouchee.
pub proof fn lemma_call_keeps_one_active_vouch_per_pair(ledger: Ledger, call: Call)
    requires
        ledger.well_formed(),
        ledger.one_active_vouch_per_pair(),
    ensures
        ledger.after_call(call).one_active_vouch_per_pair(),
{
    let after = ledger.after_call(call);
    if ledger.admits(call) {
        match call {
            Call::Vouch { voucher, vouchee, stake_amount, now } => {
                if ledger.vouch_context(voucher, vouchee).refusal(stake_amount) is None {
                    assert forall|i: int, j: int|
                        0 <= i < j < after.vouches.len() && #[trigger] after.same_pair(
                            i,
                            j,
                        ) implies after.vouches[i].status != VouchStatus::Active by {
                        if j == ledger.vouches.len() {
                            lemma_latest_between_is_latest(ledger.vouches, voucher, vouchee, i);
                            let latest = latest_between(ledger.vouches, voucher, vouchee).unwrap();
                            if latest != ledger.vouches[i] {
                                let later = choose|later: int|
                                    i < later < ledger.vouches.len() && latest
                                        == #[trigger] ledger.vouches[later]
                                        && ledger.vouches[later].voucher == voucher
                                        && ledger.vouches[later].vouchee == vouchee;
                                assert(ledger.same_pair(i, later));
                            }
                        } else {
                            assert(ledger.same_pair(i, j));
                        }
                    }
                }
            },
            Call::Revoke { caller, vouch, now } => {
                if ledger.revoke_context(caller, vouch).refusal() is None {
                    assert forall|i: int, j: int|
                        0 <= i < j < after.vouches.len() && #[trigger] after.same_pair(
                            i,
                            j,
                        ) implies after.vouches[i].status != VouchStatus::Active by {
                        assert(after.vouches[i].voucher == ledger.vouches[i].voucher);
                        assert(after.vouches[j].voucher == ledger.vouches[j].voucher);
                        assert(after.vouches[i].vouchee == ledger.vouches[i].vouchee);
                        assert(after.vouches[j].vouchee == ledger.vouches[j].vouchee);
                        assert(ledger.same_pair(i, j));
                    }
                }
            },
        }
    }
}

/// No pair ever has two active vouches. Whatever vouches are created and
/// revoked, in whatever order, a voucher has at most one active vouch for a
/// vouchee at a time.
pub proof fn lemma_pairs_stay_unique(ledger: Ledger, calls: Seq<Call>)
    requires
        ledger.well_formed(),
        ledger.one_active_vouch_per_pair(),
    ensures
        ledger.after_calls(calls).one_active_vouch_per_pair(),
    decreases calls.len(),
{
    if calls.len() > 0 {
        lemma_pairs_stay_unique(ledger, calls.drop_last());
        lemma_calls_keep_well_formed(ledger, calls.drop_last());
        lemma_call_keeps_one_active_vouch_per_pair(
            ledger.after_calls(calls.drop_last()),
            calls.last(),
        );
    }
}

/// Stake is conserved. Whatever vouches are created and revoked, in whatever
/// order, each agent's recorded stake stays the sum of the stakes of the
/// active vouches that name the agent, as long as that sum fits the record.
pub proof fn lemma_stake_is_conserved(ledger: Ledger, calls: Seq<Call>)
    requires
        ledger.well_formed(),
        ledger.conserved(),
        ledger.has_room_for_all(calls),
    ensures
        ledger.after_calls(calls).well_formed(),
        ledger.after_calls(calls).conserved(),
    decreases calls.len(),
{
    if calls.len() > 0 {
        lemma_stake_is_conserved(ledger, calls.drop_last());
        lemma_call_conserves_stake(ledger.after_calls(calls.drop_last()), calls.last());
    }
}

} // verus!
