use crate::identity::Identity;
use crate::state::agent::AgentProfile;
use crate::text::{byte_len, within_limit};
use vstd::prelude::*;

verus! {

/// Why an agent was not registered.
#[derive(Clone, Copy, Debug, PartialEq, Eq, Structural)]
pub enum ErrorCode {
    /// The metadata URI is longer than a record can keep.
    MetadataUriTooLong,
    /// The agent has a record already.
    AlreadyRegistered,
}

/// What registering an agent reads and writes.
#[derive(Clone, Debug, PartialEq, Eq)]
pub struct RegisterAgent {
    /// Where the agent's record goes.
    pub agent_profile: Option<AgentProfile>,
    /// The caller, who registers.
    pub authority: Identity,
}

impl RegisterAgent {
    /// Why the registration is refused, if it is.
    pub open spec fn refusal(self, metadata_uri: Seq<char>) -> Option<ErrorCode> {
        if self.agent_profile is Some {
            Some(ErrorCode::AlreadyRegistered)
        } else if byte_len(metadata_uri) > AgentProfile::MAX_URI_LENGTH {
            Some(ErrorCode::MetadataUriTooLong)
        } else {
            None
        }
    }

    /// The record of an agent who registers at time `now`: no vouches, no
    /// stake, no disputes, no score.
    pub open spec fn registered(self, metadata_uri: String, now: i64) -> AgentProfile {
        AgentProfile {
            authority: self.authority,
            metadata_uri,
            reputation_score: 0,
            total_vouches_received: 0,
            total_vouches_given: 0,
            total_staked_for: 0,
            disputes_won: 0,
            disputes_lost: 0,
            registered_at: now,
        }
    }

    /// Everything as it stands once the agent registered at time `now`.
    pub open spec fn applied(self, metadata_uri: String, now: i64) -> RegisterAgent {
        RegisterAgent {
            agent_profile: Some(self.registered(metadata_uri, now)),
            authority: self.authority,
        }
    }
}

impl RegisterAgent {
    /// Decides whether the registration is refused, and why.
    pub fn check(&self, metadata_uri: &String) -> (refusal: Option<ErrorCode>)
        ensures
            refusal == self.refusal(metadata_uri@),
    {
        if self.agent_profile.is_some() {
            return Some(ErrorCode::AlreadyRegistered);
        }
        if !within_limit(metadata_uri, AgentProfile::MAX_URI_LENGTH) {
            return Some(ErrorCode::MetadataUriTooLong);
        }
        None
    }
}

/// Registers the caller as an agent, or refuses and changes nothing.
pub fn handler(ctx: &mut RegisterAgent, metadata_uri: String, now: i64) -> (result: Result<
    (),
    ErrorCode,
>)
    ensures
        match old(ctx).refusal(metadata_uri@) {
            Some(error) => result == Err::<(), ErrorCode>(error) && *final(ctx) == *old(ctx),
            None => result is Ok && *final(ctx) == old(ctx).applied(metadata_uri, now),
        },
{
    if let Some(error) = ctx.check(&metadata_uri) {
        return Err(error);
    }
    ctx.agent_profile = Some(
        AgentProfile {
            authority: ctx.authority,
            metadata_uri,
            reputation_score: 0,
            total_vouches_received: 0,
            total_vouches_given: 0,
            total_staked_for: 0,
            disputes_won: 0,
            disputes_lost: 0,
            registered_at: now,
        },
    );
    Ok(())
}

} // verus!
